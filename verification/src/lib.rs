//! Beacons: ed25519 keypairs that broadcast signed one-bit state updates,
//! and the logic of the command line client and peer daemon around them.

pub mod beacon;
pub mod cli;
pub mod crypto;
pub mod discovery;
pub mod encoding;
pub mod p2p;
