# beacon

A beacon is an ed25519 keypair and a one-bit state. Its holder broadcasts
signed state messages (time, state, public key, signature) over a
peer-to-peer network; peers check each message against the public key.

- `src/` is the verified library:
  - `crypto.rs`: keys and signatures as bytes, with signing and checking
    done by `ed25519_dalek` behind trusted wrappers;
  - `encoding.rs`: the bytes bincode gives an `i64`, and hexadecimal text;
  - `beacon.rs`: beacons, messages, subscriptions, client commands;
  - `cli.rs`: the client's argument parsing;
  - `p2p.rs`: the peer daemon's decisions;
  - `discovery.rs`: the discovery server's peer list.
- `app/` holds the programs: the peer node, the client, the command daemon
  and the discovery server, with file storage, serialisation and networking.
