//! Beacons, the signed state messages they broadcast, subscriptions to
//! other beacons, and the commands the client sends to the daemon.

use vstd::prelude::*;
use crate::crypto::{ed25519_signature, ed25519_verifies, Keypair, PublicKey, Signature};
use crate::encoding::{
    bincode_serialize_i64, hex_encode, hex_lower, i64_le_bytes, lemma_i64_le_bytes_injective,
};

verus! {

/// A request from the command line client to the daemon.
#[derive(Debug, Clone, PartialEq, Eq)]
pub enum Command {
    Create(String),
    Delete(String),
    Broadcast(String, bool),
    Subscribe { name: String, pubkey: String },
    Unsubscribe(String),
    ListBeacons(),
    ListSubs(),
}

/// A named keypair whose holder broadcasts the beacon's state.
pub struct Beacon {
    pub name: String,
    pub keypair: Keypair,
}

/// A state update of a beacon, signed with its keypair.
pub struct Message {
    pub beacon_state: bool,
    pub broadcast_time: i64,
    pub pubkey: PublicKey,
    pub sig: Signature,
}

/// A beacon being watched: its name, its public key, and the last message
/// received from it.
pub struct BeaconSub {
    pub name: String,
    pub pubkey: PublicKey,
    pub last_message: Option<Message>,
}

/// A request on the daemon's wire protocol (it carries nothing yet).
#[derive(Debug, Clone)]
pub struct Request {}

/// A response on the daemon's wire protocol (it carries nothing yet).
#[derive(Debug, Clone)]
pub struct Response {}

/// The bytes a message's signature covers: the broadcast time as bincode
/// writes an `i64` (eight little-endian bytes), then the state as one byte.
pub open spec fn bytes_to_sign(broadcast_time: i64, beacon_state: bool) -> Seq<u8> {
    i64_le_bytes(broadcast_time).push(if beacon_state { 1u8 } else { 0u8 })
}

/// Reads the current time as `chrono::Utc::now().timestamp()` does: whole
/// seconds since the Unix epoch, through `SystemTime::now`, `duration_since`
/// and `chrono::DateTime::from_timestamp`. Where `Utc::now` panics (a clock
/// before the epoch, or beyond chrono's range) this returns `None`. The value
/// depends on the clock; the source shows only that it is not negative.
#[verifier::external_body]
pub(crate) fn now_timestamp() -> (r: Option<i64>)
    ensures
        r matches Some(t) ==> t >= 0,
{
    let since = std::time::SystemTime::now().duration_since(std::time::UNIX_EPOCH).ok()?;
    let secs = i64::try_from(since.as_secs()).ok()?;
    chrono::DateTime::<chrono::Utc>::from_timestamp(secs, since.subsec_nanos()).map(|t| t.timestamp())
}

fn message_bytes(broadcast_time: i64, beacon_state: bool) -> (r: Vec<u8>)
    ensures
        r@ == bytes_to_sign(broadcast_time, beacon_state),
{
    let mut bytes = match bincode_serialize_i64(broadcast_time) {
        Ok(bytes) => bytes,
        Err(_) => vstd::pervasive::unreached(),
    };
    bytes.push(if beacon_state { 1u8 } else { 0u8 });
    bytes
}

impl Message {
    /// Whether the signature is valid for the message's time and state under
    /// the message's public key.
    pub open spec fn is_authentic(&self) -> bool {
        ed25519_verifies(self.pubkey@, bytes_to_sign(self.broadcast_time, self.beacon_state), self.sig@)
    }

    /// The bytes the signature covers.
    pub fn get_bytes_to_sign(&self) -> (r: Vec<u8>)
        ensures
            r@ == bytes_to_sign(self.broadcast_time, self.beacon_state),
    {
        message_bytes(self.broadcast_time, self.beacon_state)
    }

    /// Checks the signature against the message's own public key.
    pub fn verify(&self) -> (r: bool)
        ensures
            r == self.is_authentic(),
    {
        let bytes = self.get_bytes_to_sign();
        self.pubkey.verify(bytes.as_slice(), &self.sig).is_ok()
    }
}

impl Beacon {
    /// A beacon named `name` with a freshly generated keypair; `None` when
    /// the operating system gives no random bytes for the key.
    pub fn new(name: &String) -> (r: Option<Beacon>)
        ensures
            r matches Some(b) ==> b.name@ == name@ && b.keypair.is_consistent(),
    {
        match Keypair::generate() {
            Some(keypair) => Some(Beacon { name: name.clone(), keypair }),
            None => None,
        }
    }

    /// The message that announces `beacon_state` at `broadcast_time`, signed
    /// with this beacon's keypair.
    pub fn create_message_at(&self, beacon_state: bool, broadcast_time: i64) -> (m: Message)
        ensures
            m.beacon_state == beacon_state,
            m.broadcast_time == broadcast_time,
            m.pubkey@ == self.keypair.public@,
            m.sig@ == ed25519_signature(
                self.keypair.secret@,
                self.keypair.public@,
                bytes_to_sign(broadcast_time, beacon_state),
            ),
            self.keypair.is_consistent() ==> m.is_authentic(),
    {
        let bytes = message_bytes(broadcast_time, beacon_state);
        let sig = self.keypair.sign(bytes.as_slice());
        Message { beacon_state, broadcast_time, pubkey: self.keypair.public.clone(), sig }
    }

    /// The message that announces `beacon_state` now, signed with this
    /// beacon's keypair. Its time is whatever the clock read; `None` when the
    /// clock cannot be read as seconds since the Unix epoch.
    pub fn create_message(&self, beacon_state: bool) -> (r: Option<Message>)
        ensures
            r matches Some(m) ==> {
                &&& m.beacon_state == beacon_state
                &&& m.broadcast_time >= 0
                &&& m.pubkey@ == self.keypair.public@
                &&& m.sig@ == ed25519_signature(
                    self.keypair.secret@,
                    self.keypair.public@,
                    bytes_to_sign(m.broadcast_time, beacon_state),
                )
                &&& self.keypair.is_consistent() ==> m.is_authentic()
            },
    {
        self.create_message_with_reading(beacon_state, now_timestamp())
    }

    /// The message that announces `beacon_state` at the clock reading
    /// `reading`: none exactly when the clock could not be read, and
    /// otherwise stamped with that reading, whatever the state.
    pub fn create_message_with_reading(&self, beacon_state: bool, reading: Option<i64>) -> (r:
        Option<Message>)
        ensures
            r is Some <==> reading is Some,
            r matches Some(m) ==> {
                &&& reading == Some(m.broadcast_time)
                &&& m.beacon_state == beacon_state
                &&& m.pubkey@ == self.keypair.public@
                &&& m.sig@ == ed25519_signature(
                    self.keypair.secret@,
                    self.keypair.public@,
                    bytes_to_sign(m.broadcast_time, beacon_state),
                )
                &&& self.keypair.is_consistent() ==> m.is_authentic()
            },
    {
        match reading {
            Some(broadcast_time) => Some(self.create_message_at(beacon_state, broadcast_time)),
            None => None,
        }
    }
}

impl BeaconSub {
    /// Whether `m` is news about this beacon: signed by it, and newer than
    /// the last message kept.
    pub open spec fn accepts(&self, m: Message) -> bool {
        &&& m.is_authentic()
        &&& m.pubkey@ == self.pubkey@
        &&& (self.last_message matches Some(last) ==> last.broadcast_time < m.broadcast_time)
    }

    /// Takes `m` as the beacon's state when it is news about this beacon,
    /// and keeps it as the last message; otherwise changes nothing.
    pub fn accept_message(&mut self, m: Message) -> (r: bool)
        ensures
            r == old(self).accepts(m),
            r == (m.is_authentic() && m.pubkey@ == old(self).pubkey@ && (old(
                self,
            ).last_message matches Some(last) ==> last.broadcast_time < m.broadcast_time)),
            r ==> *final(self) == (BeaconSub {
                name: old(self).name,
                pubkey: old(self).pubkey,
                last_message: Some(m),
            }),
            !r ==> *final(self) == *old(self),
    {
        let newer = match &self.last_message {
            Some(last) => last.broadcast_time < m.broadcast_time,
            None => true,
        };
        if !newer || !self.pubkey.is_same_key(&m.pubkey) || !m.verify() {
            return false;
        }
        self.last_message = Some(m);
        true
    }
}

/// A subscription takes exactly the messages signed for its beacon's key
/// that are strictly newer than the last message kept, whatever state they
/// announce; with no message kept, every signed message of its key.
pub proof fn lemma_accepts_newer_signed_messages(sub: BeaconSub, m: Message)
    ensures
        sub.accepts(m) <==> (m.is_authentic() && m.pubkey@ == sub.pubkey@ && (sub.last_message matches Some(
            last,
        ) ==> last.broadcast_time < m.broadcast_time)),
        sub.last_message is None ==> (sub.accepts(m) <==> (m.is_authentic() && m.pubkey@
            == sub.pubkey@)),
{
}

/// Once a subscription has taken `m`, a later signed message `m2` of the same
/// key is taken too, whether it announces the same state or another, and an
/// earlier or simultaneous one is refused.
pub proof fn lemma_later_message_replaces(sub: BeaconSub, m: Message, m2: Message)
    requires
        sub.last_message == Some(m),
        m2.is_authentic(),
        m2.pubkey@ == sub.pubkey@,
    ensures
        m.broadcast_time < m2.broadcast_time ==> sub.accepts(m2),
        m2.broadcast_time <= m.broadcast_time ==> !sub.accepts(m2),
{
}

/// The floodsub topic of the beacon with public key `pubkey`: the key in
/// lowercase hexadecimal.
pub fn topic_name(pubkey: &PublicKey) -> (r: String)
    ensures
        r@ == hex_lower(pubkey@),
{
    let bytes = pubkey.to_bytes();
    hex_encode(bytes.as_slice())
}

/// The file a beacon named `name` is stored in.
pub fn beacon_file_name(name: &String) -> (r: String)
    ensures
        r@ == name@ + ".bcn"@,
{
    let mut r = name.clone();
    r.append(".bcn");
    r
}

/// The file a subscription named `name` is stored in.
pub fn sub_file_name(name: &String) -> (r: String)
    ensures
        r@ == name@ + ".bcs"@,
{
    let mut r = name.clone();
    r.append(".bcs");
    r
}

/// The signed bytes are nine: the time's eight little-endian bytes, then 1
/// for the state on and 0 for off.
pub proof fn lemma_bytes_to_sign_layout(broadcast_time: i64, beacon_state: bool)
    ensures
        bytes_to_sign(broadcast_time, beacon_state).len() == 9,
        bytes_to_sign(broadcast_time, beacon_state).subrange(0, 8) == i64_le_bytes(broadcast_time),
        bytes_to_sign(broadcast_time, beacon_state)[8] == (if beacon_state { 1u8 } else { 0u8 }),
{
    assert(bytes_to_sign(broadcast_time, beacon_state).subrange(0, 8) =~= i64_le_bytes(broadcast_time));
}

/// A signature covers both the time and the state of a message: distinct
/// (time, state) pairs have distinct signed bytes.
pub proof fn lemma_bytes_to_sign_injective(t1: i64, s1: bool, t2: i64, s2: bool)
    requires
        bytes_to_sign(t1, s1) == bytes_to_sign(t2, s2),
    ensures
        t1 == t2,
        s1 == s2,
{
    let b1 = bytes_to_sign(t1, s1);
    let b2 = bytes_to_sign(t2, s2);
    assert(b1.subrange(0, 8) =~= i64_le_bytes(t1));
    assert(b2.subrange(0, 8) =~= i64_le_bytes(t2));
    lemma_i64_le_bytes_injective(t1, t2);
    assert(b1[8] == b2[8]);
}

} // verus!
