//! The decisions of the peer daemon: which peers enter or leave the
//! floodsub view, what an incoming beacon message means, when a beacon's
//! state is broadcast, and what a client command asks the daemon to do.
//! The daemon's event loop performs them.

use vstd::prelude::*;
use crate::beacon::{bytes_to_sign, now_timestamp, topic_name, Beacon, BeaconSub, Command, Message};
use crate::crypto::ed25519_signature;
use crate::encoding::hex_lower;

verus! {

/// An mDNS event, with the peers it lists known by their place in the list.
pub enum MdnsUpdate {
    /// This many peers were discovered.
    Discovered(usize),
    /// Some peers expired; for each, whether mDNS still knows it by another
    /// address.
    Expired(Vec<bool>),
}

/// A change to the floodsub partial view, naming a peer by its place in the
/// event's list.
#[derive(Debug, Clone, Copy, PartialEq, Eq)]
pub enum ViewChange {
    Add(usize),
    Remove(usize),
}

/// Every listed peer is added, in order.
pub open spec fn discovered_changes(n: nat) -> Seq<ViewChange> {
    Seq::new(n, |i: int| ViewChange::Add(i as usize))
}

/// Each expired peer that mDNS no longer knows is removed, in order.
pub open spec fn expired_changes(still_known: Seq<bool>) -> Seq<ViewChange>
    decreases still_known.len(),
{
    if still_known.len() == 0 {
        seq![]
    } else {
        let earlier = expired_changes(still_known.drop_last());
        if still_known.last() {
            earlier
        } else {
            earlier.push(ViewChange::Remove((still_known.len() - 1) as usize))
        }
    }
}

/// On an expiry, the peers removed from the view are exactly those mDNS no
/// longer knows, each once, in the order of the event's list.
pub proof fn lemma_expired_changes_remove_exactly_unknown(still_known: Seq<bool>)
    requires
        still_known.len() <= usize::MAX,
    ensures
        ({
            let changes = expired_changes(still_known);
            &&& forall|k: int|
            #![trigger changes[k]]
            0 <= k < changes.len() ==> changes[k] is Remove && changes[k]->Remove_0 < still_known.len()
                && !still_known[changes[k]->Remove_0 as int]
        &&& forall|j: int|
            0 <= j < still_known.len() && !still_known[j] ==> #[trigger] changes.contains(
                ViewChange::Remove(j as usize),
            )
        &&& forall|k1: int, k2: int|
            #![trigger changes[k1], changes[k2]]
            0 <= k1 < k2 < changes.len() ==> changes[k1]->Remove_0 < changes[k2]->Remove_0
        }),
    decreases still_known.len(),
{
    if still_known.len() > 0 {
        let n = still_known.len();
        let earlier_known = still_known.drop_last();
        lemma_expired_changes_remove_exactly_unknown(earlier_known);
        let earlier = expired_changes(earlier_known);
        let r = expired_changes(still_known);
        assert forall|j: int| 0 <= j < n - 1 implies earlier_known[j] == still_known[j] by {}
        if still_known.last() {
            assert(r == earlier);
            assert forall|j: int| 0 <= j < n && !still_known[j] implies #[trigger] r.contains(
                ViewChange::Remove(j as usize),
            ) by {
                assert(earlier_known[j] == still_known[j]);
            }
        } else {
            let last = ViewChange::Remove((n - 1) as usize);
            assert(r == earlier.push(last));
            assert forall|k: int| #![trigger r[k]] 0 <= k < r.len() implies r[k] is Remove && r[k]->Remove_0
                < n && !still_known[r[k]->Remove_0 as int] by {
                if k < earlier.len() {
                    assert(r[k] == earlier[k]);
                    let j = earlier[k]->Remove_0;
                    assert(earlier_known[j as int] == still_known[j as int]);
                } else {
                    assert(r[k] == last);
                    assert(!still_known[n - 1]);
                }
            }
            assert forall|j: int| 0 <= j < n && !still_known[j] implies #[trigger] r.contains(
                ViewChange::Remove(j as usize),
            ) by {
                if j < n - 1 {
                    assert(earlier_known[j] == still_known[j]);
                    assert(earlier.contains(ViewChange::Remove(j as usize)));
                    let k = choose|k: int| 0 <= k < earlier.len() && earlier[k] == ViewChange::Remove(
                        j as usize,
                    );
                    assert(r[k] == earlier[k]);
                } else {
                    assert(r[r.len() - 1] == last);
                }
            }
            assert forall|k1: int, k2: int| #![trigger r[k1], r[k2]] 0 <= k1 < k2 < r.len() implies r[k1]->Remove_0
                < r[k2]->Remove_0 by {
                assert(r[k1] == earlier[k1]);
                if k2 < earlier.len() {
                    assert(r[k2] == earlier[k2]);
                } else {
                    assert(r[k2] == last);
                    assert(earlier[k1]->Remove_0 < earlier_known.len());
                }
            }
        }
    }
}

/// The changes to the floodsub view that an mDNS event calls for.
pub fn mdns_view_changes(event: &MdnsUpdate) -> (r: Vec<ViewChange>)
    ensures
        event matches MdnsUpdate::Discovered(n) ==> r@ == discovered_changes(n as nat),
        event matches MdnsUpdate::Expired(known) ==> r@ == expired_changes(known@),
        event matches MdnsUpdate::Discovered(n) ==> r@.len() == n && forall|i: int|
            0 <= i < r@.len() ==> #[trigger] r@[i] == ViewChange::Add(i as usize),
        event matches MdnsUpdate::Expired(known) ==> ({
            let still_known = known@;
            let changes = r@;
            &&& forall|k: int|
            #![trigger changes[k]]
            0 <= k < changes.len() ==> changes[k] is Remove && changes[k]->Remove_0 < still_known.len()
                && !still_known[changes[k]->Remove_0 as int]
        &&& forall|j: int|
            0 <= j < still_known.len() && !still_known[j] ==> #[trigger] changes.contains(
                ViewChange::Remove(j as usize),
            )
        &&& forall|k1: int, k2: int|
            #![trigger changes[k1], changes[k2]]
            0 <= k1 < k2 < changes.len() ==> changes[k1]->Remove_0 < changes[k2]->Remove_0
        }),
{
    let mut r: Vec<ViewChange> = Vec::new();
    match event {
        MdnsUpdate::Discovered(n) => {
            let n = *n;
            let mut i: usize = 0;
            while i < n
                invariant
                    i <= n,
                    r@ == discovered_changes(i as nat),
                decreases n - i,
            {
                r.push(ViewChange::Add(i));
                i = i + 1;
                assert(r@ =~= discovered_changes(i as nat));
            }
        },
        MdnsUpdate::Expired(known) => {
            let mut i: usize = 0;
            while i < known.len()
                invariant
                    i <= known.len(),
                    r@ == expired_changes(known@.subrange(0, i as int)),
                decreases known.len() - i,
            {
                assert(known@.subrange(0, i + 1).drop_last() =~= known@.subrange(0, i as int));
                if !known[i] {
                    r.push(ViewChange::Remove(i));
                }
                i = i + 1;
            }
            assert(known@.subrange(0, known.len() as int) =~= known@);
            proof {
                lemma_expired_changes_remove_exactly_unknown(known@);
            }
        },
    }
    r
}

/// What an incoming beacon message tells the node.
#[derive(Debug, Clone, PartialEq, Eq)]
pub enum MessageReport {
    /// The beacon with this public key (in lowercase hexadecimal) is now in
    /// this state.
    StateChanged { pubkey_hex: String, beacon_state: bool },
    /// The message's signature does not verify.
    BadSignature,
    /// The message is signed, but not newer than the last one kept for its
    /// beacon: the beacon's state stays as it was.
    Stale,
}

/// `i` is the first watched beacon whose public key is `key`.
pub open spec fn is_first_watch(watched: Seq<BeaconSub>, key: Seq<u8>, i: int) -> bool {
    &&& 0 <= i < watched.len()
    &&& watched[i].pubkey@ == key
    &&& forall|j: int| 0 <= j < i ==> watched[j].pubkey@ != key
}

/// No beacon with public key `key` is watched.
pub open spec fn unwatched(watched: Seq<BeaconSub>, key: Seq<u8>) -> bool {
    forall|j: int| 0 <= j < watched.len() ==> watched[j].pubkey@ != key
}

/// No two watched beacons have the same public key.
pub open spec fn keys_distinct(watched: Seq<BeaconSub>) -> bool {
    forall|i: int, j: int|
        0 <= i < j < watched.len() ==> watched[i].pubkey@ != watched[j].pubkey@
}

/// The report of a beacon's new state `m`.
pub open spec fn reports_state(r: MessageReport, m: Message) -> bool {
    r matches MessageReport::StateChanged { pubkey_hex, beacon_state } && pubkey_hex@ == hex_lower(
        m.pubkey@,
    ) && beacon_state == m.beacon_state
}

/// A state report for `m` names `m`'s beacon by its key in lowercase
/// hexadecimal and carries `m`'s state, not any other.
pub proof fn lemma_state_report_carries_message(r: MessageReport, m: Message)
    requires
        reports_state(r, m),
    ensures
        r is StateChanged,
        r->pubkey_hex@ == hex_lower(m.pubkey@),
        r->beacon_state == m.beacon_state,
{
}

/// The daemon's own state between polls: the beacons it broadcasts, whether
/// it has reported its listening addresses, and the beacons it has heard of,
/// each with the last message taken as its state.
pub struct P2pNode {
    pub my_beacons: Vec<Beacon>,
    pub listening: bool,
    pub watched: Vec<BeaconSub>,
}

impl P2pNode {
    /// The state at start: one fresh beacon when a name is given. `None`
    /// when a name is given and no key can be generated for it.
    pub fn new(beacon_name: Option<String>) -> (r: Option<P2pNode>)
        ensures
            beacon_name is None ==> r is Some,
            r matches Some(node) ==> {
                &&& !node.listening
                &&& node.watched@.len() == 0
                &&& beacon_name is None ==> node.my_beacons@.len() == 0
                &&& beacon_name matches Some(name) ==> node.my_beacons@.len() == 1
                    && node.my_beacons@[0].name@ == name@
                    && node.my_beacons@[0].keypair.is_consistent()
            },
    {
        let mut my_beacons: Vec<Beacon> = Vec::new();
        if let Some(name) = beacon_name {
            match Beacon::new(&name) {
                Some(b) => my_beacons.push(b),
                None => return None,
            }
        }
        Some(P2pNode { my_beacons, listening: false, watched: Vec::new() })
    }

    /// The swarm has nothing more to report and listens on `n_listeners`
    /// addresses. Returns whether to report them, which happens until some
    /// address has been reported.
    pub fn on_swarm_pending(&mut self, n_listeners: usize) -> (report: bool)
        ensures
            report == !old(self).listening,
            final(self).listening == (old(self).listening || n_listeners > 0),
            final(self).my_beacons@ == old(self).my_beacons@,
            final(self).watched@ == old(self).watched@,
    {
        if !self.listening {
            if n_listeners > 0 {
                self.listening = true;
            }
            true
        } else {
            false
        }
    }

    /// Whether `m` is a message this node publishes: its first beacon
    /// announcing that it is on, signed with that beacon's keypair.
    pub open spec fn may_publish(&self, m: Message) -> bool {
        &&& self.my_beacons@.len() > 0
        &&& m.beacon_state
        &&& m.pubkey@ == self.my_beacons@[0].keypair.public@
        &&& m.sig@ == ed25519_signature(
            self.my_beacons@[0].keypair.secret@,
            self.my_beacons@[0].keypair.public@,
            bytes_to_sign(m.broadcast_time, true),
        )
        &&& self.my_beacons@[0].keypair.is_consistent() ==> m.is_authentic()
    }

    /// The message to publish on this poll: the first beacon announces that
    /// it is on, if there is a beacon (and the clock can be read).
    pub fn broadcast_tick(&self) -> (r: Option<Message>)
        ensures
            self.my_beacons@.len() == 0 ==> r is None,
            r matches Some(m) ==> self.may_publish(m),
    {
        self.broadcast_with_reading(now_timestamp())
    }

    /// The message to publish at the clock reading `reading`: the first
    /// beacon announces that it is on, stamped with that reading. There is
    /// one exactly when the node has a beacon and the clock could be read.
    pub fn broadcast_with_reading(&self, reading: Option<i64>) -> (r: Option<Message>)
        ensures
            r is Some <==> (self.my_beacons@.len() > 0 && reading is Some),
            r matches Some(m) ==> self.may_publish(m) && reading == Some(m.broadcast_time),
    {
        if self.my_beacons.len() > 0 {
            self.my_beacons[0].create_message_with_reading(true, reading)
        } else {
            None
        }
    }

    /// Reads a message received on a beacon topic. A message whose signature
    /// fails is reported as such. A signed message about a beacon not heard
    /// of before is its state, and is kept. A signed message about a known
    /// beacon is its new state, and is kept, only when it is newer than the
    /// last message kept; otherwise it is stale and changes nothing.
    pub fn receive_message(&mut self, m: Message) -> (r: MessageReport)
        ensures
            final(self).my_beacons@ == old(self).my_beacons@,
            final(self).listening == old(self).listening,
            keys_distinct(old(self).watched@) ==> keys_distinct(final(self).watched@),
            !m.is_authentic() ==> r == MessageReport::BadSignature && final(self).watched@ == old(
                self,
            ).watched@,
            m.is_authentic() && unwatched(old(self).watched@, m.pubkey@) ==> reports_state(r, m)
                && final(self).watched@.len() == old(self).watched@.len() + 1
                && final(self).watched@.drop_last() == old(self).watched@
                && final(self).watched@.last().name@ == hex_lower(m.pubkey@)
                && final(self).watched@.last().pubkey@ == m.pubkey@
                && final(self).watched@.last().last_message == Some(m),
            forall|i: int|
                #![trigger is_first_watch(old(self).watched@, m.pubkey@, i)]
                m.is_authentic() && is_first_watch(old(self).watched@, m.pubkey@, i) ==> if old(
                    self,
                ).watched@[i].accepts(m) {
                    reports_state(r, m) && final(self).watched@ == old(self).watched@.update(
                        i,
                        BeaconSub {
                            name: old(self).watched@[i].name,
                            pubkey: old(self).watched@[i].pubkey,
                            last_message: Some(m),
                        },
                    )
                } else {
                    r == MessageReport::Stale && final(self).watched@ == old(self).watched@
                },
    {
        if !m.verify() {
            return MessageReport::BadSignature;
        }
        let ghost old_watched = self.watched@;
        let n = self.watched.len();
        let mut i: usize = 0;
        while i < n
            invariant
                i <= n,
                n == self.watched@.len(),
                self.watched@ == old_watched,
                forall|j: int| 0 <= j < i ==> self.watched@[j].pubkey@ != m.pubkey@,
            ensures
                i <= n,
                self.watched@ == old_watched,
                forall|j: int| 0 <= j < i ==> self.watched@[j].pubkey@ != m.pubkey@,
                i < n ==> self.watched@[i as int].pubkey@ == m.pubkey@,
            decreases n - i,
        {
            if self.watched[i].pubkey.is_same_key(&m.pubkey) {
                break;
            }
            i = i + 1;
        }
        let pubkey_hex = topic_name(&m.pubkey);
        let beacon_state = m.beacon_state;
        if i < n {
            assert(is_first_watch(old_watched, m.pubkey@, i as int));
            let mut sub = self.watched.remove(i);
            let accepted = sub.accept_message(m);
            self.watched.insert(i, sub);
            assert(self.watched@ =~= old_watched.remove(i as int).insert(i as int, sub));
            proof {
                if accepted {
                    assert(old_watched.remove(i as int).insert(i as int, sub) =~= old_watched.update(
                        i as int,
                        sub,
                    ));
                } else {
                    assert(old_watched.remove(i as int).insert(i as int, sub) =~= old_watched);
                }
                assert forall|k: int| #[trigger] is_first_watch(old_watched, m.pubkey@, k) implies k
                    == i by {
                    if k < i {
                    } else if k > i {
                        assert(old_watched[i as int].pubkey@ == m.pubkey@);
                    }
                }
            }
            if accepted {
                MessageReport::StateChanged { pubkey_hex, beacon_state }
            } else {
                MessageReport::Stale
            }
        } else {
            let name = pubkey_hex.clone();
            let pubkey = m.pubkey.clone();
            self.watched.push(BeaconSub { name, pubkey, last_message: Some(m) });
            assert(self.watched@.drop_last() =~= old_watched);
            MessageReport::StateChanged { pubkey_hex, beacon_state }
        }
    }
}

/// Over a run of the node, whatever it publishes is its start-up beacon
/// announcing that it is on, with a signature that verifies; and a node
/// started without a beacon publishes nothing. A run is a sequence of node
/// states that each follow the last by one of the node's methods, none of
/// which changes the node's beacons; it starts as `P2pNode::new` leaves it.
pub proof fn lemma_node_run_publishes(run: Seq<P2pNode>, k: int, m: Message)
    requires
        0 <= k < run.len(),
        forall|j: int| 0 <= j < run.len() - 1 ==> #[trigger] run[j + 1].my_beacons@ == run[j].my_beacons@,
        run[0].my_beacons@.len() <= 1,
        run[0].my_beacons@.len() == 1 ==> run[0].my_beacons@[0].keypair.is_consistent(),
    ensures
        run[0].my_beacons@.len() == 0 ==> !run[k].may_publish(m),
        run[k].may_publish(m) ==> m.beacon_state && m.pubkey@ == run[0].my_beacons@[0].keypair.public@
            && m.is_authentic(),
    decreases k,
{
    if k > 0 {
        lemma_node_run_publishes(run, k - 1, m);
        assert(run[(k - 1) + 1].my_beacons@ == run[k - 1].my_beacons@);
        lemma_same_beacons_from_start(run, k);
    }
}

proof fn lemma_same_beacons_from_start(run: Seq<P2pNode>, k: int)
    requires
        0 <= k < run.len(),
        forall|j: int| 0 <= j < run.len() - 1 ==> #[trigger] run[j + 1].my_beacons@ == run[j].my_beacons@,
    ensures
        run[k].my_beacons@ == run[0].my_beacons@,
    decreases k,
{
    if k > 0 {
        lemma_same_beacons_from_start(run, k - 1);
        assert(run[(k - 1) + 1].my_beacons@ == run[k - 1].my_beacons@);
    }
}

/// Once a node has taken `m` as a beacon's state, a signed message about
/// that beacon that is not newer than `m` is stale: it changes nothing.
pub proof fn lemma_older_message_is_stale(watched: Seq<BeaconSub>, i: int, m: Message, m2: Message)
    requires
        is_first_watch(watched, m.pubkey@, i),
        watched[i].last_message == Some(m),
        m2.pubkey@ == m.pubkey@,
        m2.broadcast_time <= m.broadcast_time,
    ensures
        is_first_watch(watched, m2.pubkey@, i),
        !watched[i].accepts(m2),
{
}

/// What the daemon does for a command from the client.
#[derive(Debug, Clone, PartialEq, Eq)]
pub enum DaemonAction {
    /// Make a beacon of this name and store it.
    CreateBeacon(String),
    /// Remove the stored beacon of this name.
    DeleteBeacon(String),
    /// Load the beacon of this name and publish this state, signed.
    BroadcastState(String, bool),
    /// The daemon does not handle this command.
    Unrecognized,
}

/// The action for a client command.
pub fn daemon_action(c: Command) -> (r: DaemonAction)
    ensures
        c matches Command::Create(name) ==> (r matches DaemonAction::CreateBeacon(n) && n@ == name@),
        c matches Command::Delete(name) ==> (r matches DaemonAction::DeleteBeacon(n) && n@ == name@),
        c matches Command::Broadcast(name, state) ==> (r matches DaemonAction::BroadcastState(n, s)
            && n@ == name@ && s == state),
        !(c is Create || c is Delete || c is Broadcast) ==> r == DaemonAction::Unrecognized,
{
    match c {
        Command::Create(name) => DaemonAction::CreateBeacon(name),
        Command::Delete(name) => DaemonAction::DeleteBeacon(name),
        Command::Broadcast(name, state) => DaemonAction::BroadcastState(name, state),
        _ => DaemonAction::Unrecognized,
    }
}

/// The multiaddress text the daemon dials for a peer's IP address.
pub fn dial_address(ip: &String) -> (r: String)
    ensures
        r@ == "/ip4/"@ + ip@,
{
    let mut r = "/ip4/".to_owned();
    r.append(ip.as_str());
    r
}

} // verus!
