//! The discovery server's peer list: every address that has connected,
//! each once, in the order of first contact.

use vstd::prelude::*;

verus! {

/// The text of each address in the list.
pub open spec fn peer_texts(peers: Seq<String>) -> Seq<Seq<char>> {
    peers.map_values(|p: String| p@)
}

/// The list after `ip` connects: unchanged if it is already there,
/// otherwise with `ip` appended.
pub open spec fn recorded(peers: Seq<Seq<char>>, ip: Seq<char>) -> Seq<Seq<char>> {
    if peers.contains(ip) {
        peers
    } else {
        peers.push(ip)
    }
}

/// Records that `ip` connected.
pub fn record_peer(peers: &mut Vec<String>, ip: String)
    ensures
        peer_texts(final(peers)@) == recorded(peer_texts(old(peers)@), ip@),
        peer_texts(old(peers)@).contains(ip@) ==> peer_texts(final(peers)@) == peer_texts(
            old(peers)@,
        ),
        !peer_texts(old(peers)@).contains(ip@) ==> final(peers)@.len() == old(peers)@.len() + 1
            && final(peers)@.last()@ == ip@ && peer_texts(final(peers)@.drop_last())
            == peer_texts(old(peers)@),
{
    let ghost texts = peer_texts(peers@);
    let mut i: usize = 0;
    while i < peers.len()
        invariant
            i <= peers.len(),
            texts == peer_texts(peers@),
            forall|j: int| 0 <= j < i ==> texts[j] != ip@,
        decreases peers.len() - i,
    {
        if peers[i] == ip {
            assert(texts[i as int] == ip@);
            return;
        }
        i = i + 1;
    }
    assert(!texts.contains(ip@));
    let ghost before = peers@;
    peers.push(ip);
    assert(peer_texts(peers@) =~= texts.push(ip@));
    assert(peers@.drop_last() =~= before);
}

/// Recording an address keeps the list free of repeats and leaves the
/// address in it.
pub proof fn lemma_recorded_distinct(peers: Seq<Seq<char>>, ip: Seq<char>)
    requires
        peers.no_duplicates(),
    ensures
        recorded(peers, ip).no_duplicates(),
        recorded(peers, ip).contains(ip),
{
    if !peers.contains(ip) {
        let r = peers.push(ip);
        assert(r[r.len() - 1] == ip);
        assert forall|i: int, j: int| 0 <= i < r.len() && 0 <= j < r.len() && i != j implies r[i]
            != r[j] by {
            if i == r.len() - 1 {
                assert(peers[j] == r[j]);
            } else if j == r.len() - 1 {
                assert(peers[i] == r[i]);
            }
        }
    }
}

/// Recording the same address twice is the same as recording it once.
pub proof fn lemma_recorded_idempotent(peers: Seq<Seq<char>>, ip: Seq<char>)
    ensures
        recorded(recorded(peers, ip), ip) == recorded(peers, ip),
{
    if !peers.contains(ip) {
        assert(peers.push(ip)[peers.len() as int] == ip);
    }
}

} // verus!
