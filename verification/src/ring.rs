//! The ring as a whole: where the token is after a number of forwards.
//!
//! A peer that receives the token passes exactly one token on, to its
//! successor, whether its queue was empty or not. With no datagram lost the
//! ring therefore holds one token at any time, and its place is a function
//! of the number of forwards.

use crate::peer::token_to;
use crate::peer::PeerView;
use vstd::arithmetic::div_mod::lemma_add_mod_noop_right;
use vstd::arithmetic::div_mod::lemma_mod_sub_multiples_vanish;
use vstd::arithmetic::div_mod::lemma_small_mod;
use vstd::prelude::*;

verus! {

/// Whether the peers form a ring: there is at least one, no two listen at
/// the same address, and each has the next one as its successor, the last
/// one the first.
pub open spec fn is_ring(peers: Seq<PeerView>) -> bool {
    &&& peers.len() > 0
    &&& forall|i: int, j: int|
        0 <= i < j < peers.len() ==> (#[trigger] peers[i]).address != (#[trigger] peers[j]).address
    &&& forall|i: int|
        0 <= i < peers.len() ==> (#[trigger] peers[i]).next_peer_address == peers[(i + 1) % (
        peers.len() as int)].address
}

/// Whether the peer at `position` listens at `address`.
pub open spec fn listens_at(peers: Seq<PeerView>, position: int, address: Seq<char>) -> bool {
    0 <= position < peers.len() && peers[position].address == address
}

/// The position of a peer that listens at `address`, if there is one.
pub open spec fn listener_at(peers: Seq<PeerView>, address: Seq<char>) -> Option<int> {
    if exists|position: int| listens_at(peers, position, address) {
        Some(choose|position: int| listens_at(peers, position, address))
    } else {
        None
    }
}

/// The position of the peer that holds the token after it was forwarded a
/// number of times, the first time by the peer at `origin`; nothing when a
/// token went to an address where no peer listens.
pub open spec fn holder_after(peers: Seq<PeerView>, origin: int, forwards: nat) -> Option<int>
    decreases forwards,
{
    if forwards == 0 {
        Some(origin)
    } else {
        match holder_after(peers, origin, (forwards - 1) as nat) {
            Some(holder) => listener_at(
                peers,
                token_to(peers[holder].next_peer_address).destination,
            ),
            None => None,
        }
    }
}

/// In a ring exactly one peer listens at the address of each peer.
pub proof fn lemma_one_listener(peers: Seq<PeerView>, position: int)
    requires
        is_ring(peers),
        0 <= position < peers.len(),
    ensures
        listener_at(peers, peers[position].address) == Some(position),
{
    assert(listens_at(peers, position, peers[position].address));
    let found = choose|other: int| listens_at(peers, other, peers[position].address);
    if found < position {
        assert(peers[found].address != peers[position].address);
    } else if position < found {
        assert(peers[position].address != peers[found].address);
    }
}

/// The token moves one place with each forward: after `forwards` of them it
/// is with the peer that many places behind the origin, counted round the
/// ring.
pub proof fn lemma_token_place(peers: Seq<PeerView>, origin: int, forwards: nat)
    requires
        is_ring(peers),
        0 <= origin < peers.len(),
    ensures
        holder_after(peers, origin, forwards) == Some((origin + forwards) % (peers.len() as int)),
    decreases forwards,
{
    let size = peers.len() as int;
    if forwards == 0 {
        lemma_small_mod(origin as nat, size as nat);
    } else {
        lemma_token_place(peers, origin, (forwards - 1) as nat);
        let holder = (origin + forwards - 1) % size;
        let next = (holder + 1) % size;
        assert(peers[holder].next_peer_address == peers[next].address);
        lemma_one_listener(peers, next);
        lemma_add_mod_noop_right(1, origin + forwards - 1, size);
        assert(next == (origin + forwards) % size);
    }
}

/// Token conservation: in a ring of N peers the token is back with the peer
/// that sent it first after N forwards, and with no forward before that.
pub proof fn lemma_token_returns(peers: Seq<PeerView>, origin: int)
    requires
        is_ring(peers),
        0 <= origin < peers.len(),
    ensures
        holder_after(peers, origin, peers.len()) == Some(origin),
        forall|forwards: nat|
            0 < forwards < peers.len() ==> #[trigger] holder_after(peers, origin, forwards)
                != Some(origin),
{
    let size = peers.len() as int;
    lemma_token_place(peers, origin, peers.len());
    lemma_mod_sub_multiples_vanish(origin + size, size);
    lemma_small_mod(origin as nat, size as nat);
    assert forall|forwards: nat| 0 < forwards < peers.len() implies #[trigger] holder_after(
        peers,
        origin,
        forwards,
    ) != Some(origin) by {
        lemma_token_place(peers, origin, forwards);
        if origin + forwards < size {
            lemma_small_mod((origin + forwards) as nat, size as nat);
        } else {
            lemma_mod_sub_multiples_vanish(origin + forwards, size);
            lemma_small_mod((origin + forwards - size) as nat, size as nat);
        }
    }
}

} // verus!
