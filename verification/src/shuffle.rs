//! The order in which tracks play while shuffle is on.

use rand::seq::SliceRandom;
use rand::thread_rng;
use vstd::prelude::*;

verus! {

/// The positions `0, 1, .., n - 1` in their natural order.
pub open spec fn straight_order(n: nat) -> Seq<u16> {
    Seq::new(n, |i: int| i as u16)
}

/// Whether `order` holds each track of `0, 1, .., n - 1` exactly once.
pub open spec fn is_shuffle_order(order: Seq<u16>, n: nat) -> bool {
    &&& order.len() == n
    &&& forall|i: int| 0 <= i < n ==> (#[trigger] order[i]) < n
    &&& forall|i: int, j: int| 0 <= i < j < n ==> order[i] != order[j]
    &&& forall|track: u16| track < n ==> #[trigger] order.contains(track)
}

/// `SliceRandom::shuffle` of `rand`, fed by `thread_rng`: it swaps items of the
/// slice among themselves, so the same items are there afterwards, each as often
/// as before. Which order comes out is left open.
#[verifier::external_body]
fn shuffle_in_place(v: &mut Vec<u16>)
    ensures
        final(v)@.to_multiset() == old(v)@.to_multiset(),
{
    v.shuffle(&mut thread_rng());
}

/// A reordering of the straight order is a shuffle order.
proof fn lemma_reordered_is_shuffle_order(order: Seq<u16>, n: nat)
    requires
        n <= 0x10000,
        order.to_multiset() == straight_order(n).to_multiset(),
    ensures
        is_shuffle_order(order, n),
{
    broadcast use vstd::seq_lib::group_to_multiset_ensures;

    let straight = straight_order(n);
    assert(order.len() == n) by {
        vstd::seq_lib::to_multiset_len(order);
        vstd::seq_lib::to_multiset_len(straight);
    }
    assert forall|i: int| 0 <= i < n implies (#[trigger] order[i]) < n by {
        assert(order.contains(order[i]));
        vstd::seq_lib::to_multiset_contains(order, order[i]);
        vstd::seq_lib::to_multiset_contains(straight, order[i]);
        let j = choose|j: int| 0 <= j < straight.len() && straight[j] == order[i];
        assert(straight[j] == j);
    }
    assert(straight.no_duplicates());
    straight.lemma_multiset_has_no_duplicates();
    order.lemma_multiset_has_no_duplicates_conv();
    assert forall|track: u16| track < n implies #[trigger] order.contains(track) by {
        assert(straight[track as int] == track);
        assert(straight.contains(track));
        vstd::seq_lib::to_multiset_contains(straight, track);
        vstd::seq_lib::to_multiset_contains(order, track);
    }
}

/// A fresh random order for `len` tracks: every track of `0, 1, .., len - 1` stands in
/// it exactly once.
pub fn shuffle_list(len: u16) -> (order: Vec<u16>)
    ensures
        is_shuffle_order(order@, len as nat),
{
    let mut order: Vec<u16> = Vec::new();
    let mut i: u16 = 0;
    while i < len
        invariant
            i <= len,
            order@ == straight_order(i as nat),
        decreases len - i,
    {
        order.push(i);
        i += 1;
        assert(order@ =~= straight_order(i as nat));
    }
    shuffle_in_place(&mut order);
    proof {
        lemma_reordered_is_shuffle_order(order@, len as nat);
    }
    order
}

/// The place at which `track` stands in `order`.
pub fn position_of(order: &Vec<u16>, track: u16) -> (position: u16)
    requires
        is_shuffle_order(order@, order@.len()),
        order@.len() <= 0x10000,
        track < order@.len(),
    ensures
        position < order@.len(),
        order@[position as int] == track,
{
    let ghost n = order@.len();
    assert(order@.contains(track));
    let ghost at = choose|i: int| 0 <= i < n && order@[i] == track;
    let mut i: usize = 0;
    while order[i] != track
        invariant
            0 <= i <= at < n == order@.len(),
            n <= 0x10000,
            order@[at] == track,
        decreases at - i,
    {
        i += 1;
    }
    i as u16
}

} // verus!
