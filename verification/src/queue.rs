//! The tracks that wait to be played next.

use std::collections::VecDeque;
use vstd::prelude::*;

verus! {

/// Tracks in the order in which they were put in. Each is held by its number on the
/// list, counted from 1.
pub struct Queue {
    entries: VecDeque<u16>,
}

impl View for Queue {
    type V = Seq<u16>;

    closed spec fn view(&self) -> Seq<u16> {
        self.entries@
    }
}

impl Queue {
    /// A queue with nothing in it.
    pub fn new() -> (queue: Queue)
        ensures
            queue@ == Seq::<u16>::empty(),
    {
        Queue { entries: VecDeque::new() }
    }

    /// Puts `track` behind all that wait.
    pub fn enqueue(&mut self, track: u16)
        ensures
            final(self)@ == old(self)@.push(track),
    {
        self.entries.push_back(track);
    }

    /// Takes out the track that has waited longest, if any waits.
    pub fn dequeue(&mut self) -> (track: Option<u16>)
        ensures
            old(self)@.len() == 0 ==> track.is_none() && final(self)@ == old(self)@,
            old(self)@.len() > 0 ==> track == Some(old(self)@[0]) && final(self)@ == old(
                self,
            )@.skip(1),
    {
        let track = self.entries.pop_front();
        assert(old(self)@.len() > 0 ==> old(self)@.skip(1) =~= old(self)@.subrange(
            1,
            old(self)@.len() as int,
        ));
        track
    }

    /// Whether no track waits.
    pub fn is_empty(&self) -> (empty: bool)
        ensures
            empty == (self@.len() == 0),
    {
        self.entries.len() == 0
    }

    /// How many tracks wait.
    pub fn len(&self) -> (n: usize)
        ensures
            n == self@.len(),
    {
        self.entries.len()
    }

    /// The track at place `i` of the queue, the front being place 0.
    pub fn get(&self, i: usize) -> (track: u16)
        requires
            i < self@.len(),
        ensures
            track == self@[i as int],
    {
        self.entries[i]
    }
}

/// What was put in first comes out first: after `a` and then `b` are put into an empty
/// queue, the front is `a`, and once `a` is out the front is `b`.
pub proof fn lemma_queue_is_fifo(waiting: Seq<u16>, a: u16, b: u16)
    ensures
        waiting.push(a).push(b).len() == waiting.len() + 2,
        waiting.len() == 0 ==> waiting.push(a).push(b)[0] == a,
        waiting.len() == 0 ==> waiting.push(a).push(b).skip(1)[0] == b,
        waiting.len() == 0 ==> waiting.push(a).push(b).skip(1).skip(1).len() == 0,
        waiting.len() > 0 ==> waiting.push(a)[0] == waiting[0],
{
}

} // verus!
