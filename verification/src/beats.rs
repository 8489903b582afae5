//! The beat interval queue: time deltas between consecutive beat timestamps,
//! consumed most-recent-first by the bounce engine, one per bounce.
//!
//! Timestamps come from an external audio analysis; this module only takes
//! the finished, ordered run of fixed-point timestamps.

use vstd::prelude::*;
use vstd::seq_lib::*;
use vstd::assert_seqs_equal;

verus! {

/// Beat timestamps are non-negative and non-decreasing, so every derived
/// interval is a non-negative `i64`.
pub open spec fn wf_timestamps(timestamps: Seq<i64>) -> bool {
    &&& forall|i: int| 0 <= i < timestamps.len() ==> #[trigger] timestamps[i] >= 0
    &&& forall|i: int|
        0 <= i < timestamps.len() - 1 ==> #[trigger] timestamps[i] <= timestamps[i + 1]
}

/// The interval run derived from a run of timestamps: element `i` is the gap
/// `timestamps[i + 1] - timestamps[i]`.
pub open spec fn beat_intervals_spec(timestamps: Seq<i64>) -> Seq<int> {
    Seq::new(
        if timestamps.len() == 0 {
            0
        } else {
            (timestamps.len() - 1) as nat
        },
        |i: int| timestamps[i + 1] - timestamps[i],
    )
}

/// Pop order of a freshly built queue: the derived intervals reversed, so the
/// interval between the two most recent beats is consumed first.
pub open spec fn queue_of_timestamps(timestamps: Seq<i64>) -> Seq<int> {
    beat_intervals_spec(timestamps).reverse()
}

/// The consecutive differences of a run of beat timestamps, in beat order.
pub fn beats_to_intervals(beats: &Vec<i64>) -> (intervals: Vec<i64>)
    requires
        wf_timestamps(beats@),
    ensures
        intervals@.map_values(|d: i64| d as int) == beat_intervals_spec(beats@),
        intervals@.len() == beat_intervals_spec(beats@).len(),
{
    let mut intervals: Vec<i64> = Vec::new();
    if beats.len() > 0 {
        let mut i: usize = 0;
        while i < beats.len() - 1
            invariant
                wf_timestamps(beats@),
                beats@.len() > 0,
                0 <= i <= beats@.len() - 1,
                intervals@.len() == i,
                forall|j: int|
                    0 <= j < i ==> #[trigger] intervals@[j] == beats@[j + 1] - beats@[j],
            decreases beats@.len() - 1 - i,
        {
            let interval: i64 = beats[i + 1] - beats[i];
            intervals.push(interval);
            i = i + 1;
        }
    }
    proof {
        assert_seqs_equal!(
            intervals@.map_values(|d: i64| d as int) == beat_intervals_spec(beats@)
        );
    }
    intervals
}

/// The queue of beat intervals the bounce engine draws from.  Built once per
/// analysis run, then pop-only: each bounce consumes one interval, and an
/// exhausted queue keeps answering with the fallback interval zero.
pub struct Intervals {
    /// Intervals in beat order; popping from the back yields them most
    /// recent first, which is the published consumption order.
    intervals: Vec<i64>,
}

impl View for Intervals {
    type V = Seq<int>;

    /// The remaining intervals, in the order `pop` will hand them out.
    closed spec fn view(&self) -> Seq<int> {
        self.intervals@.map_values(|d: i64| d as int).reverse()
    }
}

impl Intervals {
    /// Every queued interval is a non-negative time delta.
    pub open spec fn wf(self) -> bool {
        forall|i: int| 0 <= i < self@.len() ==> #[trigger] self@[i] >= 0
    }

    /// Builds the queue for one run of beat timestamps.
    pub fn new(timestamps: &Vec<i64>) -> (queue: Intervals)
        requires
            wf_timestamps(timestamps@),
        ensures
            queue@ == queue_of_timestamps(timestamps@),
            queue.wf(),
    {
        let intervals: Vec<i64> = beats_to_intervals(timestamps);
        let queue = Intervals { intervals };
        proof {
            assert_seqs_equal!(queue@ == queue_of_timestamps(timestamps@));
        }
        queue
    }

    /// Number of intervals still queued.
    pub fn len(&self) -> (n: usize)
        ensures
            n == self@.len(),
    {
        self.intervals.len()
    }

    /// Removes and returns the next interval; an empty queue yields the
    /// fallback interval zero and stays empty.
    pub fn pop(&mut self) -> (delta: i64)
        ensures
            old(self)@.len() == 0 ==> delta == 0 && final(self)@ == old(self)@,
            old(self)@.len() > 0 ==> delta == old(self)@[0] && final(self)@ == old(
                self,
            )@.drop_first(),
            old(self).wf() ==> final(self).wf(),
            old(self).wf() && old(self)@.len() > 0 ==> delta >= 0,
    {
        match self.intervals.pop() {
            Some(delta) => {
                proof {
                    assert_seqs_equal!(self@ == old(self)@.drop_first());
                }
                delta
            },
            None => 0,
        }
    }
}

} // verus!
