//! The temporal smoother: a bounded FIFO of accepted fundamental estimates
//! whose median is the stable frequency delivered downstream.

use crate::sorting::median_of;
use crate::sorting::sort_ascending;
use vstd::prelude::*;

verus! {

/// Most entries the history keeps; the oldest is evicted beyond this.
pub const HISTORY_CAPACITY: usize = 5;

/// The bounded history of accepted fundamental estimates, in milli-hertz.
pub struct FrequencyHistory {
    entries: Vec<u64>,
}

impl View for FrequencyHistory {
    type V = Seq<u64>;

    closed spec fn view(&self) -> Seq<u64> {
        self.entries@
    }
}

impl FrequencyHistory {
    /// The bound that every operation preserves.
    pub open spec fn well_formed(&self) -> bool {
        self@.len() <= HISTORY_CAPACITY
    }

    /// An empty history.
    pub fn new() -> (h: Self)
        ensures
            h@ == Seq::<u64>::empty(),
            h.well_formed(),
    {
        FrequencyHistory { entries: Vec::new() }
    }

    /// How many estimates are currently held.
    pub fn len(&self) -> (n: usize)
        ensures
            n == self@.len(),
    {
        self.entries.len()
    }

    /// The estimate at a position, oldest first.
    pub fn get(&self, i: usize) -> (f: u64)
        requires
            i < self@.len(),
        ensures
            f == self@[i as int],
    {
        self.entries[i]
    }

    /// Appends an accepted estimate, evicting the oldest entry when the
    /// history is full.
    pub fn push(&mut self, freq_millihz: u64)
        requires
            old(self).well_formed(),
        ensures
            final(self).well_formed(),
            old(self)@.len() < HISTORY_CAPACITY ==> final(self)@ == old(self)@.push(freq_millihz),
            old(self)@.len() == HISTORY_CAPACITY ==> final(self)@ == old(self)@.push(
                freq_millihz,
            ).drop_first(),
    {
        self.entries.push(freq_millihz);
        if self.entries.len() > HISTORY_CAPACITY {
            self.entries.remove(0);
            proof {
                assert(self@ =~= old(self)@.push(freq_millihz).drop_first());
            }
        }
    }

    /// Forgets all estimates, as on a silence reset or a stream restart.
    pub fn clear(&mut self)
        ensures
            final(self)@ == Seq::<u64>::empty(),
            final(self).well_formed(),
    {
        self.entries.clear();
    }

    /// The stable estimate: the median of the held values once at least
    /// two exist, and nothing before that.
    pub fn median(&self) -> (r: Option<u64>)
        ensures
            r is Some <==> self@.len() >= 2,
            r matches Some(m) ==> m == median_of(self@),
    {
        if self.entries.len() < 2 {
            return None;
        }
        let mut sorted_entries = self.entries.clone();
        proof {
            assert(sorted_entries@ =~= self.entries@);
        }
        sort_ascending(&mut sorted_entries);
        Some(sorted_entries[sorted_entries.len() / 2])
    }
}

} // verus!
