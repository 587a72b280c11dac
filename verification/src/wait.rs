//! Bounded waiting for a hardware signal.
//!
//! A ready or lock bit is sampled a limited number of times. The wait ends
//! when a sample finds the bit set, or when the budget of samples is spent.

use vstd::prelude::*;

verus! {

/// Where a bounded wait stands.
#[derive(Clone, Copy, Debug, PartialEq, Eq, Structural)]
pub enum WaitStatus {
    /// The signal has not been seen yet and samples remain.
    Pending,
    /// A sample found the signal asserted.
    Asserted,
    /// The budget ran out before the signal was seen.
    TimedOut,
}

/// A wait that gives up after a fixed number of samples.
#[derive(Clone, Copy, Debug, PartialEq, Eq, Structural)]
pub struct BoundedWait {
    pub status: WaitStatus,
    /// Samples that may still come back low before the wait times out.
    pub polls_left: u32,
}

impl BoundedWait {
    /// A fresh wait with `budget` samples.
    pub open spec fn started(budget: u32) -> BoundedWait {
        BoundedWait { status: WaitStatus::Pending, polls_left: budget }
    }

    /// The wait after one more sample of the signal.
    ///
    /// A wait that has ended stays as it is. A pending wait with no budget
    /// times out without looking at the sample.
    pub open spec fn after_poll(self, asserted: bool) -> BoundedWait {
        if self.status != WaitStatus::Pending {
            self
        } else if self.polls_left == 0 {
            BoundedWait { status: WaitStatus::TimedOut, polls_left: 0 }
        } else if asserted {
            BoundedWait { status: WaitStatus::Asserted, polls_left: self.polls_left }
        } else if self.polls_left == 1 {
            BoundedWait { status: WaitStatus::TimedOut, polls_left: 0 }
        } else {
            BoundedWait { status: WaitStatus::Pending, polls_left: (self.polls_left - 1) as u32 }
        }
    }

    /// The wait after a whole run of samples, oldest first.
    pub open spec fn after_polls(self, samples: Seq<bool>) -> BoundedWait
        decreases samples.len(),
    {
        if samples.len() == 0 {
            self
        } else {
            self.after_polls(samples.drop_last()).after_poll(samples.last())
        }
    }

    pub fn new(budget: u32) -> (wait: BoundedWait)
        ensures
            wait == BoundedWait::started(budget),
    {
        BoundedWait { status: WaitStatus::Pending, polls_left: budget }
    }

    /// Takes one sample of the signal into account and says where the wait
    /// stands now.
    pub fn poll(&mut self, asserted: bool) -> (status: WaitStatus)
        ensures
            *final(self) == old(self).after_poll(asserted),
            status == final(self).status,
    {
        match self.status {
            WaitStatus::Pending => {
                if self.polls_left == 0 {
                    self.status = WaitStatus::TimedOut;
                } else if asserted {
                    self.status = WaitStatus::Asserted;
                } else {
                    self.polls_left = self.polls_left - 1;
                    if self.polls_left == 0 {
                        self.status = WaitStatus::TimedOut;
                    }
                }
            },
            _ => {},
        }
        self.status
    }

    pub fn is_pending(&self) -> (pending: bool)
        ensures
            pending == (self.status == WaitStatus::Pending),
    {
        match self.status {
            WaitStatus::Pending => true,
            _ => false,
        }
    }

    /// While every sample comes back low, a fresh wait stays pending with
    /// one sample fewer each time, until the budget is spent; from then on
    /// it has timed out.
    pub proof fn lemma_silent_signal(budget: u32, samples: Seq<bool>)
        requires
            forall|i: int| 0 <= i < samples.len() ==> !samples[i],
        ensures
            samples.len() < budget ==> BoundedWait::started(budget).after_polls(samples) == (
            BoundedWait {
                status: WaitStatus::Pending,
                polls_left: (budget - samples.len()) as u32,
            }),
            samples.len() >= budget && samples.len() >= 1 ==> BoundedWait::started(
                budget,
            ).after_polls(samples) == (BoundedWait { status: WaitStatus::TimedOut, polls_left: 0 }),
        decreases samples.len(),
    {
        if samples.len() > 0 {
            Self::lemma_silent_signal(budget, samples.drop_last());
        }
    }

    /// A wait ends as asserted only if some sample was high, and never after
    /// more low samples than the budget allows.
    pub proof fn lemma_asserted_was_sampled(budget: u32, samples: Seq<bool>)
        requires
            BoundedWait::started(budget).after_polls(samples).status == WaitStatus::Asserted,
        ensures
            exists|i: int|
                0 <= i < samples.len() && i < budget && samples[i] && (forall|j: int|
                    0 <= j < i ==> !samples[j]),
        decreases samples.len(),
    {
        let start = BoundedWait::started(budget);
        if samples.len() > 0 {
            let before = start.after_polls(samples.drop_last());
            if before.status == WaitStatus::Asserted {
                Self::lemma_asserted_was_sampled(budget, samples.drop_last());
                let i = choose|i: int|
                    0 <= i < samples.drop_last().len() && i < budget && samples.drop_last()[i] && (
                    forall|j: int| 0 <= j < i ==> !samples.drop_last()[j]);
                assert(samples[i]);
                assert(forall|j: int| 0 <= j < i ==> !samples[j]) by {
                    assert(forall|j: int| 0 <= j < i ==> samples[j] == samples.drop_last()[j]);
                }
            } else {
                // The last sample is the one that was seen.
                assert(before.status == WaitStatus::Pending);
                assert(samples.last());
                Self::lemma_pending_means_silent(budget, samples.drop_last());
                let i = samples.len() - 1;
                assert(samples[i]);
                assert(forall|j: int| 0 <= j < i ==> !samples[j]) by {
                    assert(forall|j: int| 0 <= j < i ==> samples[j] == samples.drop_last()[j]);
                }
            }
        }
    }

    /// A wait that is still pending has seen only low samples, fewer than
    /// its budget.
    pub proof fn lemma_pending_means_silent(budget: u32, samples: Seq<bool>)
        requires
            BoundedWait::started(budget).after_polls(samples).status == WaitStatus::Pending,
        ensures
            forall|i: int| 0 <= i < samples.len() ==> !samples[i],
            samples.len() < budget || samples.len() == 0,
            BoundedWait::started(budget).after_polls(samples).polls_left == budget - samples.len(),
        decreases samples.len(),
    {
        if samples.len() > 0 {
            let before = BoundedWait::started(budget).after_polls(samples.drop_last());
            assert(before.status == WaitStatus::Pending);
            Self::lemma_pending_means_silent(budget, samples.drop_last());
            assert(forall|i: int| 0 <= i < samples.len() - 1 ==> samples[i] == samples.drop_last()[i]);
        }
    }
}

} // verus!
