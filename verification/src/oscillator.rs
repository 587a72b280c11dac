//! Bring-up of the external reference oscillator.
//!
//! The nominal frequency is checked against the range of crystals that the
//! oscillator circuit drives. Then the circuit is enabled and its ready bit
//! is sampled until it is set or the poll budget is spent. A reference clock
//! exists only once the bit was seen set.

use vstd::prelude::*;
use crate::error::FatalError;
use crate::wait::{BoundedWait, WaitStatus};

verus! {

/// Slowest crystal that the oscillator circuit drives.
pub const CRYSTAL_MIN_HZ: u32 = 1_000_000;

/// Fastest crystal that the oscillator circuit drives.
pub const CRYSTAL_MAX_HZ: u32 = 15_000_000;

/// Whether the oscillator circuit drives a crystal of this frequency.
pub open spec fn crystal_supported(nominal_hz: u32) -> bool {
    CRYSTAL_MIN_HZ <= nominal_hz <= CRYSTAL_MAX_HZ
}

/// The board's frequency standard.
#[derive(Clone, Copy, Debug, PartialEq, Eq, Structural)]
pub struct ReferenceClock {
    /// Nominal frequency of the crystal.
    pub frequency_hz: u32,
    /// Whether the oscillator has reported that it runs stably.
    pub stable: bool,
}

/// An oscillator that has been enabled and is being watched.
#[derive(Clone, Copy, Debug, PartialEq, Eq, Structural)]
pub struct Oscillator {
    pub nominal_hz: u32,
    pub wait: BoundedWait,
}

impl Oscillator {
    /// The reference that a stable oscillator of this frequency provides.
    pub open spec fn reference_of(nominal_hz: u32) -> ReferenceClock {
        ReferenceClock { frequency_hz: nominal_hz, stable: true }
    }

    /// The oscillator after one more sample of its ready bit.
    pub open spec fn after_poll(self, ready: bool) -> Oscillator {
        Oscillator { nominal_hz: self.nominal_hz, wait: self.wait.after_poll(ready) }
    }

    /// What a sample of the ready bit yields, given the wait it leaves behind.
    pub open spec fn outcome(self) -> Result<Option<ReferenceClock>, FatalError> {
        match self.wait.status {
            WaitStatus::Asserted => Ok(Some(Self::reference_of(self.nominal_hz))),
            WaitStatus::Pending => Ok(None),
            WaitStatus::TimedOut => Err(FatalError::HardwareTimeout),
        }
    }

    /// Checks the nominal frequency and begins watching the oscillator.
    ///
    /// Fails with `InvalidConfig` exactly when the frequency is outside the
    /// range from `CRYSTAL_MIN_HZ` to `CRYSTAL_MAX_HZ`.
    pub fn start(nominal_hz: u32, poll_budget: u32) -> (result: Result<Oscillator, FatalError>)
        ensures
            crystal_supported(nominal_hz) ==> result == Ok::<Oscillator, FatalError>(
                Oscillator { nominal_hz, wait: BoundedWait::started(poll_budget) },
            ),
            !crystal_supported(nominal_hz) ==> result == Err::<Oscillator, FatalError>(
                FatalError::InvalidConfig,
            ),
    {
        if CRYSTAL_MIN_HZ <= nominal_hz && nominal_hz <= CRYSTAL_MAX_HZ {
            Ok(Oscillator { nominal_hz, wait: BoundedWait::new(poll_budget) })
        } else {
            Err(FatalError::InvalidConfig)
        }
    }

    /// Takes one sample of the ready bit.
    ///
    /// Returns the reference clock once the bit was seen set, `None` while
    /// the wait goes on, and `HardwareTimeout` when the budget is spent.
    pub fn poll_ready(&mut self, ready: bool) -> (result: Result<Option<ReferenceClock>, FatalError>)
        ensures
            *final(self) == old(self).after_poll(ready),
            result == final(self).outcome(),
    {
        match self.wait.poll(ready) {
            WaitStatus::Asserted => Ok(
                Some(ReferenceClock { frequency_hz: self.nominal_hz, stable: true }),
            ),
            WaitStatus::Pending => Ok(None),
            WaitStatus::TimedOut => Err(FatalError::HardwareTimeout),
        }
    }
}

} // verus!
