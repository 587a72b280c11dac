//! The conditions that end the boot sequence or the render loop.
//!
//! Every one of them is fatal: the device reports it once, as well as it
//! can, and then parks the processor. There is no retry and no degraded mode.

use vstd::prelude::*;

verus! {

/// Why the device stopped.
#[derive(Clone, Copy, Debug, PartialEq, Eq, Structural)]
pub enum FatalError {
    /// A ready or lock signal stayed low for the whole poll budget.
    HardwareTimeout,
    /// A synthesizer configuration lies outside the supported bands.
    InvalidConfig,
    /// The dynamic-memory region is exhausted.
    AllocationFailure,
    /// Any other abnormal condition.
    UnrecoverableFault,
}

impl FatalError {
    /// The text that `description` hands to the diagnostic sink.
    pub open spec fn description_of(self) -> Seq<char> {
        match self {
            FatalError::HardwareTimeout => "hardware signal did not assert in time"@,
            FatalError::InvalidConfig => "synthesizer configuration out of range"@,
            FatalError::AllocationFailure => "memory allocation failed"@,
            FatalError::UnrecoverableFault => "unrecoverable fault"@,
        }
    }

    /// One line for the diagnostic sink.
    pub fn description(&self) -> (text: &'static str)
        ensures
            text@ == self.description_of(),
    {
        match self {
            FatalError::HardwareTimeout => "hardware signal did not assert in time",
            FatalError::InvalidConfig => "synthesizer configuration out of range",
            FatalError::AllocationFailure => "memory allocation failed",
            FatalError::UnrecoverableFault => "unrecoverable fault",
        }
    }
}

} // verus!
