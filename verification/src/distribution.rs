//! Clock distribution.
//!
//! Once both synthesizers are locked the system and peripheral clocks are
//! switched over to them, and the tick generator is given the number of
//! reference cycles in one microsecond. Before that no derived clock exists:
//! a frequency read from the tree is always that of the current regime.

use vstd::prelude::*;
use crate::oscillator::ReferenceClock;
use crate::synthesizer::Synthesizer;

verus! {

/// What a derived clock feeds.
#[derive(Clone, Copy, Debug, PartialEq, Eq, Structural)]
pub enum ClockRole {
    /// The processor and the bus fabric.
    System,
    /// The peripheral that needs its own fixed frequency (USB).
    Peripheral,
}

/// A clock signal together with the frequency it was resolved to.
#[derive(Clone, Copy, Debug, PartialEq, Eq, Structural)]
pub struct DerivedClock {
    pub role: ClockRole,
    pub frequency_hz: u32,
}

/// The clocks that are in force after distribution.
#[derive(Clone, Copy, Debug, PartialEq, Eq, Structural)]
pub struct ClockRegime {
    pub reference_hz: u32,
    pub system: DerivedClock,
    pub peripheral: DerivedClock,
    /// Reference cycles per tick of the tick generator.
    pub tick_divisor: u8,
}

/// Cycles of the reference clock that make up one microsecond, cut down to
/// the eight bits of the tick generator's divisor field.
pub open spec fn tick_divisor_of(reference_hz: u32) -> int {
    (reference_hz as int / 1_000_000) % 256
}

/// The divisor to program into the tick generator for this reference.
pub fn tick_divisor(reference_hz: u32) -> (cycles: u8)
    ensures
        cycles as int == tick_divisor_of(reference_hz),
{
    let whole: u32 = reference_hz / 1_000_000;
    (whole % 256) as u8
}

/// The regime that follows from a reference and two synthesizer outputs.
pub open spec fn regime_of(reference_hz: u32, system_hz: u32, peripheral_hz: u32) -> ClockRegime {
    ClockRegime {
        reference_hz,
        system: DerivedClock { role: ClockRole::System, frequency_hz: system_hz },
        peripheral: DerivedClock { role: ClockRole::Peripheral, frequency_hz: peripheral_hz },
        tick_divisor: tick_divisor_of(reference_hz) as u8,
    }
}

/// The clock tree of the chip.
///
/// It starts out on the bootstrap source, with no regime, and gets one when
/// the clocks are distributed.
#[derive(Clone, Copy, Debug, PartialEq, Eq, Structural)]
pub struct ClockTree {
    pub regime: Option<ClockRegime>,
}

impl ClockTree {
    /// The tree as the chip leaves reset: running from the bootstrap source.
    pub fn bootstrap() -> (tree: ClockTree)
        ensures
            tree.regime is None,
    {
        ClockTree { regime: None }
    }

    /// Switches the system clock to the first synthesizer and the peripheral
    /// clock to the second, and derives the tick divisor from the reference.
    ///
    /// Both synthesizers must be locked and the reference stable.
    pub fn distribute(
        &mut self,
        reference: &ReferenceClock,
        system: &Synthesizer,
        peripheral: &Synthesizer,
    ) -> (regime: ClockRegime)
        requires
            reference.stable,
            system.locked(),
            peripheral.locked(),
        ensures
            regime == regime_of(reference.frequency_hz, system.output_hz, peripheral.output_hz),
            final(self).regime == Some(regime),
    {
        let regime = ClockRegime {
            reference_hz: reference.frequency_hz,
            system: DerivedClock { role: ClockRole::System, frequency_hz: system.output_hz },
            peripheral: DerivedClock {
                role: ClockRole::Peripheral,
                frequency_hz: peripheral.output_hz,
            },
            tick_divisor: tick_divisor(reference.frequency_hz),
        };
        self.regime = Some(regime);
        regime
    }

    pub fn is_distributed(&self) -> (distributed: bool)
        ensures
            distributed == self.regime is Some,
    {
        self.regime.is_some()
    }

    /// The system clock of the current regime, if the clocks were
    /// distributed.
    pub fn system_clock(&self) -> (clock: Option<DerivedClock>)
        ensures
            clock == match self.regime {
                Some(regime) => Some(regime.system),
                None => None,
            },
    {
        match self.regime {
            Some(regime) => Some(regime.system),
            None => None,
        }
    }

    /// The peripheral clock of the current regime, if the clocks were
    /// distributed.
    pub fn peripheral_clock(&self) -> (clock: Option<DerivedClock>)
        ensures
            clock == match self.regime {
                Some(regime) => Some(regime.peripheral),
                None => None,
            },
    {
        match self.regime {
            Some(regime) => Some(regime.peripheral),
            None => None,
        }
    }
}

} // verus!
