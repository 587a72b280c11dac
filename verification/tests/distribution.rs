use status_display::distribution::{
    tick_divisor, ClockRegime, ClockRole, ClockTree, DerivedClock,
};
use status_display::error::FatalError;
use status_display::oscillator::{Oscillator, ReferenceClock};
use status_display::synthesizer::{peripheral_config, system_config, Synthesizer};
use status_display::wait::{BoundedWait, WaitStatus};

#[test]
fn tick_divisor_is_the_reference_in_whole_megahertz() {
    assert_eq!(tick_divisor(12_000_000), 12);
    assert_eq!(tick_divisor(8_300_000), 8);
    assert_eq!(tick_divisor(1_000_000), 1);
    assert_eq!(tick_divisor(15_999_999), 15);
}

#[test]
fn tick_divisor_below_one_megahertz_is_zero() {
    assert_eq!(tick_divisor(0), 0);
    assert_eq!(tick_divisor(999_999), 0);
}

#[test]
fn tick_divisor_keeps_eight_bits() {
    assert_eq!(tick_divisor(255_000_000), 255);
    assert_eq!(tick_divisor(255_999_999), 255);
    assert_eq!(tick_divisor(256_000_000), 0);
    assert_eq!(tick_divisor(300_000_000), 44);
    // 4294 = 16 * 256 + 198
    assert_eq!(tick_divisor(u32::MAX), 198);
}

#[test]
fn oscillator_yields_a_stable_reference() {
    let mut oscillator = Oscillator::start(12_000_000, 10).unwrap();
    assert_eq!(oscillator.poll_ready(false), Ok(None));
    assert_eq!(
        oscillator.poll_ready(true),
        Ok(Some(ReferenceClock { frequency_hz: 12_000_000, stable: true }))
    );
    assert_eq!(oscillator.wait.polls_left, 9);
}

#[test]
fn oscillator_times_out_when_the_budget_is_spent() {
    let mut oscillator = Oscillator::start(12_000_000, 2).unwrap();
    assert_eq!(oscillator.poll_ready(false), Ok(None));
    assert_eq!(oscillator.poll_ready(false), Err(FatalError::HardwareTimeout));
    assert_eq!(oscillator.poll_ready(true), Err(FatalError::HardwareTimeout));
}

#[test]
fn oscillator_takes_crystals_from_one_to_fifteen_megahertz() {
    assert!(Oscillator::start(1_000_000, 1).is_ok());
    assert!(Oscillator::start(15_000_000, 1).is_ok());
    assert_eq!(Oscillator::start(999_999, 1), Err(FatalError::InvalidConfig));
    assert_eq!(Oscillator::start(15_000_001, 1), Err(FatalError::InvalidConfig));
    assert_eq!(Oscillator::start(0, 1), Err(FatalError::InvalidConfig));
}

#[test]
fn bounded_wait_counts_down() {
    let mut wait = BoundedWait::new(3);
    assert!(wait.is_pending());
    assert_eq!(wait.poll(false), WaitStatus::Pending);
    assert_eq!(wait, BoundedWait { status: WaitStatus::Pending, polls_left: 2 });
    assert_eq!(wait.poll(false), WaitStatus::Pending);
    assert_eq!(wait.poll(false), WaitStatus::TimedOut);
    assert_eq!(wait, BoundedWait { status: WaitStatus::TimedOut, polls_left: 0 });
    assert!(!wait.is_pending());
}

#[test]
fn bounded_wait_ends_on_the_last_allowed_sample() {
    let mut wait = BoundedWait::new(2);
    assert_eq!(wait.poll(false), WaitStatus::Pending);
    assert_eq!(wait.poll(true), WaitStatus::Asserted);
    assert_eq!(wait.poll(false), WaitStatus::Asserted);
    assert_eq!(wait, BoundedWait { status: WaitStatus::Asserted, polls_left: 1 });
}

#[test]
fn bounded_wait_without_budget_times_out() {
    let mut wait = BoundedWait::new(0);
    assert_eq!(wait.poll(true), WaitStatus::TimedOut);
}

#[test]
fn tree_has_no_clock_before_distribution() {
    let tree = ClockTree::bootstrap();
    assert!(!tree.is_distributed());
    assert_eq!(tree.system_clock(), None);
    assert_eq!(tree.peripheral_clock(), None);
}

#[test]
fn distribution_installs_the_synthesizer_outputs() {
    let reference = ReferenceClock { frequency_hz: 12_000_000, stable: true };
    let mut system = Synthesizer::configure(&reference, &system_config(), 4).unwrap();
    let mut peripheral = Synthesizer::configure(&reference, &peripheral_config(), 4).unwrap();
    assert_eq!(system.poll_lock(true), Ok(Some(7_083_333)));
    assert_eq!(peripheral.poll_lock(true), Ok(Some(48_000_000)));
    assert!(system.is_locked() && peripheral.is_locked() && reference.stable);
    let mut tree = ClockTree::bootstrap();
    let regime = tree.distribute(&reference, &system, &peripheral);
    assert_eq!(
        regime,
        ClockRegime {
            reference_hz: 12_000_000,
            system: DerivedClock { role: ClockRole::System, frequency_hz: 7_083_333 },
            peripheral: DerivedClock { role: ClockRole::Peripheral, frequency_hz: 48_000_000 },
            tick_divisor: 12,
        }
    );
    assert!(tree.is_distributed());
    assert_eq!(tree.regime, Some(regime));
    assert_eq!(tree.system_clock(), Some(regime.system));
    assert_eq!(tree.peripheral_clock(), Some(regime.peripheral));
}

#[test]
fn errors_describe_themselves() {
    assert_eq!(FatalError::HardwareTimeout.description(), "hardware signal did not assert in time");
    assert_eq!(FatalError::InvalidConfig.description(), "synthesizer configuration out of range");
    assert_eq!(FatalError::AllocationFailure.description(), "memory allocation failed");
    assert_eq!(FatalError::UnrecoverableFault.description(), "unrecoverable fault");
}
