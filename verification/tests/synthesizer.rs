use status_display::error::FatalError;
use status_display::oscillator::ReferenceClock;
use status_display::synthesizer::{
    peripheral_config, system_config, Synthesizer, SynthesizerConfig, VCO_MAX_HZ, VCO_MIN_HZ,
};
use status_display::units::megahertz;

const CRYSTAL: u32 = 12_000_000;

fn config(vco_mhz: u32, refdiv: u8, post_div1: u8, post_div2: u8) -> SynthesizerConfig {
    SynthesizerConfig::new(vco_mhz, refdiv, post_div1, post_div2).unwrap()
}

fn stable(frequency_hz: u32) -> ReferenceClock {
    ReferenceClock { frequency_hz, stable: true }
}

#[test]
fn megahertz_scales_by_a_million() {
    assert_eq!(megahertz(0), Some(0));
    assert_eq!(megahertz(1), Some(1_000_000));
    assert_eq!(megahertz(510), Some(510_000_000));
    assert_eq!(megahertz(4_294), Some(4_294_000_000));
}

#[test]
fn megahertz_rejects_what_does_not_fit() {
    assert_eq!(megahertz(4_295), None);
    assert_eq!(megahertz(u32::MAX), None);
}

#[test]
fn new_takes_the_oscillator_frequency_in_megahertz() {
    assert_eq!(
        SynthesizerConfig::new(510, 2, 6, 6),
        Some(SynthesizerConfig { vco_freq_hz: 510_000_000, refdiv: 2, post_div1: 6, post_div2: 6 })
    );
    assert_eq!(SynthesizerConfig::new(4_295, 1, 1, 1), None);
}

#[test]
fn system_config_is_the_documented_one() {
    assert_eq!(
        system_config(),
        SynthesizerConfig { vco_freq_hz: 510_000_000, refdiv: 2, post_div1: 6, post_div2: 6 }
    );
}

#[test]
fn peripheral_config_is_the_usb_preset() {
    assert_eq!(
        peripheral_config(),
        SynthesizerConfig { vco_freq_hz: 480_000_000, refdiv: 1, post_div1: 5, post_div2: 2 }
    );
}

#[test]
fn documented_example_resolves_to_seven_megahertz() {
    // 510 MHz / 2 / 6 / 6, rounded down.
    assert_eq!(system_config().resolve(CRYSTAL), Ok(7_083_333));
}

#[test]
fn other_system_configurations_resolve_as_tabulated() {
    assert_eq!(config(400, 1, 6, 6).resolve(CRYSTAL), Ok(11_111_111));
    assert_eq!(config(600, 2, 6, 6).resolve(CRYSTAL), Ok(8_333_333));
    assert_eq!(config(1500, 1, 6, 2).resolve(CRYSTAL), Ok(125_000_000));
}

#[test]
fn usb_preset_resolves_to_48_megahertz() {
    assert_eq!(peripheral_config().resolve(CRYSTAL), Ok(48_000_000));
}

#[test]
fn oscillator_band_is_inclusive() {
    assert_eq!(VCO_MIN_HZ, 400_000_000);
    assert_eq!(VCO_MAX_HZ, 1_600_000_000);
    assert_eq!(config(400, 1, 1, 1).resolve(CRYSTAL), Ok(400_000_000));
    assert_eq!(config(1600, 1, 1, 1).resolve(CRYSTAL), Ok(1_600_000_000));
    assert_eq!(config(399, 1, 1, 1).resolve(CRYSTAL), Err(FatalError::InvalidConfig));
    assert_eq!(config(1601, 1, 1, 1).resolve(CRYSTAL), Err(FatalError::InvalidConfig));
    let just_below = SynthesizerConfig { vco_freq_hz: 399_999_999, refdiv: 1, post_div1: 1, post_div2: 1 };
    assert_eq!(just_below.resolve(CRYSTAL), Err(FatalError::InvalidConfig));
}

#[test]
fn post_dividers_run_from_one_to_six() {
    assert_eq!(config(480, 1, 1, 6).resolve(CRYSTAL), Ok(80_000_000));
    assert_eq!(config(480, 1, 6, 1).resolve(CRYSTAL), Ok(80_000_000));
    assert_eq!(config(480, 1, 0, 2).resolve(CRYSTAL), Err(FatalError::InvalidConfig));
    assert_eq!(config(480, 1, 2, 0).resolve(CRYSTAL), Err(FatalError::InvalidConfig));
    assert_eq!(config(480, 1, 7, 2).resolve(CRYSTAL), Err(FatalError::InvalidConfig));
    assert_eq!(config(480, 1, 2, 7).resolve(CRYSTAL), Err(FatalError::InvalidConfig));
}

#[test]
fn reference_divider_of_zero_is_rejected() {
    assert_eq!(config(480, 0, 5, 2).resolve(CRYSTAL), Err(FatalError::InvalidConfig));
}

#[test]
fn divided_reference_must_reach_five_megahertz() {
    // 12 MHz / 2 = 6 MHz is inside the band, 12 MHz / 3 = 4 MHz is not.
    assert_eq!(config(480, 2, 5, 2).resolve(CRYSTAL), Ok(24_000_000));
    assert_eq!(config(480, 3, 5, 2).resolve(CRYSTAL), Err(FatalError::InvalidConfig));
    assert_eq!(config(480, 1, 5, 2).resolve(5_000_000), Ok(48_000_000));
    assert_eq!(config(480, 1, 5, 2).resolve(4_999_999), Err(FatalError::InvalidConfig));
}

#[test]
fn divided_reference_must_stay_below_a_sixteenth_of_the_oscillator() {
    // 400 MHz / 16 = 25 MHz.
    assert_eq!(config(400, 1, 2, 2).resolve(24_999_999), Ok(100_000_000));
    assert_eq!(config(400, 1, 2, 2).resolve(25_000_000), Err(FatalError::InvalidConfig));
}

#[test]
fn feedback_divider_must_stay_below_320() {
    // 1600 MHz over 5 MHz needs a feedback divider of exactly 320.
    assert_eq!(config(1600, 1, 2, 2).resolve(5_000_000), Err(FatalError::InvalidConfig));
    // 1595 MHz over 5 MHz needs 319.
    assert_eq!(config(1595, 1, 2, 2).resolve(5_000_000), Ok(398_750_000));
}

#[test]
fn target_is_met_only_without_remainder() {
    let usb = peripheral_config();
    assert_eq!(usb.check_target(48_000_000), Ok(()));
    assert_eq!(usb.check_target(48_000_001), Err(FatalError::InvalidConfig));
    assert_eq!(usb.check_target(47_999_999), Err(FatalError::InvalidConfig));
    // 510 MHz does not divide by 36: no target is met, not even the
    // rounded quotient.
    let system = system_config();
    assert_eq!(system.check_target(14_166_666), Err(FatalError::InvalidConfig));
    assert_eq!(system.check_target(14_166_667), Err(FatalError::InvalidConfig));
    assert_eq!(system.check_target(7_083_333), Err(FatalError::InvalidConfig));
}

#[test]
fn target_check_at_the_divider_boundaries() {
    for post_div1 in 1u8..=6 {
        for post_div2 in 1u8..=6 {
            let divider = post_div1 as u32 * post_div2 as u32;
            for vco_mhz in [400u32, 756, 1_200, 1_596, 1_600] {
                let cfg = config(vco_mhz, 1, post_div1, post_div2);
                let vco = vco_mhz * 1_000_000;
                if vco % divider == 0 {
                    let target = vco / divider;
                    assert_eq!(cfg.check_target(target), Ok(()));
                    assert_eq!(target * divider, vco);
                    // With a reference divider of one the output is the target.
                    assert_eq!(cfg.resolve(CRYSTAL), Ok(target));
                } else {
                    assert_eq!(cfg.check_target(vco / divider), Err(FatalError::InvalidConfig));
                }
            }
        }
    }
}

#[test]
fn target_check_rejects_a_zero_post_divider() {
    let cfg = SynthesizerConfig { vco_freq_hz: 480_000_000, refdiv: 1, post_div1: 0, post_div2: 2 };
    assert_eq!(cfg.check_target(0), Err(FatalError::InvalidConfig));
    assert_eq!(cfg.check_target(240_000_000), Err(FatalError::InvalidConfig));
}

#[test]
fn configure_begins_a_wait_for_lock() {
    let mut synthesizer = Synthesizer::configure(&stable(CRYSTAL), &system_config(), 3).unwrap();
    assert!(!synthesizer.is_locked());
    assert_eq!(synthesizer.output_hz, 7_083_333);
    assert_eq!(synthesizer.poll_lock(false), Ok(None));
    assert_eq!(synthesizer.poll_lock(false), Ok(None));
    assert_eq!(synthesizer.poll_lock(true), Ok(Some(7_083_333)));
    assert!(synthesizer.is_locked());
    // A locked synthesizer stays locked whatever is sampled afterwards.
    assert_eq!(synthesizer.poll_lock(false), Ok(Some(7_083_333)));
}

#[test]
fn configure_rejects_an_unsupported_configuration() {
    let result = Synthesizer::configure(&stable(CRYSTAL), &config(300, 1, 6, 6), 3);
    assert_eq!(result, Err(FatalError::InvalidConfig));
}

#[test]
fn lock_that_never_comes_times_out() {
    let mut synthesizer = Synthesizer::configure(&stable(CRYSTAL), &peripheral_config(), 3).unwrap();
    assert_eq!(synthesizer.poll_lock(false), Ok(None));
    assert_eq!(synthesizer.poll_lock(false), Ok(None));
    assert_eq!(synthesizer.poll_lock(false), Err(FatalError::HardwareTimeout));
    assert!(!synthesizer.is_locked());
    // Too late.
    assert_eq!(synthesizer.poll_lock(true), Err(FatalError::HardwareTimeout));
}
