//! Frequency synthesizers.
//!
//! A synthesizer divides the reference, multiplies it up to the frequency of
//! its voltage-controlled oscillator, and divides that down again through
//! two post dividers. A configuration is checked against the bands in which
//! the circuit is stable before anything is programmed; after that the lock
//! bit is sampled until it is set or the poll budget is spent.

use vstd::prelude::*;
use crate::error::FatalError;
use crate::oscillator::ReferenceClock;
use crate::units::megahertz;
use crate::wait::{BoundedWait, WaitStatus};

verus! {

/// Lowest frequency at which the voltage-controlled oscillator is stable.
pub const VCO_MIN_HZ: u32 = 400_000_000;

/// Highest frequency at which the voltage-controlled oscillator is stable.
pub const VCO_MAX_HZ: u32 = 1_600_000_000;

/// Lowest frequency that the phase detector accepts as its input.
pub const INPUT_MIN_HZ: u32 = 5_000_000;

/// The divided reference must stay below the oscillator frequency divided by
/// this number.
pub const INPUT_RATIO: u32 = 16;

/// Largest value of either post divider.
pub const POST_DIVIDER_MAX: u8 = 6;

/// Smallest feedback divider.
pub const FEEDBACK_MIN: u32 = 16;

/// The feedback divider stays below this number.
pub const FEEDBACK_LIMIT: u32 = 320;

/// Dividers and oscillator frequency of one synthesizer.
#[derive(Clone, Copy, Debug, PartialEq, Eq, Structural)]
pub struct SynthesizerConfig {
    /// Frequency of the voltage-controlled oscillator.
    pub vco_freq_hz: u32,
    /// Divider applied to the reference before the phase detector.
    pub refdiv: u8,
    pub post_div1: u8,
    pub post_div2: u8,
}

impl SynthesizerConfig {
    /// The reference after the reference divider.
    pub open spec fn input_hz(self, reference_hz: u32) -> int {
        reference_hz as int / self.refdiv as int
    }

    /// The feedback divider that multiplies the divided reference up to the
    /// oscillator frequency.
    pub open spec fn feedback(self, reference_hz: u32) -> int {
        self.vco_freq_hz as int / self.input_hz(reference_hz)
    }

    /// Product of the two post dividers.
    pub open spec fn post_divider(self) -> int {
        self.post_div1 as int * self.post_div2 as int
    }

    /// Whether every frequency and divider lies inside its band for this
    /// reference.
    pub open spec fn supported(self, reference_hz: u32) -> bool {
        &&& VCO_MIN_HZ <= self.vco_freq_hz <= VCO_MAX_HZ
        &&& 1 <= self.post_div1 <= POST_DIVIDER_MAX
        &&& 1 <= self.post_div2 <= POST_DIVIDER_MAX
        &&& self.refdiv >= 1
        &&& INPUT_MIN_HZ <= self.input_hz(reference_hz) < self.vco_freq_hz as int / INPUT_RATIO as int
        &&& FEEDBACK_MIN <= self.feedback(reference_hz) < FEEDBACK_LIMIT
    }

    /// The frequency that the synthesizer reports once locked: the
    /// oscillator frequency divided by the reference divider and by both
    /// post dividers, each division rounding down.
    pub open spec fn output_hz(self) -> int {
        self.vco_freq_hz as int / self.refdiv as int / self.post_div1 as int / self.post_div2 as int
    }

    /// Whether the post dividers take the oscillator frequency to
    /// `target_hz` with nothing left over.
    pub open spec fn hits_target(self, target_hz: u32) -> bool {
        &&& self.post_divider() != 0
        &&& self.vco_freq_hz as int % self.post_divider() == 0
        &&& self.vco_freq_hz as int / self.post_divider() == target_hz
    }

    /// A configuration with the oscillator frequency given in megahertz, or
    /// `None` where that frequency does not fit in a `u32` of hertz.
    pub fn new(vco_mhz: u32, refdiv: u8, post_div1: u8, post_div2: u8) -> (config: Option<
        SynthesizerConfig,
    >)
        ensures
            vco_mhz * 1_000_000 <= u32::MAX ==> config == Some(
                SynthesizerConfig {
                    vco_freq_hz: (vco_mhz * 1_000_000) as u32,
                    refdiv,
                    post_div1,
                    post_div2,
                },
            ),
            vco_mhz * 1_000_000 > u32::MAX ==> config is None,
    {
        match megahertz(vco_mhz) {
            Some(vco_freq_hz) => Some(SynthesizerConfig { vco_freq_hz, refdiv, post_div1, post_div2 }),
            None => None,
        }
    }

    /// Checks the configuration against the bands and returns the output
    /// frequency.
    ///
    /// Fails with `InvalidConfig` exactly when the configuration is not
    /// supported for this reference.
    pub fn resolve(&self, reference_hz: u32) -> (result: Result<u32, FatalError>)
        ensures
            self.supported(reference_hz) ==> result == Ok::<u32, FatalError>(
                self.output_hz() as u32,
            ),
            self.supported(reference_hz) ==> 0 < self.output_hz() <= self.vco_freq_hz,
            !self.supported(reference_hz) ==> result == Err::<u32, FatalError>(
                FatalError::InvalidConfig,
            ),
    {
        if self.vco_freq_hz < VCO_MIN_HZ || self.vco_freq_hz > VCO_MAX_HZ {
            return Err(FatalError::InvalidConfig);
        }
        if self.post_div1 < 1 || self.post_div1 > POST_DIVIDER_MAX {
            return Err(FatalError::InvalidConfig);
        }
        if self.post_div2 < 1 || self.post_div2 > POST_DIVIDER_MAX {
            return Err(FatalError::InvalidConfig);
        }
        if self.refdiv < 1 {
            return Err(FatalError::InvalidConfig);
        }
        let input: u32 = reference_hz / (self.refdiv as u32);
        if input < INPUT_MIN_HZ || input >= self.vco_freq_hz / INPUT_RATIO {
            return Err(FatalError::InvalidConfig);
        }
        let feedback: u32 = self.vco_freq_hz / input;
        if feedback < FEEDBACK_MIN || feedback >= FEEDBACK_LIMIT {
            return Err(FatalError::InvalidConfig);
        }
        let divided: u32 = self.vco_freq_hz / (self.refdiv as u32);
        let output: u32 = divided / (self.post_div1 as u32) / (self.post_div2 as u32);
        proof {
            Self::lemma_output_positive(*self);
        }
        Ok(output)
    }

    /// Checks that the post dividers take the oscillator frequency to
    /// `target_hz` exactly.
    ///
    /// Fails with `InvalidConfig` when the division leaves a remainder, when
    /// the quotient is another frequency, or when a post divider is zero.
    pub fn check_target(&self, target_hz: u32) -> (result: Result<(), FatalError>)
        ensures
            self.hits_target(target_hz) ==> result == Ok::<(), FatalError>(()),
            !self.hits_target(target_hz) ==> result == Err::<(), FatalError>(
                FatalError::InvalidConfig,
            ),
    {
        assert(self.post_div1 * self.post_div2 <= 255 * 255) by (nonlinear_arith);
        let divider: u32 = (self.post_div1 as u32) * (self.post_div2 as u32);
        if divider == 0 {
            return Err(FatalError::InvalidConfig);
        }
        if self.vco_freq_hz % divider == 0 && self.vco_freq_hz / divider == target_hz {
            Ok(())
        } else {
            Err(FatalError::InvalidConfig)
        }
    }

    /// The output of a supported configuration is a frequency above zero and
    /// not above that of the oscillator, so it is a `u32` as it stands.
    pub proof fn lemma_output_in_range(self, reference_hz: u32)
        requires
            self.supported(reference_hz),
        ensures
            0 < self.output_hz() <= self.vco_freq_hz,
            self.output_hz() as u32 == self.output_hz(),
    {
        Self::lemma_output_positive(self);
    }

    /// With dividers of at most 255 each, an oscillator frequency inside its
    /// band never divides down to zero.
    pub proof fn lemma_output_positive(config: SynthesizerConfig)
        requires
            config.vco_freq_hz >= VCO_MIN_HZ,
            config.refdiv >= 1,
            config.post_div1 >= 1,
            config.post_div2 >= 1,
        ensures
            0 < config.output_hz() <= config.vco_freq_hz,
    {
        let v = config.vco_freq_hz as int;
        let r = config.refdiv as int;
        let p = config.post_div1 as int;
        let q = config.post_div2 as int;
        assert(v / r >= 1_568_627 && v / r <= v) by (nonlinear_arith)
            requires
                v >= 400_000_000,
                1 <= r <= 255,
        ;
        let a = v / r;
        assert(a / p >= 6_151 && a / p <= a) by (nonlinear_arith)
            requires
                a >= 1_568_627,
                1 <= p <= 255,
        ;
        let b = a / p;
        assert(b / q >= 24 && b / q <= b) by (nonlinear_arith)
            requires
                b >= 6_151,
                1 <= q <= 255,
        ;
    }

    /// A configuration that hits its target loses nothing in the post
    /// dividers: the target times their product is the oscillator frequency
    /// again, and the reported output is the target divided by the reference
    /// divider. With a reference divider of one the output is the target.
    pub proof fn lemma_target_is_exact(config: SynthesizerConfig, target_hz: u32)
        requires
            config.hits_target(target_hz),
            config.refdiv >= 1,
        ensures
            target_hz * config.post_divider() == config.vco_freq_hz,
            config.output_hz() == target_hz as int / config.refdiv as int,
            config.refdiv == 1 ==> config.output_hz() == target_hz,
    {
        let v = config.vco_freq_hz as int;
        let r = config.refdiv as int;
        let p = config.post_div1 as int;
        let q = config.post_div2 as int;
        let t = target_hz as int;
        assert(p >= 1 && q >= 1) by (nonlinear_arith)
            requires
                p >= 0,
                q >= 0,
                p * q != 0,
        ;
        assert(t * (p * q) == v) by (nonlinear_arith)
            requires
                p * q != 0,
                v % (p * q) == 0,
                v / (p * q) == t,
        ;
        // v = t * p * q, so dividing by p and q in turn gives t back.
        assert(v / r / p / q == t / r) by (nonlinear_arith)
            requires
                t * (p * q) == v,
                t >= 0,
                r >= 1,
                p >= 1,
                q >= 1,
        {
            vstd::arithmetic::div_mod::lemma_div_denominator(v, r, p);
            vstd::arithmetic::div_mod::lemma_div_denominator(v, r * p, q);
            vstd::arithmetic::div_mod::lemma_div_denominator(v, p * q, r);
            assert(r * p * q == p * q * r);
            assert(v / (p * q) == t);
        }
        assert(t / 1 == t);
    }
}

/// Reads `rp2040_hal::pll::common_configs::PLL_USB_48MHZ`.
///
/// Trusted: the constant holds an oscillator frequency of 480 MHz, a
/// reference divider of 1 and post dividers 5 and 2.
#[verifier::external_body]
fn hal_usb_preset() -> (config: SynthesizerConfig)
    ensures
        config == (SynthesizerConfig {
            vco_freq_hz: 480_000_000,
            refdiv: 1,
            post_div1: 5,
            post_div2: 2,
        }),
{
    let preset = rp_pico::hal::pll::common_configs::PLL_USB_48MHZ;
    SynthesizerConfig {
        vco_freq_hz: preset.vco_freq.to_Hz(),
        refdiv: preset.refdiv,
        post_div1: preset.post_div1,
        post_div2: preset.post_div2,
    }
}

/// The configuration of the system synthesizer: 510 MHz divided by 2, 6
/// and 6.
pub fn system_config() -> (config: SynthesizerConfig)
    ensures
        config == (SynthesizerConfig {
            vco_freq_hz: 510_000_000,
            refdiv: 2,
            post_div1: 6,
            post_div2: 6,
        }),
        config.output_hz() == 7_083_333,
{
    SynthesizerConfig { vco_freq_hz: 510_000_000, refdiv: 2, post_div1: 6, post_div2: 6 }
}

/// The configuration of the peripheral synthesizer, which feeds the USB
/// block with 48 MHz.
pub fn peripheral_config() -> (config: SynthesizerConfig)
    ensures
        config == (SynthesizerConfig {
            vco_freq_hz: 480_000_000,
            refdiv: 1,
            post_div1: 5,
            post_div2: 2,
        }),
        config.hits_target(48_000_000),
{
    let config = hal_usb_preset();
    assert(config.post_divider() == 10);
    config
}

/// A synthesizer that has been programmed and is being watched for lock.
#[derive(Clone, Copy, Debug, PartialEq, Eq, Structural)]
pub struct Synthesizer {
    /// The frequency it delivers once locked.
    pub output_hz: u32,
    pub wait: BoundedWait,
}

impl Synthesizer {
    pub open spec fn locked(self) -> bool {
        self.wait.status == WaitStatus::Asserted
    }

    /// The synthesizer after one more sample of its lock bit.
    pub open spec fn after_poll(self, lock: bool) -> Synthesizer {
        Synthesizer { output_hz: self.output_hz, wait: self.wait.after_poll(lock) }
    }

    /// What a sample of the lock bit yields, given the wait it leaves
    /// behind: the output frequency once locked, `None` while waiting.
    pub open spec fn outcome(self) -> Result<Option<u32>, FatalError> {
        match self.wait.status {
            WaitStatus::Asserted => Ok(Some(self.output_hz)),
            WaitStatus::Pending => Ok(None),
            WaitStatus::TimedOut => Err(FatalError::HardwareTimeout),
        }
    }

    /// Checks a configuration against a stable reference and begins the wait
    /// for lock.
    ///
    /// Fails with `InvalidConfig` exactly when the configuration is not
    /// supported for this reference.
    pub fn configure(reference: &ReferenceClock, config: &SynthesizerConfig, poll_budget: u32) -> (result:
        Result<Synthesizer, FatalError>)
        requires
            reference.stable,
        ensures
            config.supported(reference.frequency_hz) ==> result == Ok::<Synthesizer, FatalError>(
                Synthesizer {
                    output_hz: config.output_hz() as u32,
                    wait: BoundedWait::started(poll_budget),
                },
            ),
            !config.supported(reference.frequency_hz) ==> result == Err::<Synthesizer, FatalError>(
                FatalError::InvalidConfig,
            ),
    {
        match config.resolve(reference.frequency_hz) {
            Ok(output_hz) => Ok(Synthesizer { output_hz, wait: BoundedWait::new(poll_budget) }),
            Err(error) => Err(error),
        }
    }

    /// Takes one sample of the lock bit.
    ///
    /// Returns the output frequency once the bit was seen set, `None` while
    /// the wait goes on, and `HardwareTimeout` when the budget is spent.
    pub fn poll_lock(&mut self, lock: bool) -> (result: Result<Option<u32>, FatalError>)
        ensures
            *final(self) == old(self).after_poll(lock),
            result == final(self).outcome(),
    {
        match self.wait.poll(lock) {
            WaitStatus::Asserted => Ok(Some(self.output_hz)),
            WaitStatus::Pending => Ok(None),
            WaitStatus::TimedOut => Err(FatalError::HardwareTimeout),
        }
    }

    pub fn is_locked(&self) -> (locked: bool)
        ensures
            locked == self.locked(),
    {
        match self.wait.status {
            WaitStatus::Asserted => true,
            _ => false,
        }
    }
}

} // verus!
