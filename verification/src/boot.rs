//! The boot sequence.
//!
//! Oscillator, system synthesizer, peripheral synthesizer, distribution: one
//! after the other, each only when the one before has reported success. The
//! sequencer takes what the hardware said and answers with what to do next;
//! whoever drives it performs the register accesses. Any failure ends in the
//! halted state, which nothing leaves.

use vstd::prelude::*;
use crate::distribution::{regime_of, ClockRegime, ClockRole, ClockTree};
use crate::error::FatalError;
use crate::oscillator::{
    crystal_supported, Oscillator, ReferenceClock, CRYSTAL_MAX_HZ, CRYSTAL_MIN_HZ,
};
use crate::synthesizer::{peripheral_config, system_config, Synthesizer, SynthesizerConfig};
use crate::wait::{BoundedWait, WaitStatus};

verus! {

/// Everything the boot sequence is given.
#[derive(Clone, Copy, Debug, PartialEq, Eq, Structural)]
pub struct BootPlan {
    /// Nominal frequency of the crystal.
    pub reference_hz: u32,
    pub system: SynthesizerConfig,
    pub peripheral: SynthesizerConfig,
    /// Samples allowed for each ready or lock signal.
    pub poll_budget: u32,
}

/// Nominal frequency of the crystal on the board.
pub const CRYSTAL_HZ: u32 = 12_000_000;

/// Samples allowed for each ready or lock signal in the standard plan.
pub const POLL_BUDGET: u32 = 1_000_000;

impl BootPlan {
    /// The plan of the board: a 12 MHz crystal, the system synthesizer at
    /// 510 MHz divided by 2, 6 and 6, and the peripheral synthesizer at
    /// 48 MHz.
    pub fn standard() -> (plan: BootPlan)
        ensures
            plan == (BootPlan {
                reference_hz: CRYSTAL_HZ,
                system: SynthesizerConfig {
                    vco_freq_hz: 510_000_000,
                    refdiv: 2,
                    post_div1: 6,
                    post_div2: 6,
                },
                peripheral: SynthesizerConfig {
                    vco_freq_hz: 480_000_000,
                    refdiv: 1,
                    post_div1: 5,
                    post_div2: 2,
                },
                poll_budget: POLL_BUDGET,
            }),
    {
        BootPlan {
            reference_hz: CRYSTAL_HZ,
            system: system_config(),
            peripheral: peripheral_config(),
            poll_budget: POLL_BUDGET,
        }
    }
}

/// How far the boot sequence has come.
#[derive(Clone, Copy, Debug, PartialEq, Eq, Structural)]
pub enum BootState {
    /// Waiting for the oscillator to become stable.
    Oscillator { oscillator: Oscillator },
    /// Waiting for the system synthesizer to lock.
    SystemLock { reference: ReferenceClock, system: Synthesizer },
    /// Waiting for the peripheral synthesizer to lock.
    PeripheralLock { reference: ReferenceClock, system: Synthesizer, peripheral: Synthesizer },
    /// The clocks are distributed.
    Running { clocks: ClockTree },
    /// The sequence failed.
    Halted { error: FatalError },
}

/// What the hardware, or the firmware around the library, reports.
#[derive(Clone, Copy, Debug, PartialEq, Eq, Structural)]
pub enum BootEvent {
    /// One sample of the signal that the current stage waits for.
    Signal { asserted: bool },
    /// Something failed outside the sequence.
    Fault { error: FatalError },
}

/// What to do next.
#[derive(Clone, Copy, Debug, PartialEq, Eq, Structural)]
pub enum BootAction {
    /// Enable the oscillator, then sample its ready bit.
    StartOscillator { nominal_hz: u32 },
    /// Sample the oscillator's ready bit again.
    PollOscillator,
    /// Program a synthesizer, then sample its lock bit.
    StartSynthesizer { role: ClockRole, config: SynthesizerConfig, reference_hz: u32 },
    /// Sample the lock bit of a synthesizer again.
    PollLock { role: ClockRole },
    /// Switch the clocks over to the synthesizers and program the tick
    /// generator.
    SwitchClocks { regime: ClockRegime },
    /// Boot is complete; nothing is left to do.
    Proceed,
    /// Report the error and park the processor.
    Halt { error: FatalError },
}

impl BootState {
    /// The state in which a boot begins: waiting for the oscillator, or
    /// halted where the crystal is not one that the oscillator drives.
    pub open spec fn initial(plan: BootPlan) -> BootState {
        if crystal_supported(plan.reference_hz) {
            BootState::Oscillator {
                oscillator: Oscillator {
                    nominal_hz: plan.reference_hz,
                    wait: BoundedWait::started(plan.poll_budget),
                },
            }
        } else {
            BootState::Halted { error: FatalError::InvalidConfig }
        }
    }

    /// The action that opens a boot.
    pub open spec fn opening(plan: BootPlan) -> BootAction {
        if crystal_supported(plan.reference_hz) {
            BootAction::StartOscillator { nominal_hz: plan.reference_hz }
        } else {
            BootAction::Halt { error: FatalError::InvalidConfig }
        }
    }

    /// What holds of every state that the sequence reaches.
    pub open spec fn wf(self) -> bool {
        match self {
            BootState::Oscillator { oscillator } => oscillator.wait.status == WaitStatus::Pending,
            BootState::SystemLock { reference, system } => {
                &&& reference.stable
                &&& system.wait.status == WaitStatus::Pending
            },
            BootState::PeripheralLock { reference, system, peripheral } => {
                &&& reference.stable
                &&& system.locked()
                &&& peripheral.wait.status == WaitStatus::Pending
            },
            BootState::Running { clocks } => clocks.regime is Some,
            BootState::Halted { error } => true,
        }
    }

    /// Whether the state is one that this plan leads to: the frequencies it
    /// holds are those of the plan, a synthesizer in it was configured from
    /// a supported configuration, and the regime is the one that the plan
    /// resolves to.
    pub open spec fn follows(self, plan: BootPlan) -> bool {
        match self {
            BootState::Oscillator { oscillator } => {
                &&& crystal_supported(plan.reference_hz)
                &&& oscillator.nominal_hz == plan.reference_hz
            },
            BootState::SystemLock { reference, system } => {
                &&& reference.frequency_hz == plan.reference_hz
                &&& plan.system.supported(plan.reference_hz)
                &&& system.output_hz == plan.system.output_hz()
            },
            BootState::PeripheralLock { reference, system, peripheral } => {
                &&& reference.frequency_hz == plan.reference_hz
                &&& plan.system.supported(plan.reference_hz)
                &&& system.output_hz == plan.system.output_hz()
                &&& plan.peripheral.supported(plan.reference_hz)
                &&& peripheral.output_hz == plan.peripheral.output_hz()
            },
            BootState::Running { clocks } => {
                &&& plan.system.supported(plan.reference_hz)
                &&& plan.peripheral.supported(plan.reference_hz)
                &&& clocks.regime == Some(
                    regime_of(
                        plan.reference_hz,
                        plan.system.output_hz() as u32,
                        plan.peripheral.output_hz() as u32,
                    ),
                )
            },
            BootState::Halted { error } => true,
        }
    }

    /// How many of the events are samples that found the signal asserted.
    pub open spec fn asserted_count(events: Seq<BootEvent>) -> nat
        decreases events.len(),
    {
        if events.len() == 0 {
            0
        } else if events.last() == (BootEvent::Signal { asserted: true }) {
            Self::asserted_count(events.drop_last()) + 1
        } else {
            Self::asserted_count(events.drop_last())
        }
    }

    /// The state and the action for a failure.
    pub open spec fn halt(error: FatalError) -> (BootState, BootAction) {
        (BootState::Halted { error }, BootAction::Halt { error })
    }

    /// Leaving the oscillator stage: the system synthesizer is programmed
    /// if its configuration is supported.
    pub open spec fn enter_system(plan: BootPlan, reference: ReferenceClock) -> (
        BootState,
        BootAction,
    ) {
        if plan.system.supported(reference.frequency_hz) {
            (
                BootState::SystemLock {
                    reference,
                    system: Synthesizer {
                        output_hz: plan.system.output_hz() as u32,
                        wait: BoundedWait::started(plan.poll_budget),
                    },
                },
                BootAction::StartSynthesizer {
                    role: ClockRole::System,
                    config: plan.system,
                    reference_hz: reference.frequency_hz,
                },
            )
        } else {
            Self::halt(FatalError::InvalidConfig)
        }
    }

    /// Leaving the system stage: the peripheral synthesizer is programmed
    /// if its configuration is supported.
    pub open spec fn enter_peripheral(
        plan: BootPlan,
        reference: ReferenceClock,
        system: Synthesizer,
    ) -> (BootState, BootAction) {
        if plan.peripheral.supported(reference.frequency_hz) {
            (
                BootState::PeripheralLock {
                    reference,
                    system,
                    peripheral: Synthesizer {
                        output_hz: plan.peripheral.output_hz() as u32,
                        wait: BoundedWait::started(plan.poll_budget),
                    },
                },
                BootAction::StartSynthesizer {
                    role: ClockRole::Peripheral,
                    config: plan.peripheral,
                    reference_hz: reference.frequency_hz,
                },
            )
        } else {
            Self::halt(FatalError::InvalidConfig)
        }
    }

    /// Leaving the peripheral stage: the clocks are distributed.
    pub open spec fn enter_running(
        reference: ReferenceClock,
        system: Synthesizer,
        peripheral: Synthesizer,
    ) -> (BootState, BootAction) {
        let regime = regime_of(reference.frequency_hz, system.output_hz, peripheral.output_hz);
        (
            BootState::Running { clocks: ClockTree { regime: Some(regime) } },
            BootAction::SwitchClocks { regime },
        )
    }

    /// The state that follows on an event, and the action to take.
    pub open spec fn step(self, plan: BootPlan, event: BootEvent) -> (BootState, BootAction) {
        match event {
            BootEvent::Fault { error } => match self {
                BootState::Halted { error: first } => (self, BootAction::Halt { error: first }),
                _ => Self::halt(error),
            },
            BootEvent::Signal { asserted } => match self {
                BootState::Oscillator { oscillator } => {
                    let polled = oscillator.after_poll(asserted);
                    match polled.outcome() {
                        Ok(Some(reference)) => Self::enter_system(plan, reference),
                        Ok(None) => (
                            BootState::Oscillator { oscillator: polled },
                            BootAction::PollOscillator,
                        ),
                        Err(error) => Self::halt(error),
                    }
                },
                BootState::SystemLock { reference, system } => {
                    let polled = system.after_poll(asserted);
                    match polled.outcome() {
                        Ok(Some(_)) => Self::enter_peripheral(plan, reference, polled),
                        Ok(None) => (
                            BootState::SystemLock { reference, system: polled },
                            BootAction::PollLock { role: ClockRole::System },
                        ),
                        Err(error) => Self::halt(error),
                    }
                },
                BootState::PeripheralLock { reference, system, peripheral } => {
                    let polled = peripheral.after_poll(asserted);
                    match polled.outcome() {
                        Ok(Some(_)) => Self::enter_running(reference, system, polled),
                        Ok(None) => (
                            BootState::PeripheralLock { reference, system, peripheral: polled },
                            BootAction::PollLock { role: ClockRole::Peripheral },
                        ),
                        Err(error) => Self::halt(error),
                    }
                },
                BootState::Running { clocks } => (self, BootAction::Proceed),
                BootState::Halted { error } => (self, BootAction::Halt { error }),
            },
        }
    }

    /// The state after a run of events, oldest first.
    pub open spec fn run(self, plan: BootPlan, events: Seq<BootEvent>) -> BootState
        decreases events.len(),
    {
        if events.len() == 0 {
            self
        } else {
            self.run(plan, events.drop_last()).step(plan, events.last()).0
        }
    }

    /// Samples that the stage in progress may still see low before it times
    /// out; zero where no stage is in progress.
    pub open spec fn polls_left(self) -> int {
        match self {
            BootState::Oscillator { oscillator } => oscillator.wait.polls_left as int,
            BootState::SystemLock { reference, system } => system.wait.polls_left as int,
            BootState::PeripheralLock { reference, system, peripheral } =>
                peripheral.wait.polls_left as int,
            _ => 0,
        }
    }

    /// Whether the state waits for a synthesizer to lock.
    pub open spec fn awaits_lock(self) -> bool {
        self is SystemLock || self is PeripheralLock
    }

    /// Every step keeps the state well formed.
    pub proof fn lemma_step_wf(self, plan: BootPlan, event: BootEvent)
        requires
            self.wf(),
        ensures
            self.step(plan, event).0.wf(),
    {
    }

    /// The clocks are switched only on the step that sees the peripheral
    /// synthesizer lock, with the system synthesizer locked before it; and
    /// only that step enters the running state.
    pub proof fn lemma_distribution_needs_both_locks(self, plan: BootPlan, event: BootEvent)
        requires
            self.wf(),
            self.step(plan, event).1 is SwitchClocks || (self.step(plan, event).0 is Running
                && !(self is Running)),
        ensures
            event == (BootEvent::Signal { asserted: true }),
            self matches BootState::PeripheralLock { reference, system, peripheral } && {
                &&& reference.stable
                &&& system.locked()
                &&& peripheral.after_poll(true).locked()
                &&& self.step(plan, event) == Self::enter_running(
                    reference,
                    system,
                    peripheral.after_poll(true),
                )
            },
    {
    }

    /// A synthesizer whose lock bit stays low never lets the sequence go
    /// on: as long as every event is a low sample, the state keeps waiting
    /// for the same lock, with one sample fewer each time, and once the
    /// budget is spent the sequence has halted with `HardwareTimeout`. The
    /// running state is never reached.
    pub proof fn lemma_unlocked_synthesizer_halts(self, plan: BootPlan, events: Seq<BootEvent>)
        requires
            self.wf(),
            self.awaits_lock(),
            forall|i: int|
                0 <= i < events.len() ==> events[i] == (BootEvent::Signal { asserted: false }),
        ensures
            !(self.run(plan, events) is Running),
            forall|i: int|
                0 <= i < events.len() ==> !(#[trigger] self.run(plan, events.take(i)).step(
                    plan,
                    events[i],
                ).1 is SwitchClocks),
            events.len() < self.polls_left() ==> {
                &&& self.run(plan, events).awaits_lock()
                &&& self.run(plan, events) is SystemLock <==> self is SystemLock
                &&& self.run(plan, events).polls_left() == self.polls_left() - events.len()
                &&& self.run(plan, events).wf()
            },
            events.len() >= self.polls_left() && events.len() >= 1 ==> self.run(plan, events) == (
            BootState::Halted { error: FatalError::HardwareTimeout }),
        decreases events.len(),
    {
        if events.len() > 0 {
            self.lemma_unlocked_synthesizer_halts(plan, events.drop_last());
        }
        assert forall|i: int| 0 <= i < events.len() implies !(#[trigger] self.run(
            plan,
            events.take(i),
        ).step(plan, events[i]).1 is SwitchClocks) by {
            self.lemma_run_wf(plan, events.take(i));
            if self.run(plan, events.take(i)).step(plan, events[i]).1 is SwitchClocks {
                self.run(plan, events.take(i)).lemma_distribution_needs_both_locks(
                    plan,
                    events[i],
                );
            }
        }
    }

    /// The same for the oscillator: while its ready bit stays low no
    /// synthesizer is programmed, and the sequence halts with
    /// `HardwareTimeout` once the budget is spent.
    pub proof fn lemma_unstable_oscillator_halts(plan: BootPlan, events: Seq<BootEvent>)
        requires
            crystal_supported(plan.reference_hz),
            forall|i: int|
                0 <= i < events.len() ==> events[i] == (BootEvent::Signal { asserted: false }),
        ensures
            events.len() < plan.poll_budget ==> Self::initial(plan).run(plan, events) == (
            BootState::Oscillator {
                oscillator: Oscillator {
                    nominal_hz: plan.reference_hz,
                    wait: BoundedWait {
                        status: WaitStatus::Pending,
                        polls_left: (plan.poll_budget - events.len()) as u32,
                    },
                },
            }),
            events.len() >= plan.poll_budget && events.len() >= 1 ==> Self::initial(plan).run(
                plan,
                events,
            ) == (BootState::Halted { error: FatalError::HardwareTimeout }),
        decreases events.len(),
    {
        if events.len() > 0 {
            Self::lemma_unstable_oscillator_halts(plan, events.drop_last());
        }
    }

    /// The place of a state in the order of the stages; the halted state
    /// has none.
    pub open spec fn rank(self) -> int {
        match self {
            BootState::Oscillator { oscillator } => 0,
            BootState::SystemLock { reference, system } => 1,
            BootState::PeripheralLock { reference, system, peripheral } => 2,
            BootState::Running { clocks } => 3,
            BootState::Halted { error } => -1,
        }
    }

    /// No stage is skipped and none is entered twice: a step halts, stays
    /// in its stage, or moves to the stage that follows.
    pub proof fn lemma_stages_in_order(self, plan: BootPlan, event: BootEvent)
        requires
            self.wf(),
        ensures
            self.step(plan, event).0 is Halted || self.step(plan, event).0.rank() == self.rank()
                || self.step(plan, event).0.rank() == self.rank() + 1,
            self.step(plan, event).0.rank() == self.rank() + 1 ==> event == (BootEvent::Signal {
                asserted: true,
            }),
    {
    }

    /// Every run keeps the state well formed.
    pub proof fn lemma_run_wf(self, plan: BootPlan, events: Seq<BootEvent>)
        requires
            self.wf(),
        ensures
            self.run(plan, events).wf(),
        decreases events.len(),
    {
        if events.len() > 0 {
            self.lemma_run_wf(plan, events.drop_last());
            self.run(plan, events.drop_last()).lemma_step_wf(plan, events.last());
        }
    }

    /// Whatever the events are, a boot stays with its plan: the running
    /// state is reached only with both configurations supported, and the
    /// clocks then in force are those that the plan resolves to. Each stage
    /// passed took one asserted sample, so the running state is not reached
    /// on fewer than three.
    pub proof fn lemma_boot_follows_plan(plan: BootPlan, events: Seq<BootEvent>)
        ensures
            Self::initial(plan).run(plan, events).wf(),
            Self::initial(plan).run(plan, events).follows(plan),
            Self::initial(plan).run(plan, events).rank() <= Self::asserted_count(events),
        decreases events.len(),
    {
        if events.len() > 0 {
            Self::lemma_boot_follows_plan(plan, events.drop_last());
            let before = Self::initial(plan).run(plan, events.drop_last());
            before.lemma_stages_in_order(plan, events.last());
            if plan.system.supported(plan.reference_hz) {
                plan.system.lemma_output_in_range(plan.reference_hz);
            }
            if plan.peripheral.supported(plan.reference_hz) {
                plan.peripheral.lemma_output_in_range(plan.reference_hz);
            }
        }
    }

    /// With a supported crystal, supported configurations and a budget of at
    /// least one sample, three asserted signals in a row take the sequence
    /// from its start to the running state, with the system clock at the
    /// output of the first synthesizer and the peripheral clock at that of
    /// the second.
    pub proof fn lemma_clean_boot(plan: BootPlan)
        requires
            plan.poll_budget >= 1,
            crystal_supported(plan.reference_hz),
            plan.system.supported(plan.reference_hz),
            plan.peripheral.supported(plan.reference_hz),
        ensures
            Self::initial(plan).run(plan, Seq::new(3, |i: int| BootEvent::Signal { asserted: true }))
                == (BootState::Running {
                clocks: ClockTree {
                    regime: Some(
                        regime_of(
                            plan.reference_hz,
                            plan.system.output_hz() as u32,
                            plan.peripheral.output_hz() as u32,
                        ),
                    ),
                },
            }),
    {
        let high = BootEvent::Signal { asserted: true };
        let three = Seq::new(3, |i: int| high);
        let two = three.drop_last();
        let one = two.drop_last();
        let none = one.drop_last();
        let start = Self::initial(plan);
        assert(none.len() == 0);
        assert(start.run(plan, none) == start);
        assert(one.last() == high && two.last() == high && three.last() == high);
        assert(start.run(plan, one) == start.step(plan, high).0);
        assert(start.run(plan, two) == start.run(plan, one).step(plan, high).0);
        assert(start.run(plan, three) == start.run(plan, two).step(plan, high).0);
    }

    /// Nothing leaves the halted state, and the first error stays.
    pub proof fn lemma_halt_is_final(error: FatalError, plan: BootPlan, events: Seq<BootEvent>)
        ensures
            (BootState::Halted { error }).run(plan, events) == (BootState::Halted { error }),
        decreases events.len(),
    {
        if events.len() > 0 {
            Self::lemma_halt_is_final(error, plan, events.drop_last());
        }
    }
}

/// The boot sequence in progress.
#[derive(Debug)]
pub struct BootSequencer {
    plan: BootPlan,
    state: BootState,
}

impl BootSequencer {
    #[verifier::type_invariant]
    spec fn inv(self) -> bool {
        self.state.wf() && self.state.follows(self.plan)
    }

    pub closed spec fn plan(self) -> BootPlan {
        self.plan
    }

    pub closed spec fn state(self) -> BootState {
        self.state
    }

    /// A sequence that has not begun.
    pub fn new(plan: BootPlan) -> (sequencer: BootSequencer)
        ensures
            sequencer.plan() == plan,
            sequencer.state() == BootState::initial(plan),
            sequencer.state().wf(),
            sequencer.state().follows(plan),
    {
        let state = match Oscillator::start(plan.reference_hz, plan.poll_budget) {
            Ok(oscillator) => BootState::Oscillator { oscillator },
            Err(error) => BootState::Halted { error },
        };
        BootSequencer { plan, state }
    }

    /// The action that opens the sequence: enabling the oscillator, or the
    /// halt where the crystal is not supported.
    pub fn begin(&self) -> (action: BootAction)
        ensures
            action == BootState::opening(self.plan()),
    {
        if CRYSTAL_MIN_HZ <= self.plan.reference_hz && self.plan.reference_hz <= CRYSTAL_MAX_HZ {
            BootAction::StartOscillator { nominal_hz: self.plan.reference_hz }
        } else {
            BootAction::Halt { error: FatalError::InvalidConfig }
        }
    }

    /// Takes an event into account and says what to do next.
    pub fn step(&mut self, event: BootEvent) -> (action: BootAction)
        ensures
            final(self).plan() == old(self).plan(),
            final(self).state() == old(self).state().step(old(self).plan(), event).0,
            action == old(self).state().step(old(self).plan(), event).1,
            final(self).state().wf(),
            final(self).state().follows(final(self).plan()),
    {
        proof {
            use_type_invariant(&*self);
            if self.plan.system.supported(self.plan.reference_hz) {
                self.plan.system.lemma_output_in_range(self.plan.reference_hz);
            }
            if self.plan.peripheral.supported(self.plan.reference_hz) {
                self.plan.peripheral.lemma_output_in_range(self.plan.reference_hz);
            }
        }
        let plan = self.plan;
        let (state, action) = match event {
            BootEvent::Fault { error } => match self.state {
                BootState::Halted { error: first } => (self.state, BootAction::Halt { error: first }),
                _ => (BootState::Halted { error }, BootAction::Halt { error }),
            },
            BootEvent::Signal { asserted } => match self.state {
                BootState::Oscillator { oscillator } => {
                    let mut polled = oscillator;
                    match polled.poll_ready(asserted) {
                        Ok(Some(reference)) => Self::enter_system(&plan, reference),
                        Ok(None) => (
                            BootState::Oscillator { oscillator: polled },
                            BootAction::PollOscillator,
                        ),
                        Err(error) => (BootState::Halted { error }, BootAction::Halt { error }),
                    }
                },
                BootState::SystemLock { reference, system } => {
                    let mut polled = system;
                    match polled.poll_lock(asserted) {
                        Ok(Some(_)) => Self::enter_peripheral(&plan, reference, polled),
                        Ok(None) => (
                            BootState::SystemLock { reference, system: polled },
                            BootAction::PollLock { role: ClockRole::System },
                        ),
                        Err(error) => (BootState::Halted { error }, BootAction::Halt { error }),
                    }
                },
                BootState::PeripheralLock { reference, system, peripheral } => {
                    let mut polled = peripheral;
                    match polled.poll_lock(asserted) {
                        Ok(Some(_)) => {
                            let mut clocks = ClockTree::bootstrap();
                            let regime = clocks.distribute(&reference, &system, &polled);
                            (BootState::Running { clocks }, BootAction::SwitchClocks { regime })
                        },
                        Ok(None) => (
                            BootState::PeripheralLock { reference, system, peripheral: polled },
                            BootAction::PollLock { role: ClockRole::Peripheral },
                        ),
                        Err(error) => (BootState::Halted { error }, BootAction::Halt { error }),
                    }
                },
                BootState::Running { clocks } => (self.state, BootAction::Proceed),
                BootState::Halted { error } => (self.state, BootAction::Halt { error }),
            },
        };
        self.state = state;
        action
    }

    /// Programs the system synthesizer, or halts on a configuration that is
    /// not supported.
    fn enter_system(plan: &BootPlan, reference: ReferenceClock) -> (next: (BootState, BootAction))
        requires
            reference.stable,
        ensures
            next == BootState::enter_system(*plan, reference),
    {
        match Synthesizer::configure(&reference, &plan.system, plan.poll_budget) {
            Ok(system) => (
                BootState::SystemLock { reference, system },
                BootAction::StartSynthesizer {
                    role: ClockRole::System,
                    config: plan.system,
                    reference_hz: reference.frequency_hz,
                },
            ),
            Err(error) => (BootState::Halted { error }, BootAction::Halt { error }),
        }
    }

    /// Programs the peripheral synthesizer, or halts on a configuration
    /// that is not supported.
    fn enter_peripheral(plan: &BootPlan, reference: ReferenceClock, system: Synthesizer) -> (next: (
        BootState,
        BootAction,
    ))
        requires
            reference.stable,
        ensures
            next == BootState::enter_peripheral(*plan, reference, system),
    {
        match Synthesizer::configure(&reference, &plan.peripheral, plan.poll_budget) {
            Ok(peripheral) => (
                BootState::PeripheralLock { reference, system, peripheral },
                BootAction::StartSynthesizer {
                    role: ClockRole::Peripheral,
                    config: plan.peripheral,
                    reference_hz: reference.frequency_hz,
                },
            ),
            Err(error) => (BootState::Halted { error }, BootAction::Halt { error }),
        }
    }

    /// How far the sequence has come.
    pub fn current(&self) -> (state: BootState)
        ensures
            state == self.state(),
            state.wf(),
            state.follows(self.plan()),
    {
        proof {
            use_type_invariant(self);
        }
        self.state
    }

    /// The clock tree, once the clocks are distributed. Its regime is the
    /// one that the plan resolves to.
    pub fn clocks(&self) -> (clocks: Option<ClockTree>)
        ensures
            clocks == match self.state() {
                BootState::Running { clocks } => Some(clocks),
                _ => None,
            },
            clocks matches Some(tree) ==> tree.regime == Some(
                regime_of(
                    self.plan().reference_hz,
                    self.plan().system.output_hz() as u32,
                    self.plan().peripheral.output_hz() as u32,
                ),
            ),
    {
        proof {
            use_type_invariant(self);
        }
        match self.state {
            BootState::Running { clocks } => Some(clocks),
            _ => None,
        }
    }

    /// The error that halted the sequence, if it has halted.
    pub fn failure(&self) -> (error: Option<FatalError>)
        ensures
            error == match self.state() {
                BootState::Halted { error } => Some(error),
                _ => None,
            },
    {
        match self.state {
            BootState::Halted { error } => Some(error),
            _ => None,
        }
    }
}

} // verus!
