//! Monotonic timekeeping on top of a free-running counter that wraps.
//!
//! The counter itself belongs to the hardware. The timekeeper is handed its
//! readings and turns them into a count of ticks that never goes back: each
//! reading advances the count by the distance from the previous reading,
//! taken modulo the wrap point. At most one wrap between two readings is
//! absorbed; whoever feeds the timekeeper has to read the counter more often
//! than it wraps.

use vstd::prelude::*;
use vstd::arithmetic::div_mod::{lemma_small_mod, lemma_sub_mod_noop, lemma_mod_sub_multiples_vanish};

verus! {

/// The largest wrap point: a counter of 32 bits.
pub const MAX_MODULUS: u64 = 0x1_0000_0000;

/// The slowest tick rate that still resolves a millisecond.
pub const MIN_TICK_HZ: u32 = 1_000;

/// Time since the timekeeper was created.
#[derive(Clone, Copy, Debug, PartialEq, Eq, Structural)]
pub struct ElapsedTime {
    pub ticks: u64,
    /// Whole milliseconds in `ticks`.
    pub millis: u64,
}

/// Ticks from the reading `last` to `reading` on a counter that wraps at
/// `modulus`.
pub open spec fn wrapped_delta(last: int, reading: int, modulus: int) -> int {
    (reading - last) % modulus
}

/// A tick count held in 64 bits: it stops at the largest value.
pub open spec fn saturated(ticks: int) -> int {
    if ticks > u64::MAX {
        u64::MAX as int
    } else {
        ticks
    }
}

/// Whole milliseconds in a number of ticks.
pub open spec fn millis_of(ticks: int, tick_hz: int) -> int {
    ticks * 1000 / tick_hz
}

/// Whether `waited` ticks at `tick_hz` ticks per second last at least
/// `duration_ms` milliseconds.
pub open spec fn covers(waited: int, duration_ms: int, tick_hz: int) -> bool {
    waited * 1000 >= duration_ms * tick_hz
}

/// A wait that covers a delay shows in the milliseconds too: the whole
/// milliseconds at its end exceed those at its beginning by at least the
/// length of the delay.
pub proof fn lemma_covers_in_millis(begin: int, waited: int, duration_ms: int, tick_hz: int)
    requires
        0 <= begin,
        0 <= waited,
        0 <= duration_ms,
        0 < tick_hz,
        covers(waited, duration_ms, tick_hz),
    ensures
        millis_of(begin + waited, tick_hz) >= millis_of(begin, tick_hz) + duration_ms,
{
    let a = begin * 1000;
    let b = duration_ms * tick_hz;
    assert((begin + waited) * 1000 >= a + b) by (nonlinear_arith)
        requires
            waited * 1000 >= b,
            a == begin * 1000,
    ;
    vstd::arithmetic::div_mod::lemma_div_is_ordered(a + b, (begin + waited) * 1000, tick_hz);
    assert((a + b) / tick_hz == a / tick_hz + duration_ms) by {
        vstd::arithmetic::div_mod::lemma_hoist_over_denominator(a, duration_ms, tick_hz as nat);
    }
}

/// For readings below the wrap point the distance is the plain difference,
/// or the difference plus one wrap where the counter started over.
pub proof fn lemma_wrapped_delta(last: int, reading: int, modulus: int)
    requires
        0 < modulus,
        0 <= last < modulus,
        0 <= reading < modulus,
    ensures
        reading >= last ==> wrapped_delta(last, reading, modulus) == reading - last,
        reading < last ==> wrapped_delta(last, reading, modulus) == modulus - last + reading,
        0 <= wrapped_delta(last, reading, modulus) < modulus,
{
    if reading >= last {
        lemma_small_mod((reading - last) as nat, modulus as nat);
    } else {
        lemma_small_mod((modulus - last + reading) as nat, modulus as nat);
        lemma_mod_sub_multiples_vanish(modulus - last + reading, modulus);
        assert(-modulus + (modulus - last + reading) == reading - last);
    }
}

/// A delay in progress: when it began, in ticks, and how long it lasts.
#[derive(Clone, Copy, Debug, PartialEq, Eq, Structural)]
pub struct Delay {
    pub started_at: u64,
    pub duration_ms: u64,
}

/// The monotonic timekeeper.
#[derive(Debug)]
pub struct Timekeeper {
    modulus: u64,
    tick_hz: u32,
    last: u64,
    elapsed: u64,
}

impl Timekeeper {
    #[verifier::type_invariant]
    spec fn inv(self) -> bool {
        self.wf()
    }

    /// The value at which the counter starts over.
    pub closed spec fn modulus(self) -> int {
        self.modulus as int
    }

    /// Ticks per second.
    pub closed spec fn tick_hz(self) -> int {
        self.tick_hz as int
    }

    /// The counter value seen last.
    pub closed spec fn last_reading(self) -> int {
        self.last as int
    }

    /// Ticks counted so far.
    pub closed spec fn elapsed_ticks(self) -> int {
        self.elapsed as int
    }

    /// What holds of every timekeeper that the library hands out.
    pub closed spec fn wf(self) -> bool {
        &&& 2 <= self.modulus <= MAX_MODULUS
        &&& self.tick_hz >= MIN_TICK_HZ
        &&& self.last < self.modulus
    }

    /// The timekeeper after it was shown one more reading of the counter.
    pub closed spec fn after(self, reading: u32) -> Timekeeper {
        Timekeeper {
            modulus: self.modulus,
            tick_hz: self.tick_hz,
            last: (reading as int % self.modulus as int) as u64,
            elapsed: saturated(
                self.elapsed + wrapped_delta(self.last as int, reading as int, self.modulus as int),
            ) as u64,
        }
    }

    /// The timekeeper after a run of readings, oldest first.
    pub open spec fn after_all(self, readings: Seq<u32>) -> Timekeeper
        decreases readings.len(),
    {
        if readings.len() == 0 {
            self
        } else {
            self.after_all(readings.drop_last()).after(readings.last())
        }
    }

    /// What one reading does, over the timekeeper's parts.
    pub proof fn lemma_after(self, reading: u32)
        requires
            self.wf(),
        ensures
            self.after(reading).wf(),
            self.after(reading).modulus() == self.modulus(),
            self.after(reading).tick_hz() == self.tick_hz(),
            self.after(reading).last_reading() == reading as int % self.modulus(),
            self.after(reading).elapsed_ticks() == saturated(
                self.elapsed_ticks() + wrapped_delta(
                    self.last_reading(),
                    reading as int,
                    self.modulus(),
                ),
            ),
            0 <= wrapped_delta(self.last_reading(), reading as int, self.modulus())
                < self.modulus(),
            self.elapsed_ticks() <= self.after(reading).elapsed_ticks() <= u64::MAX,
    {
        let m = self.modulus as int;
        let r = reading as int % m;
        lemma_small_mod(self.last as nat, m as nat);
        lemma_sub_mod_noop(reading as int, self.last as int, m);
        lemma_wrapped_delta(self.last as int, r, m);
    }

    /// A timekeeper for a counter that wraps at `modulus` and ticks
    /// `tick_hz` times per second, or `None` where the wrap point is not
    /// between 2 and `MAX_MODULUS` or the rate is below `MIN_TICK_HZ`.
    ///
    /// The counter is taken to stand at zero.
    pub fn new(modulus: u64, tick_hz: u32) -> (timekeeper: Option<Timekeeper>)
        ensures
            timekeeper is Some <==> 2 <= modulus <= MAX_MODULUS && tick_hz >= MIN_TICK_HZ,
            timekeeper matches Some(t) ==> {
                &&& t.wf()
                &&& t.modulus() == modulus
                &&& t.tick_hz() == tick_hz
                &&& t.last_reading() == 0
                &&& t.elapsed_ticks() == 0
            },
    {
        if 2 <= modulus && modulus <= MAX_MODULUS && tick_hz >= MIN_TICK_HZ {
            Some(Timekeeper { modulus, tick_hz, last: 0, elapsed: 0 })
        } else {
            None
        }
    }

    /// Takes a reading of the counter into account and returns the time
    /// elapsed.
    ///
    /// The count of ticks advances by the distance from the previous
    /// reading, modulo the wrap point, and stops at `u64::MAX`. A reading at
    /// or above the wrap point counts as its remainder.
    pub fn now(&mut self, reading: u32) -> (time: ElapsedTime)
        ensures
            *final(self) == old(self).after(reading),
            final(self).wf(),
            final(self).modulus() == old(self).modulus(),
            final(self).tick_hz() == old(self).tick_hz(),
            final(self).last_reading() == reading as int % old(self).modulus(),
            final(self).elapsed_ticks() == saturated(
                old(self).elapsed_ticks() + wrapped_delta(
                    old(self).last_reading(),
                    reading as int,
                    old(self).modulus(),
                ),
            ),
            final(self).elapsed_ticks() >= old(self).elapsed_ticks(),
            time.ticks == final(self).elapsed_ticks(),
            time.millis == millis_of(time.ticks as int, old(self).tick_hz()),
    {
        proof {
            use_type_invariant(&*self);
            self.lemma_after(reading);
        }
        let current: u64 = (reading as u64) % self.modulus;
        let delta: u64 = if current >= self.last {
            current - self.last
        } else {
            self.modulus - self.last + current
        };
        proof {
            let m = self.modulus as int;
            lemma_small_mod(self.last as nat, m as nat);
            lemma_sub_mod_noop(reading as int, self.last as int, m);
            lemma_wrapped_delta(self.last as int, current as int, m);
        }
        let elapsed: u64 = if delta > u64::MAX - self.elapsed {
            u64::MAX
        } else {
            self.elapsed + delta
        };
        self.last = current;
        self.elapsed = elapsed;
        self.elapsed_time()
    }

    /// The time elapsed as of the last reading.
    pub fn elapsed_time(&self) -> (time: ElapsedTime)
        ensures
            time.ticks == self.elapsed_ticks(),
            time.millis == millis_of(time.ticks as int, self.tick_hz()),
    {
        proof {
            use_type_invariant(self);
        }
        let ticks: u64 = self.elapsed;
        let scaled: u128 = (ticks as u128) * 1000;
        let millis: u128 = scaled / (self.tick_hz as u128);
        assert(millis <= ticks) by (nonlinear_arith)
            requires
                millis == (ticks * 1000) / (self.tick_hz as int),
                self.tick_hz >= 1000,
        ;
        ElapsedTime { ticks, millis: millis as u64 }
    }

    /// Whether `delay` has run its full length as of the last reading.
    pub open spec fn expired(self, delay: Delay) -> bool {
        covers(self.elapsed_ticks() - delay.started_at, delay.duration_ms as int, self.tick_hz())
    }

    /// The count never goes back, whatever the readings are.
    pub proof fn lemma_monotonic(self, readings: Seq<u32>)
        requires
            self.wf(),
        ensures
            self.after_all(readings).wf(),
            self.after_all(readings).modulus() == self.modulus(),
            self.after_all(readings).tick_hz() == self.tick_hz(),
            self.elapsed_ticks() <= self.after_all(readings).elapsed_ticks(),
        decreases readings.len(),
    {
        if readings.len() > 0 {
            self.lemma_monotonic(readings.drop_last());
            self.after_all(readings.drop_last()).lemma_after(readings.last());
        }
    }

    /// Two readings between which the counter started over once: the second
    /// time is later than the first by the ticks up to the wrap point plus
    /// the ticks after it. This holds as long as the count has room for
    /// them below `u64::MAX`.
    pub proof fn lemma_single_wrap(self, first: u32, second: u32)
        requires
            self.wf(),
            second as int % self.modulus() < first as int % self.modulus(),
            self.after(first).elapsed_ticks() + self.modulus() <= u64::MAX,
        ensures
            self.after(first).after(second).elapsed_ticks() == self.after(first).elapsed_ticks()
                + (self.modulus() - first as int % self.modulus()) + second as int
                % self.modulus(),
            self.after(first).after(second).elapsed_ticks() > self.after(first).elapsed_ticks(),
    {
        let m = self.modulus();
        self.lemma_after(first);
        let a = self.after(first);
        a.lemma_after(second);
        lemma_sub_mod_noop(second as int, a.last_reading(), m);
        lemma_small_mod(a.last_reading() as nat, m as nat);
        lemma_wrapped_delta(a.last_reading(), second as int % m, m);
    }

    /// Two readings between which the counter did not start over: the
    /// second time is later than the first by their difference.
    pub proof fn lemma_no_wrap(self, first: u32, second: u32)
        requires
            self.wf(),
            second as int % self.modulus() >= first as int % self.modulus(),
            self.after(first).elapsed_ticks() + self.modulus() <= u64::MAX,
        ensures
            self.after(first).after(second).elapsed_ticks() == self.after(first).elapsed_ticks()
                + second as int % self.modulus() - first as int % self.modulus(),
    {
        let m = self.modulus();
        self.lemma_after(first);
        let a = self.after(first);
        a.lemma_after(second);
        lemma_sub_mod_noop(second as int, a.last_reading(), m);
        lemma_small_mod(a.last_reading() as nat, m as nat);
        lemma_wrapped_delta(a.last_reading(), second as int % m, m);
    }

    /// Begins a delay of `duration_ms` milliseconds at the time of the last
    /// reading.
    pub fn start_delay(&self, duration_ms: u64) -> (delay: Delay)
        ensures
            delay == (Delay { started_at: self.elapsed_ticks() as u64, duration_ms }),
            delay.started_at == self.elapsed_ticks(),
    {
        Delay { started_at: self.elapsed, duration_ms }
    }

    /// Whether `delay` has run its full length as of the last reading.
    pub fn delay_expired(&self, delay: &Delay) -> (expired: bool)
        ensures
            expired == self.expired(*delay),
    {
        if self.elapsed < delay.started_at {
            assert(!self.expired(*delay)) by (nonlinear_arith)
                requires
                    self.elapsed_ticks() - delay.started_at < 0,
                    delay.duration_ms >= 0,
                    self.tick_hz() >= 0,
                    self.expired(*delay) == ((self.elapsed_ticks() - delay.started_at) * 1000
                        >= delay.duration_ms * self.tick_hz()),
            ;
            false
        } else {
            let waited: u128 = (self.elapsed - delay.started_at) as u128;
            assert(delay.duration_ms * self.tick_hz <= u64::MAX * u32::MAX) by (nonlinear_arith);
            let needed: u128 = (delay.duration_ms as u128) * (self.tick_hz as u128);
            waited * 1000 >= needed
        }
    }

    /// Waits for `duration_ms` milliseconds over a recorded run of counter
    /// readings.
    ///
    /// The delay begins at the time of the last reading. Readings are taken
    /// from the front of `readings`, one at a time, until the time elapsed
    /// covers the delay. Returns how many readings that took, or `None`
    /// where the readings end before the delay does. A delay of zero takes
    /// no reading.
    pub fn delay_ms(&mut self, duration_ms: u64, readings: &Vec<u32>) -> (consumed: Option<usize>)
        ensures
            final(self).wf(),
            final(self).modulus() == old(self).modulus(),
            final(self).tick_hz() == old(self).tick_hz(),
            consumed matches Some(n) ==> {
                &&& n <= readings.len()
                &&& *final(self) == old(self).after_all(readings@.take(n as int))
                &&& covers(
                    final(self).elapsed_ticks() - old(self).elapsed_ticks(),
                    duration_ms as int,
                    old(self).tick_hz(),
                )
                &&& forall|k: int|
                    0 <= k < n ==> !covers(
                        #[trigger] old(self).after_all(readings@.take(k)).elapsed_ticks() - old(
                            self,
                        ).elapsed_ticks(),
                        duration_ms as int,
                        old(self).tick_hz(),
                    )
            },
            consumed is None ==> {
                &&& *final(self) == old(self).after_all(readings@)
                &&& forall|k: int|
                    0 <= k <= readings.len() ==> !covers(
                        #[trigger] old(self).after_all(readings@.take(k)).elapsed_ticks() - old(
                            self,
                        ).elapsed_ticks(),
                        duration_ms as int,
                        old(self).tick_hz(),
                    )
            },
    {
        proof {
            use_type_invariant(&*self);
        }
        let delay = self.start_delay(duration_ms);
        let mut n: usize = 0;
        assert(readings@.take(0) =~= Seq::<u32>::empty());
        loop
            invariant
                n <= readings.len(),
                self.wf(),
                self.modulus() == old(self).modulus(),
                self.tick_hz() == old(self).tick_hz(),
                delay == (Delay { started_at: old(self).elapsed_ticks() as u64, duration_ms }),
                delay.started_at == old(self).elapsed_ticks(),
                *self == old(self).after_all(readings@.take(n as int)),
                forall|k: int|
                    0 <= k < n ==> !covers(
                        #[trigger] old(self).after_all(readings@.take(k)).elapsed_ticks() - old(
                            self,
                        ).elapsed_ticks(),
                        duration_ms as int,
                        old(self).tick_hz(),
                    ),
            decreases readings.len() - n,
        {
            if self.delay_expired(&delay) {
                return Some(n);
            }
            if n == readings.len() {
                assert(readings@.take(n as int) =~= readings@);
                return None;
            }
            self.now(readings[n]);
            assert(readings@.take(n + 1).drop_last() =~= readings@.take(n as int));
            n = n + 1;
        }
    }

    /// Turns the reading of a counter that counts down from just below the
    /// wrap point into the reading of one that counts up from zero.
    pub fn reading_from_down_counter(&self, remaining: u32) -> (reading: u32)
        ensures
            reading == self.modulus() - 1 - remaining as int % self.modulus(),
    {
        proof {
            use_type_invariant(self);
        }
        let below: u64 = (remaining as u64) % self.modulus;
        (self.modulus - 1 - below) as u32
    }
}

} // verus!
