//! Wait conditions: each computes how long to sleep.
//!
//! Every condition has an exact function of the values it draws (the jitter,
//! a sample, a roll, the clock), and a `calculate_wait_duration` that draws
//! them from the real sources and hands them to it.
use vstd::prelude::*;
use crate::jitter::{JitterGenerator, RandomJitterGenerator, random_between, thread_rng};
use crate::span::{Span, sat_add, NANOS_PER_MILLI, NANOS_PER_SEC};
use std::time::SystemTime;

verus! {

/// Why a wait cannot be computed.
#[derive(Clone, Copy, Debug, PartialEq, Eq, Structural)]
pub enum WaitError {
    /// A distribution's parameters lie outside its domain.
    InvalidDistributionParameters,
    /// The system clock could not be read, or stands before the Unix epoch.
    ClockReadError,
    /// A time of day is not `HH:MM` or `HH:MM:SS`, or is out of range.
    InvalidTimeFormat,
}

/// Whether and how progress is reported during the wait.
#[derive(Clone, Copy, Debug, PartialEq, Eq, Structural)]
pub enum Verbosity {
    Silent,
    /// At a cadence that grows with the time that remains.
    Adaptive,
    /// Every given period.
    Fixed(Span),
}

/// The longest sample of a distribution that is slept: 24 hours, in
/// nanoseconds. Longer samples are held at it.
pub const MAX_SAMPLE_NANOS: u64 = 86_400_000_000_000;

/// The number of equally likely rolls of a probabilistic wait; a probability
/// is a count of them.
pub const ROLL_SCALE: u32 = 1_000_000_000;

/// A probability, in parts per [`ROLL_SCALE`]: `ROLL_SCALE` is certainty.
#[derive(Clone, Copy, Debug, PartialEq, Eq, Structural)]
pub struct Probability {
    pub per_billion: u32,
}

impl Probability {
    pub fn from_per_billion(per_billion: u32) -> (r: Probability)
        ensures
            r.per_billion == per_billion,
    {
        Probability { per_billion }
    }
}

/// The largest jitter that an optional bound allows.
pub open spec fn jitter_bound(jitter: Option<Span>) -> nat {
    match jitter {
        Some(j) => j@,
        None => 0,
    }
}

/// One random jitter, in whole milliseconds, under an optional bound; zero,
/// without drawing, where there is none.
pub(crate) fn draw_jitter(bound: Option<Span>) -> (r: Span)
    ensures
        r@ <= jitter_bound(bound),
        r@ % NANOS_PER_MILLI as nat == 0,
{
    match bound {
        Some(max_jitter) => {
            let mut jitter_gen = RandomJitterGenerator::new(thread_rng());
            jitter_gen.generate(max_jitter)
        },
        None => Span::zero(),
    }
}

fn jitter_or_zero(jitter: Option<Span>) -> (r: Span)
    ensures
        r@ == jitter_bound(jitter),
{
    match jitter {
        Some(j) => j,
        None => Span::zero(),
    }
}

/// A condition that computes the length of one wait.
pub trait WaitCondition {
    fn calculate_wait_duration(&self) -> Result<Span, WaitError>;
}

/// A fixed duration, plus jitter.
#[derive(Clone, Copy, Debug, PartialEq, Eq, Structural)]
pub struct DurationWait {
    pub duration: Span,
    pub jitter: Option<Span>,
    pub verbose: Verbosity,
}

impl DurationWait {
    /// The wait when the jitter drawn is `jitter`: the base plus it.
    pub fn duration_with_jitter(&self, jitter: Span) -> (r: Span)
        ensures
            r@ == sat_add(self.duration@, jitter@),
    {
        self.duration.saturating_add(jitter)
    }

    /// The base plus one draw of `jitter_gen` under the jitter bound.
    pub fn calculate_sleep_duration<J: JitterGenerator>(&self, jitter_gen: &mut J) -> (r: Span)
        ensures
            exists|j: nat| j <= jitter_bound(self.jitter) && r@ == #[trigger] sat_add(self.duration@, j),
    {
        let jitter = jitter_gen.generate(jitter_or_zero(self.jitter));
        self.duration_with_jitter(jitter)
    }
}

impl WaitCondition for DurationWait {
    /// Always succeeds: the base plus random jitter, in whole milliseconds,
    /// under the bound.
    fn calculate_wait_duration(&self) -> (r: Result<Span, WaitError>)
        ensures
            r is Ok,
            exists|j: nat|
                j <= jitter_bound(self.jitter) && j % NANOS_PER_MILLI as nat == 0 && r->Ok_0@
                    == #[trigger] sat_add(self.duration@, j),
    {
        let jitter = draw_jitter(self.jitter);
        Ok(self.duration_with_jitter(jitter))
    }
}

/// A duration drawn uniformly from `[min, max)`, plus jitter.
#[derive(Clone, Copy, Debug, PartialEq, Eq, Structural)]
pub struct UniformWait {
    pub min: Span,
    pub max: Span,
    pub jitter: Option<Span>,
    pub verbose: Verbosity,
}

impl UniformWait {
    /// The range is valid when it is not empty.
    pub open spec fn valid(self) -> bool {
        self.min@ < self.max@
    }

    /// One sample drawn uniformly from the range.
    pub(crate) fn draw_sample(&self) -> (r: Span)
        requires
            self.valid(),
        ensures
            self.min@ <= r@ < self.max@,
    {
        let mut rng = thread_rng();
        Span::from_nanos(random_between(&mut rng, self.min.nanos, self.max.nanos - 1))
    }

    /// The wait when the sample drawn is `sample` and the jitter `jitter`.
    pub fn duration_with_draws(&self, sample: Span, jitter: Span) -> (r: Result<Span, WaitError>)
        ensures
            self.valid() ==> r == Ok::<Span, WaitError>(Span { nanos: sat_add(sample@, jitter@) as u64 }),
            !self.valid() ==> r == Err::<Span, WaitError>(WaitError::InvalidDistributionParameters),
    {
        if self.min.nanos >= self.max.nanos {
            return Err(WaitError::InvalidDistributionParameters);
        }
        Ok(sample.saturating_add(jitter))
    }
}

impl WaitCondition for UniformWait {
    /// Fails, without drawing, exactly on an empty range.
    fn calculate_wait_duration(&self) -> (r: Result<Span, WaitError>)
        ensures
            !self.valid() ==> r == Err::<Span, WaitError>(WaitError::InvalidDistributionParameters),
            self.valid() ==> r is Ok && exists|s: nat, j: nat|
                self.min@ <= s < self.max@ && j <= jitter_bound(self.jitter)
                && j % NANOS_PER_MILLI as nat == 0 && r->Ok_0@ == #[trigger] sat_add(s, j),
    {
        if self.min.nanos >= self.max.nanos {
            return Err(WaitError::InvalidDistributionParameters);
        }
        let sample = self.draw_sample();
        let jitter = draw_jitter(self.jitter);
        let r = self.duration_with_draws(sample, jitter);
        assert(r->Ok_0@ == sat_add(sample@, jitter@));
        r
    }
}

/// A sample, in signed nanoseconds, floored at zero and held at
/// [`MAX_SAMPLE_NANOS`].
pub open spec fn clamped_sample(sample_nanos: int) -> nat {
    if sample_nanos <= 0 {
        0
    } else if sample_nanos > MAX_SAMPLE_NANOS {
        MAX_SAMPLE_NANOS as nat
    } else {
        sample_nanos as nat
    }
}

/// A wait whose length was sampled from a statistical distribution, plus
/// jitter. The sample is given in signed nanoseconds, as drawn.
#[derive(Clone, Copy, Debug, PartialEq, Eq, Structural)]
pub struct SampledWait {
    pub sample_nanos: i64,
    pub jitter: Option<Span>,
    pub verbose: Verbosity,
}

impl SampledWait {
    /// The sample floored at zero and held at 24 hours.
    pub fn clamped(&self) -> (r: Span)
        ensures
            r@ == clamped_sample(self.sample_nanos as int),
    {
        if self.sample_nanos <= 0 {
            Span::zero()
        } else if self.sample_nanos as u64 > MAX_SAMPLE_NANOS {
            Span::from_nanos(MAX_SAMPLE_NANOS)
        } else {
            Span::from_nanos(self.sample_nanos as u64)
        }
    }

    /// The wait when the jitter drawn is `jitter`: the clamped sample plus it.
    pub fn duration_with_jitter(&self, jitter: Span) -> (r: Span)
        ensures
            r@ == sat_add(clamped_sample(self.sample_nanos as int), jitter@),
    {
        self.clamped().saturating_add(jitter)
    }
}

impl WaitCondition for SampledWait {
    /// Always succeeds: the clamped sample plus random jitter under the bound.
    fn calculate_wait_duration(&self) -> (r: Result<Span, WaitError>)
        ensures
            r is Ok,
            exists|j: nat|
                j <= jitter_bound(self.jitter) && j % NANOS_PER_MILLI as nat == 0 && r->Ok_0@
                    == #[trigger] sat_add(clamped_sample(self.sample_nanos as int), j),
    {
        Ok(self.duration_with_jitter(draw_jitter(self.jitter)))
    }
}

/// A wait that happens only with a given probability.
#[derive(Clone, Copy, Debug, PartialEq, Eq, Structural)]
pub struct ProbabilisticWait {
    pub duration: Span,
    pub probability: Probability,
    pub verbose: Verbosity,
}

/// Draws a roll uniformly from `0` to `ROLL_SCALE - 1`.
pub fn draw_roll() -> (r: u32)
    ensures
        r < ROLL_SCALE,
{
    let mut rng = thread_rng();
    random_between(&mut rng, 0, (ROLL_SCALE - 1) as u64) as u32
}

impl ProbabilisticWait {
    /// Whether the wait happens on `roll`: the roll is below the
    /// probability's count, so that of the `ROLL_SCALE` equally likely rolls
    /// exactly that many sleep.
    pub open spec fn sleeps_on(self, roll: u32) -> bool {
        roll < self.probability.per_billion
    }

    /// The full duration when the wait happens on `roll`, else zero.
    pub fn duration_for_roll(&self, roll: u32) -> (r: Span)
        ensures
            r@ == if self.sleeps_on(roll) { self.duration@ } else { 0 },
    {
        if roll < self.probability.per_billion {
            self.duration
        } else {
            Span::zero()
        }
    }
}

impl WaitCondition for ProbabilisticWait {
    /// Always succeeds: one roll decides between the full duration and zero.
    fn calculate_wait_duration(&self) -> (r: Result<Span, WaitError>)
        ensures
            r is Ok,
            exists|roll: u32|
                roll < ROLL_SCALE && r->Ok_0@ == if #[trigger] self.sleeps_on(roll) {
                    self.duration@
                } else {
                    0
                },
    {
        let roll = draw_roll();
        Ok(self.duration_for_roll(roll))
    }
}

/// A wait until the next whole multiple of an interval since the Unix epoch.
#[derive(Clone, Copy, Debug, PartialEq, Eq, Structural)]
pub struct TimeAlignWait {
    pub align_interval: Span,
    pub verbose: Verbosity,
}

/// The wait, `now_secs` seconds after the epoch, until the next multiple of
/// the interval's whole seconds: the whole interval on a boundary, zero for
/// an interval under a second.
pub open spec fn alignment_wait(now_secs: nat, interval: nat) -> nat {
    let interval_secs = interval / NANOS_PER_SEC as nat;
    if interval_secs == 0 {
        0
    } else {
        let remainder = now_secs % interval_secs;
        if remainder == 0 {
            interval
        } else {
            (interval - remainder * NANOS_PER_SEC) as nat
        }
    }
}

/// The wait from `now_secs` seconds after the epoch to the next alignment point.
pub fn calculate_time_to_next_alignment(now_secs: u64, align_interval: Span) -> (r: Span)
    ensures
        r@ == alignment_wait(now_secs as nat, align_interval@),
{
    let interval_secs = align_interval.as_secs();
    if interval_secs == 0 {
        return Span::zero();
    }
    let remainder = now_secs % interval_secs;
    if remainder == 0 {
        align_interval
    } else {
        Span::from_nanos(align_interval.nanos - remainder * NANOS_PER_SEC)
    }
}

#[verifier::external_type_specification]
#[verifier::external_body]
pub struct ExSystemTime(std::time::SystemTime);

/// Relies on `std::time::SystemTime::now`: the current system time.
#[verifier::external_body]
fn system_now() -> SystemTime {
    SystemTime::now()
}

/// Relies on `std::time::SystemTime::duration_since(UNIX_EPOCH)`, read as
/// whole seconds and the nanoseconds of the second begun (`subsec_nanos`,
/// always under a billion): `None` for a time before the epoch.
#[verifier::external_body]
fn since_epoch(t: SystemTime) -> (r: Option<(u64, u32)>)
    ensures
        r matches Some(p) ==> p.1 < NANOS_PER_SEC,
{
    match t.duration_since(std::time::UNIX_EPOCH) {
        Ok(since) => Some((since.as_secs(), since.subsec_nanos())),
        Err(_) => None,
    }
}

/// Reads the system clock: whole seconds and nanoseconds since the Unix
/// epoch, or `None` where the clock stands before it.
pub(crate) fn read_epoch_clock() -> (r: Option<(u64, u32)>)
    ensures
        r matches Some(p) ==> p.1 < NANOS_PER_SEC,
{
    since_epoch(system_now())
}

/// Reads the system clock: whole seconds since the Unix epoch, or `None`
/// where the clock stands before it.
pub(crate) fn seconds_since_epoch() -> Option<u64> {
    match read_epoch_clock() {
        Some((secs, _)) => Some(secs),
        None => None,
    }
}

impl WaitCondition for TimeAlignWait {
    /// Reads the clock once; fails only where it cannot be read.
    fn calculate_wait_duration(&self) -> (r: Result<Span, WaitError>)
        ensures
            r is Err ==> r == Err::<Span, WaitError>(WaitError::ClockReadError),
            r is Ok ==> exists|now_secs: u64|
                r->Ok_0@ == #[trigger] alignment_wait(now_secs as nat, self.align_interval@),
    {
        match seconds_since_epoch() {
            Some(now_secs) => Ok(calculate_time_to_next_alignment(now_secs, self.align_interval)),
            None => Err(WaitError::ClockReadError),
        }
    }
}

/// A wait whose length was resolved from a time of day when it was built.
#[derive(Clone, Copy, Debug, PartialEq, Eq, Structural)]
pub struct UntilTimeWait {
    pub sleep_duration: Span,
    pub verbose: Verbosity,
}

impl WaitCondition for UntilTimeWait {
    /// The stored duration.
    fn calculate_wait_duration(&self) -> (r: Result<Span, WaitError>)
        ensures
            r == Ok::<Span, WaitError>(self.sleep_duration),
    {
        Ok(self.sleep_duration)
    }
}

} // verus!
