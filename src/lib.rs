//! A wait engine: policies that compute how long to sleep (fixed, jittered,
//! sampled, probabilistic, aligned to a wall-clock interval, or until a time of
//! day) and a progress scheduler that decides how to slice a sleep and what to
//! report while it runs.
//!
//! Durations are held as whole nanoseconds in [`Span`]. The sleeping itself and
//! the printing are left to the caller: the scheduler hands back, at each step,
//! what to display and how long to sleep next.

pub mod clock;
pub mod conditions;
pub mod jitter;
pub mod messages;
pub mod progress;
pub mod span;

use vstd::prelude::*;
use crate::conditions::{
    DurationWait, Probability, ProbabilisticWait, SampledWait, TimeAlignWait, UniformWait,
    UntilTimeWait, Verbosity, WaitCondition, WaitError, ROLL_SCALE, alignment_wait,
    calculate_time_to_next_alignment, clamped_sample, draw_jitter, draw_roll, jitter_bound,
};
use crate::span::{Span, sat_add, NANOS_PER_MILLI};

verus! {

/// One wait policy, with its parameters.
#[derive(Clone, Copy, Debug, PartialEq, Eq, Structural)]
pub enum WaitPolicy {
    Fixed(DurationWait),
    Probabilistic(ProbabilisticWait),
    Uniform(UniformWait),
    Sampled(SampledWait),
    Align(TimeAlignWait),
    Until(UntilTimeWait),
}

/// The values a policy draws from outside: the jitter, a uniform sample, a
/// roll, and the seconds since the Unix epoch (`None` where the clock could
/// not be read). Fixing them, as stubs do, fixes the wait.
#[derive(Clone, Copy, Debug, PartialEq, Eq, Structural)]
pub struct Draws {
    pub jitter: Span,
    pub sample: Span,
    pub roll: u32,
    pub now_secs: Option<u64>,
}

/// What the caller is to do: sleep, reporting as asked, or skip the sleep
/// (a probabilistic wait whose roll failed, or whose duration is zero).
#[derive(Clone, Copy, Debug, PartialEq, Eq, Structural)]
pub enum WaitPlan {
    Sleep { duration: Span, verbose: Verbosity },
    Skip { probability: Probability, roll: u32 },
}

pub open spec fn span_of(n: nat) -> Span {
    Span { nanos: n as u64 }
}

impl WaitPolicy {
    /// The policy for a duration: probabilistic where a probability is given
    /// (no jitter applies then), else the duration plus jitter.
    pub fn for_duration(
        duration: Span,
        jitter: Option<Span>,
        probability: Option<Probability>,
        verbose: Verbosity,
    ) -> (r: WaitPolicy)
        ensures
            r == match probability {
                Some(p) => WaitPolicy::Probabilistic(
                    ProbabilisticWait { duration, probability: p, verbose },
                ),
                None => WaitPolicy::Fixed(DurationWait { duration, jitter, verbose }),
            },
    {
        match probability {
            Some(p) => WaitPolicy::Probabilistic(ProbabilisticWait { duration, probability: p, verbose }),
            None => WaitPolicy::Fixed(DurationWait { duration, jitter, verbose }),
        }
    }

    pub open spec fn verbosity(self) -> Verbosity {
        match self {
            WaitPolicy::Fixed(w) => w.verbose,
            WaitPolicy::Probabilistic(w) => w.verbose,
            WaitPolicy::Uniform(w) => w.verbose,
            WaitPolicy::Sampled(w) => w.verbose,
            WaitPolicy::Align(w) => w.verbose,
            WaitPolicy::Until(w) => w.verbose,
        }
    }

    /// The largest jitter the policy adds.
    pub open spec fn max_jitter(self) -> nat {
        match self {
            WaitPolicy::Fixed(w) => jitter_bound(w.jitter),
            WaitPolicy::Uniform(w) => jitter_bound(w.jitter),
            WaitPolicy::Sampled(w) => jitter_bound(w.jitter),
            _ => 0,
        }
    }

    /// The draws that the real sources can give this policy.
    pub open spec fn admissible(self, d: Draws) -> bool {
        &&& d.jitter@ <= self.max_jitter()
        &&& d.jitter@ % NANOS_PER_MILLI as nat == 0
        &&& d.roll < ROLL_SCALE
        &&& match self {
            WaitPolicy::Uniform(w) => w.valid() ==> w.min@ <= d.sample@ < w.max@,
            _ => true,
        }
    }

    /// The wait under the draws `d`.
    pub open spec fn duration_spec(self, d: Draws) -> Result<Span, WaitError> {
        match self {
            WaitPolicy::Fixed(w) => Ok(span_of(sat_add(w.duration@, d.jitter@))),
            WaitPolicy::Probabilistic(w) => Ok(
                if w.sleeps_on(d.roll) {
                    w.duration
                } else {
                    span_of(0)
                },
            ),
            WaitPolicy::Uniform(w) => if w.valid() {
                Ok(span_of(sat_add(d.sample@, d.jitter@)))
            } else {
                Err(WaitError::InvalidDistributionParameters)
            },
            WaitPolicy::Sampled(w) => Ok(
                span_of(sat_add(clamped_sample(w.sample_nanos as int), d.jitter@)),
            ),
            WaitPolicy::Align(w) => match d.now_secs {
                Some(now) => Ok(span_of(alignment_wait(now as nat, w.align_interval@))),
                None => Err(WaitError::ClockReadError),
            },
            WaitPolicy::Until(w) => Ok(w.sleep_duration),
        }
    }

    /// The plan under the draws `d`: a probabilistic wait that does not sleep,
    /// or sleeps zero, is skipped; any other wait sleeps what it computes.
    pub open spec fn plan_spec(self, d: Draws) -> Result<WaitPlan, WaitError> {
        match self {
            WaitPolicy::Probabilistic(w) => if w.sleeps_on(d.roll) && w.duration@ != 0 {
                Ok(WaitPlan::Sleep { duration: w.duration, verbose: w.verbose })
            } else {
                Ok(WaitPlan::Skip { probability: w.probability, roll: d.roll })
            },
            _ => match self.duration_spec(d) {
                Ok(duration) => Ok(WaitPlan::Sleep { duration, verbose: self.verbosity() }),
                Err(e) => Err(e),
            },
        }
    }

    /// The wait under the given draws.
    pub fn duration_with(&self, d: Draws) -> (r: Result<Span, WaitError>)
        ensures
            r == self.duration_spec(d),
    {
        match self {
            WaitPolicy::Fixed(w) => Ok(w.duration_with_jitter(d.jitter)),
            WaitPolicy::Probabilistic(w) => Ok(w.duration_for_roll(d.roll)),
            WaitPolicy::Uniform(w) => w.duration_with_draws(d.sample, d.jitter),
            WaitPolicy::Sampled(w) => Ok(w.duration_with_jitter(d.jitter)),
            WaitPolicy::Align(w) => match d.now_secs {
                Some(now) => Ok(calculate_time_to_next_alignment(now, w.align_interval)),
                None => Err(WaitError::ClockReadError),
            },
            WaitPolicy::Until(w) => Ok(w.sleep_duration),
        }
    }

    /// The plan under the given draws.
    pub fn plan_with(&self, d: Draws) -> (r: Result<WaitPlan, WaitError>)
        ensures
            r == self.plan_spec(d),
    {
        match self {
            WaitPolicy::Probabilistic(w) => {
                let duration = w.duration_for_roll(d.roll);
                if duration.is_zero() {
                    Ok(WaitPlan::Skip { probability: w.probability, roll: d.roll })
                } else {
                    Ok(WaitPlan::Sleep { duration, verbose: w.verbose })
                }
            },
            _ => match self.duration_with(d) {
                Ok(duration) => Ok(WaitPlan::Sleep { duration, verbose: self.verbosity_of() }),
                Err(e) => Err(e),
            },
        }
    }

    pub fn verbosity_of(&self) -> (r: Verbosity)
        ensures
            r == self.verbosity(),
    {
        match self {
            WaitPolicy::Fixed(w) => w.verbose,
            WaitPolicy::Probabilistic(w) => w.verbose,
            WaitPolicy::Uniform(w) => w.verbose,
            WaitPolicy::Sampled(w) => w.verbose,
            WaitPolicy::Align(w) => w.verbose,
            WaitPolicy::Until(w) => w.verbose,
        }
    }

    /// Draws from the real sources what this policy needs, and nothing else:
    /// no randomness for a zero jitter bound, no clock but for alignment.
    pub fn draw(&self) -> (d: Draws)
        ensures
            self.admissible(d),
    {
        let mut d = Draws { jitter: Span::zero(), sample: Span::zero(), roll: 0, now_secs: None };
        match self {
            WaitPolicy::Fixed(w) => {
                d.jitter = draw_jitter(w.jitter);
            },
            WaitPolicy::Probabilistic(_) => {
                d.roll = draw_roll();
            },
            WaitPolicy::Uniform(w) => {
                if w.min.nanos < w.max.nanos {
                    d.sample = w.draw_sample();
                }
                d.jitter = draw_jitter(w.jitter);
            },
            WaitPolicy::Sampled(w) => {
                d.jitter = draw_jitter(w.jitter);
            },
            WaitPolicy::Align(_) => {
                d.now_secs = crate::conditions::seconds_since_epoch();
            },
            WaitPolicy::Until(_) => {},
        }
        d
    }
}

impl WaitCondition for WaitPolicy {
    /// The wait under one set of real draws.
    fn calculate_wait_duration(&self) -> (r: Result<Span, WaitError>)
        ensures
            exists|d: Draws| self.admissible(d) && r == #[trigger] self.duration_spec(d),
    {
        let d = self.draw();
        self.duration_with(d)
    }
}

/// Computes what one wait is to do: draws what the policy needs and decides
/// how long to sleep, or to skip. The caller then sleeps, reporting progress
/// as the plan says.
pub fn run(policy: &WaitPolicy) -> (r: Result<WaitPlan, WaitError>)
    ensures
        exists|d: Draws| policy.admissible(d) && r == #[trigger] policy.plan_spec(d),
{
    let d = policy.draw();
    policy.plan_with(d)
}

impl WaitPolicy {
    /// The two sets of draws agree on every value that this policy uses.
    pub open spec fn same_used_draws(self, d1: Draws, d2: Draws) -> bool {
        match self {
            WaitPolicy::Fixed(_) => d1.jitter == d2.jitter,
            WaitPolicy::Probabilistic(_) => d1.roll == d2.roll,
            WaitPolicy::Uniform(_) => d1.jitter == d2.jitter && d1.sample == d2.sample,
            WaitPolicy::Sampled(_) => d1.jitter == d2.jitter,
            WaitPolicy::Align(_) => d1.now_secs == d2.now_secs,
            WaitPolicy::Until(_) => true,
        }
    }
}

/// With its draws fixed, as stubs fix them, a wait is a pure function of its
/// inputs: the computed duration and the plan depend on the policy and on the
/// draws it uses, on nothing else, and so come out the same every time.
pub proof fn lemma_fixed_draws_fix_the_wait(p: WaitPolicy, d1: Draws, d2: Draws)
    requires
        p.same_used_draws(d1, d2),
    ensures
        p.duration_spec(d1) == p.duration_spec(d2),
        p.plan_spec(d1) == p.plan_spec(d2),
{
}

/// A probabilistic wait with probability one sleeps its full duration on
/// every roll; with probability zero it skips the sleep on every roll.
pub proof fn lemma_probability_extremes(w: ProbabilisticWait, d: Draws)
    requires
        WaitPolicy::Probabilistic(w).admissible(d),
        w.duration@ != 0,
    ensures
        w.probability.per_billion == ROLL_SCALE ==> WaitPolicy::Probabilistic(w).plan_spec(d)
            == Ok::<WaitPlan, WaitError>(WaitPlan::Sleep { duration: w.duration, verbose: w.verbose }),
        w.probability.per_billion == 0 ==> WaitPolicy::Probabilistic(w).plan_spec(d)
            == Ok::<WaitPlan, WaitError>(WaitPlan::Skip { probability: w.probability, roll: d.roll }),
{
}

} // verus!
