//! The progress scheduler: slices a sleep and decides what to report.
//!
//! The caller runs the loop. At each turn it reads how much time has passed
//! since the wait began, hands it to [`ProgressReporter::step`], displays what
//! the returned [`Tick`] says, and sleeps for its slice; it stops when the tick
//! carries no slice. The completion signal is a display of zero seconds, given
//! once, as the last display of the run.
use vstd::prelude::*;
use crate::span::{Span, sat_sub, NANOS_PER_MILLI, NANOS_PER_SEC};

verus! {

/// How often progress is reported.
#[derive(Clone, Copy, Debug, PartialEq, Eq, Structural)]
pub enum Cadence {
    /// Every given period.
    Fixed(Span),
    /// At a period that grows with the time that remains.
    Adaptive,
}

/// What to do at one turn of the wait loop.
#[derive(Clone, Copy, Debug, PartialEq, Eq, Structural)]
pub struct Tick {
    /// Whole seconds to display, if anything is to be displayed.
    pub display: Option<u64>,
    /// How long to sleep before the next turn; `None` when the wait is over.
    pub sleep: Option<Span>,
}

/// The state of one progress-reporting wait.
#[derive(Clone, Copy, Debug, PartialEq, Eq, Structural)]
pub struct ProgressReporter {
    /// The whole length of the wait.
    pub total: Span,
    pub cadence: Cadence,
    /// The last number of seconds displayed, if any.
    pub last_shown: Option<u64>,
    /// Set once the completion signal has been given.
    pub finished: bool,
}

/// The adaptive cadence, in nanoseconds, for `rem` nanoseconds remaining:
/// one second up to 20 s, five up to a minute, ten up to five minutes,
/// fifteen up to ten minutes, a minute beyond; each boundary belongs to the
/// lower bucket.
pub open spec fn adaptive_period(rem: nat) -> nat {
    if rem <= 20 * NANOS_PER_SEC {
        (1 * NANOS_PER_SEC) as nat
    } else if rem <= 60 * NANOS_PER_SEC {
        (5 * NANOS_PER_SEC) as nat
    } else if rem <= 300 * NANOS_PER_SEC {
        (10 * NANOS_PER_SEC) as nat
    } else if rem <= 600 * NANOS_PER_SEC {
        (15 * NANOS_PER_SEC) as nat
    } else {
        (60 * NANOS_PER_SEC) as nat
    }
}

/// The largest boundary of the adaptive table, in nanoseconds, that lies
/// strictly below `rem`; zero where there is none.
pub open spec fn boundary_below(rem: nat) -> nat {
    if rem > 600 * NANOS_PER_SEC {
        (600 * NANOS_PER_SEC) as nat
    } else if rem > 300 * NANOS_PER_SEC {
        (300 * NANOS_PER_SEC) as nat
    } else if rem > 60 * NANOS_PER_SEC {
        (60 * NANOS_PER_SEC) as nat
    } else if rem > 20 * NANOS_PER_SEC {
        (20 * NANOS_PER_SEC) as nat
    } else {
        0
    }
}

pub open spec fn min_nat(a: nat, b: nat) -> nat {
    if a <= b {
        a
    } else {
        b
    }
}

pub open spec fn max_nat(a: nat, b: nat) -> nat {
    if a >= b {
        a
    } else {
        b
    }
}

/// The shortest slice the scheduler sleeps, so that it never spins.
pub open spec fn min_slice() -> nat {
    NANOS_PER_MILLI as nat
}

/// The adaptive slice for `rem` nanoseconds remaining: the least of the
/// cadence, the time until the remaining time is the next whole multiple of
/// the cadence (a full cadence when it is one now), and the time until it
/// reaches the next boundary of the table; never less than the minimum slice.
pub open spec fn adaptive_slice(rem: nat) -> nat {
    let cadence = adaptive_period(rem);
    let past_marker = rem % cadence;
    let to_marker = if past_marker == 0 {
        cadence
    } else {
        past_marker
    };
    let to_boundary = (rem - boundary_below(rem)) as nat;
    max_nat(min_slice(), min_nat(cadence, min_nat(to_boundary, to_marker)))
}

/// The fixed-cadence slice: the period, but never past the end of the wait,
/// and never less than the minimum slice.
pub open spec fn fixed_slice(period: nat, rem: nat) -> nat {
    max_nat(min_slice(), min_nat(period, rem))
}

/// `rem` nanoseconds as whole seconds, rounded half up.
pub open spec fn rounded_secs(rem: nat) -> nat {
    (rem + NANOS_PER_SEC as nat / 2) / NANOS_PER_SEC as nat
}

impl Cadence {
    pub open spec fn slice(self, rem: nat) -> nat {
        match self {
            Cadence::Fixed(period) => fixed_slice(period@, rem),
            Cadence::Adaptive => adaptive_slice(rem),
        }
    }
}

impl ProgressReporter {
    /// One turn of the loop, `elapsed` nanoseconds after the wait began: the
    /// state after it, and what the caller is to do.
    pub open spec fn next(self, elapsed: nat) -> (ProgressReporter, Tick) {
        if self.finished {
            (self, Tick { display: None, sleep: None })
        } else {
            let rem = sat_sub(self.total@, elapsed);
            if rem == 0 {
                (
                    ProgressReporter { finished: true, ..self },
                    Tick { display: Some(0), sleep: None },
                )
            } else {
                let shown = rounded_secs(rem);
                let show = shown != 0 && self.last_shown != Some(shown as u64);
                let slice = Span { nanos: self.cadence.slice(rem) as u64 };
                if show {
                    (
                        ProgressReporter { last_shown: Some(shown as u64), ..self },
                        Tick { display: Some(shown as u64), sleep: Some(slice) },
                    )
                } else {
                    (self, Tick { display: None, sleep: Some(slice) })
                }
            }
        }
    }

    /// The seconds displayed over a run in which the loop reads the elapsed
    /// times `readings`, one per turn.
    pub open spec fn trace(self, readings: Seq<nat>) -> Seq<u64>
        decreases readings.len(),
    {
        if readings.len() == 0 {
            Seq::empty()
        } else {
            let (after, tick) = self.next(readings[0]);
            let shown = match tick.display {
                Some(s) => seq![s],
                None => Seq::empty(),
            };
            shown + after.trace(readings.drop_first())
        }
    }
}

/// The adaptive update period for the time that remains: one second up to
/// 20 s, five up to a minute, ten up to five minutes, fifteen up to ten
/// minutes, a minute beyond. Each boundary belongs to the lower bucket.
pub fn get_adaptive_update_period(remaining: Span) -> (r: Span)
    ensures
        r@ == adaptive_period(remaining@),
{
    if remaining.nanos <= 20 * NANOS_PER_SEC {
        Span::from_secs(1)
    } else if remaining.nanos <= 60 * NANOS_PER_SEC {
        Span::from_secs(5)
    } else if remaining.nanos <= 300 * NANOS_PER_SEC {
        Span::from_secs(10)
    } else if remaining.nanos <= 600 * NANOS_PER_SEC {
        Span::from_secs(15)
    } else {
        Span::from_secs(60)
    }
}

/// The boundary of the adaptive table strictly below `remaining`.
fn boundary_below_span(remaining: Span) -> (r: Span)
    ensures
        r@ == boundary_below(remaining@),
{
    if remaining.nanos > 600 * NANOS_PER_SEC {
        Span::from_secs(600)
    } else if remaining.nanos > 300 * NANOS_PER_SEC {
        Span::from_secs(300)
    } else if remaining.nanos > 60 * NANOS_PER_SEC {
        Span::from_secs(60)
    } else if remaining.nanos > 20 * NANOS_PER_SEC {
        Span::from_secs(20)
    } else {
        Span::zero()
    }
}

/// The next slice of an adaptive wait with `remaining` left.
pub fn adaptive_slice_for(remaining: Span) -> (r: Span)
    ensures
        r@ == adaptive_slice(remaining@),
{
    let cadence = get_adaptive_update_period(remaining);
    let past_marker = Span::from_nanos(remaining.nanos % cadence.nanos);
    let to_marker = if past_marker.is_zero() {
        cadence
    } else {
        past_marker
    };
    let to_boundary = remaining.saturating_sub(boundary_below_span(remaining));
    let slice = cadence.min(to_boundary.min(to_marker));
    slice.max(Span::from_millis(1))
}

/// The next slice of a fixed-cadence wait with `remaining` left.
pub fn fixed_slice_for(period: Span, remaining: Span) -> (r: Span)
    ensures
        r@ == fixed_slice(period@, remaining@),
{
    period.min(remaining).max(Span::from_millis(1))
}

/// `remaining` in whole seconds, rounded half up.
pub fn rounded_secs_of(remaining: Span) -> (r: u64)
    ensures
        r == rounded_secs(remaining@),
{
    let whole = remaining.nanos / NANOS_PER_SEC;
    if remaining.nanos % NANOS_PER_SEC >= NANOS_PER_SEC / 2 {
        whole + 1
    } else {
        whole
    }
}

impl ProgressReporter {
    /// A wait of `total` that reports at `cadence`; nothing shown yet.
    pub fn new(total: Span, cadence: Cadence) -> (r: ProgressReporter)
        ensures
            r == (ProgressReporter { total, cadence, last_shown: None, finished: false }),
    {
        ProgressReporter { total, cadence, last_shown: None, finished: false }
    }

    /// One turn of the loop, `elapsed` after the wait began.
    ///
    /// Once the remaining time is zero the tick displays zero, carries no
    /// slice, and every later turn does nothing. Before that, the rounded
    /// remaining seconds are displayed when they differ from the last ones
    /// displayed and are not zero, and the slice follows the cadence.
    pub fn step(&mut self, elapsed: Span) -> (t: Tick)
        ensures
            (*final(self), t) == old(self).next(elapsed@),
    {
        if self.finished {
            return Tick { display: None, sleep: None };
        }
        let remaining = self.total.saturating_sub(elapsed);
        if remaining.is_zero() {
            self.finished = true;
            return Tick { display: Some(0), sleep: None };
        }
        let shown = rounded_secs_of(remaining);
        let slice = match self.cadence {
            Cadence::Fixed(period) => fixed_slice_for(period, remaining),
            Cadence::Adaptive => adaptive_slice_for(remaining),
        };
        let show = shown != 0 && match self.last_shown {
            Some(last) => last != shown,
            None => true,
        };
        if show {
            self.last_shown = Some(shown);
            Tick { display: Some(shown), sleep: Some(slice) }
        } else {
            Tick { display: None, sleep: Some(slice) }
        }
    }
}

/// A finished wait displays nothing more, whatever the loop reads.
pub proof fn lemma_finished_shows_nothing(r: ProgressReporter, readings: Seq<nat>)
    requires
        r.finished,
    ensures
        r.trace(readings) == Seq::<u64>::empty(),
    decreases readings.len(),
{
    if readings.len() > 0 {
        lemma_finished_shows_nothing(r, readings.drop_first());
    }
}

/// The completion signal comes once, and last: over any run, a display of
/// zero seconds is the last display, so there is at most one; and once the
/// loop reads an elapsed time that covers the whole wait, the run has ended
/// with that display.
pub proof fn lemma_completion_shown_once_and_last(r: ProgressReporter, readings: Seq<nat>)
    ensures
        forall|i: int|
            0 <= i < r.trace(readings).len() && r.trace(readings)[i] == 0 ==> i == r.trace(
                readings,
            ).len() - 1,
        !r.finished && (exists|k: int| 0 <= k < readings.len() && readings[k] >= r.total@) ==> {
            &&& r.trace(readings).len() > 0
            &&& r.trace(readings).last() == 0
        },
    decreases readings.len(),
{
    if readings.len() > 0 {
        let (after, tick) = r.next(readings[0]);
        let rest = readings.drop_first();
        lemma_completion_shown_once_and_last(after, rest);
        let shown = match tick.display {
            Some(s) => seq![s],
            None => Seq::<u64>::empty(),
        };
        assert(r.trace(readings) == shown + after.trace(rest));
        if tick.display == Some(0u64) {
            lemma_finished_shows_nothing(after, rest);
            assert(r.trace(readings) == seq![0u64]);
        }
        if !r.finished && (exists|k: int| 0 <= k < readings.len() && readings[k] >= r.total@) {
            let k = choose|k: int| 0 <= k < readings.len() && readings[k] >= r.total@;
            if k > 0 && readings[0] < r.total@ {
                assert(rest[k - 1] >= after.total@);
            }
        }
    }
}

/// An adaptive slice longer than the minimum never runs past the end of the
/// wait, nor carries the remaining time across a boundary of the cadence
/// table, so no change of cadence is skipped.
pub proof fn lemma_adaptive_slice_stops_at_boundaries(rem: nat, boundary: nat)
    requires
        boundary == 20 || boundary == 60 || boundary == 300 || boundary == 600,
        adaptive_slice(rem) > min_slice(),
    ensures
        adaptive_slice(rem) <= rem,
        rem > boundary * NANOS_PER_SEC ==> rem - adaptive_slice(rem) >= boundary * NANOS_PER_SEC,
{
    let cadence = adaptive_period(rem);
    assert(rem % cadence <= rem) by (nonlinear_arith)
        requires
            cadence > 0,
    {
    }
}

} // verus!
