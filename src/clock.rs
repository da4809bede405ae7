//! Resolving a time of day into the forward wait until it.
//!
//! The computation is on the local wall clock's time of day: the date and
//! daylight-saving changes play no part, and a time already past today is
//! taken tomorrow, 24 hours on.
use vstd::prelude::*;
use chrono::Timelike;
use crate::conditions::{WaitError, read_epoch_clock};
use crate::span::{Span, sat_sub, NANOS_PER_SEC};

verus! {

/// Nanoseconds in a day.
pub const DAY_NANOS: u64 = 86_400_000_000_000;

/// A time of day: whole seconds past midnight, and nanoseconds into the
/// second (a leap second shows as nanoseconds past one billion).
#[derive(Clone, Copy, Debug, PartialEq, Eq, Structural)]
pub struct TimeOfDay {
    pub secs: u32,
    pub nanos: u32,
}

impl TimeOfDay {
    /// Nanoseconds past midnight.
    pub open spec fn view(self) -> nat {
        (self.secs * NANOS_PER_SEC + self.nanos) as nat
    }

    /// The time of day of a pair of seconds past midnight and nanoseconds.
    pub open spec fn of_pair(p: (u32, u32)) -> TimeOfDay {
        TimeOfDay { secs: p.0, nanos: p.1 }
    }

    /// Within a day: under 86,400 seconds, and nanoseconds under two billion
    /// (a leap second above one billion).
    pub open spec fn valid(self) -> bool {
        self.secs < 86_400 && self.nanos < 2 * NANOS_PER_SEC
    }

    pub fn new(secs: u32, nanos: u32) -> (r: TimeOfDay)
        ensures
            r == (TimeOfDay { secs, nanos }),
    {
        TimeOfDay { secs, nanos }
    }
}

/// The wait from the time of day `now` until the time of day `target`,
/// both in nanoseconds past midnight: the same day where `target` is not
/// before `now`, else the next (zero where even that has passed, as it can
/// only within a leap second).
pub open spec fn time_until(target: nat, now: nat) -> nat {
    if target < now {
        sat_sub((target + DAY_NANOS) as nat, now)
    } else {
        (target - now) as nat
    }
}

/// The forward wait from `now` until `target`, rolled to the next day where
/// `target` has already passed.
pub fn resolve_time_until(target: TimeOfDay, now: TimeOfDay) -> (r: Span)
    ensures
        r@ == time_until(target@, now@),
{
    let t: u64 = target.secs as u64 * NANOS_PER_SEC + target.nanos as u64;
    let n: u64 = now.secs as u64 * NANOS_PER_SEC + now.nanos as u64;
    if t < n {
        Span::from_nanos(t + DAY_NANOS).saturating_sub(Span::from_nanos(n))
    } else {
        Span::from_nanos(t - n)
    }
}

/// What `chrono::NaiveTime::parse_from_str` makes of the text `s` under the
/// format `fmt`: seconds past midnight and nanoseconds, or `None` where it
/// fails.
pub uninterp spec fn naive_time_parse(s: Seq<char>, fmt: Seq<char>) -> Option<(u32, u32)>;

/// Relies on `chrono::NaiveTime::parse_from_str`, read back through
/// `Timelike::num_seconds_from_midnight` (under 86,400) and
/// `Timelike::nanosecond` (under two billion, a leap second above one).
#[verifier::external_body]
fn parse_naive_time(s: &str, fmt: &str) -> (r: Option<(u32, u32)>)
    ensures
        r == naive_time_parse(s@, fmt@),
        r matches Some(p) ==> p.0 < 86_400 && p.1 < 2 * NANOS_PER_SEC,
{
    match chrono::NaiveTime::parse_from_str(s, fmt) {
        Ok(t) => Some((t.num_seconds_from_midnight(), t.nanosecond())),
        Err(_) => None,
    }
}

/// Relies on `chrono::DateTime::from_timestamp` and `with_timezone(&Local)`,
/// read through `Timelike::num_seconds_from_midnight` (under 86,400) and
/// `Timelike::nanosecond` (under two billion, a leap second above one): the
/// local time of day at an instant given in seconds and nanoseconds since the
/// Unix epoch, or `None` for an instant chrono cannot represent. The zone
/// lookup panics only where the system's time-zone data cannot be read, which
/// no argument decides.
#[verifier::external_body]
fn local_time_of_day_at(secs: u64, nanos: u32) -> (r: Option<(u32, u32)>)
    ensures
        r matches Some(p) ==> p.0 < 86_400 && p.1 < 2 * NANOS_PER_SEC,
{
    let utc = match i64::try_from(secs) {
        Ok(s) => chrono::DateTime::from_timestamp(s, nanos),
        Err(_) => None,
    };
    match utc {
        Some(t) => {
            let local = t.with_timezone(&chrono::Local);
            Some((local.num_seconds_from_midnight(), local.nanosecond()))
        },
        None => None,
    }
}

/// The time of day that `s` names: as `HH:MM`, or failing that as `HH:MM:SS`.
pub open spec fn parsed_time_of_day(s: Seq<char>) -> Option<(u32, u32)> {
    match naive_time_parse(s, "%H:%M"@) {
        Some(t) => Some(t),
        None => naive_time_parse(s, "%H:%M:%S"@),
    }
}

/// The wait until a parsed time of day, `now` being the time of day now:
/// `InvalidTimeFormat` where nothing was parsed.
pub fn time_until_parsed(parsed: Option<(u32, u32)>, now: TimeOfDay) -> (r: Result<Span, WaitError>)
    ensures
        parsed is None ==> r == Err::<Span, WaitError>(WaitError::InvalidTimeFormat),
        parsed is Some ==> r is Ok && r->Ok_0@ == time_until(TimeOfDay::of_pair(parsed.unwrap())@, now@),
{
    match parsed {
        Some((secs, nanos)) => Ok(resolve_time_until(TimeOfDay { secs, nanos }, now)),
        None => Err(WaitError::InvalidTimeFormat),
    }
}

/// The forward wait from now until the time of day `s` (`HH:MM` or
/// `HH:MM:SS`), read on the local clock: `InvalidTimeFormat`, without reading
/// the clock, where `s` names no time of day; `ClockReadError` where the clock
/// cannot be read. The wait is under a day, but for a leap second.
pub fn parse_time_until(s: &str) -> (r: Result<Span, WaitError>)
    ensures
        parsed_time_of_day(s@) is None ==> r == Err::<Span, WaitError>(WaitError::InvalidTimeFormat),
        parsed_time_of_day(s@) is Some ==> {
            &&& r is Err ==> r == Err::<Span, WaitError>(WaitError::ClockReadError)
            &&& r is Ok ==> exists|now: TimeOfDay|
                now.valid() && r->Ok_0@ == #[trigger] time_until(
                    TimeOfDay::of_pair(parsed_time_of_day(s@).unwrap())@,
                    now@,
                )
            &&& r is Ok ==> r->Ok_0@ < DAY_NANOS + 2 * NANOS_PER_SEC
        },
{
    let parsed = match parse_naive_time(s, "%H:%M") {
        Some(t) => Some(t),
        None => parse_naive_time(s, "%H:%M:%S"),
    };
    if parsed.is_none() {
        return Err(WaitError::InvalidTimeFormat);
    }
    let local = match read_epoch_clock() {
        Some((secs, nanos)) => local_time_of_day_at(secs, nanos),
        None => None,
    };
    match local {
        Some((secs, nanos)) => {
            let now = TimeOfDay { secs, nanos };
            let r = time_until_parsed(parsed, now);
            proof {
                lemma_time_until_under_a_day(TimeOfDay::of_pair(parsed.unwrap()), now);
            }
            r
        },
        None => Err(WaitError::ClockReadError),
    }
}

/// Between two times of day, the forward wait is under a day, but for a
/// leap second.
pub proof fn lemma_time_until_under_a_day(target: TimeOfDay, now: TimeOfDay)
    requires
        target.valid(),
        now.valid(),
    ensures
        time_until(target@, now@) < DAY_NANOS + 2 * NANOS_PER_SEC,
{
}

/// A target five seconds ahead of the clock, written in whole seconds as
/// `%H:%M:%S` writes it, is reached in five seconds less the fraction of the
/// current second; a target five seconds behind is taken the next day, a day
/// less five seconds and that fraction on (exactly 23 h 59 min 55 s on a
/// whole second).
pub proof fn lemma_five_seconds_ahead_or_behind(now: TimeOfDay)
    requires
        now.secs < 86_400,
        now.nanos < NANOS_PER_SEC,
    ensures
        now.secs + 5 < 86_400 ==> {
            let d = time_until(TimeOfDay { secs: (now.secs + 5) as u32, nanos: 0 }@, now@);
            4 * NANOS_PER_SEC < d <= 5 * NANOS_PER_SEC
        },
        now.secs >= 5 ==> {
            let d = time_until(TimeOfDay { secs: (now.secs - 5) as u32, nanos: 0 }@, now@);
            &&& DAY_NANOS - 6 * NANOS_PER_SEC < d <= DAY_NANOS - 5 * NANOS_PER_SEC
            &&& now.nanos == 0 ==> d == DAY_NANOS - 5 * NANOS_PER_SEC
        },
{
}

} // verus!
