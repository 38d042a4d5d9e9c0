//! The duration-to-phrase core: rough bucket selection, the precise
//! cascading split, tense derivation, and list joining.

use vstd::prelude::*;

use crate::error::Error;
use crate::period::{Accuracy, Tense, TimePeriod, text_at};

verus! {

// Number of seconds in various time periods. The threshold table and the
// cascading split both treat a month as exactly 30 days and a year as
// exactly 365 days.
pub const S_MINUTE: u128 = 60;

pub const S_HOUR: u128 = S_MINUTE * 60;

pub const S_DAY: u128 = S_HOUR * 24;

pub const S_WEEK: u128 = S_DAY * 7;

pub const S_MONTH: u128 = S_DAY * 30;

pub const S_YEAR: u128 = S_DAY * 365;

// Number of nanoseconds in various time periods.
pub const NS_SECOND: u128 = 1_000_000_000;

pub const NS_MICRO: u128 = 1_000;

pub const NS_MILLI: u128 = 1_000_000;

pub const NS_MINUTE: u128 = S_MINUTE * NS_SECOND;

pub const NS_HOUR: u128 = S_HOUR * NS_SECOND;

pub const NS_DAY: u128 = S_DAY * NS_SECOND;

pub const NS_WEEK: u128 = S_WEEK * NS_SECOND;

pub const NS_MONTH: u128 = S_MONTH * NS_SECOND;

pub const NS_YEAR: u128 = S_YEAR * NS_SECOND;

/// The magnitude of a signed nanosecond count.
pub open spec fn abs_of(nanos: int) -> nat {
    if nanos >= 0 {
        nanos as nat
    } else {
        (-nanos) as nat
    }
}

/// A quotient bumped up to at least two, so that a plural bucket never
/// renders a count of one.
pub open spec fn at_least_two(q: nat) -> nat {
    if q < 2 {
        2
    } else {
        q
    }
}

/// The rough bucket for a magnitude of `n` whole seconds: the single
/// largest-fit rounded unit, chosen from a fixed threshold table ordered
/// largest first. A magnitude is never negative, so every duration lands
/// in a row of the table; the defensive `Eternity` period exists only as
/// renderable text, no threshold routes to it.
pub open spec fn rough_period_of(n: nat) -> TimePeriod {
    if n > 547 * S_DAY {
        TimePeriod::Years(at_least_two(n / (S_YEAR as nat)) as u128)
    } else if n > 345 * S_DAY {
        TimePeriod::Years(1)
    } else if n > 45 * S_DAY {
        TimePeriod::Months(at_least_two(n / (S_MONTH as nat)) as u128)
    } else if n > 29 * S_DAY {
        TimePeriod::Months(1)
    } else if n > 10 * S_DAY + 12 * S_HOUR {
        TimePeriod::Weeks(at_least_two(n / (S_WEEK as nat)) as u128)
    } else if n > 6 * S_DAY + 12 * S_HOUR {
        TimePeriod::Weeks(1)
    } else if n > 36 * S_HOUR {
        TimePeriod::Days(at_least_two(n / (S_DAY as nat)) as u128)
    } else if n > 22 * S_HOUR {
        TimePeriod::Days(1)
    } else if n > 90 * S_MINUTE {
        TimePeriod::Hours(at_least_two(n / (S_HOUR as nat)) as u128)
    } else if n > 45 * S_MINUTE {
        TimePeriod::Hours(1)
    } else if n > 90 {
        TimePeriod::Minutes(at_least_two(n / (S_MINUTE as nat)) as u128)
    } else if n > 45 {
        TimePeriod::Minutes(1)
    } else if n > 10 {
        TimePeriod::Seconds(n as u128)
    } else {
        TimePeriod::Now
    }
}

/// The whole-unit counts of the precise split of a magnitude of `m`
/// nanoseconds, largest unit first: years, months, weeks, days, hours,
/// minutes, seconds, milliseconds, microseconds, nanoseconds.
pub open spec fn precise_counts(m: nat) -> Seq<nat> {
    let years = m / (NS_YEAR as nat);
    let r_y = m % (NS_YEAR as nat);
    let months = r_y / (NS_MONTH as nat);
    let r_mo = r_y % (NS_MONTH as nat);
    let weeks = r_mo / (NS_WEEK as nat);
    let r_w = r_mo % (NS_WEEK as nat);
    let days = r_w / (NS_DAY as nat);
    let r_d = r_w % (NS_DAY as nat);
    let hours = r_d / (NS_HOUR as nat);
    let r_h = r_d % (NS_HOUR as nat);
    let minutes = r_h / (NS_MINUTE as nat);
    let r_mi = r_h % (NS_MINUTE as nat);
    let seconds = r_mi / (NS_SECOND as nat);
    let r_s = r_mi % (NS_SECOND as nat);
    let millis = r_s / (NS_MILLI as nat);
    let r_ms = r_s % (NS_MILLI as nat);
    let micros = r_ms / (NS_MICRO as nat);
    let nanos = r_ms % (NS_MICRO as nat);
    seq![years, months, weeks, days, hours, minutes, seconds, millis, micros, nanos]
}

/// A single period, or nothing when its count is zero.
pub open spec fn maybe_period(c: nat, p: TimePeriod) -> Seq<TimePeriod> {
    if c == 0 {
        Seq::empty()
    } else {
        seq![p]
    }
}

/// The period standing for the unit at position `i` of the precise split
/// (position 0 is years, position 9 is nanoseconds) with count `c`.
pub open spec fn unit_period(i: int, c: nat) -> TimePeriod {
    if i == 0 {
        TimePeriod::Years(c as u128)
    } else if i == 1 {
        TimePeriod::Months(c as u128)
    } else if i == 2 {
        TimePeriod::Weeks(c as u128)
    } else if i == 3 {
        TimePeriod::Days(c as u128)
    } else if i == 4 {
        TimePeriod::Hours(c as u128)
    } else if i == 5 {
        TimePeriod::Minutes(c as u128)
    } else if i == 6 {
        TimePeriod::Seconds(c as u128)
    } else if i == 7 {
        TimePeriod::Millis(c as u128)
    } else if i == 8 {
        TimePeriod::Micros(c as u128)
    } else {
        TimePeriod::Nanos(c as u128)
    }
}

/// The periods emitted for the first `k` units of the split whose counts
/// are `cs`: one period for each non-zero count, in unit order.
pub open spec fn emitted(cs: Seq<nat>, k: int) -> Seq<TimePeriod>
    decreases k,
{
    if k <= 0 {
        Seq::empty()
    } else {
        emitted(cs, k - 1) + maybe_period(cs[k - 1], unit_period(k - 1, cs[k - 1]))
    }
}

/// The ordered period sequence of the precise split of a magnitude of `m`
/// nanoseconds: every non-zero unit from years down to nanoseconds, and a
/// single zero-second entry when the whole duration is zero.
pub open spec fn precise_periods_of(m: nat) -> Seq<TimePeriod> {
    let all = emitted(precise_counts(m), 10);
    if all.len() == 0 {
        seq![TimePeriod::Seconds(0)]
    } else {
        all
    }
}

/// The period sequence a duration of `nanos` nanoseconds is rendered
/// through at the given accuracy.
pub open spec fn periods_of(nanos: int, accuracy: Accuracy) -> Seq<TimePeriod> {
    match accuracy {
        Accuracy::Rough => seq![rough_period_of(abs_of(nanos) / (NS_SECOND as nat))],
        Accuracy::Precise => precise_periods_of(abs_of(nanos)),
    }
}

/// The tense a duration of `nanos` nanoseconds is spoken in: in rough
/// accuracy anything below eleven seconds in magnitude counts as the
/// present, otherwise the sign decides.
pub open spec fn tense_of(nanos: int, accuracy: Accuracy) -> Tense {
    if accuracy == Accuracy::Rough && abs_of(nanos) < 11 * NS_SECOND {
        Tense::Present
    } else if nanos > 0 {
        Tense::Future
    } else if nanos < 0 {
        Tense::Past
    } else {
        Tense::Present
    }
}

/// All texts joined by ", ".
pub open spec fn comma_list(ps: Seq<TimePeriod>, accuracy: Accuracy) -> Seq<char>
    decreases ps.len(),
{
    if ps.len() <= 1 {
        text_at(ps[0], accuracy)
    } else {
        comma_list(ps.drop_last(), accuracy) + ", "@ + text_at(ps.last(), accuracy)
    }
}

/// The rendered list: all but the last joined by ", ", the last joined
/// by " and ".
pub open spec fn joined_text(ps: Seq<TimePeriod>, accuracy: Accuracy) -> Seq<char> {
    if ps.len() <= 1 {
        text_at(ps[0], accuracy)
    } else {
        comma_list(ps.drop_last(), accuracy) + " and "@ + text_at(ps.last(), accuracy)
    }
}

/// The tense wrapping: " ago" appended for the past, "in " prepended for
/// the future, the text unchanged for the present.
pub open spec fn with_tense(text: Seq<char>, tense: Tense) -> Seq<char> {
    match tense {
        Tense::Past => text + " ago"@,
        Tense::Future => "in "@ + text,
        Tense::Present => text,
    }
}

/// The full English phrase for a duration of `nanos` nanoseconds.
pub open spec fn text_en(nanos: int, accuracy: Accuracy, tense: Tense) -> Seq<char> {
    with_tense(joined_text(periods_of(nanos, accuracy), accuracy), tense)
}

/// A signed time interval that can express itself in English. Its view is
/// the signed length of the interval in nanoseconds, days counting as 24
/// hours, months as 30 days and years as 365 days.
#[derive(Clone, Copy, Debug, PartialEq, Eq, Structural)]
pub struct HumanTime {
    nanos: i128,
}

impl View for HumanTime {
    type V = int;

    closed spec fn view(&self) -> int {
        self.nanos as int
    }
}

impl HumanTime {
    /// Create `HumanTime` object that corresponds to the current point in
    /// time: the interval of length zero.
    pub fn now() -> (h: Self)
        ensures
            h@ == 0,
    {
        HumanTime { nanos: 0 }
    }

    /// The interval of `nanos` signed nanoseconds.
    pub fn from_nanos(nanos: i128) -> (h: Self)
        ensures
            h@ == nanos as int,
    {
        HumanTime { nanos }
    }

    pub fn is_zero(self) -> (r: bool)
        ensures
            r == (self@ == 0),
    {
        self.nanos == 0
    }

    /// The magnitude of this interval in nanoseconds.
    fn magnitude(self) -> (m: u128)
        ensures
            m as nat == abs_of(self@),
    {
        if self.nanos >= 0 {
            self.nanos as u128
        } else {
            let positive = -(self.nanos + 1);
            (positive as u128) + 1
        }
    }

    /// The tense this interval is spoken in, derived from its sign, except
    /// that in rough accuracy anything below eleven seconds in magnitude is
    /// the present.
    fn tense(self, accuracy: Accuracy) -> (t: Tense)
        ensures
            t == tense_of(self@, accuracy),
    {
        if accuracy.is_rough() && self.magnitude() < 11 * NS_SECOND {
            Tense::Present
        } else if self.nanos > 0 {
            Tense::Future
        } else if self.nanos < 0 {
            Tense::Past
        } else {
            Tense::Present
        }
    }

    /// The single rough bucket of this interval.
    fn rough_period(self) -> (r: Vec<TimePeriod>)
        ensures
            r@ == periods_of(self@, Accuracy::Rough),
            r@.len() == 1,
    {
        let n = self.magnitude() / NS_SECOND;
        let period = if n > 547 * S_DAY {
            TimePeriod::Years(at_least_two_exec(n / S_YEAR))
        } else if n > 345 * S_DAY {
            TimePeriod::Years(1)
        } else if n > 45 * S_DAY {
            TimePeriod::Months(at_least_two_exec(n / S_MONTH))
        } else if n > 29 * S_DAY {
            TimePeriod::Months(1)
        } else if n > 10 * S_DAY + 12 * S_HOUR {
            TimePeriod::Weeks(at_least_two_exec(n / S_WEEK))
        } else if n > 6 * S_DAY + 12 * S_HOUR {
            TimePeriod::Weeks(1)
        } else if n > 36 * S_HOUR {
            TimePeriod::Days(at_least_two_exec(n / S_DAY))
        } else if n > 22 * S_HOUR {
            TimePeriod::Days(1)
        } else if n > 90 * S_MINUTE {
            TimePeriod::Hours(at_least_two_exec(n / S_HOUR))
        } else if n > 45 * S_MINUTE {
            TimePeriod::Hours(1)
        } else if n > 90 {
            TimePeriod::Minutes(at_least_two_exec(n / S_MINUTE))
        } else if n > 45 {
            TimePeriod::Minutes(1)
        } else if n > 10 {
            TimePeriod::Seconds(n)
        } else {
            TimePeriod::Now
        };
        let mut periods: Vec<TimePeriod> = Vec::new();
        periods.push(period);
        periods
    }

    /// The precise split of this interval: every non-zero unit from years
    /// down to nanoseconds, largest first, with nothing of the magnitude
    /// lost.
    #[verifier::rlimit(30)]
    fn precise_period(self) -> (r: Vec<TimePeriod>)
        ensures
            r@ == periods_of(self@, Accuracy::Precise),
            r@.len() >= 1,
    {
        let m = self.magnitude();
        let years = m / NS_YEAR;
        let r_y = m % NS_YEAR;
        let months = r_y / NS_MONTH;
        let r_mo = r_y % NS_MONTH;
        let weeks = r_mo / NS_WEEK;
        let r_w = r_mo % NS_WEEK;
        let days = r_w / NS_DAY;
        let r_d = r_w % NS_DAY;
        let hours = r_d / NS_HOUR;
        let r_h = r_d % NS_HOUR;
        let minutes = r_h / NS_MINUTE;
        let r_mi = r_h % NS_MINUTE;
        let seconds = r_mi / NS_SECOND;
        let r_s = r_mi % NS_SECOND;
        let millis = r_s / NS_MILLI;
        let r_ms = r_s % NS_MILLI;
        let micros = r_ms / NS_MICRO;
        let nanos = r_ms % NS_MICRO;

        let ghost cs = precise_counts(abs_of(self@));
        proof {
            reveal_with_fuel(emitted, 11);
            assert(cs =~= seq![
                years as nat,
                months as nat,
                weeks as nat,
                days as nat,
                hours as nat,
                minutes as nat,
                seconds as nat,
                millis as nat,
                micros as nat,
                nanos as nat,
            ]);
        }
        let mut periods: Vec<TimePeriod> = Vec::new();
        push_if_nonzero(&mut periods, years, TimePeriod::Years(years));
        proof {
            assert(periods@ == emitted(cs, 1));
        }
        push_if_nonzero(&mut periods, months, TimePeriod::Months(months));
        proof {
            assert(periods@ == emitted(cs, 2));
        }
        push_if_nonzero(&mut periods, weeks, TimePeriod::Weeks(weeks));
        proof {
            assert(periods@ == emitted(cs, 3));
        }
        push_if_nonzero(&mut periods, days, TimePeriod::Days(days));
        proof {
            assert(periods@ == emitted(cs, 4));
        }
        push_if_nonzero(&mut periods, hours, TimePeriod::Hours(hours));
        proof {
            assert(periods@ == emitted(cs, 5));
        }
        push_if_nonzero(&mut periods, minutes, TimePeriod::Minutes(minutes));
        proof {
            assert(periods@ == emitted(cs, 6));
        }
        push_if_nonzero(&mut periods, seconds, TimePeriod::Seconds(seconds));
        proof {
            assert(periods@ == emitted(cs, 7));
        }
        push_if_nonzero(&mut periods, millis, TimePeriod::Millis(millis));
        proof {
            assert(periods@ == emitted(cs, 8));
        }
        push_if_nonzero(&mut periods, micros, TimePeriod::Micros(micros));
        proof {
            assert(periods@ == emitted(cs, 9));
        }
        push_if_nonzero(&mut periods, nanos, TimePeriod::Nanos(nanos));
        proof {
            assert(periods@ == emitted(cs, 10));
        }
        if periods.len() == 0 {
            periods.push(TimePeriod::Seconds(0));
            proof {
                assert(periods@ =~= seq![TimePeriod::Seconds(0)]);
            }
        }
        periods
    }

    /// Gives English text representation of the `HumanTime` with given
    /// `accuracy` and `tense`.
    #[must_use]
    pub fn to_text_en(self, accuracy: Accuracy, tense: Tense) -> (r: Result<String, Error>)
        ensures
            r is Ok,
            r->Ok_0@ == text_en(self@, accuracy, tense),
    {
        let periods = match accuracy {
            Accuracy::Rough => self.rough_period(),
            Accuracy::Precise => self.precise_period(),
        };
        let ghost ps = periods@;
        let n = periods.len();

        let mut text = periods[0].to_text(accuracy);
        proof {
            assert(ps.take(1)[0] == ps[0]);
            assert(text@ == comma_list(ps.take(1), accuracy));
        }
        let mut i: usize = 1;
        while i + 1 < n
            invariant
                ps == periods@,
                n == ps.len(),
                1 <= n,
                1 <= i,
                n >= 2 ==> i <= n - 1,
                n == 1 ==> i == 1,
                text@ == comma_list(ps.take(i as int), accuracy),
            decreases n - i,
        {
            text.append(", ");
            let t = periods[i].to_text(accuracy);
            text.append(t.as_str());
            proof {
                assert(ps.take(i + 1).drop_last() =~= ps.take(i as int));
                assert(ps.take(i + 1).last() == ps[i as int]);
                assert(text@ == comma_list(ps.take(i + 1), accuracy));
            }
            i = i + 1;
        }
        if n > 1 {
            text.append(" and ");
            let t = periods[n - 1].to_text(accuracy);
            text.append(t.as_str());
            proof {
                assert(ps.drop_last() =~= ps.take(n - 1));
                assert(text@ == joined_text(ps, accuracy));
            }
        }
        match tense {
            Tense::Past => {
                text.append(" ago");
                Ok(text)
            },
            Tense::Future => {
                let mut wrapped = "in ".to_owned();
                wrapped.append(text.as_str());
                Ok(wrapped)
            },
            Tense::Present => Ok(text),
        }
    }

    /// Gives English text representation with the tense derived from the
    /// sign of the interval.
    pub fn locale_en(&self, accuracy: Accuracy) -> (r: Result<String, Error>)
        ensures
            r is Ok,
            r->Ok_0@ == text_en(self@, accuracy, tense_of(self@, accuracy)),
    {
        let tense = self.tense(accuracy);
        self.to_text_en(accuracy, tense)
    }
}

/// The fixed length in nanoseconds of the unit at position `i` of the
/// precise split.
pub open spec fn unit_ns(i: int) -> nat {
    if i == 0 {
        NS_YEAR as nat
    } else if i == 1 {
        NS_MONTH as nat
    } else if i == 2 {
        NS_WEEK as nat
    } else if i == 3 {
        NS_DAY as nat
    } else if i == 4 {
        NS_HOUR as nat
    } else if i == 5 {
        NS_MINUTE as nat
    } else if i == 6 {
        NS_SECOND as nat
    } else if i == 7 {
        NS_MILLI as nat
    } else if i == 8 {
        NS_MICRO as nat
    } else {
        1
    }
}

/// The exact value of one period in nanoseconds: its count times the
/// fixed length of its unit, months counting 30 days and years 365 days.
/// `Now` and `Eternity` carry no count and stand for no magnitude.
pub open spec fn period_nanos(p: TimePeriod) -> nat {
    match p {
        TimePeriod::Now => 0,
        TimePeriod::Nanos(n) => n as nat,
        TimePeriod::Micros(n) => (n as nat) * (NS_MICRO as nat),
        TimePeriod::Millis(n) => (n as nat) * (NS_MILLI as nat),
        TimePeriod::Seconds(n) => (n as nat) * (NS_SECOND as nat),
        TimePeriod::Minutes(n) => (n as nat) * (NS_MINUTE as nat),
        TimePeriod::Hours(n) => (n as nat) * (NS_HOUR as nat),
        TimePeriod::Days(n) => (n as nat) * (NS_DAY as nat),
        TimePeriod::Weeks(n) => (n as nat) * (NS_WEEK as nat),
        TimePeriod::Months(n) => (n as nat) * (NS_MONTH as nat),
        TimePeriod::Years(n) => (n as nat) * (NS_YEAR as nat),
        TimePeriod::Eternity => 0,
    }
}

/// The summed value of a period sequence in nanoseconds.
pub open spec fn sum_nanos(ps: Seq<TimePeriod>) -> nat
    decreases ps.len(),
{
    if ps.len() == 0 {
        0
    } else {
        sum_nanos(ps.drop_last()) + period_nanos(ps.last())
    }
}

/// The weighted sum of the first `k` counts of a split: each count times
/// the length of its unit.
pub open spec fn weighted(cs: Seq<nat>, k: int) -> nat
    decreases k,
{
    if k <= 0 {
        0
    } else {
        weighted(cs, k - 1) + cs[k - 1] * unit_ns(k - 1)
    }
}

/// The value of the emitted periods equals the weighted sum of the
/// counts: a zero count contributes nothing either way.
proof fn lemma_sum_emitted(cs: Seq<nat>, k: int)
    requires
        forall|i: int| 0 <= i < k ==> cs[i] <= u128::MAX,
    ensures
        sum_nanos(emitted(cs, k)) == weighted(cs, k),
    decreases k,
{
    if k <= 0 {
    } else {
        lemma_sum_emitted(cs, k - 1);
        let c = cs[k - 1];
        let prev = emitted(cs, k - 1);
        if c == 0 {
            assert(prev + maybe_period(c, unit_period(k - 1, c)) =~= prev);
        } else {
            let whole = prev + maybe_period(c, unit_period(k - 1, c));
            assert(whole.drop_last() =~= prev);
            assert(whole.last() == unit_period(k - 1, c));
            assert(period_nanos(unit_period(k - 1, c)) == c * unit_ns(k - 1));
        }
    }
}

/// The counts of the precise split rebuild the magnitude exactly.
proof fn lemma_counts_rebuild(m: nat)
    ensures
        weighted(precise_counts(m), 10) == m,
{
    reveal_with_fuel(weighted, 11);
    broadcast use vstd::arithmetic::div_mod::lemma_fundamental_div_mod;

    let cs = precise_counts(m);
    assert(cs[0] == m / (NS_YEAR as nat));
    assert(cs[1] == m % (NS_YEAR as nat) / (NS_MONTH as nat));
    assert(cs[2] == m % (NS_YEAR as nat) % (NS_MONTH as nat) / (NS_WEEK as nat));
    assert(cs[3] == m % (NS_YEAR as nat) % (NS_MONTH as nat) % (NS_WEEK as nat) / (NS_DAY as nat));
    assert(cs[4] == m % (NS_YEAR as nat) % (NS_MONTH as nat) % (NS_WEEK as nat) % (NS_DAY as nat)
        / (NS_HOUR as nat));
    assert(cs[5] == m % (NS_YEAR as nat) % (NS_MONTH as nat) % (NS_WEEK as nat) % (NS_DAY as nat)
        % (NS_HOUR as nat) / (NS_MINUTE as nat));
    assert(cs[6] == m % (NS_YEAR as nat) % (NS_MONTH as nat) % (NS_WEEK as nat) % (NS_DAY as nat)
        % (NS_HOUR as nat) % (NS_MINUTE as nat) / (NS_SECOND as nat));
    assert(cs[7] == m % (NS_YEAR as nat) % (NS_MONTH as nat) % (NS_WEEK as nat) % (NS_DAY as nat)
        % (NS_HOUR as nat) % (NS_MINUTE as nat) % (NS_SECOND as nat) / (NS_MILLI as nat));
    assert(cs[8] == m % (NS_YEAR as nat) % (NS_MONTH as nat) % (NS_WEEK as nat) % (NS_DAY as nat)
        % (NS_HOUR as nat) % (NS_MINUTE as nat) % (NS_SECOND as nat) % (NS_MILLI as nat) / (
    NS_MICRO as nat));
    assert(cs[9] == m % (NS_YEAR as nat) % (NS_MONTH as nat) % (NS_WEEK as nat) % (NS_DAY as nat)
        % (NS_HOUR as nat) % (NS_MINUTE as nat) % (NS_SECOND as nat) % (NS_MILLI as nat) % (
    NS_MICRO as nat));
    let r_y = m % (NS_YEAR as nat);
    let r_mo = r_y % (NS_MONTH as nat);
    let r_w = r_mo % (NS_WEEK as nat);
    let r_d = r_w % (NS_DAY as nat);
    let r_h = r_d % (NS_HOUR as nat);
    let r_mi = r_h % (NS_MINUTE as nat);
    let r_s = r_mi % (NS_SECOND as nat);
    let r_ms = r_s % (NS_MILLI as nat);
    assert(m as int == (NS_YEAR as int) * ((m / (NS_YEAR as nat)) as int) + r_y as int);
    assert(r_y as int == (NS_MONTH as int) * ((r_y / (NS_MONTH as nat)) as int) + r_mo as int);
    assert(r_mo as int == (NS_WEEK as int) * ((r_mo / (NS_WEEK as nat)) as int) + r_w as int);
    assert(r_w as int == (NS_DAY as int) * ((r_w / (NS_DAY as nat)) as int) + r_d as int);
    assert(r_d as int == (NS_HOUR as int) * ((r_d / (NS_HOUR as nat)) as int) + r_h as int);
    assert(r_h as int == (NS_MINUTE as int) * ((r_h / (NS_MINUTE as nat)) as int) + r_mi as int);
    assert(r_mi as int == (NS_SECOND as int) * ((r_mi / (NS_SECOND as nat)) as int) + r_s as int);
    assert(r_s as int == (NS_MILLI as int) * ((r_s / (NS_MILLI as nat)) as int) + r_ms as int);
    assert(r_ms as int == (NS_MICRO as int) * ((r_ms / (NS_MICRO as nat)) as int) + (r_ms % (
    NS_MICRO as nat)) as int);
    assert(weighted(cs, 10) == cs[0] * (NS_YEAR as nat) + cs[1] * (NS_MONTH as nat) + cs[2] * (
    NS_WEEK as nat) + cs[3] * (NS_DAY as nat) + cs[4] * (NS_HOUR as nat) + cs[5] * (
    NS_MINUTE as nat) + cs[6] * (NS_SECOND as nat) + cs[7] * (NS_MILLI as nat) + cs[8] * (
    NS_MICRO as nat) + cs[9]);
    assert(weighted(cs, 10) == m);
}

/// Each count of the precise split is no larger than the magnitude it
/// was taken from.
proof fn lemma_counts_bounded(m: nat)
    ensures
        forall|i: int| 0 <= i < 10 ==> #[trigger] precise_counts(m)[i] <= m,
{
    broadcast use vstd::arithmetic::div_mod::lemma_fundamental_div_mod;

}

/// The precise split loses nothing: the values of the emitted periods,
/// each count times its fixed unit length, sum back to the exact
/// magnitude that was decomposed.
pub proof fn lemma_precise_round_trip(m: nat)
    requires
        m <= u128::MAX,
    ensures
        sum_nanos(precise_periods_of(m)) == m,
{
    let cs = precise_counts(m);
    lemma_counts_bounded(m);
    lemma_sum_emitted(cs, 10);
    lemma_counts_rebuild(m);
    let all = emitted(cs, 10);
    if all.len() == 0 {
        let single = seq![TimePeriod::Seconds(0u128)];
        assert(single.drop_last() =~= Seq::<TimePeriod>::empty());
        assert(sum_nanos(single) == 0);
    }
}

/// The tense on the other side of the utterance: past and future swapped,
/// the present kept.
pub open spec fn mirrored(tense: Tense) -> Tense {
    match tense {
        Tense::Past => Tense::Future,
        Tense::Future => Tense::Past,
        Tense::Present => Tense::Present,
    }
}

/// Negating a duration never changes the text content at any accuracy:
/// both decompositions read only the magnitude.
pub proof fn lemma_text_symmetric(nanos: int, accuracy: Accuracy, tense: Tense)
    ensures
        text_en(-nanos, accuracy, tense) == text_en(nanos, accuracy, tense),
{
    assert(abs_of(-nanos) == abs_of(nanos));
}

/// Negating a duration only mirrors the tense: "ago" turns into "in" and
/// the other way round, while the present stays the present.
pub proof fn lemma_tense_mirrored(nanos: int, accuracy: Accuracy)
    ensures
        tense_of(-nanos, accuracy) == mirrored(tense_of(nanos, accuracy)),
{
    assert(abs_of(-nanos) == abs_of(nanos));
}

/// The phrase is a function of the interval's value, the accuracy and
/// the tense alone: equal inputs give letter-for-letter equal text, so
/// formatting twice changes nothing.
pub proof fn lemma_format_deterministic(a: int, b: int, accuracy: Accuracy, tense: Tense)
    requires
        a == b,
    ensures
        text_en(a, accuracy, tense) == text_en(b, accuracy, tense),
{
}

/// The rough "now" bucket and the forced present tense agree: a duration
/// lands in the bucket exactly when its magnitude is below eleven whole
/// seconds, which is exactly when rough accuracy forces the present.
pub proof fn lemma_now_threshold(nanos: int)
    ensures
        (rough_period_of(abs_of(nanos) / (NS_SECOND as nat)) == TimePeriod::Now) <==> abs_of(nanos)
            < 11 * NS_SECOND,
        (tense_of(nanos, Accuracy::Rough) == Tense::Present) <==> (rough_period_of(
            abs_of(nanos) / (NS_SECOND as nat),
        ) == TimePeriod::Now),
{
    let m = abs_of(nanos);
    let n = m / (NS_SECOND as nat);
    vstd::arithmetic::div_mod::lemma_fundamental_div_mod(m as int, NS_SECOND as int);
}

/// Appends `p` when its count `c` is non-zero.
fn push_if_nonzero(periods: &mut Vec<TimePeriod>, c: u128, p: TimePeriod)
    ensures
        final(periods)@ == old(periods)@ + maybe_period(c as nat, p),
{
    if c > 0 {
        periods.push(p);
    }
    proof {
        assert(periods@ =~= old(periods)@ + maybe_period(c as nat, p));
    }
}

/// A quotient bumped up to at least two.
fn at_least_two_exec(q: u128) -> (r: u128)
    ensures
        r as nat == at_least_two(q as nat),
{
    if q < 2 {
        2
    } else {
        q
    }
}

} // verus!

