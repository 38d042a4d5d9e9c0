//! The unit chunks a duration is rendered through, and their English text.

use vstd::prelude::*;

use crate::digits::dec_str;
use crate::digits::u128_to_string;

verus! {

/// Indicates the time of the period in relation to the time of the utterance
#[derive(Clone, Copy, Debug, Hash, PartialEq, Eq, Structural, PartialOrd)]
pub enum Tense {
    Past,
    Present,
    Future,
}

/// The accuracy of the representation
#[derive(Clone, Copy, Debug, Hash, PartialEq, Eq, Structural, PartialOrd)]
pub enum Accuracy {
    /// Rough approximation, easy to grasp, but not necessarily accurate
    Rough,
    /// Concise expression, accurate, but not necessarily easy to grasp
    Precise,
}

impl Accuracy {
    /// Returns whether this accuracy is precise
    #[must_use]
    pub fn is_precise(self) -> (r: bool)
        ensures
            r == (self == Accuracy::Precise),
    {
        self == Accuracy::Precise
    }

    /// Returns whether this accuracy is rough
    #[must_use]
    pub fn is_rough(self) -> (r: bool)
        ensures
            r == (self == Accuracy::Rough),
    {
        self == Accuracy::Rough
    }
}

/// One unit chunk of a rendered duration. The count is always the magnitude
/// of the chunk: the sign of the whole duration is carried by [`Tense`],
/// never by a count.
#[derive(Clone, Copy, Debug, PartialEq, Eq, Structural)]
pub enum TimePeriod {
    Now,
    Nanos(u128),
    Micros(u128),
    Millis(u128),
    Seconds(u128),
    Minutes(u128),
    Hours(u128),
    Days(u128),
    Weeks(u128),
    Months(u128),
    Years(u128),
    Eternity,
}

/// A count followed by a unit name, the name in the plural unless the
/// count is one: "1 second", "5 seconds".
pub open spec fn counted(n: nat, singular: Seq<char>, plural: Seq<char>) -> Seq<char> {
    dec_str(n) + (if n == 1 {
        singular
    } else {
        plural
    })
}

/// The precise-mode text of one period: always numeric, pluralized by
/// whether the count is one.
pub open spec fn text_precise(p: TimePeriod) -> Seq<char> {
    match p {
        TimePeriod::Now => "now"@,
        TimePeriod::Nanos(n) => dec_str(n as nat) + " ns"@,
        TimePeriod::Micros(n) => dec_str(n as nat) + " µs"@,
        TimePeriod::Millis(n) => dec_str(n as nat) + " ms"@,
        TimePeriod::Seconds(n) => counted(n as nat, " second"@, " seconds"@),
        TimePeriod::Minutes(n) => counted(n as nat, " minute"@, " minutes"@),
        TimePeriod::Hours(n) => counted(n as nat, " hour"@, " hours"@),
        TimePeriod::Days(n) => counted(n as nat, " day"@, " days"@),
        TimePeriod::Weeks(n) => counted(n as nat, " week"@, " weeks"@),
        TimePeriod::Months(n) => counted(n as nat, " month"@, " months"@),
        TimePeriod::Years(n) => counted(n as nat, " year"@, " years"@),
        TimePeriod::Eternity => "eternity"@,
    }
}

/// The rough-mode text of one period: counts of one for minutes and above
/// take an indefinite article, and "an" is used only before "hour";
/// sub-minute counts stay numeric.
pub open spec fn text_rough(p: TimePeriod) -> Seq<char> {
    match p {
        TimePeriod::Now => "now"@,
        TimePeriod::Nanos(n) => dec_str(n as nat) + " ns"@,
        TimePeriod::Micros(n) => dec_str(n as nat) + " µs"@,
        TimePeriod::Millis(n) => dec_str(n as nat) + " ms"@,
        TimePeriod::Seconds(n) => dec_str(n as nat) + " seconds"@,
        TimePeriod::Minutes(n) => if n == 1 {
            "a minute"@
        } else {
            dec_str(n as nat) + " minutes"@
        },
        TimePeriod::Hours(n) => if n == 1 {
            "an hour"@
        } else {
            dec_str(n as nat) + " hours"@
        },
        TimePeriod::Days(n) => if n == 1 {
            "a day"@
        } else {
            dec_str(n as nat) + " days"@
        },
        TimePeriod::Weeks(n) => if n == 1 {
            "a week"@
        } else {
            dec_str(n as nat) + " weeks"@
        },
        TimePeriod::Months(n) => if n == 1 {
            "a month"@
        } else {
            dec_str(n as nat) + " months"@
        },
        TimePeriod::Years(n) => if n == 1 {
            "a year"@
        } else {
            dec_str(n as nat) + " years"@
        },
        TimePeriod::Eternity => "eternity"@,
    }
}

/// The text of one period at the given accuracy.
pub open spec fn text_at(p: TimePeriod, accuracy: Accuracy) -> Seq<char> {
    match accuracy {
        Accuracy::Rough => text_rough(p),
        Accuracy::Precise => text_precise(p),
    }
}

/// Whether `p` is a chunk of a named unit (seconds up to years) whose
/// count is one. The sub-second chunks are left aside: their unit symbols
/// ("ns", "µs", "ms") are never inflected at all.
pub open spec fn is_singular_named_unit(p: TimePeriod) -> bool {
    ||| p == TimePeriod::Seconds(1u128)
    ||| p == TimePeriod::Minutes(1u128)
    ||| p == TimePeriod::Hours(1u128)
    ||| p == TimePeriod::Days(1u128)
    ||| p == TimePeriod::Weeks(1u128)
    ||| p == TimePeriod::Months(1u128)
    ||| p == TimePeriod::Years(1u128)
}

/// In precise mode a count of one never carries a plural "s": the text of
/// a singular named-unit chunk does not end in 's'.
pub proof fn lemma_precise_singular_not_plural(p: TimePeriod)
    requires
        is_singular_named_unit(p),
    ensures
        text_precise(p).len() > 0,
        text_precise(p).last() != 's',
{
    reveal_strlit(" second");
    reveal_strlit(" minute");
    reveal_strlit(" hour");
    reveal_strlit(" day");
    reveal_strlit(" week");
    reveal_strlit(" month");
    reveal_strlit(" year");
}

/// Whether `p` is a chunk of a minute-or-larger unit whose count is one.
pub open spec fn is_singular_large_unit(p: TimePeriod) -> bool {
    ||| p == TimePeriod::Minutes(1u128)
    ||| p == TimePeriod::Hours(1u128)
    ||| p == TimePeriod::Days(1u128)
    ||| p == TimePeriod::Weeks(1u128)
    ||| p == TimePeriod::Months(1u128)
    ||| p == TimePeriod::Years(1u128)
}

/// In rough mode a count of one for a minute-or-larger unit is never a
/// bare number: its text opens with an indefinite article, not a digit.
pub proof fn lemma_rough_singular_article(p: TimePeriod)
    requires
        is_singular_large_unit(p),
    ensures
        text_rough(p).len() > 0,
        text_rough(p)[0] == 'a',
{
    reveal_strlit("a minute");
    reveal_strlit("an hour");
    reveal_strlit("a day");
    reveal_strlit("a week");
    reveal_strlit("a month");
    reveal_strlit("a year");
}

/// Renders a count followed by a unit name.
fn numbered(n: u128, unit: &str) -> (s: String)
    ensures
        s@ == dec_str(n as nat) + unit@,
{
    let mut s = u128_to_string(n);
    s.append(unit);
    s
}

/// Renders a count and appends the fitting unit name.
fn push_counted(n: u128, singular: &str, plural: &str) -> (s: String)
    ensures
        s@ == dec_str(n as nat) + (if n == 1 {
            singular@
        } else {
            plural@
        }),
{
    let mut s = u128_to_string(n);
    if n == 1 {
        s.append(singular);
    } else {
        s.append(plural);
    }
    s
}

impl TimePeriod {
    pub fn to_text_precise(self) -> (s: String)
        ensures
            s@ == text_precise(self),
    {
        match self {
            TimePeriod::Now => "now".to_owned(),
            TimePeriod::Nanos(n) => numbered(n, " ns"),
            TimePeriod::Micros(n) => numbered(n, " µs"),
            TimePeriod::Millis(n) => numbered(n, " ms"),
            TimePeriod::Seconds(n) => push_counted(n, " second", " seconds"),
            TimePeriod::Minutes(n) => push_counted(n, " minute", " minutes"),
            TimePeriod::Hours(n) => push_counted(n, " hour", " hours"),
            TimePeriod::Days(n) => push_counted(n, " day", " days"),
            TimePeriod::Weeks(n) => push_counted(n, " week", " weeks"),
            TimePeriod::Months(n) => push_counted(n, " month", " months"),
            TimePeriod::Years(n) => push_counted(n, " year", " years"),
            TimePeriod::Eternity => "eternity".to_owned(),
        }
    }

    pub fn to_text_rough(self) -> (s: String)
        ensures
            s@ == text_rough(self),
    {
        match self {
            TimePeriod::Now => "now".to_owned(),
            TimePeriod::Nanos(n) => numbered(n, " ns"),
            TimePeriod::Micros(n) => numbered(n, " µs"),
            TimePeriod::Millis(n) => numbered(n, " ms"),
            TimePeriod::Seconds(n) => numbered(n, " seconds"),
            TimePeriod::Minutes(n) => {
                if n == 1 {
                    "a minute".to_owned()
                } else {
                    numbered(n, " minutes")
                }
            },
            TimePeriod::Hours(n) => {
                if n == 1 {
                    "an hour".to_owned()
                } else {
                    numbered(n, " hours")
                }
            },
            TimePeriod::Days(n) => {
                if n == 1 {
                    "a day".to_owned()
                } else {
                    numbered(n, " days")
                }
            },
            TimePeriod::Weeks(n) => {
                if n == 1 {
                    "a week".to_owned()
                } else {
                    numbered(n, " weeks")
                }
            },
            TimePeriod::Months(n) => {
                if n == 1 {
                    "a month".to_owned()
                } else {
                    numbered(n, " months")
                }
            },
            TimePeriod::Years(n) => {
                if n == 1 {
                    "a year".to_owned()
                } else {
                    numbered(n, " years")
                }
            },
            TimePeriod::Eternity => "eternity".to_owned(),
        }
    }

    pub fn to_text(self, accuracy: Accuracy) -> (s: String)
        ensures
            s@ == text_at(self, accuracy),
    {
        match accuracy {
            Accuracy::Rough => self.to_text_rough(),
            Accuracy::Precise => self.to_text_precise(),
        }
    }
}

} // verus!
