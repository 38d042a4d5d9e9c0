//! The boundary to `jiff::Span`: a span's ten whole-unit components are
//! read out and summed into a [`HumanTime`], days counting as 24 hours,
//! months as 30 days and years as 365 days.

use vstd::prelude::*;

use crate::humantime::HumanTime;
use crate::period::Accuracy;

verus! {

#[verifier::external_type_specification]
#[verifier::external_body]
pub struct ExSpan(jiff::Span);

// Nanoseconds per unit, for summing a span's components. A month counts
// as 30 days and a year as 365 days.
const SPAN_NS_SECOND: i128 = 1_000_000_000;

const SPAN_NS_MINUTE: i128 = 60 * SPAN_NS_SECOND;

const SPAN_NS_HOUR: i128 = 60 * SPAN_NS_MINUTE;

const SPAN_NS_DAY: i128 = 24 * SPAN_NS_HOUR;

const SPAN_NS_WEEK: i128 = 7 * SPAN_NS_DAY;

const SPAN_NS_MONTH: i128 = 30 * SPAN_NS_DAY;

const SPAN_NS_YEAR: i128 = 365 * SPAN_NS_DAY;

/// Relies on jiff::Span::get_years: the signed number of year units.
#[verifier::external_body]
fn get_years(span: &jiff::Span) -> i16 {
    span.get_years()
}

/// Relies on jiff::Span::get_months: the signed number of month units.
#[verifier::external_body]
fn get_months(span: &jiff::Span) -> i32 {
    span.get_months()
}

/// Relies on jiff::Span::get_weeks: the signed number of week units.
#[verifier::external_body]
fn get_weeks(span: &jiff::Span) -> i32 {
    span.get_weeks()
}

/// Relies on jiff::Span::get_days: the signed number of day units.
#[verifier::external_body]
fn get_days(span: &jiff::Span) -> i32 {
    span.get_days()
}

/// Relies on jiff::Span::get_hours: the signed number of hour units.
#[verifier::external_body]
fn get_hours(span: &jiff::Span) -> i32 {
    span.get_hours()
}

/// Relies on jiff::Span::get_minutes: the signed number of minute units.
#[verifier::external_body]
fn get_minutes(span: &jiff::Span) -> i64 {
    span.get_minutes()
}

/// Relies on jiff::Span::get_seconds: the signed number of second units.
#[verifier::external_body]
fn get_seconds(span: &jiff::Span) -> i64 {
    span.get_seconds()
}

/// Relies on jiff::Span::get_milliseconds: the signed number of
/// millisecond units.
#[verifier::external_body]
fn get_milliseconds(span: &jiff::Span) -> i64 {
    span.get_milliseconds()
}

/// Relies on jiff::Span::get_microseconds: the signed number of
/// microsecond units.
#[verifier::external_body]
fn get_microseconds(span: &jiff::Span) -> i64 {
    span.get_microseconds()
}

/// Relies on jiff::Span::get_nanoseconds: the signed number of
/// nanosecond units.
#[verifier::external_body]
fn get_nanoseconds(span: &jiff::Span) -> i64 {
    span.get_nanoseconds()
}

/// Sums the whole-unit components of `span` into one signed nanosecond
/// count. Every component is bounded by its integer width, so the sum
/// stays far inside the range of `i128`.
fn nanos_of_span(span: &jiff::Span) -> (h: HumanTime) {
    let years = get_years(span) as i128;
    let months = get_months(span) as i128;
    let weeks = get_weeks(span) as i128;
    let days = get_days(span) as i128;
    let hours = get_hours(span) as i128;
    let minutes = get_minutes(span) as i128;
    let seconds = get_seconds(span) as i128;
    let millis = get_milliseconds(span) as i128;
    let micros = get_microseconds(span) as i128;
    let nanos = get_nanoseconds(span) as i128;
    let total = years * SPAN_NS_YEAR + months * SPAN_NS_MONTH + weeks * SPAN_NS_WEEK + days
        * SPAN_NS_DAY + hours * SPAN_NS_HOUR + minutes * SPAN_NS_MINUTE + seconds * SPAN_NS_SECOND
        + millis * 1_000_000 + micros * 1_000 + nanos;
    HumanTime::from_nanos(total)
}

impl HumanTime {
    /// The interval that `span` stands for, its components summed with
    /// days of 24 hours, months of 30 days and years of 365 days.
    pub fn from(span: jiff::Span) -> HumanTime {
        nanos_of_span(&span)
    }
}

impl crate::Humanize for jiff::Span {
    fn humanize(&self) -> String {
        let ht = nanos_of_span(self);
        let text = ht.locale_en(Accuracy::Rough);
        text.unwrap()
    }
}

} // verus!
