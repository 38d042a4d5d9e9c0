//! English phrases for signed time intervals.
//!
//! A duration is reduced to a single rounded unit ("a month", "2 years")
//! or decomposed exactly into every non-zero unit from years down to
//! nanoseconds ("1 month, 2 weeks and 1 day"), then framed in the past,
//! present or future tense.

use vstd::prelude::*;

pub mod digits;
pub mod error;
pub mod humantime;
pub mod period;
pub mod span;

pub use crate::error::Error;
pub use crate::humantime::HumanTime;
pub use crate::period::{Accuracy, Tense, TimePeriod};

verus! {

/// Present the object in human friendly text form
pub trait Humanize {
    /// Emits `String` that represents current object in human friendly form
    fn humanize(&self) -> String;
}

} // verus!
