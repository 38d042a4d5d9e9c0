//! The error surfaced when a duration cannot be decomposed.

use vstd::prelude::*;

verus! {

/// Raised when an arithmetic step of a decomposition cannot represent its
/// argument. The payload describes the rejected input.
#[derive(Debug, PartialEq)]
pub enum Error {
    InvalidArgument(String),
}

impl Error {
    /// The description carried by this error.
    pub fn message(&self) -> (r: &String)
        ensures
            self == Error::InvalidArgument(*r),
    {
        match self {
            Error::InvalidArgument(s) => s,
        }
    }
}

} // verus!
