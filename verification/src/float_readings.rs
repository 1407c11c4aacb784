//! Errors for the readings that are carried as 32-bit floats.
//!
//! The float-carrying wrappers themselves (`DayHours`, which certifies
//! an hours-within-a-day reading, and `Uf32`, which certifies a
//! non-negative reading) live in the unverified application layer,
//! since verified code here admits no floating point; they reject a raw
//! float with these error types.

use vstd::prelude::*;
use vstd::string::StringExecFns;

verus! {

/// Raised when a `DayHours` is constructed from a number of hours that
/// is not within the 24-hour range.
#[derive(Debug, Clone)]
pub struct HoursNotInDay;

impl HoursNotInDay {
    /// A human-readable description of the error.
    pub fn message(&self) -> (s: String)
        ensures
            s@ == "Invalid: hours is not between 0 and 24."@,
    {
        String::from_str("Invalid: hours is not between 0 and 24.")
    }
}

/// Raised when a `Uf32` is constructed from a negative value.
#[derive(Debug, Clone)]
pub struct NegativeFloatError;

impl NegativeFloatError {
    /// A human-readable description of the error.
    pub fn message(&self) -> (s: String)
        ensures
            s@ == "Cannot construct a Uf32 from a negative value."@,
    {
        String::from_str("Cannot construct a Uf32 from a negative value.")
    }
}

} // verus!
