//! The values a search form hands over once the surrounding layer has
//! decoded them to plain data.

use vstd::prelude::*;

verus! {

/// A location search request: which location, and which year.
pub struct SearchForm {
    pub location: String,
    pub year: u32,
}

} // verus!
