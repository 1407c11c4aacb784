//! Types for the values in the static reference tables: location
//! names, Beaufort categories, and the text each stored name maps to.
//! These sets are small, fixed and known ahead of time, so they are
//! modelled as closed enumerations with exhaustive matches.

use vstd::prelude::*;
use vstd::string::StringExecFns;

verus! {

/// Marker trait for the enumerations that name a location.
pub trait Name {

}

/// The names of locations for which local data is held.
#[derive(Debug, Clone, Copy)]
pub enum LocalName {
    Camborne,
    Heathrow,
    Hurn,
    Leeming,
    Leuchars,
}

impl Name for LocalName {

}

/// The names of locations for which overseas data is held.
#[derive(Debug, Clone, Copy)]
pub enum OverseasName {
    Beijing,
    Jacksonville,
    Perth,
}

impl Name for OverseasName {

}

/// The Beaufort unit categories. The scale is discrete and empirical;
/// only the breeze categories are covered, as they are the only ones
/// the data holds.
pub enum Beaufort {
    Calm,
    Light,
    Gentle,
    Moderate,
    Fresh,
    Strong,
}

/// Marker type naming the stored column type of a location name: every
/// name is kept as text.
pub struct Location;

/// All the location names, local and overseas together, each with a
/// fixed text value it is stored under.
#[derive(Debug, PartialEq, Eq, Structural)]
pub enum LocationNames {
    Beijing,
    Camborne,
    Heathrow,
    Hurn,
    Jacksonville,
    Leeming,
    Leuchars,
    Perth,
}

/// The text a location name is stored as.
pub open spec fn spec_stored_text(n: LocationNames) -> Seq<char> {
    match n {
        LocationNames::Beijing => "foo"@,
        LocationNames::Camborne => "bar"@,
        LocationNames::Heathrow => "heathrow"@,
        LocationNames::Hurn => "hurn"@,
        LocationNames::Jacksonville => "jacksonville"@,
        LocationNames::Leeming => "leeming"@,
        LocationNames::Leuchars => "leuchars"@,
        LocationNames::Perth => "perth"@,
    }
}

impl LocationNames {
    /// The text this name is stored as when it is written out.
    pub fn stored_text(&self) -> (s: String)
        ensures
            s@ == spec_stored_text(*self),
    {
        match *self {
            LocationNames::Beijing => String::from_str("foo"),
            LocationNames::Camborne => String::from_str("bar"),
            LocationNames::Heathrow => String::from_str("heathrow"),
            LocationNames::Hurn => String::from_str("hurn"),
            LocationNames::Jacksonville => String::from_str("jacksonville"),
            LocationNames::Leeming => String::from_str("leeming"),
            LocationNames::Leuchars => String::from_str("leuchars"),
            LocationNames::Perth => String::from_str("perth"),
        }
    }
}

} // verus!
