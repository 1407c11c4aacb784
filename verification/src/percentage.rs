//! A whole-percent value, validated to lie between 0 and 100 inclusive.

use vstd::prelude::*;
use vstd::string::StringExecFns;

verus! {

/// Raised when a `UPercent100` is constructed from a value that is not
/// a whole percentage between 0 and 100 inclusive.
#[derive(Debug, Clone)]
pub struct PercentageOutOfRange;

impl PercentageOutOfRange {
    /// A human-readable description of the error.
    pub fn message(&self) -> (s: String)
        ensures
            s@ == "Percentage value is out of range."@,
    {
        String::from_str("Percentage value is out of range.")
    }
}

/// An unsigned whole percentage that is known, by construction, to be
/// no more than 100. The field is private: the validating constructor
/// `try_from` is the only way to obtain an instance, and the value can
/// only be read back out, never changed, so every `UPercent100` in
/// existence satisfies its range invariant.
#[derive(Debug, Clone, Copy)]
pub struct UPercent100 {
    value: u32,
}

impl View for UPercent100 {
    type V = u32;

    closed spec fn view(&self) -> u32 {
        self.value
    }
}

impl UPercent100 {
    #[verifier::type_invariant]
    spec fn in_range(self) -> bool {
        self.value <= 100
    }

    /// Validating constructor: accepts exactly the raw values
    /// 0 through 100 inclusive, and hands back a wrapper carrying
    /// exactly the accepted value.
    pub fn try_from(value: u32) -> (r: Result<UPercent100, PercentageOutOfRange>)
        ensures
            r matches Ok(p) ==> p@ == value,
            r is Ok <==> value <= 100,
    {
        if value <= 100 {
            Ok(UPercent100 { value })
        } else {
            Err(PercentageOutOfRange)
        }
    }
}

/// Round-trip law: a wrapper that `try_from` handed back for a raw
/// value unwraps, through `u32::from`, to exactly that raw value.
pub proof fn lemma_percent_round_trip(raw: u32, p: UPercent100)
    requires
        p@ == raw,
    ensures
        <u32 as vstd::std_specs::convert::FromSpec<UPercent100>>::from_spec(p) == raw,
{
}

impl From<UPercent100> for u32 {
    /// Lossless, infallible extraction of the wrapped percentage.
    fn from(value: UPercent100) -> (r: u32) {
        value.value
    }
}

impl vstd::std_specs::convert::FromSpecImpl<UPercent100> for u32 {
    open spec fn obeys_from_spec() -> bool {
        true
    }

    open spec fn from_spec(value: UPercent100) -> u32 {
        value@
    }
}

} // verus!
