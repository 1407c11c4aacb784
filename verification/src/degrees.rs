//! A compass bearing in whole degrees, validated to lie between
//! 0 and 360 inclusive.

use vstd::prelude::*;
use vstd::string::StringExecFns;

verus! {

/// Raised when a `UDegree360` is constructed from a value outside the
/// legal range of whole degrees.
#[derive(Debug, Clone)]
pub struct NotADegree;

impl NotADegree {
    /// A human-readable description of the error.
    pub fn message(&self) -> (s: String)
        ensures
            s@ == "Value is not a valid degrees value."@,
    {
        String::from_str("Value is not a valid degrees value.")
    }
}

/// An unsigned, whole degrees value that is known, by construction, to
/// be no more than 360. The field is private: the validating
/// constructor `try_from` is the only way to obtain an instance, and
/// the value can only be read back out, never changed, so every
/// `UDegree360` in existence satisfies its range invariant.
#[derive(Debug, Clone, Copy)]
pub struct UDegree360 {
    value: u32,
}

impl View for UDegree360 {
    type V = u32;

    closed spec fn view(&self) -> u32 {
        self.value
    }
}

impl UDegree360 {
    #[verifier::type_invariant]
    spec fn in_range(self) -> bool {
        self.value <= 360
    }

    /// Validating constructor: accepts exactly the raw values
    /// 0 through 360 inclusive, and hands back a wrapper carrying
    /// exactly the accepted value.
    pub fn try_from(value: u32) -> (r: Result<UDegree360, NotADegree>)
        ensures
            r matches Ok(d) ==> d@ == value,
            r is Ok <==> value <= 360,
    {
        if value <= 360 {
            Ok(UDegree360 { value })
        } else {
            Err(NotADegree)
        }
    }
}

/// Round-trip law: a wrapper that `try_from` handed back for a raw
/// value unwraps, through `u32::from`, to exactly that raw value.
pub proof fn lemma_degrees_round_trip(raw: u32, d: UDegree360)
    requires
        d@ == raw,
    ensures
        <u32 as vstd::std_specs::convert::FromSpec<UDegree360>>::from_spec(d) == raw,
{
}

impl From<UDegree360> for u32 {
    /// Lossless, infallible extraction of the wrapped bearing.
    fn from(value: UDegree360) -> (r: u32) {
        value.value
    }
}

impl vstd::std_specs::convert::FromSpecImpl<UDegree360> for u32 {
    open spec fn obeys_from_spec() -> bool {
        true
    }

    open spec fn from_spec(value: UDegree360) -> u32 {
        value@
    }
}

} // verus!
