//! Cloud cover in oktas (eighths of the visible sky), validated to lie
//! between 0 and 8 inclusive.

use vstd::prelude::*;
use vstd::string::StringExecFns;

verus! {

/// Raised when an `Oktas` is constructed from a value outside the
/// range 0 through 8 inclusive.
#[derive(Debug, Clone)]
pub struct NotAnOkta;

impl NotAnOkta {
    /// A human-readable description of the error.
    pub fn message(&self) -> (s: String)
        ensures
            s@ == "Value is not an Okta."@,
    {
        String::from_str("Value is not an Okta.")
    }
}

/// A cloud-coverage reading in oktas that is known, by construction,
/// to be no more than 8. The field is private: the validating
/// constructor `try_from` is the only way to obtain an instance, and
/// the value can only be read back out, never changed, so every
/// `Oktas` in existence satisfies its range invariant.
#[derive(Debug, Clone, Copy)]
pub struct Oktas {
    // Not stored as a u8, for example, because a wider integer is less
    // annoying to interface with other things.
    value: u32,
}

impl View for Oktas {
    type V = u32;

    closed spec fn view(&self) -> u32 {
        self.value
    }
}

impl Oktas {
    #[verifier::type_invariant]
    spec fn in_range(self) -> bool {
        self.value <= 8
    }

    /// Validating constructor: accepts exactly the raw values
    /// 0 through 8 inclusive, and hands back a wrapper carrying
    /// exactly the accepted value.
    pub fn try_from(value: u32) -> (r: Result<Oktas, NotAnOkta>)
        ensures
            r matches Ok(o) ==> o@ == value,
            r is Ok <==> value <= 8,
    {
        if value <= 8 {
            Ok(Oktas { value })
        } else {
            Err(NotAnOkta)
        }
    }
}

/// Round-trip law: a wrapper that `try_from` handed back for a raw
/// value unwraps, through `u32::from`, to exactly that raw value.
pub proof fn lemma_oktas_round_trip(raw: u32, o: Oktas)
    requires
        o@ == raw,
    ensures
        <u32 as vstd::std_specs::convert::FromSpec<Oktas>>::from_spec(o) == raw,
{
}

impl From<Oktas> for u32 {
    /// Lossless, infallible extraction of the wrapped reading.
    fn from(value: Oktas) -> (r: u32) {
        value.value
    }
}

impl vstd::std_specs::convert::FromSpecImpl<Oktas> for u32 {
    open spec fn obeys_from_spec() -> bool {
        true
    }

    open spec fn from_spec(value: Oktas) -> u32 {
        value@
    }
}

} // verus!
