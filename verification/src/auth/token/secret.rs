//! Secure token secret wrapper that redacts sensitive material.

use vstd::prelude::*;

use vstd::string::StringExecFns;

verus! {

/// Redacted token secret wrapper keeping sensitive material out of logs.
///
/// The type deliberately has no `Debug` formatting; the renderings offered
/// here replace the secret with a marker, and the only accessor of the raw
/// material is the named [`expose`](Self::expose) call.
#[derive(Eq)]
pub struct TokenSecret {
    value: String,
}

impl View for TokenSecret {
    type V = Seq<char>;

    closed spec fn view(&self) -> Seq<char> {
        self.value@
    }
}

impl TokenSecret {
    /// Wraps a new secret string.
    pub fn new(value: &str) -> (r: Self)
        ensures
            r@ == value@,
    {
        TokenSecret { value: value.to_owned() }
    }

    /// Returns the inner token value. Callers must avoid logging this string.
    pub fn expose(&self) -> (r: &str)
        ensures
            r@ == self@,
    {
        self.value.as_str()
    }

    /// The debug rendering: the secret replaced by a marker.
    pub fn debug_redacted(&self) -> (r: String)
        ensures
            r@ == "TokenSecret(\"<redacted>\")"@,
    {
        String::from_str("TokenSecret(\"<redacted>\")")
    }

    /// The display rendering: a bare redaction marker.
    pub fn redacted(&self) -> (r: String)
        ensures
            r@ == "<redacted>"@,
    {
        String::from_str("<redacted>")
    }
}

impl Clone for TokenSecret {
    fn clone(&self) -> (r: Self)
        ensures
            r@ == self@,
    {
        TokenSecret { value: self.value.clone() }
    }
}

impl PartialEq for TokenSecret {
    fn eq(&self, other: &Self) -> (r: bool) {
        self.value == other.value
    }
}

impl vstd::std_specs::cmp::PartialEqSpecImpl for TokenSecret {
    open spec fn obeys_eq_spec() -> bool {
        true
    }

    open spec fn eq_spec(&self, other: &Self) -> bool {
        self@ == other@
    }
}

} // verus!
