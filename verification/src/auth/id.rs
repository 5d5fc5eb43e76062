//! Strongly typed identifiers enforced across the broker domain.

use vstd::prelude::*;

use crate::text::{has_space, str_has_space};
use vstd::string::StrSliceExecFns;

verus! {

/// Longest permitted identifier, in characters.
pub const IDENTIFIER_MAX_LEN: usize = 128;

/// A well-formed identifier: non-empty, free of whitespace, and at most 128
/// characters long.
pub open spec fn valid_identifier(s: Seq<char>) -> bool {
    &&& s.len() > 0
    &&& !has_space(s)
    &&& s.len() <= 128
}

/// Error returned when identifier validation fails.
#[derive(Clone, Debug)]
pub enum IdentifierError {
    /// The identifier was empty.
    Empty {
        /// Kind of identifier (tenant, principal, provider).
        kind: &'static str,
    },
    /// The identifier contains whitespace characters.
    ContainsWhitespace {
        /// Kind of identifier (tenant, principal, provider).
        kind: &'static str,
    },
    /// The identifier exceeded the allowed character count.
    TooLong {
        /// Kind of identifier (tenant, principal, provider).
        kind: &'static str,
        /// Maximum permitted character count.
        max: usize,
    },
}

/// Checks an identifier candidate: rejects the empty string, any whitespace
/// character (ASCII or Unicode), and more than 128 characters.
pub fn validate_view(kind: &'static str, view: &str) -> (r: Result<(), IdentifierError>)
    ensures
        r is Ok <==> valid_identifier(view@),
        view@.len() == 0 ==> (r matches Err(e) && e is Empty),
        view@.len() > 0 && has_space(view@) ==> (r matches Err(e) && e is ContainsWhitespace),
        view@.len() > 128 && !has_space(view@) ==> (r matches Err(e) && e is TooLong),
{
    if view.unicode_len() == 0 {
        return Err(IdentifierError::Empty { kind });
    }
    if str_has_space(view) {
        return Err(IdentifierError::ContainsWhitespace { kind });
    }
    if view.unicode_len() > IDENTIFIER_MAX_LEN {
        return Err(IdentifierError::TooLong { kind, max: IDENTIFIER_MAX_LEN });
    }
    Ok(())
}

/// Unique identifier for a broker tenant.
#[derive(Eq, Hash, Debug)]
pub struct TenantId {
    text: String,
}

impl View for TenantId {
    type V = Seq<char>;

    closed spec fn view(&self) -> Seq<char> {
        self.text@
    }
}

impl TenantId {
    /// Creates a new identifier after validation.
    pub fn new(value: &str) -> (r: Result<Self, IdentifierError>)
        ensures
            r is Ok <==> valid_identifier(value@),
            r matches Ok(id) ==> id@ == value@,
    {
        validate_view("Tenant", value)?;
        Ok(TenantId { text: value.to_owned() })
    }

    /// The validated identifier text.
    pub fn as_str(&self) -> (r: &str)
        ensures
            r@ == self@,
    {
        self.text.as_str()
    }
}

impl Clone for TenantId {
    fn clone(&self) -> (r: Self)
        ensures
            r@ == self@,
    {
        TenantId { text: self.text.clone() }
    }
}

impl PartialEq for TenantId {
    fn eq(&self, other: &Self) -> (r: bool) {
        self.text == other.text
    }
}

impl vstd::std_specs::cmp::PartialEqSpecImpl for TenantId {
    open spec fn obeys_eq_spec() -> bool {
        true
    }

    open spec fn eq_spec(&self, other: &Self) -> bool {
        self@ == other@
    }
}

/// Unique identifier for a broker principal.
#[derive(Eq, Hash, Debug)]
pub struct PrincipalId {
    text: String,
}

impl View for PrincipalId {
    type V = Seq<char>;

    closed spec fn view(&self) -> Seq<char> {
        self.text@
    }
}

impl PrincipalId {
    /// Creates a new identifier after validation.
    pub fn new(value: &str) -> (r: Result<Self, IdentifierError>)
        ensures
            r is Ok <==> valid_identifier(value@),
            r matches Ok(id) ==> id@ == value@,
    {
        validate_view("Principal", value)?;
        Ok(PrincipalId { text: value.to_owned() })
    }

    /// The validated identifier text.
    pub fn as_str(&self) -> (r: &str)
        ensures
            r@ == self@,
    {
        self.text.as_str()
    }
}

impl Clone for PrincipalId {
    fn clone(&self) -> (r: Self)
        ensures
            r@ == self@,
    {
        PrincipalId { text: self.text.clone() }
    }
}

impl PartialEq for PrincipalId {
    fn eq(&self, other: &Self) -> (r: bool) {
        self.text == other.text
    }
}

impl vstd::std_specs::cmp::PartialEqSpecImpl for PrincipalId {
    open spec fn obeys_eq_spec() -> bool {
        true
    }

    open spec fn eq_spec(&self, other: &Self) -> bool {
        self@ == other@
    }
}

/// Identifier for an OAuth provider descriptor.
#[derive(Eq, Hash, Debug)]
pub struct ProviderId {
    text: String,
}

impl View for ProviderId {
    type V = Seq<char>;

    closed spec fn view(&self) -> Seq<char> {
        self.text@
    }
}

impl ProviderId {
    /// Creates a new identifier after validation.
    pub fn new(value: &str) -> (r: Result<Self, IdentifierError>)
        ensures
            r is Ok <==> valid_identifier(value@),
            r matches Ok(id) ==> id@ == value@,
    {
        validate_view("Provider", value)?;
        Ok(ProviderId { text: value.to_owned() })
    }

    /// The validated identifier text.
    pub fn as_str(&self) -> (r: &str)
        ensures
            r@ == self@,
    {
        self.text.as_str()
    }
}

impl Clone for ProviderId {
    fn clone(&self) -> (r: Self)
        ensures
            r@ == self@,
    {
        ProviderId { text: self.text.clone() }
    }
}

impl PartialEq for ProviderId {
    fn eq(&self, other: &Self) -> (r: bool) {
        self.text == other.text
    }
}

impl vstd::std_specs::cmp::PartialEqSpecImpl for ProviderId {
    open spec fn obeys_eq_spec() -> bool {
        true
    }

    open spec fn eq_spec(&self, other: &Self) -> bool {
        self@ == other@
    }
}

} // verus!
