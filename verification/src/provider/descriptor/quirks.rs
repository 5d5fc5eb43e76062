//! Provider-specific quirk toggles.

use vstd::prelude::*;

verus! {

/// Provider-specific quirks that influence how flows behave.
#[derive(Clone, Copy, Debug, PartialEq, Eq, Structural)]
pub struct ProviderQuirks {
    /// Indicates whether PKCE must be supplied even for confidential clients.
    pub pkce_required: bool,
    /// Indicates whether redirect URIs must match exactly (instead of using a prefix match).
    pub exact_redirect_match: bool,
    /// Character used to join scopes when constructing `scope` parameters.
    pub scope_delimiter: char,
}

impl Default for ProviderQuirks {
    /// PKCE optional, exact redirect matching, scopes joined by spaces.
    fn default() -> (r: Self)
        ensures
            r == (ProviderQuirks {
                pkce_required: false,
                exact_redirect_match: true,
                scope_delimiter: ' ',
            }),
    {
        ProviderQuirks { pkce_required: false, exact_redirect_match: true, scope_delimiter: ' ' }
    }
}

} // verus!
