//! Grant helpers wired into provider descriptors.

use vstd::prelude::*;

verus! {

/// OAuth 2.0 grant types supported by the broker.
#[derive(Clone, Copy, Debug, PartialEq, Eq, Hash, Structural)]
pub enum GrantType {
    /// Authorization Code grant (PKCE recommended).
    AuthorizationCode,
    /// Refresh Token grant for long-lived sessions.
    RefreshToken,
    /// Client Credentials grant for app-only tokens.
    ClientCredentials,
}

impl GrantType {
    /// The RFC 6749 identifier for the grant type.
    pub open spec fn spec_as_str(self) -> Seq<char> {
        match self {
            GrantType::AuthorizationCode => "authorization_code"@,
            GrantType::RefreshToken => "refresh_token"@,
            GrantType::ClientCredentials => "client_credentials"@,
        }
    }

    /// Returns the RFC 6749 identifier for the grant type.
    pub fn as_str(self) -> (r: &'static str)
        ensures
            r@ == self.spec_as_str(),
    {
        match self {
            GrantType::AuthorizationCode => "authorization_code",
            GrantType::RefreshToken => "refresh_token",
            GrantType::ClientCredentials => "client_credentials",
        }
    }
}

/// Collection of grant flags wired into the descriptor.
#[derive(Clone, Copy, Debug, PartialEq, Eq, Structural)]
pub struct SupportedGrants {
    /// Indicates whether the Authorization Code grant is enabled.
    pub authorization_code: bool,
    /// Indicates whether the Refresh Token grant is enabled.
    pub refresh_token: bool,
    /// Indicates whether the Client Credentials grant is enabled.
    pub client_credentials: bool,
}

impl SupportedGrants {
    /// Whether the given grant is enabled.
    pub open spec fn spec_supports(self, grant: GrantType) -> bool {
        match grant {
            GrantType::AuthorizationCode => self.authorization_code,
            GrantType::RefreshToken => self.refresh_token,
            GrantType::ClientCredentials => self.client_credentials,
        }
    }

    /// No grant is enabled.
    pub open spec fn spec_is_empty(self) -> bool {
        !self.authorization_code && !self.refresh_token && !self.client_credentials
    }

    /// Returns true if the provided grant is supported.
    pub fn supports(self, grant: GrantType) -> (r: bool)
        ensures
            r == self.spec_supports(grant),
    {
        match grant {
            GrantType::AuthorizationCode => self.authorization_code,
            GrantType::RefreshToken => self.refresh_token,
            GrantType::ClientCredentials => self.client_credentials,
        }
    }

    /// Marks a grant as supported.
    pub fn enable(self, grant: GrantType) -> (r: Self)
        ensures
            r.spec_supports(grant),
            forall|g: GrantType| g != grant ==> r.spec_supports(g) == self.spec_supports(g),
    {
        match grant {
            GrantType::AuthorizationCode => SupportedGrants { authorization_code: true, ..self },
            GrantType::RefreshToken => SupportedGrants { refresh_token: true, ..self },
            GrantType::ClientCredentials => SupportedGrants { client_credentials: true, ..self },
        }
    }

    /// Returns true when no grants are enabled.
    pub fn is_empty(self) -> (r: bool)
        ensures
            r == self.spec_is_empty(),
    {
        !self.authorization_code && !self.refresh_token && !self.client_credentials
    }
}

impl Default for SupportedGrants {
    /// No grant enabled.
    fn default() -> (r: Self)
        ensures
            r.spec_is_empty(),
            r == (SupportedGrants {
                authorization_code: false,
                refresh_token: false,
                client_credentials: false,
            }),
    {
        SupportedGrants {
            authorization_code: false,
            refresh_token: false,
            client_credentials: false,
        }
    }
}

} // verus!
