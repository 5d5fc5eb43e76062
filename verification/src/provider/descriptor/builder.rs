//! Builder and validation for provider descriptors.

use vstd::prelude::*;

use crate::auth::id::ProviderId;
use crate::provider::descriptor::grant::{GrantType, SupportedGrants};
use crate::provider::descriptor::quirks::ProviderQuirks;
use crate::provider::descriptor::{ClientAuthMethod, ProviderDescriptor, ProviderEndpoints};
use crate::text::{char_is_control, chars_vec, is_control_char, matches_lower_at,
    str_starts_with_lower};
use vstd::string::StrSliceExecFns;
use vstd::string::StringExecFns;

verus! {

/// Errors raised while constructing or validating descriptors.
#[derive(Clone, Debug, PartialEq, Eq)]
pub enum ProviderDescriptorError {
    /// Authorization endpoint is required for Authorization Code flows.
    MissingAuthorizationEndpoint,
    /// Token endpoint is mandatory for all flows.
    MissingTokenEndpoint,
    /// At least one grant must be supported.
    NoSupportedGrants,
    /// PKCE requirement implies Authorization Code support.
    PkceRequiredWithoutAuthorizationCode,
    /// Endpoints must use HTTPS.
    InsecureEndpoint {
        /// Which endpoint failed validation.
        endpoint: String,
        /// Endpoint URL that failed validation.
        url: String,
    },
    /// Reject scope delimiters that are control characters.
    InvalidScopeDelimiter {
        /// Invalid delimiter that was supplied.
        delimiter: char,
    },
}

/// A URL string carrying the `https` scheme, compared ASCII
/// case-insensitively.
pub open spec fn is_https_url(s: Seq<char>) -> bool {
    s.len() >= 8 && matches_lower_at(s, "https://"@, 0)
}

/// Checks that a URL string starts with `https://`, in any letter case.
pub fn https_url_check(url: &str) -> (r: bool)
    ensures
        r == is_https_url(url@),
{
    let tok = chars_vec("https://");
    proof {
        reveal_strlit("https://");
    }
    str_starts_with_lower(url, &tok)
}

/// Builder for [`ProviderDescriptor`] values.
#[derive(Debug)]
pub struct ProviderDescriptorBuilder {
    /// Identifier for the descriptor being constructed.
    pub id: ProviderId,
    /// Optional authorization endpoint (required for Authorization Code flows).
    pub authorization_endpoint: Option<String>,
    /// Token endpoint used for exchanges and refreshes.
    pub token_endpoint: Option<String>,
    /// Optional revocation endpoint.
    pub revocation_endpoint: Option<String>,
    /// Grants enabled for the provider.
    pub supported_grants: SupportedGrants,
    /// Preferred client authentication method for the token endpoint.
    pub preferred_client_auth_method: ClientAuthMethod,
    /// Provider-specific quirks.
    pub quirks: ProviderQuirks,
}

/// View of an optional endpoint string.
pub open spec fn opt_view(o: Option<String>) -> Option<Seq<char>> {
    match o {
        Some(s) => Some(s@),
        None => None,
    }
}

impl ProviderDescriptorBuilder {
    /// The freshly initialized builder for an identifier.
    pub open spec fn spec_new(id: ProviderId) -> ProviderDescriptorBuilder {
        ProviderDescriptorBuilder {
            id,
            authorization_endpoint: None,
            token_endpoint: None,
            revocation_endpoint: None,
            supported_grants: SupportedGrants {
                authorization_code: false,
                refresh_token: false,
                client_credentials: false,
            },
            preferred_client_auth_method: ClientAuthMethod::ClientSecretBasic,
            quirks: ProviderQuirks {
                pkce_required: false,
                exact_redirect_match: true,
                scope_delimiter: ' ',
            },
        }
    }

    /// Whether the builder's contents pass validation.
    pub open spec fn spec_valid(self) -> bool {
        &&& self.authorization_endpoint is Some
        &&& self.token_endpoint is Some
        &&& !self.supported_grants.spec_is_empty()
        &&& (self.quirks.pkce_required ==> self.supported_grants.authorization_code)
        &&& is_https_url(self.authorization_endpoint->0@)
        &&& is_https_url(self.token_endpoint->0@)
        &&& (self.revocation_endpoint matches Some(r) ==> is_https_url(r@))
        &&& !is_control_char(self.quirks.scope_delimiter)
    }

    /// Creates a new builder seeded with the provided identifier.
    pub fn new(id: ProviderId) -> (r: Self)
        ensures
            r == Self::spec_new(id),
    {
        ProviderDescriptorBuilder {
            id,
            authorization_endpoint: None,
            token_endpoint: None,
            revocation_endpoint: None,
            supported_grants: SupportedGrants::default(),
            preferred_client_auth_method: ClientAuthMethod::default(),
            quirks: ProviderQuirks::default(),
        }
    }

    /// Sets the authorization endpoint.
    pub fn authorization_endpoint(self, url: String) -> (r: Self)
        ensures
            r == (ProviderDescriptorBuilder { authorization_endpoint: r.authorization_endpoint, ..self }),
            r.authorization_endpoint matches Some(u) && u@ == url@,
    {
        ProviderDescriptorBuilder { authorization_endpoint: Some(url), ..self }
    }

    /// Sets the token endpoint.
    pub fn token_endpoint(self, url: String) -> (r: Self)
        ensures
            r == (ProviderDescriptorBuilder { token_endpoint: r.token_endpoint, ..self }),
            r.token_endpoint matches Some(u) && u@ == url@,
    {
        ProviderDescriptorBuilder { token_endpoint: Some(url), ..self }
    }

    /// Sets the optional revocation endpoint.
    pub fn revocation_endpoint(self, url: String) -> (r: Self)
        ensures
            r == (ProviderDescriptorBuilder { revocation_endpoint: r.revocation_endpoint, ..self }),
            r.revocation_endpoint matches Some(u) && u@ == url@,
    {
        ProviderDescriptorBuilder { revocation_endpoint: Some(url), ..self }
    }

    /// Marks a single grant type as supported.
    pub fn support_grant(self, grant: GrantType) -> (r: Self)
        ensures
            r == (ProviderDescriptorBuilder { supported_grants: r.supported_grants, ..self }),
            r.supported_grants.spec_supports(grant),
            forall|g: GrantType|
                g != grant ==> r.supported_grants.spec_supports(g)
                    == self.supported_grants.spec_supports(g),
    {
        let supported_grants = self.supported_grants.enable(grant);
        ProviderDescriptorBuilder { supported_grants, ..self }
    }

    /// Marks multiple grants as supported.
    pub fn support_grants(self, grants: &Vec<GrantType>) -> (r: Self)
        ensures
            r == (ProviderDescriptorBuilder { supported_grants: r.supported_grants, ..self }),
            forall|g: GrantType|
                r.supported_grants.spec_supports(g) == (self.supported_grants.spec_supports(g)
                    || grants@.contains(g)),
    {
        let mut supported_grants = self.supported_grants;
        let n = grants.len();
        let mut i: usize = 0;
        while i < n
            invariant
                i <= n,
                n == grants@.len(),
                forall|g: GrantType|
                    supported_grants.spec_supports(g) == (self.supported_grants.spec_supports(g)
                        || grants@.subrange(0, i as int).contains(g)),
            decreases n - i,
        {
            let ghost pre = grants@.subrange(0, i as int);
            supported_grants = supported_grants.enable(grants[i]);
            proof {
                let cur = grants@.subrange(0, i + 1);
                assert(cur.drop_last() =~= pre);
                assert forall|g: GrantType| cur.contains(g) == (pre.contains(g) || g
                    == grants@[i as int]) by {
                    if cur.contains(g) {
                        let k = choose|k: int| 0 <= k < cur.len() && cur[k] == g;
                        if k < i {
                            assert(pre[k] == g);
                            assert(pre.contains(g));
                        }
                    }
                    if pre.contains(g) {
                        let k = choose|k: int| 0 <= k < pre.len() && pre[k] == g;
                        assert(cur[k] == g);
                    }
                    if g == grants@[i as int] {
                        assert(cur[i as int] == g);
                    }
                }
            }
            i += 1;
        }
        proof {
            assert(grants@.subrange(0, n as int) =~= grants@);
        }
        ProviderDescriptorBuilder { supported_grants, ..self }
    }

    /// Overrides the preferred client authentication method.
    pub fn preferred_client_auth_method(self, method: ClientAuthMethod) -> (r: Self)
        ensures
            r == (ProviderDescriptorBuilder { preferred_client_auth_method: method, ..self }),
    {
        ProviderDescriptorBuilder { preferred_client_auth_method: method, ..self }
    }

    /// Overrides the provider quirks.
    pub fn quirks(self, quirks: ProviderQuirks) -> (r: Self)
        ensures
            r == (ProviderDescriptorBuilder { quirks: quirks, ..self }),
    {
        ProviderDescriptorBuilder { quirks, ..self }
    }

    /// Consumes the builder and validates the resulting descriptor: both
    /// mandatory endpoints present and HTTPS, at least one grant, PKCE only
    /// with the authorization-code grant, and a printable scope delimiter.
    pub fn build(self) -> (r: Result<ProviderDescriptor, ProviderDescriptorError>)
        ensures
            r is Ok <==> self.spec_valid(),
            r matches Ok(d) ==> {
                &&& d.id@ == self.id@
                &&& Some(d.endpoints.authorization@) == opt_view(self.authorization_endpoint)
                &&& Some(d.endpoints.token@) == opt_view(self.token_endpoint)
                &&& crate::provider::descriptor::opt_endpoint_view(&d.endpoints.revocation)
                    == opt_view(self.revocation_endpoint)
                &&& d.supported_grants == self.supported_grants
                &&& d.preferred_client_auth_method == self.preferred_client_auth_method
                &&& d.quirks == self.quirks
            },
            self.authorization_endpoint is None ==> (r matches Err(e)
                && e is MissingAuthorizationEndpoint),
            self.authorization_endpoint is Some && self.token_endpoint is None ==> (
            r matches Err(e) && e is MissingTokenEndpoint),
            self.authorization_endpoint is Some && self.token_endpoint is Some
                && self.supported_grants.spec_is_empty() ==> (r matches Err(e)
                && e is NoSupportedGrants),
            self.authorization_endpoint is Some && self.token_endpoint is Some
                && !self.supported_grants.spec_is_empty() && self.quirks.pkce_required
                && !self.supported_grants.authorization_code ==> (r matches Err(e)
                && e is PkceRequiredWithoutAuthorizationCode),
            r matches Err(e) ==> (e matches ProviderDescriptorError::InsecureEndpoint {
                endpoint,
                url,
            } ==> !is_https_url(url@)),
            ({
                &&& self.authorization_endpoint matches Some(auth)
                &&& self.token_endpoint is Some
                &&& !self.supported_grants.spec_is_empty()
                &&& (self.quirks.pkce_required ==> self.supported_grants.authorization_code)
                &&& !is_https_url(auth@)
            }) ==> (r matches Err(ProviderDescriptorError::InsecureEndpoint { endpoint, url })
                && endpoint@ == "authorization"@ && url@ == self.authorization_endpoint->0@),
            ({
                &&& self.authorization_endpoint matches Some(auth)
                &&& self.token_endpoint matches Some(tok)
                &&& !self.supported_grants.spec_is_empty()
                &&& (self.quirks.pkce_required ==> self.supported_grants.authorization_code)
                &&& is_https_url(auth@)
                &&& !is_https_url(tok@)
            }) ==> (r matches Err(ProviderDescriptorError::InsecureEndpoint { endpoint, url })
                && endpoint@ == "token"@ && url@ == self.token_endpoint->0@),
            ({
                &&& self.authorization_endpoint matches Some(auth)
                &&& self.token_endpoint matches Some(tok)
                &&& !self.supported_grants.spec_is_empty()
                &&& (self.quirks.pkce_required ==> self.supported_grants.authorization_code)
                &&& is_https_url(auth@)
                &&& is_https_url(tok@)
                &&& self.revocation_endpoint matches Some(rev)
                &&& !is_https_url(rev@)
            }) ==> (r matches Err(ProviderDescriptorError::InsecureEndpoint { endpoint, url })
                && endpoint@ == "revocation"@ && url@ == self.revocation_endpoint->0@),
            r matches Err(ProviderDescriptorError::InvalidScopeDelimiter { delimiter })
                ==> delimiter == self.quirks.scope_delimiter && is_control_char(delimiter),
    {
        let authorization = match self.authorization_endpoint {
            Some(url) => url,
            None => {
                return Err(ProviderDescriptorError::MissingAuthorizationEndpoint);
            },
        };
        let token = match self.token_endpoint {
            Some(url) => url,
            None => {
                return Err(ProviderDescriptorError::MissingTokenEndpoint);
            },
        };
        if self.supported_grants.is_empty() {
            return Err(ProviderDescriptorError::NoSupportedGrants);
        }
        if self.quirks.pkce_required && !self.supported_grants.supports(
            GrantType::AuthorizationCode,
        ) {
            return Err(ProviderDescriptorError::PkceRequiredWithoutAuthorizationCode);
        }
        if !https_url_check(authorization.as_str()) {
            return Err(ProviderDescriptorError::InsecureEndpoint {
                endpoint: String::from_str("authorization"),
                url: authorization,
            });
        }
        if !https_url_check(token.as_str()) {
            return Err(ProviderDescriptorError::InsecureEndpoint {
                endpoint: String::from_str("token"),
                url: token,
            });
        }
        let revocation = match self.revocation_endpoint {
            Some(url) => {
                if !https_url_check(url.as_str()) {
                    return Err(ProviderDescriptorError::InsecureEndpoint {
                        endpoint: String::from_str("revocation"),
                        url,
                    });
                }
                Some(url)
            },
            None => None,
        };
        if char_is_control(self.quirks.scope_delimiter) {
            return Err(ProviderDescriptorError::InvalidScopeDelimiter {
                delimiter: self.quirks.scope_delimiter,
            });
        }
        Ok(ProviderDescriptor {
            id: self.id,
            endpoints: ProviderEndpoints { authorization, token, revocation },
            supported_grants: self.supported_grants,
            preferred_client_auth_method: self.preferred_client_auth_method,
            quirks: self.quirks,
        })
    }
}

} // verus!
