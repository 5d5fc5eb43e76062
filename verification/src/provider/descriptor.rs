//! Provider descriptor data structures and helpers shared by all flows.

/// Builder API for assembling provider descriptors.
pub mod builder;
/// Grant helpers wired into provider descriptors.
pub mod grant;
/// Provider-specific quirk toggles.
pub mod quirks;

use vstd::prelude::*;

use crate::auth::id::ProviderId;
use crate::provider::descriptor::builder::ProviderDescriptorBuilder;
use crate::provider::descriptor::grant::{GrantType, SupportedGrants};
use crate::provider::descriptor::quirks::ProviderQuirks;

verus! {

/// Preferred client authentication modes for token endpoint calls.
#[derive(Clone, Copy, Debug, PartialEq, Eq, Structural)]
pub enum ClientAuthMethod {
    /// HTTP Basic with `client_id`/`client_secret`.
    ClientSecretBasic,
    /// Form POST body parameters for `client_id`/`client_secret`.
    ClientSecretPost,
    /// Public clients that prove possession via PKCE.
    NoneWithPkce,
}

impl Default for ClientAuthMethod {
    /// HTTP Basic authentication.
    fn default() -> (r: Self)
        ensures
            r is ClientSecretBasic,
    {
        ClientAuthMethod::ClientSecretBasic
    }
}

/// Endpoint set declared by a provider descriptor. Endpoints are carried as
/// URL strings; validation requires the `https` scheme.
#[derive(Eq, Debug)]
pub struct ProviderEndpoints {
    /// Authorization endpoint used by the Authorization Code flow.
    pub authorization: String,
    /// Token endpoint used for exchanges and refreshes.
    pub token: String,
    /// Optional revocation endpoint.
    pub revocation: Option<String>,
}

/// View of an optional endpoint string.
pub open spec fn opt_endpoint_view(o: &Option<String>) -> Option<Seq<char>> {
    match o {
        Some(s) => Some(s@),
        None => None,
    }
}

impl Clone for ProviderEndpoints {
    fn clone(&self) -> (r: Self)
        ensures
            r.authorization@ == self.authorization@,
            r.token@ == self.token@,
            opt_endpoint_view(&r.revocation) == opt_endpoint_view(&self.revocation),
    {
        ProviderEndpoints {
            authorization: self.authorization.clone(),
            token: self.token.clone(),
            revocation: match &self.revocation {
                Some(s) => Some(s.clone()),
                None => None,
            },
        }
    }
}

impl PartialEq for ProviderEndpoints {
    fn eq(&self, other: &Self) -> (r: bool) {
        let auth_eq = self.authorization == other.authorization;
        let token_eq = self.token == other.token;
        let rev_eq = match (&self.revocation, &other.revocation) {
            (None, None) => true,
            (Some(a), Some(b)) => *a == *b,
            _ => false,
        };
        proof {
            assert(auth_eq == (self.authorization@ == other.authorization@));
            assert(token_eq == (self.token@ == other.token@));
            assert(rev_eq == (opt_endpoint_view(&self.revocation) == opt_endpoint_view(
                &other.revocation,
            )));
        }
        auth_eq && token_eq && rev_eq
    }
}

impl vstd::std_specs::cmp::PartialEqSpecImpl for ProviderEndpoints {
    open spec fn obeys_eq_spec() -> bool {
        true
    }

    open spec fn eq_spec(&self, other: &Self) -> bool {
        &&& self.authorization@ == other.authorization@
        &&& self.token@ == other.token@
        &&& opt_endpoint_view(&self.revocation) == opt_endpoint_view(&other.revocation)
    }
}

/// Immutable provider descriptor consumed by flows.
#[derive(Eq, Debug)]
pub struct ProviderDescriptor {
    /// Descriptor identifier.
    pub id: ProviderId,
    /// Endpoint definitions exposed by the provider.
    pub endpoints: ProviderEndpoints,
    /// Supported grant flags.
    pub supported_grants: SupportedGrants,
    /// Preferred client authentication mechanism.
    pub preferred_client_auth_method: ClientAuthMethod,
    /// Provider-specific quirks.
    pub quirks: ProviderQuirks,
}

impl ProviderDescriptor {
    /// Creates a new builder for the provided identifier.
    pub fn builder(id: ProviderId) -> (r: ProviderDescriptorBuilder)
        ensures
            r == ProviderDescriptorBuilder::spec_new(id),
    {
        ProviderDescriptorBuilder::new(id)
    }

    /// Checks whether the descriptor supports a given grant.
    pub fn supports(&self, grant: GrantType) -> (r: bool)
        ensures
            r == self.supported_grants.spec_supports(grant),
    {
        self.supported_grants.supports(grant)
    }
}

impl Clone for ProviderDescriptor {
    fn clone(&self) -> (r: Self)
        ensures
            r.id@ == self.id@,
            r.endpoints.authorization@ == self.endpoints.authorization@,
            r.endpoints.token@ == self.endpoints.token@,
            opt_endpoint_view(&r.endpoints.revocation) == opt_endpoint_view(
                &self.endpoints.revocation,
            ),
            r.supported_grants == self.supported_grants,
            r.preferred_client_auth_method == self.preferred_client_auth_method,
            r.quirks == self.quirks,
    {
        ProviderDescriptor {
            id: self.id.clone(),
            endpoints: self.endpoints.clone(),
            supported_grants: self.supported_grants,
            preferred_client_auth_method: self.preferred_client_auth_method,
            quirks: self.quirks,
        }
    }
}

impl PartialEq for ProviderDescriptor {
    fn eq(&self, other: &Self) -> (r: bool) {
        self.id == other.id && self.endpoints == other.endpoints && self.supported_grants
            == other.supported_grants && self.preferred_client_auth_method
            == other.preferred_client_auth_method && self.quirks == other.quirks
    }
}

impl vstd::std_specs::cmp::PartialEqSpecImpl for ProviderDescriptor {
    open spec fn obeys_eq_spec() -> bool {
        true
    }

    open spec fn eq_spec(&self, other: &Self) -> bool {
        &&& self.id@ == other.id@
        &&& self.endpoints.authorization@ == other.endpoints.authorization@
        &&& self.endpoints.token@ == other.endpoints.token@
        &&& opt_endpoint_view(&self.endpoints.revocation) == opt_endpoint_view(
            &other.endpoints.revocation,
        )
        &&& self.supported_grants == other.supported_grants
        &&& self.preferred_client_auth_method == other.preferred_client_auth_method
        &&& self.quirks == other.quirks
    }
}

} // verus!
