//! Token family classification helpers (tenant/principal/provider).

use vstd::prelude::*;

use crate::auth::id::{PrincipalId, ProviderId, TenantId};

verus! {

/// Mathematical value of a [`TokenFamily`]: the identifier texts.
pub struct FamilyView {
    /// Tenant identifier text.
    pub tenant: Seq<char>,
    /// Principal identifier text.
    pub principal: Seq<char>,
    /// Provider identifier text, when set.
    pub provider: Option<Seq<char>>,
}

/// Identifies a cohesive token family for a tenant/principal/provider tuple.
#[derive(Eq, Debug)]
pub struct TokenFamily {
    /// Tenant identifier tied to all tokens in the family.
    pub tenant: TenantId,
    /// Principal identifier associated with the family.
    pub principal: PrincipalId,
    /// Optional provider identifier that minted the tokens.
    pub provider: Option<ProviderId>,
}

impl View for TokenFamily {
    type V = FamilyView;

    open spec fn view(&self) -> FamilyView {
        FamilyView {
            tenant: self.tenant@,
            principal: self.principal@,
            provider: match self.provider {
                Some(p) => Some(p@),
                None => None,
            },
        }
    }
}

impl TokenFamily {
    /// Creates a family for the provided tenant and principal.
    pub fn new(tenant: TenantId, principal: PrincipalId) -> (r: Self)
        ensures
            r@.tenant == tenant@,
            r@.principal == principal@,
            r@.provider is None,
    {
        TokenFamily { tenant, principal, provider: None }
    }
}

impl Clone for TokenFamily {
    fn clone(&self) -> (r: Self)
        ensures
            r@ == self@,
    {
        TokenFamily {
            tenant: self.tenant.clone(),
            principal: self.principal.clone(),
            provider: match &self.provider {
                Some(p) => Some(p.clone()),
                None => None,
            },
        }
    }
}

impl PartialEq for TokenFamily {
    fn eq(&self, other: &Self) -> (r: bool) {
        let provider_eq = match (&self.provider, &other.provider) {
            (None, None) => true,
            (Some(a), Some(b)) => a == b,
            _ => false,
        };
        self.tenant == other.tenant && self.principal == other.principal && provider_eq
    }
}

impl vstd::std_specs::cmp::PartialEqSpecImpl for TokenFamily {
    open spec fn obeys_eq_spec() -> bool {
        true
    }

    open spec fn eq_spec(&self, other: &Self) -> bool {
        self@ == other@
    }
}

} // verus!
