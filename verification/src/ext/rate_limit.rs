//! Rate limit context and decision types for flows that consult provider
//! budgets before issuing token requests.

use vstd::prelude::*;

use crate::auth::id::{ProviderId, TenantId};
use crate::auth::scope::ScopeSet;
use crate::auth::token::record::now_unix;

verus! {

/// Context shared with a rate-limit policy before an outbound call is made.
/// Instants are Unix-epoch seconds.
#[derive(Debug)]
pub struct RateLimitContext {
    /// Tenant identifier for the call.
    pub tenant_id: TenantId,
    /// Provider identifier for the call.
    pub provider_id: ProviderId,
    /// Normalized scope set the broker is about to request.
    pub scope: ScopeSet,
    /// Logical operation (grant/flow) being attempted.
    pub operation: String,
    /// Timestamp the broker observed before invoking the policy.
    pub observed_at: i64,
}

impl RateLimitContext {
    /// Creates a new context for the given tenant/provider/scope/operation
    /// tuple, observed at the current clock.
    pub fn new(tenant_id: TenantId, provider_id: ProviderId, scope: ScopeSet, operation: String) -> (r: Self)
        ensures
            r.tenant_id@ == tenant_id@,
            r.provider_id@ == provider_id@,
            r.scope@ == scope@,
            r.operation@ == operation@,
    {
        let observed_at = now_unix();
        RateLimitContext { tenant_id, provider_id, scope, operation, observed_at }
    }

    /// Overrides the timestamp associated with the observation.
    pub fn with_observed_at(self, instant: i64) -> (r: Self)
        ensures
            r == (RateLimitContext { observed_at: instant, ..self }),
    {
        RateLimitContext { observed_at: instant, ..self }
    }
}

/// Result emitted by a rate-limit policy.
#[derive(Debug)]
pub enum RateLimitDecision {
    /// The request may proceed immediately.
    Allow,
    /// The request should be delayed.
    Delay(RetryDirective),
}

/// Advises callers when to retry after a delay decision. Instants are
/// Unix-epoch seconds; the backoff is in seconds.
#[derive(Debug)]
pub struct RetryDirective {
    /// Instant when it is safe to retry.
    pub earliest_retry_at: i64,
    /// Suggested backoff duration, in seconds.
    pub recommended_backoff: i64,
    /// Optional descriptive string.
    pub reason: Option<String>,
}

impl RetryDirective {
    /// Creates a new directive with the provided timing metadata.
    pub fn new(earliest_retry_at: i64, recommended_backoff: i64) -> (r: Self)
        ensures
            r.earliest_retry_at == earliest_retry_at,
            r.recommended_backoff == recommended_backoff,
            r.reason is None,
    {
        RetryDirective { earliest_retry_at, recommended_backoff, reason: None }
    }

    /// Adds a human-readable reason.
    pub fn with_reason(self, reason: String) -> (r: Self)
        ensures
            r == (RetryDirective { reason: r.reason, ..self }),
            r.reason matches Some(m) && m@ == reason@,
    {
        RetryDirective { reason: Some(reason), ..self }
    }
}

} // verus!
