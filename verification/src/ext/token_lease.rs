//! Token leasing contexts for callers that borrow access tokens for short
//! windows while the broker controls refresh lifetimes.

use vstd::prelude::*;

use crate::auth::scope::ScopeSet;
use crate::auth::token::family::TokenFamily;
use crate::auth::token::record::now_unix;

verus! {

/// Metadata describing what kind of lease the caller is requesting.
/// Instants are Unix-epoch seconds; the TTL is in seconds.
#[derive(Debug)]
pub struct TokenLeaseContext {
    /// Token family tied to the lease.
    pub family: TokenFamily,
    /// Scope set tied to the lease.
    pub scope: ScopeSet,
    /// Instant that should be treated as "now" for freshness checks.
    pub requested_at: i64,
    /// Minimum TTL the caller wants to guarantee, in seconds.
    pub minimum_ttl: i64,
    /// Optional annotation that can flow into logs/metrics.
    pub reason: Option<String>,
}

impl TokenLeaseContext {
    /// Creates a new context for the provided token family + scope set,
    /// requested at the current clock with a zero minimum TTL.
    pub fn new(family: TokenFamily, scope: ScopeSet) -> (r: Self)
        ensures
            r.family@ == family@,
            r.scope@ == scope@,
            r.minimum_ttl == 0,
            r.reason is None,
    {
        let requested_at = now_unix();
        TokenLeaseContext { family, scope, requested_at, minimum_ttl: 0, reason: None }
    }

    /// Overrides the instant used for freshness calculations.
    pub fn with_requested_at(self, instant: i64) -> (r: Self)
        ensures
            r == (TokenLeaseContext { requested_at: instant, ..self }),
    {
        TokenLeaseContext { requested_at: instant, ..self }
    }

    /// Ensures the lease is only granted if the token will remain valid for
    /// at least the provided TTL, in seconds.
    pub fn with_minimum_ttl(self, ttl: i64) -> (r: Self)
        ensures
            r == (TokenLeaseContext { minimum_ttl: ttl, ..self }),
    {
        TokenLeaseContext { minimum_ttl: ttl, ..self }
    }

    /// Adds an optional human-readable reason for observability.
    pub fn with_reason(self, reason: String) -> (r: Self)
        ensures
            r == (TokenLeaseContext { reason: r.reason, ..self }),
            r.reason matches Some(m) && m@ == reason@,
    {
        TokenLeaseContext { reason: Some(reason), ..self }
    }
}

/// Result of attempting to lease a token. Instants and durations are whole
/// seconds.
#[derive(Debug)]
pub enum TokenLeaseState<Lease> {
    /// A guard was produced. Dropping the guard should release the lease.
    Granted {
        /// User-defined guard that owns the lease lifetime.
        lease: Lease,
        /// Expiry instant for the leased token record.
        expires_at: i64,
    },
    /// A lease will be available later; callers should retry after the delay.
    Pending {
        /// Duration callers should wait before retrying, in seconds.
        retry_in: i64,
    },
    /// No usable token exists; flows should refresh or mint a new one.
    NeedsRefresh,
}

} // verus!
