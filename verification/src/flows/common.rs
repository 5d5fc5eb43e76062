//! Shared helpers for flow implementations: cached-request state, the
//! deterministic freshness jitter, scope formatting, and grant-support
//! checks.

use vstd::prelude::*;

use crate::auth::id::{PrincipalId, TenantId};
use crate::auth::scope::{fingerprint_of, ScopeSet};
use crate::auth::token::record::{TokenRecord, TokenRecordView};
use crate::error::{ConfigError, Error};
use crate::provider::descriptor::grant::GrantType;
use crate::provider::descriptor::ProviderDescriptor;
use crate::text::push_char;
use vstd::string::StringExecFns;

verus! {

/// Default preemptive refresh window, in seconds.
pub const DEFAULT_PREEMPTIVE_WINDOW_SECONDS: i64 = 60;

/// The deterministic jitter seed for a (tenant, principal, scope
/// fingerprint) tuple.
pub uninterp spec fn jitter_seed_of(
    tenant: Seq<char>,
    principal: Seq<char>,
    fingerprint: Seq<char>,
) -> u64;

/// Derives the jitter seed for a request tuple.
///
/// Relies on std's `DefaultHasher` with its fixed default keys: a pure
/// 64-bit hash of the three strings, the same on every call with the same
/// inputs.
#[verifier::external_body]
fn jitter_seed(tenant: &str, principal: &str, fingerprint: &str) -> (r: u64)
    ensures
        r == jitter_seed_of(tenant@, principal@, fingerprint@),
{
    let mut hasher = std::collections::hash_map::DefaultHasher::new();
    std::hash::Hash::hash(tenant, &mut hasher);
    std::hash::Hash::hash(principal, &mut hasher);
    std::hash::Hash::hash(fingerprint, &mut hasher);
    std::hash::Hasher::finish(&hasher)
}

/// Shared request parameters for flows that evaluate cached records before
/// contacting the provider. The preemptive window is in seconds.
#[derive(Debug)]
pub struct CachedTokenRequest {
    /// Tenant identifier tied to the request.
    pub tenant: TenantId,
    /// Principal identifier tied to the request.
    pub principal: PrincipalId,
    /// Normalized scope set for the request.
    pub scope: ScopeSet,
    /// Forces cache bypass when true.
    pub force: bool,
    /// Jittered preemptive window used when refreshing early, in seconds.
    pub preemptive_window: i64,
}

impl CachedTokenRequest {
    /// The deterministic jitter, in seconds: zero for windows of at most one
    /// second, otherwise the seed reduced modulo the window.
    pub open spec fn spec_jitter(&self) -> int {
        if self.preemptive_window <= 1 {
            0
        } else {
            (jitter_seed_of(
                self.tenant@,
                self.principal@,
                fingerprint_of(self.scope@),
            ) % (self.preemptive_window as u64)) as int
        }
    }

    /// The effective preemptive window: the configured window less the
    /// jitter, clamped at zero.
    pub open spec fn spec_effective_window(&self) -> int {
        let e = self.preemptive_window - self.spec_jitter();
        if e < 0 {
            0
        } else {
            e
        }
    }

    /// Whether a cached record must be refreshed at `now`: a forced request,
    /// a revoked or expired record, or one inside the effective preemptive
    /// window of its expiry.
    pub open spec fn spec_should_refresh(&self, record: TokenRecordView, now: i64) -> bool {
        ||| self.force
        ||| record.revoked_at is Some
        ||| record.spec_status_at(now) is Expired
        ||| (self.spec_effective_window() != 0 && record.expires_at - now
            <= self.spec_effective_window())
    }

    /// Creates a new request for the provided tenant/principal/scope tuple,
    /// not forced, with the default preemptive window.
    pub fn new(tenant: TenantId, principal: PrincipalId, scope: ScopeSet) -> (r: Self)
        ensures
            r.tenant@ == tenant@,
            r.principal@ == principal@,
            r.scope@ == scope@,
            !r.force,
            r.preemptive_window == DEFAULT_PREEMPTIVE_WINDOW_SECONDS,
    {
        CachedTokenRequest {
            tenant,
            principal,
            scope,
            force: false,
            preemptive_window: DEFAULT_PREEMPTIVE_WINDOW_SECONDS,
        }
    }

    /// Forces the broker to bypass cache checks.
    pub fn force_refresh(self) -> (r: Self)
        ensures
            r == (CachedTokenRequest { force: true, ..self }),
    {
        CachedTokenRequest { force: true, ..self }
    }

    /// Overrides the force flag.
    pub fn with_force(self, force: bool) -> (r: Self)
        ensures
            r == (CachedTokenRequest { force, ..self }),
    {
        CachedTokenRequest { force, ..self }
    }

    /// Overrides the jittered preemptive window, in seconds; negative
    /// windows clamp to zero.
    pub fn with_preemptive_window(self, window: i64) -> (r: Self)
        ensures
            r == (CachedTokenRequest {
                preemptive_window: if window < 0 { 0 } else { window },
                ..self
            }),
    {
        let clamped: i64 = if window < 0 {
            0
        } else {
            window
        };
        CachedTokenRequest { preemptive_window: clamped, ..self }
    }

    /// Determines whether the cached record should be refreshed at `now`.
    pub fn should_refresh(&self, record: &TokenRecord, now: i64) -> (r: bool)
        ensures
            r == self.spec_should_refresh(record@, now),
    {
        if self.force || record.is_revoked() || record.is_expired_at(now) {
            return true;
        }
        let effective = self.effective_preemptive_window();
        if effective == 0 {
            return false;
        }
        let remaining: i128 = (record.expires_at as i128) - (now as i128);
        remaining <= effective as i128
    }

    /// The configured window less the deterministic jitter, clamped at zero.
    fn effective_preemptive_window(&self) -> (r: i64)
        ensures
            r == self.spec_effective_window(),
    {
        let j = self.preemptive_jitter();
        if self.preemptive_window >= j {
            self.preemptive_window - j
        } else {
            0
        }
    }

    /// The deterministic jitter, in seconds.
    fn preemptive_jitter(&self) -> (r: i64)
        ensures
            r == self.spec_jitter(),
            r >= 0,
    {
        if self.preemptive_window <= 1 {
            return 0;
        }
        let modulus = self.preemptive_window as u64;
        let fingerprint = self.scope.fingerprint();
        let seed = jitter_seed(
            self.tenant.as_str(),
            self.principal.as_str(),
            fingerprint.as_str(),
        );
        let j = seed % modulus;
        j as i64
    }
}

/// The freshness window law: a live, unforced record refreshes exactly when
/// it sits inside the effective preemptive window (the configured window
/// less the deterministic jitter); outside it, the cached record is reused.
pub proof fn lemma_freshness_window(req: CachedTokenRequest, rec: TokenRecordView, now: i64)
    requires
        !req.force,
        rec.revoked_at is None,
        !(rec.spec_status_at(now) is Expired),
    ensures
        (req.spec_effective_window() > 0 && rec.expires_at - now <= req.spec_effective_window())
            ==> req.spec_should_refresh(rec, now),
        rec.expires_at - now > req.spec_effective_window() ==> !req.spec_should_refresh(
            rec,
            now,
        ),
{
}

/// The scopes joined by a delimiter character.
pub open spec fn join_with(ss: Seq<Seq<char>>, delim: char) -> Seq<char>
    decreases ss.len(),
{
    if ss.len() == 0 {
        Seq::empty()
    } else if ss.len() == 1 {
        ss[0]
    } else {
        join_with(ss.drop_last(), delim) + seq![delim] + ss.last()
    }
}

/// Joins normalized scopes with the provider's delimiter when building
/// requests; an empty scope set yields no parameter at all.
pub fn format_scope(scope: &ScopeSet, delimiter: char) -> (r: Option<String>)
    ensures
        scope@.len() == 0 ==> r is None,
        scope@.len() > 0 ==> (r matches Some(s) && s@ == join_with(scope@, delimiter)),
{
    if scope.is_empty() {
        return None;
    }
    let parts = scope.as_slice();
    let ghost vs = scope@;
    let mut buf = String::new();
    let n = parts.len();
    let mut i: usize = 0;
    while i < n
        invariant
            i <= n,
            n == parts@.len(),
            vs == crate::auth::scope::views_of(parts@),
            buf@ == join_with(vs.subrange(0, i as int), delimiter),
        decreases n - i,
    {
        if i > 0 {
            push_char(&mut buf, delimiter);
        }
        buf.append(parts[i].as_str());
        proof {
            let pre = vs.subrange(0, i as int);
            let cur = vs.subrange(0, i + 1);
            assert(cur.drop_last() =~= pre);
            assert(cur.last() == vs[i as int]);
            assert(vs[i as int] == parts@[i as int]@);
            if i == 0 {
                assert(join_with(cur, delimiter) == cur[0]);
                assert(buf@ =~= cur[0]);
            } else {
                assert(join_with(cur, delimiter) == join_with(pre, delimiter) + seq![delimiter]
                    + vs[i as int]);
                assert(buf@ =~= join_with(pre, delimiter) + seq![delimiter] + vs[i as int]);
            }
        }
        i += 1;
    }
    proof {
        assert(vs.subrange(0, n as int) =~= vs);
    }
    Some(buf)
}

/// Fails with `UnsupportedGrant` when the descriptor does not enable the
/// requested grant; every broker operation runs this check first.
pub fn ensure_grant_supported(descriptor: &ProviderDescriptor, grant: GrantType) -> (r: Result<
    (),
    Error,
>)
    ensures
        r is Ok <==> descriptor.supported_grants.spec_supports(grant),
        r matches Err(e) ==> (e matches Error::Config(ConfigError::UnsupportedGrant {
            descriptor: d,
            grant: g,
        }) && d@ == descriptor.id@ && g == grant),
{
    if descriptor.supports(grant) {
        Ok(())
    } else {
        Err(
            Error::Config(
                ConfigError::UnsupportedGrant {
                    descriptor: descriptor.id.as_str().to_owned(),
                    grant,
                },
            ),
        )
    }
}

/// Evaluates the cache for a fetched record: the record is returned when it
/// is present and still fresh, and nothing otherwise.
pub fn evaluate_cached(request: &CachedTokenRequest, fetched: Option<TokenRecord>, now: i64) -> (r:
    Option<TokenRecord>)
    ensures
        r matches Some(rec) ==> (fetched matches Some(f) && rec@ == f@
            && !request.spec_should_refresh(f@, now)),
        r is None ==> match fetched {
            None => true,
            Some(f) => request.spec_should_refresh(f@, now),
        },
{
    match fetched {
        Some(record) => {
            if !request.should_refresh(&record, now) {
                Some(record)
            } else {
                None
            }
        },
        None => None,
    }
}

} // verus!
