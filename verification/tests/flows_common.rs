use oauth2_broker::auth::id::{PrincipalId, TenantId};
use oauth2_broker::auth::scope::ScopeSet;
use oauth2_broker::auth::token::family::TokenFamily;
use oauth2_broker::auth::token::record::TokenRecord;
use oauth2_broker::flows::common::{ensure_grant_supported, format_scope, CachedTokenRequest};
use oauth2_broker::flows::refresh::metrics::RefreshMetrics;
use oauth2_broker::error::{ConfigError, Error};
use oauth2_broker::provider::descriptor::grant::GrantType;
use oauth2_broker::provider::descriptor::ProviderDescriptor;
use oauth2_broker::auth::id::ProviderId;
use oauth2_broker::obs::metrics::record_flow_outcome;
use oauth2_broker::obs::tracing::FlowSpan;
use oauth2_broker::obs::{FlowKind, FlowOutcome};

fn scope_of(values: &[&str]) -> ScopeSet {
    ScopeSet::new(values.iter().map(|s| s.to_string()).collect())
        .expect("Failed to build test scope.")
}

fn request(scope: ScopeSet) -> CachedTokenRequest {
    let tenant = TenantId::new("tenant-a").expect("Tenant fixture should be valid.");
    let principal = PrincipalId::new("princ-a").expect("Principal fixture should be valid.");
    CachedTokenRequest::new(tenant, principal, scope)
}

fn record_expiring_at(scope: &ScopeSet, expires_at: i64) -> TokenRecord {
    let tenant = TenantId::new("tenant-a").expect("Tenant fixture should be valid.");
    let principal = PrincipalId::new("princ-a").expect("Principal fixture should be valid.");
    TokenRecord::builder(TokenFamily::new(tenant, principal), scope.clone())
        .access_token("token")
        .issued_at(expires_at - 3600)
        .expires_at(expires_at)
        .build()
        .expect("Record fixture should build.")
}

#[test]
fn scope_formatting_handles_custom_delimiters() {
    let scope = scope_of(&["email", "profile"]);

    assert_eq!(format_scope(&scope, ' '), Some("email profile".into()));
    assert_eq!(format_scope(&scope, ','), Some("email,profile".into()));
}

#[test]
fn freshness_window_decides_refresh() {
    let scope = scope_of(&["email"]);
    let now = 1_700_000_000;

    // A record far from expiry with no window is reused.
    let req = request(scope.clone()).with_preemptive_window(0);
    let fresh = record_expiring_at(&scope, now + 10_000);
    assert!(!req.should_refresh(&fresh, now));

    // Expiry inside the window (window 60s, jitter < 60s) triggers a refresh.
    let req = request(scope.clone());
    let closing = record_expiring_at(&scope, now);
    assert!(req.should_refresh(&closing, now));

    // A forced request always refreshes.
    let req = request(scope.clone()).force_refresh();
    assert!(req.should_refresh(&fresh, now));

    // A revoked record always refreshes.
    let mut revoked = record_expiring_at(&scope, now + 10_000);
    revoked.revoke(now);
    let req = request(scope.clone()).with_preemptive_window(0);
    assert!(req.should_refresh(&revoked, now));

    // The jitter is deterministic: the same request decides the same way twice.
    let req = request(scope.clone());
    let near = record_expiring_at(&scope, now + 30);
    assert_eq!(req.should_refresh(&near, now), req.should_refresh(&near, now));

    // Negative windows clamp to zero.
    let req = request(scope).with_preemptive_window(-5);
    assert!(!req.should_refresh(&fresh, now));
}

#[test]
fn unsupported_grant_is_rejected() {
    let provider_id = ProviderId::new("acme").expect("Provider identifier should be valid.");
    let descriptor = ProviderDescriptor::builder(provider_id)
        .authorization_endpoint("https://example.com/auth".to_string())
        .token_endpoint("https://example.com/token".to_string())
        .support_grant(GrantType::AuthorizationCode)
        .build()
        .expect("Descriptor should build.");

    assert!(ensure_grant_supported(&descriptor, GrantType::AuthorizationCode).is_ok());

    let err = ensure_grant_supported(&descriptor, GrantType::ClientCredentials)
        .expect_err("Client credentials are not enabled.");
    assert!(matches!(
        err,
        Error::Config(ConfigError::UnsupportedGrant { grant: GrantType::ClientCredentials, .. })
    ));
}

#[test]
fn refresh_metrics_count_outcomes() {
    let mut metrics = RefreshMetrics::new();
    metrics.record_attempt();
    metrics.record_attempt();
    metrics.record_success();
    metrics.record_failure();

    assert_eq!(metrics.attempts(), 2);
    assert_eq!(metrics.successes(), 1);
    assert_eq!(metrics.failures(), 1);
}

#[test]
fn record_flow_outcome_noop_without_metrics() {
    record_flow_outcome(FlowKind::AuthorizationCode, FlowOutcome::Failure);
}

#[test]
fn flow_span_noop_without_tracing() {
    let _guard = FlowSpan::new(FlowKind::ClientCredentials, "test").entered();
}
