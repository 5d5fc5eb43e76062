use oauth2_broker::auth::id::{PrincipalId, TenantId};
use oauth2_broker::auth::scope::ScopeSet;
use oauth2_broker::auth::token::family::TokenFamily;
use oauth2_broker::auth::token::record::{TokenRecord, TokenRecordBuilderError, TokenStatus};
use oauth2_broker::auth::token::secret::TokenSecret;

fn scope_of(values: &[&str]) -> ScopeSet {
    ScopeSet::new(values.iter().map(|s| s.to_string()).collect())
        .expect("Scope fixture should be valid.")
}

fn wall_clock_now() -> i64 {
    std::time::SystemTime::now()
        .duration_since(std::time::UNIX_EPOCH)
        .expect("The clock should sit after the epoch.")
        .as_secs() as i64
}

#[test]
fn status_transitions_cover_all_states() {
    let tenant = TenantId::new("t-1").expect("Tenant fixture should be valid.");
    let principal = PrincipalId::new("p-1").expect("Principal fixture should be valid.");
    let family = TokenFamily::new(tenant, principal);
    let scope = scope_of(&["email", "profile"]);
    let issued = 1735689600; // 2025-01-01 00:00 UTC
    let expires = 1735693200; // 2025-01-01 01:00 UTC
    let mut record = TokenRecord::builder(family, scope)
        .access_token("access")
        .refresh_token("refresh")
        .issued_at(issued)
        .expires_at(expires)
        .build()
        .expect("Token record builder should succeed for status transitions.");

    assert_eq!(record.status_at(1735689540), TokenStatus::Pending); // 2024-12-31 23:59 UTC
    assert_eq!(record.status_at(1735691400), TokenStatus::Active); // 2025-01-01 00:30 UTC
    assert_eq!(record.status_at(1735693200), TokenStatus::Expired); // 2025-01-01 01:00 UTC

    record.revoke(1735690200); // 2025-01-01 00:10 UTC

    assert_eq!(record.status_at(1735691400), TokenStatus::Revoked);
}

#[test]
fn builder_handles_relative_expiry() {
    let tenant = TenantId::new("tenant").expect("Tenant fixture should be valid.");
    let principal = PrincipalId::new("principal").expect("Principal fixture should be valid.");
    let family = TokenFamily::new(tenant, principal);
    let scope = scope_of(&["email"]);
    let record = TokenRecord::builder(family, scope)
        .access_token("secret")
        .issued_at(1735689600) // 2025-01-01 00:00 UTC
        .expires_in(30 * 60)
        .build()
        .expect("Token record builder should support relative expiry calculations.");

    assert_eq!(record.expires_at, 1735691400); // 2025-01-01 00:30 UTC
}

#[test]
fn helper_methods_match_statuses() {
    let tenant = TenantId::new("t").expect("Tenant fixture should be valid.");
    let principal = PrincipalId::new("p").expect("Principal fixture should be valid.");
    let scope = scope_of(&["email"]);
    let now = wall_clock_now();
    let pending = TokenRecord::builder(
        TokenFamily::new(tenant.clone(), principal.clone()),
        scope.clone(),
    )
    .access_token("pending")
    .issued_at(now + 5 * 60)
    .expires_at(now + 60 * 60)
    .build()
    .expect("Pending record builder should succeed.");

    assert!(pending.is_pending());
    assert!(pending.is_pending_at(now));
    assert!(!pending.is_active());

    let mut active = TokenRecord::builder(
        TokenFamily::new(tenant.clone(), principal.clone()),
        scope.clone(),
    )
    .access_token("active")
    .issued_at(now - 60)
    .expires_at(now + 60)
    .build()
    .expect("Active record builder should succeed.");

    assert!(active.is_active());
    assert!(!active.is_revoked());

    active.revoke(now);

    assert!(active.is_revoked());

    let expired = TokenRecord::builder(TokenFamily::new(tenant, principal), scope)
        .access_token("expired")
        .issued_at(now - 2 * 60 * 60)
        .expires_at(now - 60)
        .build()
        .expect("Expired record builder should succeed.");

    assert!(expired.is_expired());
    assert!(expired.is_expired_at(now));
}

#[test]
fn secret_formatters_redact() {
    let secret = TokenSecret::new("super-secret");

    assert_eq!(secret.debug_redacted(), "TokenSecret(\"<redacted>\")");
    assert_eq!(secret.redacted(), "<redacted>");
}

#[test]
fn builder_rejects_incomplete_records() {
    let tenant = TenantId::new("t").expect("Tenant fixture should be valid.");
    let principal = PrincipalId::new("p").expect("Principal fixture should be valid.");
    let scope = scope_of(&["email"]);

    let missing_access = TokenRecord::builder(
        TokenFamily::new(tenant.clone(), principal.clone()),
        scope.clone(),
    )
    .issued_at(0)
    .expires_at(10)
    .build();
    let missing_access_err = match missing_access {
        Err(e) => e,
        Ok(_) => panic!("An access token is required."),
    };
    assert_eq!(missing_access_err, TokenRecordBuilderError::MissingAccessToken);

    let missing_expiry = TokenRecord::builder(TokenFamily::new(tenant, principal), scope)
        .access_token("a")
        .issued_at(0)
        .build();
    let missing_expiry_err = match missing_expiry {
        Err(e) => e,
        Ok(_) => panic!("An expiry is required."),
    };
    assert_eq!(missing_expiry_err, TokenRecordBuilderError::MissingExpiry);
}
