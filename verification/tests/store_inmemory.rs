use oauth2_broker::auth::id::{PrincipalId, TenantId};
use oauth2_broker::auth::scope::ScopeSet;
use oauth2_broker::auth::token::family::TokenFamily;
use oauth2_broker::auth::token::record::{TokenRecord, TokenStatus};
use oauth2_broker::store::{CompareAndSwapOutcome, MemoryStore, StoreKey};

fn make_family() -> TokenFamily {
    let tenant = TenantId::new("tenant-123")
        .expect("Failed to build tenant identifier for memory store tests.");
    let principal = PrincipalId::new("principal-456")
        .expect("Failed to build principal identifier for memory store tests.");

    TokenFamily::new(tenant, principal)
}

fn make_scope() -> ScopeSet {
    ScopeSet::new(vec!["email".to_string(), "profile".to_string()])
        .expect("Failed to build default scope set for tests.")
}

fn build_record(
    family: &TokenFamily,
    scope: &ScopeSet,
    access: &str,
    refresh: Option<&str>,
) -> TokenRecord {
    let issued = 1762776000; // 2025-11-10 12:00 UTC
    let expires = issued + 60 * 60;
    let mut builder = TokenRecord::builder(family.clone(), scope.clone())
        .access_token(access)
        .issued_at(issued)
        .expires_at(expires);

    if let Some(value) = refresh {
        builder = builder.refresh_token(value);
    }

    builder
        .build()
        .expect("Token record fixture should build successfully.")
}

#[test]
fn save_and_fetch_round_trip() {
    let mut store = MemoryStore::default();
    let family = make_family();
    let scope = make_scope();
    let record = build_record(&family, &scope, "access-1", Some("refresh-1"));

    store
        .save_now(record.clone())
        .expect("Saving record fixture into memory store should succeed.");

    let fetched = store
        .fetch_now(&family, &scope)
        .expect("Stored record should remain present.");

    assert_eq!(fetched.access_token.expose(), record.access_token.expose());
    assert_eq!(
        fetched.refresh_token.as_ref().map(|secret| secret.expose()),
        record.refresh_token.as_ref().map(|secret| secret.expose())
    );
}

#[test]
fn cas_success_and_mismatch() {
    let mut store = MemoryStore::default();
    let family = make_family();
    let scope = make_scope();
    let initial = build_record(&family, &scope, "access-initial", Some("refresh-old"));

    store
        .save_now(initial.clone())
        .expect("Saving initial record into memory store should succeed.");

    let replacement = build_record(&family, &scope, "access-new", Some("refresh-new"));
    let outcome = store.cas_now(
        &family,
        &scope,
        initial.refresh_token.as_ref().map(|secret| secret.expose()),
        replacement.clone(),
    );

    assert_eq!(outcome, CompareAndSwapOutcome::Updated);

    let fetched = store
        .fetch_now(&family, &scope)
        .expect("Updated record should remain present.");

    assert_eq!(
        fetched.refresh_token.as_ref().map(|secret| secret.expose()),
        Some("refresh-new")
    );

    let mismatch = store.cas_now(&family, &scope, Some("refresh-old"), replacement);

    assert_eq!(mismatch, CompareAndSwapOutcome::RefreshMismatch);

    let missing_scope = ScopeSet::new(vec!["offline_access".to_string()])
        .expect("Missing scope set should build successfully.");
    let missing = store.cas_now(&family, &missing_scope, Some("whatever"), initial);

    assert_eq!(missing, CompareAndSwapOutcome::Missing);
}

#[test]
fn concurrent_cas_allows_single_winner() {
    let mut store = MemoryStore::default();
    let family = make_family();
    let scope = make_scope();
    let base = build_record(&family, &scope, "access-base", Some("refresh-base"));

    store
        .save_now(base.clone())
        .expect("Saving base record into memory store should succeed.");

    let expected = base
        .refresh_token
        .as_ref()
        .map(|secret| secret.expose().to_string())
        .expect("Base record should contain a refresh token.");

    let replacement_a = build_record(&family, &scope, "access-a", Some("refresh-a"));
    let outcome_a = store.cas_now(&family, &scope, Some(expected.as_str()), replacement_a);
    let replacement_b = build_record(&family, &scope, "access-b", Some("refresh-b"));
    let outcome_b = store.cas_now(&family, &scope, Some(expected.as_str()), replacement_b);

    let successes = [outcome_a, outcome_b]
        .iter()
        .filter(|outcome| matches!(outcome, CompareAndSwapOutcome::Updated))
        .count();

    assert_eq!(successes, 1, "only one CAS should succeed");

    let final_record = store
        .fetch_now(&family, &scope)
        .expect("Final record should remain present.");

    assert!(matches!(
        final_record.refresh_token.as_ref().map(|secret| secret.expose()),
        Some("refresh-a") | Some("refresh-b")
    ));
}

#[test]
fn cas_supports_records_without_refresh_tokens() {
    let mut store = MemoryStore::default();
    let family = make_family();
    let scope = make_scope();
    let record_without_refresh = build_record(&family, &scope, "access", None);

    store
        .save_now(record_without_refresh.clone())
        .expect("Saving record without a refresh token should succeed.");

    let replacement = build_record(&family, &scope, "access-updated", None);
    let outcome = store.cas_now(&family, &scope, None, replacement);

    assert_eq!(outcome, CompareAndSwapOutcome::Updated);
}

#[test]
fn revoke_marks_records() {
    let mut store = MemoryStore::default();
    let family = make_family();
    let scope = make_scope();
    let record = build_record(&family, &scope, "access", Some("refresh"));

    store
        .save_now(record.clone())
        .expect("Saving revocable record should succeed.");

    let instant = 1762776000 + 30;
    let revoked = store
        .revoke_now(&family, &scope, instant)
        .expect("Revocation should return the affected record.");

    assert_eq!(revoked.revoked_at, Some(instant));
    assert_eq!(revoked.status_at(instant), TokenStatus::Revoked);

    let fetched = store
        .fetch_now(&family, &scope)
        .expect("Revoked record should remain present for inspection.");

    assert_eq!(fetched.revoked_at, Some(instant));
}

#[test]
fn revoke_returns_none_for_missing_record() {
    let mut store = MemoryStore::default();
    let family = make_family();
    let scope = make_scope();
    let instant = 1762776000;
    let outcome = store.revoke_now(&family, &scope, instant);

    assert!(outcome.is_none());
}

#[test]
fn snapshot_export_rebuilds_same_mapping() {
    let mut store = MemoryStore::default();
    let family = make_family();
    let scope_a = make_scope();
    let scope_b = ScopeSet::new(vec!["offline_access".to_string()])
        .expect("Second scope fixture should be valid.");
    store
        .save_now(build_record(&family, &scope_a, "access-a", Some("refresh-a")))
        .expect("First record should save.");
    store
        .save_now(build_record(&family, &scope_b, "access-b", None))
        .expect("Second record should save.");

    let reopened = MemoryStore::from_entries(store.export_entries());

    let a = reopened
        .fetch_now(&family, &scope_a)
        .expect("The first record should survive the snapshot.");
    assert_eq!(a.access_token.expose(), "access-a");
    let b = reopened
        .fetch_now(&family, &scope_b)
        .expect("The second record should survive the snapshot.");
    assert_eq!(b.access_token.expose(), "access-b");
    assert!(b.refresh_token.is_none());
}

#[test]
fn store_key_uses_scope_fingerprint() {
    let tenant = TenantId::new("tenant-1").expect("Tenant fixture should be valid.");
    let principal = PrincipalId::new("principal-1").expect("Principal fixture should be valid.");
    let family = TokenFamily::new(tenant, principal);
    let scope_a = ScopeSet::new(vec!["profile".to_string(), "email".to_string()])
        .expect("First scope fixture should be valid.");
    let scope_b = ScopeSet::new(vec!["email".to_string(), "profile".to_string()])
        .expect("Second scope fixture should be valid.");
    let key_a = StoreKey::new(&family, &scope_a);
    let key_b = StoreKey::new(&family, &scope_b);

    assert_eq!(key_a.scope_fingerprint, key_b.scope_fingerprint);
    assert_eq!(key_a.family, key_b.family);
    assert_eq!(key_a, key_b);
}
