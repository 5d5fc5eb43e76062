//! End-to-end scenarios over the flow decision functions and the in-memory
//! store, with the transport replaced by literal response data.

use oauth2_broker::auth::id::{PrincipalId, ProviderId, TenantId};
use oauth2_broker::auth::scope::ScopeSet;
use oauth2_broker::auth::token::family::TokenFamily;
use oauth2_broker::auth::token::record::TokenRecord;
use oauth2_broker::error::{ConfigError, Error, TransientError, TransportError};
use oauth2_broker::flows::client_credentials::{
    build_client_credentials_form, extract_extra_params,
};
use oauth2_broker::flows::common::{ensure_grant_supported, evaluate_cached, CachedTokenRequest};
use oauth2_broker::flows::refresh::{
    carry_refresh_secret, refresh_preflight, resolve_cas_outcome, CasResolution, RefreshPreflight,
};
use oauth2_broker::http::{parse_retry_after_seconds, ResponseMetadata, ResponseMetadataSlot};
use oauth2_broker::oauth::{
    compose_parse_error, map_refresh_token_response, map_server_response_error,
    map_standard_token_response, map_transport_failure, map_unknown_transport_error,
    TokenResponseData,
};
use oauth2_broker::provider::descriptor::grant::GrantType;
use oauth2_broker::provider::descriptor::ProviderDescriptor;
use oauth2_broker::store::{CompareAndSwapOutcome, MemoryStore};

fn scope_of(values: &[&str]) -> ScopeSet {
    ScopeSet::new(values.iter().map(|s| s.to_string()).collect())
        .expect("Scope fixture should be valid.")
}

fn family_for(tenant: &str, principal: &str, provider: &str) -> TokenFamily {
    let tenant = TenantId::new(tenant).expect("Tenant fixture should be valid.");
    let principal = PrincipalId::new(principal).expect("Principal fixture should be valid.");
    let mut family = TokenFamily::new(tenant, principal);
    family.provider = Some(ProviderId::new(provider).expect("Provider fixture should be valid."));
    family
}

fn descriptor_with(grant: GrantType) -> ProviderDescriptor {
    let provider_id = ProviderId::new("acme").expect("Provider identifier should be valid.");
    ProviderDescriptor::builder(provider_id)
        .authorization_endpoint("https://example.com/auth".to_string())
        .token_endpoint("https://example.com/token".to_string())
        .support_grant(grant)
        .build()
        .expect("Descriptor should build.")
}

fn response(access: &str, refresh: Option<&str>, expires_in: Option<u64>) -> TokenResponseData {
    TokenResponseData {
        access_token: access.to_string(),
        refresh_token: refresh.map(|s| s.to_string()),
        expires_in,
        scopes: None,
    }
}

#[test]
fn client_credentials_cache_hit_after_one_exchange() {
    let descriptor = descriptor_with(GrantType::ClientCredentials);
    let mut store = MemoryStore::new();
    let scope = scope_of(&["api.r", "api.w"]);
    let family = family_for("tenant-a", "princ-a", "acme");
    let now = 1_700_000_000;
    let mut transport_calls = 0;

    // First call: the cache misses and the transport is asked once.
    ensure_grant_supported(&descriptor, GrantType::ClientCredentials)
        .expect("The grant is enabled.");
    let request = CachedTokenRequest::new(
        family.tenant.clone(),
        family.principal.clone(),
        scope.clone(),
    );
    let fetched = store.fetch_now(&family, &scope);
    assert!(evaluate_cached(&request, fetched, now).is_none());

    let form = build_client_credentials_form(&scope, descriptor.quirks.scope_delimiter);
    assert_eq!(form[0].0, "grant_type");
    assert_eq!(form[0].1, "client_credentials");
    assert_eq!(form[1].0, "scope");
    assert_eq!(form[1].1, "api.r api.w");
    let extras = extract_extra_params(form);
    assert!(extras.is_empty());

    transport_calls += 1;
    let record = map_standard_token_response(
        family.clone(),
        &scope,
        response("T1", None, Some(1800)),
        GrantType::ClientCredentials,
        now,
    )
    .expect("Normalization should succeed.");
    assert_eq!(record.access_token.expose(), "T1");
    store.save_now(record).expect("The record should save.");

    // Second call: the cached record is fresh and returned without another
    // transport call.
    let request = CachedTokenRequest::new(
        family.tenant.clone(),
        family.principal.clone(),
        scope.clone(),
    );
    let fetched = store.fetch_now(&family, &scope);
    let hit = evaluate_cached(&request, fetched, now).expect("The cache should hit.");
    assert_eq!(hit.access_token.expose(), "T1");
    assert_eq!(transport_calls, 1);
}

#[test]
fn refresh_rotation_updates_store() {
    let mut store = MemoryStore::new();
    let scope = scope_of(&["openid", "profile"]);
    let family = family_for("tenant-refresh", "principal-refresh", "acme");
    let now = 1_700_000_000;

    let seeded = TokenRecord::builder(family.clone(), scope.clone())
        .access_token("A0")
        .refresh_token("R0")
        .issued_at(now - 3600)
        .expires_at(now - 1)
        .build()
        .expect("Seed record should build.");
    store.save_now(seeded).expect("Seeding should succeed.");

    let request = CachedTokenRequest::new(
        family.tenant.clone(),
        family.principal.clone(),
        scope.clone(),
    );
    let fetched = store.fetch_now(&family, &scope);
    let expected = match refresh_preflight(&request, fetched, now) {
        RefreshPreflight::Refresh { expected_refresh } => expected_refresh,
        _ => panic!("An expired record must refresh."),
    };
    assert_eq!(expected, "R0");

    let (facade_record, rotated) = map_refresh_token_response(
        family.clone(),
        &scope,
        response("A1", Some("R1"), Some(3600)),
        GrantType::RefreshToken,
        now,
    )
    .expect("Normalization should succeed.");
    let updated = carry_refresh_secret(facade_record, &rotated, &expected);

    let outcome = store.cas_now(&family, &scope, Some(expected.as_str()), updated.clone());
    assert_eq!(outcome, CompareAndSwapOutcome::Updated);
    match resolve_cas_outcome(outcome, None) {
        CasResolution::UseUpdated { save_required } => assert!(!save_required),
        CasResolution::UseExisting(_) => panic!("An updated swap needs no re-read."),
    }

    let stored = store.fetch_now(&family, &scope).expect("The record should remain.");
    assert_eq!(stored.access_token.expose(), "A1");
    assert_eq!(
        stored.refresh_token.as_ref().map(|s| s.expose()),
        Some("R1")
    );
}

#[test]
fn refresh_without_rotation_preserves_secret() {
    let mut store = MemoryStore::new();
    let scope = scope_of(&["openid"]);
    let family = family_for("tenant-keep", "principal-keep", "acme");
    let now = 1_700_000_000;

    let seeded = TokenRecord::builder(family.clone(), scope.clone())
        .access_token("A0")
        .refresh_token("R0")
        .issued_at(now - 3600)
        .expires_at(now - 1)
        .build()
        .expect("Seed record should build.");
    store.save_now(seeded).expect("Seeding should succeed.");

    let request = CachedTokenRequest::new(
        family.tenant.clone(),
        family.principal.clone(),
        scope.clone(),
    );
    let fetched = store.fetch_now(&family, &scope);
    let expected = match refresh_preflight(&request, fetched, now) {
        RefreshPreflight::Refresh { expected_refresh } => expected_refresh,
        _ => panic!("An expired record must refresh."),
    };

    let (facade_record, rotated) = map_refresh_token_response(
        family.clone(),
        &scope,
        response("A2", None, Some(3600)),
        GrantType::RefreshToken,
        now,
    )
    .expect("Normalization should succeed.");
    assert!(rotated.is_none());
    let updated = carry_refresh_secret(facade_record, &rotated, &expected);

    assert_eq!(updated.access_token.expose(), "A2");
    assert_eq!(
        updated.refresh_token.as_ref().map(|s| s.expose()),
        Some("R0"),
        "The old refresh secret is carried over."
    );
}

#[test]
fn invalid_grant_on_refresh_revokes_record() {
    let mut store = MemoryStore::new();
    let scope = scope_of(&["repo"]);
    let family = family_for("tenant-revoked", "principal-revoked", "acme");
    let now = 1_700_000_000;

    let seeded = TokenRecord::builder(family.clone(), scope.clone())
        .access_token("access-revoke")
        .refresh_token("R0")
        .issued_at(now - 3600)
        .expires_at(now - 1)
        .build()
        .expect("Seed record should build.");
    store.save_now(seeded).expect("Seeding should succeed.");

    // The transport answers HTTP 400 with {"error":"invalid_grant"}.
    let meta = ResponseMetadata {
        status: Some(400),
        retry_after: None,
    };
    let err = map_server_response_error(
        GrantType::RefreshToken,
        "invalid_grant".to_string(),
        None,
        Some(&meta),
    );
    assert!(matches!(err, Error::InvalidGrant { .. }));
    assert!(err.triggers_revocation());

    let revoked = store
        .revoke_now(&family, &scope, now)
        .expect("The seeded record should be revocable.");
    assert_eq!(revoked.revoked_at, Some(now));

    let stored = store.fetch_now(&family, &scope).expect("The record should remain.");
    assert_eq!(stored.revoked_at, Some(now));
}

#[test]
fn refresh_follower_reuses_winner() {
    let mut store = MemoryStore::new();
    let scope = scope_of(&["email"]);
    let family = family_for("tenant-singleflight", "principal-singleflight", "acme");
    let now = 1_700_000_000;

    let seeded = TokenRecord::builder(family.clone(), scope.clone())
        .access_token("access-soon-expiring")
        .refresh_token("refresh-soon-expiring")
        .issued_at(now - 3600)
        .expires_at(now - 1)
        .build()
        .expect("Seed record should build.");
    store.save_now(seeded).expect("Seeding should succeed.");

    // The winner refreshes and installs a fresh record.
    let request = CachedTokenRequest::new(
        family.tenant.clone(),
        family.principal.clone(),
        scope.clone(),
    );
    let expected = match refresh_preflight(&request, store.fetch_now(&family, &scope), now) {
        RefreshPreflight::Refresh { expected_refresh } => expected_refresh,
        _ => panic!("The stale record must refresh."),
    };
    let (rec, rotated) = map_refresh_token_response(
        family.clone(),
        &scope,
        response("AS", Some("RS"), Some(3600)),
        GrantType::RefreshToken,
        now,
    )
    .expect("Normalization should succeed.");
    let updated = carry_refresh_secret(rec, &rotated, &expected);
    let outcome = store.cas_now(&family, &scope, Some(expected.as_str()), updated);
    assert_eq!(outcome, CompareAndSwapOutcome::Updated);

    // The follower, running after the winner under the same guard, sees the
    // fresh record and returns it without another provider call.
    let follower = CachedTokenRequest::new(
        family.tenant.clone(),
        family.principal.clone(),
        scope.clone(),
    );
    match refresh_preflight(&follower, store.fetch_now(&family, &scope), now) {
        RefreshPreflight::CacheHit(hit) => assert_eq!(hit.access_token.expose(), "AS"),
        _ => panic!("The follower should reuse the winner's record."),
    }
}

#[test]
fn cas_mismatch_returns_concurrent_winner() {
    let mut store = MemoryStore::new();
    let scope = scope_of(&["email"]);
    let family = family_for("tenant-mismatch", "principal-mismatch", "acme");
    let now = 1_700_000_000;

    let winner = TokenRecord::builder(family.clone(), scope.clone())
        .access_token("winner")
        .refresh_token("RW")
        .issued_at(now)
        .expires_at(now + 3600)
        .build()
        .expect("Winner record should build.");
    store.save_now(winner).expect("Seeding should succeed.");

    // A swap expecting the outdated secret reports a mismatch; the re-read
    // returns the winner's record.
    let loser = TokenRecord::builder(family.clone(), scope.clone())
        .access_token("loser")
        .refresh_token("RL")
        .issued_at(now)
        .expires_at(now + 3600)
        .build()
        .expect("Loser record should build.");
    let outcome = store.cas_now(&family, &scope, Some("R-old"), loser);
    assert_eq!(outcome, CompareAndSwapOutcome::RefreshMismatch);

    let refetched = store.fetch_now(&family, &scope);
    match resolve_cas_outcome(outcome, refetched) {
        CasResolution::UseExisting(rec) => assert_eq!(rec.access_token.expose(), "winner"),
        CasResolution::UseUpdated { .. } => panic!("The winner's record must be returned."),
    }
}

#[test]
fn missing_record_and_missing_refresh_fail_preflight() {
    let scope = scope_of(&["email"]);
    let family = family_for("tenant-none", "principal-none", "acme");
    let now = 1_700_000_000;
    let request = CachedTokenRequest::new(
        family.tenant.clone(),
        family.principal.clone(),
        scope.clone(),
    );

    assert!(matches!(
        refresh_preflight(&request, None, now),
        RefreshPreflight::MissingRecord
    ));

    let no_refresh = TokenRecord::builder(family.clone(), scope.clone())
        .access_token("A0")
        .issued_at(now - 3600)
        .expires_at(now - 1)
        .build()
        .expect("Record without refresh should build.");
    assert!(matches!(
        refresh_preflight(&request, Some(no_refresh), now),
        RefreshPreflight::MissingRefresh
    ));
}

#[test]
fn throttling_metadata_propagates() {
    let mut slot = ResponseMetadataSlot::new();
    assert!(slot.take().is_none(), "A fresh slot is empty.");

    let retry = parse_retry_after_seconds("30").expect("Thirty seconds should parse.");
    assert_eq!(retry, 30);
    assert!(parse_retry_after_seconds("soon").is_none());
    assert!(parse_retry_after_seconds("").is_none());

    slot.store(ResponseMetadata {
        status: Some(429),
        retry_after: Some(retry as i64),
    });
    let meta = slot.take().expect("Stored metadata should be returned once.");
    assert!(slot.take().is_none(), "The slot hands its value out once.");

    let err = map_unknown_transport_error(Some(&meta));
    match err {
        Error::Transient(TransientError::TokenEndpoint {
            status,
            retry_after,
            ..
        }) => {
            assert_eq!(status, Some(429));
            assert_eq!(retry_after, Some(30));
        }
        other => panic!("A throttled call maps to a transient error, got {:?}.", other),
    }
}

#[test]
fn normalization_rejects_bad_expiry_and_changed_scopes() {
    let scope = scope_of(&["email"]);
    let family = family_for("tenant-a", "princ-a", "acme");
    let now = 1_700_000_000;

    let err = match map_standard_token_response(
        family.clone(),
        &scope,
        response("T", None, None),
        GrantType::ClientCredentials,
        now,
    ) {
        Err(e) => e,
        Ok(_) => panic!("A missing expires_in fails."),
    };
    assert_eq!(err, Error::Config(ConfigError::MissingExpiresIn));

    let err = match map_standard_token_response(
        family.clone(),
        &scope,
        response("T", None, Some(0)),
        GrantType::ClientCredentials,
        now,
    ) {
        Err(e) => e,
        Ok(_) => panic!("A zero expires_in fails."),
    };
    assert_eq!(err, Error::Config(ConfigError::NonPositiveExpiresIn));

    let err = match map_standard_token_response(
        family.clone(),
        &scope,
        response("T", None, Some(u64::MAX)),
        GrantType::ClientCredentials,
        now,
    ) {
        Err(e) => e,
        Ok(_) => panic!("An unrepresentable expires_in fails."),
    };
    assert_eq!(err, Error::Config(ConfigError::ExpiresInOutOfRange));

    let mut changed = response("T", None, Some(900));
    changed.scopes = Some(vec!["email".to_string(), "extra".to_string()]);
    let err = match map_standard_token_response(
        family.clone(),
        &scope,
        changed,
        GrantType::ClientCredentials,
        now,
    ) {
        Err(e) => e,
        Ok(_) => panic!("Broadened scopes fail."),
    };
    assert_eq!(
        err,
        Error::Config(ConfigError::ScopesChanged {
            grant: GrantType::ClientCredentials
        })
    );

    let mut same = response("T", None, Some(900));
    same.scopes = Some(vec!["email".to_string()]);
    assert!(
        map_standard_token_response(family, &scope, same, GrantType::ClientCredentials, now)
            .is_ok(),
        "Matching scopes succeed."
    );
}

#[test]
fn transport_failures_map_by_nature() {
    let builder_err = map_transport_failure(true, false, "bad client".to_string(), None, None);
    assert_eq!(
        builder_err,
        Error::Config(ConfigError::HttpClientBuild {
            message: "bad client".to_string()
        })
    );

    let meta = ResponseMetadata {
        status: Some(503),
        retry_after: Some(5),
    };
    let timeout_err = map_transport_failure(false, true, "slow".to_string(), None, Some(&meta));
    match timeout_err {
        Error::Transient(TransientError::TokenEndpoint {
            message,
            status,
            retry_after,
        }) => {
            assert_eq!(message, "Request timed out while calling the token endpoint.");
            assert_eq!(status, Some(503));
            assert_eq!(retry_after, Some(5));
        }
        other => panic!("A timeout maps to a transient error, got {:?}.", other),
    }

    let network_err = map_transport_failure(false, false, "dns down".to_string(), None, None);
    assert_eq!(
        network_err,
        Error::Transport(TransportError::Network {
            message: "dns down".to_string()
        })
    );
}

#[test]
fn parse_failures_and_revocation_triggers() {
    let meta = ResponseMetadata {
        status: Some(502),
        retry_after: None,
    };
    let err = compose_parse_error("unexpected token".to_string(), Some(&meta));
    assert_eq!(
        err,
        Error::Transient(TransientError::TokenResponseParse {
            message: "unexpected token".to_string(),
            status: Some(502),
        })
    );
    assert!(!err.triggers_revocation());

    assert!(Error::Revoked.triggers_revocation());
    assert!(Error::InvalidGrant {
        reason: "dead".to_string()
    }
    .triggers_revocation());
    assert!(!Error::InvalidClient {
        reason: "bad".to_string()
    }
    .triggers_revocation());
}

#[test]
fn server_error_message_prefers_description() {
    let err = map_server_response_error(
        GrantType::ClientCredentials,
        "invalid_client".to_string(),
        Some("client gone".to_string()),
        None,
    );
    assert_eq!(
        err,
        Error::InvalidClient {
            reason: "Token endpoint returned an OAuth error: client gone.".to_string()
        }
    );
}

#[test]
fn normalization_rejects_invalid_reported_scopes() {
    let scope = scope_of(&["email"]);
    let family = family_for("tenant-a", "princ-a", "acme");
    let now = 1_700_000_000;

    let mut bad = response("T", None, Some(900));
    bad.scopes = Some(vec!["bad scope".to_string()]);
    let err = match map_standard_token_response(
        family,
        &scope,
        bad,
        GrantType::ClientCredentials,
        now,
    ) {
        Err(e) => e,
        Ok(_) => panic!("A malformed reported scope fails."),
    };
    assert!(matches!(err, Error::Config(ConfigError::InvalidScope(_))));
}
