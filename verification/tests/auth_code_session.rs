use oauth2_broker::auth::id::{PrincipalId, ProviderId, TenantId};
use oauth2_broker::auth::scope::ScopeSet;
use oauth2_broker::error::Error;
use oauth2_broker::flows::auth_code_pkce::session::{
    build_session, compute_pkce_challenge, AuthorizationSession, PkceCodeChallengeMethod,
    PkcePair,
};
use oauth2_broker::provider::descriptor::grant::GrantType;
use oauth2_broker::provider::descriptor::ProviderDescriptor;

#[test]
fn state_validation_errors_on_mismatch() {
    let session = AuthorizationSession::new(
        TenantId::new("tenant").expect("Tenant fixture should be valid for PKCE tests."),
        PrincipalId::new("principal").expect("Principal fixture should be valid for PKCE tests."),
        ScopeSet::new(Vec::new()).expect("Failed to build empty scope set for test."),
        "https://example.com/cb".to_string(),
        "https://example.com/auth?state=abc".to_string(),
        "expected".to_string(),
        PkcePair::generate(),
    );

    assert!(session.validate_state("expected").is_ok());

    let err = session
        .validate_state("other")
        .expect_err("State mismatch should fail.");

    assert!(matches!(err, Error::InvalidGrant { .. }));
}

#[test]
fn pkce_challenge_matches_known_digest() {
    assert_eq!(
        compute_pkce_challenge("test"),
        "n4bQgYhMfWWaL-qgxVrQFaO_TxsrC4Is0V1sFbDwCgg"
    );
    assert_eq!(PkceCodeChallengeMethod::S256.as_str(), "S256");
}

#[test]
fn generated_pairs_are_coherent() {
    let pair = PkcePair::generate();

    assert_eq!(pair.verifier.len(), 64);
    assert!(pair.verifier.chars().all(|c| c.is_ascii_alphanumeric()));
    assert_eq!(pair.challenge, compute_pkce_challenge(&pair.verifier));

    let other = PkcePair::generate();
    assert_ne!(pair.verifier, other.verifier, "Verifiers should not repeat.");
}

#[test]
fn session_builds_ordered_authorize_url() {
    let provider_id = ProviderId::new("acme").expect("Provider identifier should be valid.");
    let descriptor = ProviderDescriptor::builder(provider_id)
        .authorization_endpoint("https://example.com/auth".to_string())
        .token_endpoint("https://example.com/token".to_string())
        .support_grant(GrantType::AuthorizationCode)
        .build()
        .expect("Descriptor should build.");
    let tenant = TenantId::new("tenant-123").expect("Tenant fixture should be valid.");
    let principal = PrincipalId::new("principal-456").expect("Principal fixture should be valid.");
    let scope = ScopeSet::new(vec!["openid".to_string(), "profile".to_string()])
        .expect("Scope fixture should be valid.");

    let session = build_session(
        &descriptor,
        "client-id",
        tenant,
        principal,
        scope,
        "https://app.example.com/callback".to_string(),
    );

    assert_eq!(session.state.len(), 32);
    assert!(session.state.chars().all(|c| c.is_ascii_alphanumeric()));

    let expected_prefix = format!(
        "https://example.com/auth?response_type=code&client_id=client-id&redirect_uri=https%3A%2F%2Fapp.example.com%2Fcallback&scope=openid+profile&state={}&code_challenge={}&code_challenge_method=S256",
        session.state,
        session.code_challenge(),
    );
    assert_eq!(session.authorize_url, expected_prefix);

    // A base URL that already carries a query gets `&` instead of `?`.
    let provider_id = ProviderId::new("acme2").expect("Provider identifier should be valid.");
    let descriptor = ProviderDescriptor::builder(provider_id)
        .authorization_endpoint("https://example.com/auth?tenant=1".to_string())
        .token_endpoint("https://example.com/token".to_string())
        .support_grant(GrantType::AuthorizationCode)
        .build()
        .expect("Descriptor should build.");
    let tenant = TenantId::new("tenant-123").expect("Tenant fixture should be valid.");
    let principal = PrincipalId::new("principal-456").expect("Principal fixture should be valid.");
    let scope = ScopeSet::new(Vec::new()).expect("Empty scope should build.");
    let session = build_session(
        &descriptor,
        "client-id",
        tenant,
        principal,
        scope,
        "https://app.example.com/callback".to_string(),
    );
    assert!(session
        .authorize_url
        .starts_with("https://example.com/auth?tenant=1&response_type=code&"));
    assert!(
        !session.authorize_url.contains("scope="),
        "An empty scope set adds no scope parameter."
    );
}
