use std::str::FromStr;

use oauth2_broker::auth::scope::{ScopeSet, ScopeValidationError};

fn set_of(values: &[&str]) -> Result<ScopeSet, ScopeValidationError> {
    ScopeSet::new(values.iter().map(|s| s.to_string()).collect())
}

#[test]
fn scopes_normalize_and_hash_stably() {
    let lhs = set_of(&["profile", "email", "email"]).expect("Left-hand scope set should be valid.");
    let rhs = set_of(&["email", "profile"]).expect("Right-hand scope set should be valid.");

    assert_eq!(lhs, rhs);
    assert_eq!(lhs.normalized(), "email profile");
    assert_eq!(lhs.fingerprint(), rhs.fingerprint());
}

#[test]
fn scopes_reject_whitespace_padding() {
    let err = set_of(&[" profile "]).expect_err("Padded scopes must be rejected.");

    assert!(matches!(err, ScopeValidationError::ContainsWhitespace { .. }));
    assert!(
        ScopeSet::from_str("").is_ok(),
        "Empty string represents an empty scope set."
    );
    assert!(
        ScopeSet::from_str("   ").is_err(),
        "Whitespace-only input must be rejected."
    );
}

#[test]
fn invalid_scopes_error() {
    assert!(set_of(&[""]).is_err());
    assert!(set_of(&["contains space"]).is_err());
}

#[test]
fn iter_and_contains_work() {
    let scopes = ScopeSet::from_str("email profile").expect("Scope string should parse successfully.");

    assert!(scopes.contains("email"));
    assert_eq!(
        scopes.iter().iter().map(String::as_str).collect::<Vec<_>>(),
        vec!["email", "profile"]
    );

    let fp1 = scopes.fingerprint();
    let fp2 = scopes.fingerprint();

    assert_eq!(fp1, fp2, "Fingerprint should be cached and stable.");
}

#[test]
fn try_from_slice_round_trips() {
    let raw = vec!["read".to_string(), "write".to_string()];
    let set = ScopeSet::try_from(raw.as_slice()).expect("Slice-based scope set should build successfully.");

    assert_eq!(set.len(), 2);

    let expected = vec!["read".to_string(), "write".to_string()];

    assert_eq!(set.as_slice(), expected.as_slice());
}

#[test]
fn fingerprint_matches_known_digest() {
    let scopes = set_of(&["profile", "email"]).expect("Scope fixture should be valid.");

    assert_eq!(scopes.normalized(), "email profile");
    assert_eq!(
        scopes.fingerprint(),
        "DjS/74B2AbTwcnOE/klig6rd8tDj/qJyq9W2RYMNA/g"
    );

    let empty = ScopeSet::new(Vec::new()).expect("Empty scope set should build.");
    assert_eq!(
        empty.fingerprint(),
        "47DEQpj8HBSa+/TImW+5JCeuQeRkm5NMpJWZG3hSuFU"
    );
}
