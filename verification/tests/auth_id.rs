use std::collections::HashMap;

use oauth2_broker::auth::id::{PrincipalId, ProviderId, TenantId};

#[test]
fn identifiers_trim_and_validate() {
    assert!(
        TenantId::new(" tenant-123").is_err(),
        "Leading whitespace must be rejected."
    );
    assert!(
        TenantId::new("tenant-123 ").is_err(),
        "Trailing whitespace must be rejected."
    );

    let tenant = TenantId::new("tenant-123").expect("Tenant fixture should be considered valid.");

    assert_eq!(tenant.as_str(), "tenant-123");
    assert!(PrincipalId::new("").is_err());
    assert!(ProviderId::new("with space").is_err());
}

#[test]
fn unicode_whitespace_and_length_limits() {
    let nbsp = format!("tenant{}id", '\u{00A0}');

    assert!(TenantId::new(&nbsp).is_err());

    let exact = "a".repeat(128);

    TenantId::new(&exact).expect("Exact length should succeed.");

    let too_long = "a".repeat(129);

    assert!(TenantId::new(&too_long).is_err());
}

#[test]
fn borrow_supports_fast_lookup() {
    let mut map: HashMap<TenantId, u8> = HashMap::new();
    map.insert(
        TenantId::new("tenant-123").expect("Tenant used for lookup should be valid."),
        7_u8,
    );

    let probe = TenantId::new("tenant-123").expect("Tenant used for lookup should be valid.");
    assert_eq!(map.get(&probe), Some(&7));
}
