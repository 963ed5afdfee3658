use inframint::entitlement::Entitlement;
use inframint::error::{BlockchainError, ValidatorError};

fn sample() -> Entitlement {
    Entitlement {
        id: "test-entitlement-1".to_string(),
        service_id: "service-1".to_string(),
        buyer: "0x2c7536E3605D9C16a7a3D7b1898e529396a65c23".to_string(),
        tier_id: 2,
        quota_requests: 1000,
        quota_used: 0,
        purchased_at: 1_000,
        expires_at: 5_000,
        active: true,
    }
}

#[test]
fn entitlement_is_usable_while_active_and_before_expiry() {
    let e = sample();
    assert!(e.is_usable(0));
    assert!(e.is_usable(4_999));
    assert!(!e.is_usable(5_000));
    assert!(!e.is_usable(5_001));
    assert!(!e.is_usable(u64::MAX));
}

#[test]
fn entitlement_switched_off_is_never_usable() {
    let mut e = sample();
    e.active = false;
    assert!(!e.is_usable(0));
    assert!(!e.is_usable(4_999));
}

#[test]
fn entitlement_remaining_after_counts_from_what_was_used() {
    let mut e = sample();
    assert_eq!(e.remaining_after(10), Some(990));
    assert_eq!(e.remaining_after(0), Some(1000));
    assert_eq!(e.remaining_after(1000), Some(0));
    assert_eq!(e.remaining_after(1001), None);
    assert_eq!(e.remaining_after(2000), None);
    e.quota_used = 400;
    assert_eq!(e.remaining_after(600), Some(0));
    assert_eq!(e.remaining_after(601), None);
}

#[test]
fn entitlement_remaining_after_survives_amounts_near_the_top() {
    let mut e = sample();
    e.quota_used = 5;
    assert_eq!(e.remaining_after(u64::MAX), None);
    e.quota_requests = u64::MAX;
    assert_eq!(e.remaining_after(u64::MAX - 5), Some(0));
    assert_eq!(e.remaining_after(u64::MAX - 4), None);
    // a record that breaks the ledger's invariant leaves nothing
    e.quota_requests = 3;
    assert_eq!(e.remaining_after(0), None);
}

#[test]
fn entitlement_consume_counts_the_use() {
    let mut e = sample();
    e.consume(10);
    assert_eq!(e.quota_used, 10);
    assert!(e.active);
    e.consume(989);
    assert_eq!(e.quota_used, 999);
    assert!(e.active);
    e.consume(1);
    assert_eq!(e.quota_used, 1000);
    assert!(!e.active);
}

#[test]
fn entitlement_consume_of_nothing_from_an_exhausted_quota_switches_it_off() {
    let mut e = sample();
    e.quota_used = 1000;
    e.consume(0);
    assert_eq!(e.quota_used, 1000);
    assert!(!e.active);
}

#[test]
fn entitlement_duplicate_is_the_same_record() {
    let e = sample();
    let copy = e.duplicate();
    assert_eq!(copy.id, e.id);
    assert_eq!(copy.service_id, e.service_id);
    assert_eq!(copy.buyer, e.buyer);
    assert_eq!(copy.tier_id, 2);
    assert_eq!(copy.quota_requests, 1000);
    assert_eq!(copy.quota_used, 0);
    assert_eq!(copy.purchased_at, 1_000);
    assert_eq!(copy.expires_at, 5_000);
    assert!(copy.active);
}

#[test]
fn validator_error_messages() {
    assert_eq!(ValidatorError::InvalidEntitlement.message(), "Invalid entitlement");
    assert_eq!(ValidatorError::QuotaExceeded.message(), "Quota exceeded");
    assert_eq!(ValidatorError::RateLimitExceeded.message(), "Rate limit exceeded");
    assert_eq!(
        ValidatorError::BlockchainError("down".to_string()).message(),
        "Blockchain error: down"
    );
    assert_eq!(ValidatorError::CacheError("gone".to_string()).message(), "Cache error: gone");
    assert_eq!(
        ValidatorError::ConfigError("bad".to_string()).message(),
        "Configuration error: bad"
    );
    assert_eq!(ValidatorError::RedisError("refused".to_string()).message(), "Redis error: refused");
    assert_eq!(
        ValidatorError::SignatureValidationFailed.message(),
        "Signature validation failed"
    );
    assert_eq!(ValidatorError::NetworkError("reset".to_string()).message(), "Network error: reset");
}

#[test]
fn blockchain_error_messages() {
    assert_eq!(
        BlockchainError::ProviderError("no url".to_string()).message(),
        "Provider error: no url"
    );
    assert_eq!(
        BlockchainError::ContractCallError("reverted".to_string()).message(),
        "Contract call failed: reverted"
    );
    assert_eq!(BlockchainError::InvalidResponseFormat.message(), "Invalid response format");
    assert_eq!(BlockchainError::EntitlementNotFound.message(), "Entitlement not found");
}

#[test]
fn validator_error_from_ledger_keeps_the_ledgers_words() {
    let error = ValidatorError::from_ledger(&BlockchainError::EntitlementNotFound);
    assert_eq!(error.message(), "Blockchain error: Entitlement not found");
    let error =
        ValidatorError::from_ledger(&BlockchainError::ContractCallError("reverted".to_string()));
    assert!(matches!(&error, ValidatorError::BlockchainError(text) if text == "Contract call failed: reverted"));
}
