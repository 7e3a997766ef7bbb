use sts_credentials_provider::expiry::is_fresh;
use sts_credentials_provider::{Credentials, Timestamp};

const T: i64 = 1_700_000_000;

fn expiring_at(expiry: Option<Timestamp>) -> Credentials {
    Credentials::new(
        String::from("AKIDEXAMPLE"),
        String::from("secret"),
        Some(String::from("token")),
        expiry,
        "test",
    )
}

#[test]
fn expiry_beyond_margin_is_fresh() {
    let c = expiring_at(Some(Timestamp::from_secs(T + 600)));
    assert!(is_fresh(Some(&c), Timestamp::from_secs(T), 300));
}

#[test]
fn expiry_within_margin_is_stale() {
    let c = expiring_at(Some(Timestamp::from_secs(T + 200)));
    assert!(!is_fresh(Some(&c), Timestamp::from_secs(T), 300));
}

#[test]
fn expiry_exactly_at_margin_is_stale() {
    let c = expiring_at(Some(Timestamp::from_secs(T + 300)));
    assert!(!is_fresh(Some(&c), Timestamp::from_secs(T), 300));
}

#[test]
fn one_nanosecond_past_margin_is_fresh() {
    let c = expiring_at(Timestamp::from_secs_and_nanos(T + 300, 1));
    assert!(is_fresh(Some(&c), Timestamp::from_secs(T), 300));
}

#[test]
fn one_nanosecond_short_of_margin_is_stale() {
    let c = expiring_at(Some(Timestamp::from_secs(T + 300)));
    let now = Timestamp::from_secs_and_nanos(T, 1).unwrap();
    assert!(!is_fresh(Some(&c), now, 300));
    let just_before = Timestamp::from_secs_and_nanos(T - 1, 999_999_999).unwrap();
    assert!(is_fresh(Some(&c), just_before, 300));
}

#[test]
fn already_expired_is_stale() {
    let c = expiring_at(Some(Timestamp::from_secs(T - 1)));
    assert!(!is_fresh(Some(&c), Timestamp::from_secs(T), 0));
}

#[test]
fn zero_margin_compares_expiry_with_now() {
    let c = expiring_at(Some(Timestamp::from_secs(T)));
    assert!(!is_fresh(Some(&c), Timestamp::from_secs(T), 0));
    assert!(is_fresh(Some(&c), Timestamp::from_secs(T - 1), 0));
}

#[test]
fn absent_credential_is_stale() {
    assert!(!is_fresh(None, Timestamp::from_secs(T), 300));
    assert!(!is_fresh(None, Timestamp::from_secs(i64::MIN), 0));
}

#[test]
fn credential_without_expiry_is_stale() {
    let c = expiring_at(None);
    assert!(!is_fresh(Some(&c), Timestamp::from_secs(T), 300));
    assert!(!is_fresh(Some(&c), Timestamp::from_secs(i64::MIN), 0));
}

#[test]
fn largest_margin_does_not_overflow() {
    let c = expiring_at(Some(Timestamp::from_secs(i64::MAX)));
    assert!(!is_fresh(Some(&c), Timestamp::from_secs(i64::MAX), u64::MAX));
    assert!(!is_fresh(Some(&c), Timestamp::from_secs(0), u64::MAX));
    // From the earliest time, a margin of u64::MAX seconds reaches exactly
    // the latest whole second, and one second less stays short of it.
    assert!(!is_fresh(Some(&c), Timestamp::from_secs(i64::MIN), u64::MAX));
    assert!(is_fresh(Some(&c), Timestamp::from_secs(i64::MIN), u64::MAX - 1));
    let later = expiring_at(Timestamp::from_secs_and_nanos(i64::MAX, 1));
    assert!(is_fresh(Some(&later), Timestamp::from_secs(i64::MIN), u64::MAX));
}
