use filehost::error::Failure;
use filehost::key::{validate, validate_at, ApiKey, KeyLookup};

fn row(secret: &str, expires_at: i64) -> ApiKey {
    ApiKey { id: 7, key_owner: "alice".to_string(), apikey: secret.to_string(), expires_at }
}

#[test]
fn unknown_key_is_unauthenticated() {
    let r = validate_at("secret", KeyLookup::Absent, 1_000);
    assert!(matches!(r, Err(Failure::Unauthenticated)));
}

#[test]
fn key_expiring_now_is_unauthenticated() {
    let r = validate_at("secret", KeyLookup::Found(row("secret", 1_000)), 1_000);
    assert!(matches!(r, Err(Failure::Unauthenticated)));
}

#[test]
fn key_expired_before_is_unauthenticated() {
    let r = validate_at("secret", KeyLookup::Found(row("secret", 999)), 1_000);
    assert!(matches!(r, Err(Failure::Unauthenticated)));
}

#[test]
fn unexpired_key_is_accepted_as_identity() {
    let r = validate_at("secret", KeyLookup::Found(row("secret", 1_001)), 1_000);
    match r {
        Ok(identity) => assert_eq!(identity.0, "secret"),
        Err(e) => panic!("unexpected {:?}", e),
    }
}

#[test]
fn row_of_another_secret_is_unauthenticated() {
    let r = validate_at("secret", KeyLookup::Found(row("other", 2_000)), 1_000);
    assert!(matches!(r, Err(Failure::Unauthenticated)));
}

#[test]
fn empty_key_is_unauthenticated() {
    let r = validate_at("", KeyLookup::Found(row("", 2_000)), 1_000);
    assert!(matches!(r, Err(Failure::Unauthenticated)));
}

#[test]
fn unavailable_table_is_internal_error() {
    let r = validate_at("secret", KeyLookup::Unavailable("pool closed".to_string()), 1_000);
    match r {
        Err(Failure::InternalError(text)) => assert_eq!(text, "pool closed"),
        other => panic!("unexpected {:?}", other),
    }
}

#[test]
fn is_valid_at_compares_secret_and_time() {
    let k = row("secret", 50);
    assert!(k.is_valid_at("secret", 49));
    assert!(!k.is_valid_at("secret", 50));
    assert!(!k.is_valid_at("Secret", 49));
}

#[test]
fn check_key_keeps_the_vouching_row() {
    let kept = ApiKey::check_key("secret", Some(row("secret", 50)), 10);
    match kept {
        Some(k) => {
            assert_eq!(k.id, 7);
            assert_eq!(k.key_owner, "alice");
            assert_eq!(k.apikey, "secret");
            assert_eq!(k.expires_at, 50);
        }
        None => panic!("row was dropped"),
    }
    assert!(ApiKey::check_key("secret", Some(row("secret", 50)), 50).is_none());
    assert!(ApiKey::check_key("secret", None, 10).is_none());
}

#[test]
fn get_key_reads_the_clock() {
    assert!(ApiKey::get_key("secret", Some(row("secret", i64::MAX))).is_some());
    assert!(ApiKey::get_key("secret", Some(row("secret", 0))).is_none());
    assert!(ApiKey::get_key("secret", None).is_none());
}

#[test]
fn validate_reads_the_clock() {
    assert!(validate("secret", KeyLookup::Found(row("secret", i64::MAX))).is_ok());
    assert!(matches!(
        validate("secret", KeyLookup::Found(row("secret", 0))),
        Err(Failure::Unauthenticated)
    ));
    assert!(matches!(validate("secret", KeyLookup::Absent), Err(Failure::Unauthenticated)));
}
