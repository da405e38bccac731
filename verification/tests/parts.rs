use auth_service::claims::Claims;
use auth_service::config::{Config, ConfigError};
use auth_service::decimal::{format_decimal, parse_decimal};
use auth_service::error::Error;
use auth_service::token::{check_claims, claims_for, expiry_time, signing_outcome, verification_outcome};
use auth_service::response::{claims_text, response_text, token_text};
use mongodb::bson::Document;

#[test]
fn format_decimal_writes_shortest_text() {
    assert_eq!(format_decimal(0), "0");
    assert_eq!(format_decimal(7), "7");
    assert_eq!(format_decimal(10), "10");
    assert_eq!(format_decimal(1_700_003_600), "1700003600");
    assert_eq!(format_decimal(u64::MAX), "18446744073709551615");
}

#[test]
fn parse_decimal_reads_digits_only() {
    assert_eq!(parse_decimal("0"), Some(0));
    assert_eq!(parse_decimal("007"), Some(7));
    assert_eq!(parse_decimal("1700003600"), Some(1_700_003_600));
    assert_eq!(parse_decimal("18446744073709551615"), Some(u64::MAX));
    assert_eq!(parse_decimal("18446744073709551616"), None);
    assert_eq!(parse_decimal("99999999999999999999999"), None);
    assert_eq!(parse_decimal(""), None);
    assert_eq!(parse_decimal("+1"), None);
    assert_eq!(parse_decimal("-1"), None);
    assert_eq!(parse_decimal(" 1"), None);
    assert_eq!(parse_decimal("12a"), None);
    assert_eq!(parse_decimal("1.5"), None);
    assert_eq!(parse_decimal("\u{661}"), None);
}

#[test]
fn parse_undoes_format() {
    for n in [0u64, 1, 9, 10, 99, 100, 12345, u64::MAX - 1, u64::MAX] {
        assert_eq!(parse_decimal(&format_decimal(n)), Some(n));
    }
}

#[test]
fn expiry_time_adds_within_range() {
    assert_eq!(expiry_time(1_700_000_000, 3600), 1_700_003_600);
    assert_eq!(expiry_time(100, 0), 100);
    assert_eq!(expiry_time(100, -10), 90);
    assert_eq!(expiry_time(5, -10), 0);
    assert_eq!(expiry_time(0, i32::MIN), 0);
    assert_eq!(expiry_time(2_147_483_648, i32::MIN), 0);
    assert_eq!(expiry_time(2_147_483_649, i32::MIN), 1);
    assert_eq!(expiry_time(u64::MAX, 1), u64::MAX);
    assert_eq!(expiry_time(u64::MAX - 5, 5), u64::MAX);
    assert_eq!(expiry_time(u64::MAX - 5, 4), u64::MAX - 1);
    assert_eq!(expiry_time(0, i32::MAX), 2_147_483_647);
}

#[test]
fn error_text_names_the_variant() {
    assert_eq!(Error::UserNotFound.to_string(), "Error::UserNotFound");
    assert_eq!(Error::IncorrectPassword.to_string(), "Error::IncorrectPassword");
    assert_eq!(
        Error::DatabaseError(String::from("timeout")).to_string(),
        "Error::DatabaseError: timeout"
    );
    assert_eq!(
        Error::JwtError(String::from("Invalid signature")).to_string(),
        "Error::JwtError: Invalid signature"
    );
    assert_eq!(Error::TokenExpired.to_string(), "Error::TokenExpired");
}

#[test]
fn config_is_read_from_its_document() {
    let mut d = Document::new();
    d.insert("_id", "config");
    d.insert("jwt_expiration_time", 3600i32);
    assert_eq!(Config::from_document(d), Ok(Config { jwt_expiration_time: 3600 }));
}

#[test]
fn config_document_without_the_field_is_refused() {
    let mut d = Document::new();
    d.insert("_id", "config");
    assert_eq!(Config::from_document(d), Err(ConfigError::MissingField));
    assert_eq!(Config::from_document(Document::new()), Err(ConfigError::MissingField));
}

#[test]
fn config_field_of_another_type_is_refused() {
    let mut d = Document::new();
    d.insert("jwt_expiration_time", "3600");
    assert_eq!(Config::from_document(d), Err(ConfigError::WrongType));
    let mut d = Document::new();
    d.insert("jwt_expiration_time", 3600i64);
    assert_eq!(Config::from_document(d), Err(ConfigError::WrongType));
}

#[test]
fn config_from_field_keeps_value_and_error() {
    assert_eq!(Config::from_field(Ok(-5)), Ok(Config { jwt_expiration_time: -5 }));
    assert_eq!(Config::from_field(Err(ConfigError::WrongType)), Err(ConfigError::WrongType));
    assert_eq!(Config::from_field(Err(ConfigError::MissingField)), Err(ConfigError::MissingField));
}

#[test]
fn claims_insert_replaces_and_adds() {
    let mut c = Claims::new();
    assert_eq!(c.len(), 0);
    assert_eq!(c.get("sub"), None);
    c.insert(String::from("sub"), String::from("alice"));
    c.insert(String::from("exp"), String::from("12"));
    assert_eq!(c.len(), 2);
    c.insert(String::from("sub"), String::from("bob"));
    assert_eq!(c.len(), 2);
    assert_eq!(c.get("sub"), Some(&String::from("bob")));
    assert_eq!(c.get("exp"), Some(&String::from("12")));
    assert_eq!(c.get("Sub"), None);
}

#[test]
fn claims_for_holds_subject_and_expiration() {
    let c = claims_for("alice", 1_700_003_600);
    assert_eq!(c.len(), 2);
    assert_eq!(c.get("sub"), Some(&String::from("alice")));
    assert_eq!(c.get("exp"), Some(&String::from("1700003600")));
}

#[test]
fn check_claims_compares_expiration_with_now() {
    let c = claims_for("alice", 100);
    assert!(check_claims(c.clone(), 99).unwrap().same_as(&c));
    assert!(check_claims(c.clone(), 100).unwrap().same_as(&c));
    assert_eq!(check_claims(c.clone(), 101).err(), Some(Error::TokenExpired));
    assert_eq!(check_claims(c, u64::MAX).err(), Some(Error::TokenExpired));
    assert_eq!(
        check_claims(Claims::new(), 0).err(),
        Some(Error::JwtError(String::from("missing exp claim")))
    );
    let mut bad = Claims::new();
    bad.insert(String::from("exp"), String::from("-3"));
    assert_eq!(
        check_claims(bad, 0).err(),
        Some(Error::JwtError(String::from("malformed exp claim")))
    );
}

#[test]
fn outcomes_wrap_the_complaint() {
    assert_eq!(signing_outcome(Ok(String::from("t"))), Ok(String::from("t")));
    assert_eq!(
        signing_outcome(Err(String::from("bad key"))),
        Err(Error::JwtError(String::from("bad key")))
    );
    assert_eq!(
        verification_outcome(Err(String::from("Invalid signature")), 5).err(),
        Some(Error::JwtError(String::from("Invalid signature")))
    );
    let c = claims_for("alice", 10);
    assert!(verification_outcome(Ok(c.clone()), 9).unwrap().same_as(&c));
    assert!(verification_outcome(Ok(c.clone()), 10).unwrap().same_as(&c));
    assert_eq!(verification_outcome(Ok(c), 11).err(), Some(Error::TokenExpired));
}

#[test]
fn token_text_is_the_token_or_the_error() {
    assert_eq!(token_text(&Ok(String::from("a.b.c"))), "a.b.c");
    assert_eq!(token_text(&Err(Error::UserNotFound)), "Error::UserNotFound");
    assert_eq!(
        token_text(&Err(Error::DatabaseError(String::from("down")))),
        "Error::DatabaseError: down"
    );
}

#[test]
fn claims_text_writes_the_map_in_name_order() {
    let mut c = Claims::new();
    c.insert(String::from("sub"), String::from("alice"));
    c.insert(String::from("exp"), String::from("1700003600"));
    assert_eq!(claims_text(&Ok(c)), "{\"exp\": \"1700003600\", \"sub\": \"alice\"}");
    assert_eq!(claims_text(&Ok(Claims::new())), "{}");
    assert_eq!(claims_text(&Err(Error::TokenExpired)), "Error::TokenExpired");
    assert_eq!(
        claims_text(&Err(Error::JwtError(String::from("Invalid signature")))),
        "Error::JwtError: Invalid signature"
    );
}

#[test]
fn response_text_labels_its_parts() {
    assert_eq!(
        response_text("alice", "tok", "{}"),
        "Username: alice \nResult: tok \nClaims: {}"
    );
    assert_eq!(response_text("", "", ""), "Username:  \nResult:  \nClaims: ");
}

#[test]
fn claim_sets_compare_without_regard_to_order() {
    let mut a = Claims::new();
    a.insert(String::from("sub"), String::from("alice"));
    a.insert(String::from("exp"), String::from("12"));
    let mut b = Claims::new();
    b.insert(String::from("exp"), String::from("12"));
    b.insert(String::from("sub"), String::from("alice"));
    assert!(a.same_as(&b));
    assert!(b.same_as(&a));
    b.insert(String::from("sub"), String::from("bob"));
    assert!(!a.same_as(&b));
    let mut c = Claims::new();
    c.insert(String::from("sub"), String::from("alice"));
    assert!(!a.same_as(&c));
    assert!(!c.same_as(&a));
    c.insert(String::from("aud"), String::from("12"));
    assert!(!a.same_as(&c));
    assert!(Claims::new().same_as(&Claims::new()));
}
