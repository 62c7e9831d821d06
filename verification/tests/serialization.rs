use darim_auth::error::ServiceError;
use darim_auth::json::{serialize_password_token, serialize_sign_up_token};
use darim_auth::models::{PasswordToken, SignUpToken};
use darim_auth::text::{check_blank, u64_to_dec_string};

#[test]
fn password_token_serializes_to_exact_json() {
    let token = PasswordToken { id: "abc".to_string(), password: "p".to_string() };
    let serialized = serialize_password_token(&token);
    assert_eq!(serialized, "{\"id\":\"abc\",\"password\":\"p\"}");
}

#[test]
fn sign_up_token_round_trips_through_a_json_parser() {
    let token = SignUpToken {
        pin: "A1b2C3d4".to_string(),
        name: "A \"quoted\" \\ name\nwith\ttabs and \u{1} control".to_string(),
        email: "e@x.com".to_string(),
        password: "$2b$12$hash".to_string(),
        avatar_url: Some("http://example.com/a?b=c&d=\"e\"".to_string()),
    };
    let serialized = serialize_sign_up_token(&token);
    let value: serde_json::Value = serde_json::from_str(&serialized).unwrap();
    assert_eq!(value["pin"].as_str().unwrap(), token.pin);
    assert_eq!(value["name"].as_str().unwrap(), token.name);
    assert_eq!(value["email"].as_str().unwrap(), token.email);
    assert_eq!(value["password"].as_str().unwrap(), token.password);
    assert_eq!(value["avatar_url"].as_str().unwrap(), "http://example.com/a?b=c&d=\"e\"");
}

#[test]
fn sign_up_token_serializes_missing_avatar_as_null() {
    let token = SignUpToken {
        pin: "12345678".to_string(),
        name: "Ann".to_string(),
        email: "ann@x.com".to_string(),
        password: "h".to_string(),
        avatar_url: None,
    };
    let serialized = serialize_sign_up_token(&token);
    assert_eq!(
        serialized,
        "{\"pin\":\"12345678\",\"name\":\"Ann\",\"email\":\"ann@x.com\",\"password\":\"h\",\"avatar_url\":null}"
    );
}

#[test]
fn decimal_rendering_matches_standard_formatting() {
    assert_eq!(u64_to_dec_string(0), "0");
    assert_eq!(u64_to_dec_string(7), "7");
    assert_eq!(u64_to_dec_string(42), "42");
    assert_eq!(u64_to_dec_string(18446744073709551615), "18446744073709551615");
}

#[test]
fn blank_detection_matches_trim_semantics() {
    assert!(check_blank(""));
    assert!(check_blank(" \t\r\n"));
    assert!(check_blank("\u{3000}\u{00a0}"));
    assert!(!check_blank("a"));
    assert!(!check_blank("  a  "));
}

#[test]
fn error_messages_name_the_failure() {
    assert_eq!(ServiceError::Unauthorized.message(), "unauthorized");
    assert_eq!(ServiceError::InvalidArgument.message(), "invalid argument");
    assert_eq!(ServiceError::InvalidFormat.message(), "invalid format");
    assert_eq!(ServiceError::StoreFailure.message(), "store failure");
    assert_eq!(ServiceError::NotFound("7".to_string()).message(), "7 is not found");
}
