use darim_auth::error::ServiceError;
use darim_auth::memory::{
    InMemoryEmailSender, InMemoryPasswordTokenRepository, InMemorySessionContext,
    InMemorySignUpTokenRepository, InMemoryUserKeyRepository, InMemoryUserRepository,
};
use darim_auth::models::{User, UserKey, UserSession};
use darim_auth::password::{check_password, get_hashed_password};
use darim_auth::service::AuthService;

type TestService = AuthService<
    InMemorySignUpTokenRepository,
    InMemoryPasswordTokenRepository,
    InMemoryUserKeyRepository,
    InMemoryUserRepository,
    InMemoryEmailSender,
>;

fn make_service(users: Vec<User>, keys: Vec<UserKey>) -> TestService {
    let mut user_repository = InMemoryUserRepository::new();
    for user in users {
        user_repository.add(user);
    }
    let mut user_key_repository = InMemoryUserKeyRepository::new();
    for key in keys {
        user_key_repository.add(key);
    }
    AuthService::new_with_repository(
        InMemorySignUpTokenRepository::new(),
        InMemoryPasswordTokenRepository::new(1),
        user_key_repository,
        user_repository,
        InMemoryEmailSender::new(),
    )
}

fn sample_user() -> User {
    User {
        id: 1,
        email: "a@x.com".to_string(),
        name: "Ada".to_string(),
        password_hash: get_hashed_password("secret").unwrap(),
        avatar_url: Some("http://example.com/ada.png".to_string()),
    }
}

fn sample_key() -> UserKey {
    UserKey { user_id: 1, public_key: "PUBKEY".to_string() }
}

#[test]
fn login_returns_session_for_matching_credentials() {
    let mut service = make_service(vec![sample_user()], vec![sample_key()]);
    let session = service.login("a@x.com", "secret").unwrap();
    assert_eq!(session.user_id, 1);
    assert_eq!(session.user_email, "a@x.com");
    assert_eq!(session.user_name, "Ada");
    assert_eq!(session.user_public_key, "PUBKEY");
    assert_eq!(session.user_avatar_url, Some("http://example.com/ada.png".to_string()));
}

#[test]
fn login_rejects_wrong_password() {
    let mut service = make_service(vec![sample_user()], vec![sample_key()]);
    let result = service.login("a@x.com", "wrong");
    assert!(matches!(result, Err(ServiceError::Unauthorized)));
}

#[test]
fn login_reports_unknown_email_as_not_found() {
    let mut service = make_service(vec![sample_user()], vec![sample_key()]);
    match service.login("missing@x.com", "secret") {
        Err(ServiceError::NotFound(key)) => assert_eq!(key, "missing@x.com"),
        _ => panic!("expected NotFound"),
    }
}

#[test]
fn login_reports_missing_key_as_not_found() {
    let mut service = make_service(vec![sample_user()], vec![]);
    match service.login("a@x.com", "secret") {
        Err(ServiceError::NotFound(key)) => assert_eq!(key, "1"),
        _ => panic!("expected NotFound"),
    }
}

#[test]
fn refresh_without_session_is_unauthorized() {
    let mut service = make_service(vec![sample_user()], vec![sample_key()]);
    let mut context = InMemorySessionContext::new();
    let result = service.refresh_user_session(&mut context);
    assert!(matches!(result, Err(ServiceError::Unauthorized)));
    assert!(context.current.is_none());
}

#[test]
fn refresh_updates_name_and_avatar_and_keeps_the_rest() {
    let updated = User {
        id: 1,
        email: "a@x.com".to_string(),
        name: "Ada Renamed".to_string(),
        password_hash: get_hashed_password("secret").unwrap(),
        avatar_url: Some("http://example.com/new.png".to_string()),
    };
    let mut service = make_service(vec![updated], vec![sample_key()]);
    let prior = UserSession {
        user_id: 1,
        user_email: "a@x.com".to_string(),
        user_name: "Ada".to_string(),
        user_public_key: "PUBKEY".to_string(),
        user_avatar_url: Some("http://example.com/ada.png".to_string()),
    };
    let mut context = InMemorySessionContext::with_session(prior);
    let session = service.refresh_user_session(&mut context).unwrap();
    assert_eq!(session.user_id, 1);
    assert_eq!(session.user_email, "a@x.com");
    assert_eq!(session.user_name, "Ada Renamed");
    assert_eq!(session.user_public_key, "PUBKEY");
    assert_eq!(session.user_avatar_url, Some("http://example.com/new.png".to_string()));
    let held = context.current.as_ref().unwrap();
    assert_eq!(held.user_name, "Ada Renamed");
    assert_eq!(held.user_avatar_url, Some("http://example.com/new.png".to_string()));
}

#[test]
fn refresh_for_deleted_user_reports_not_found() {
    let mut service = make_service(vec![], vec![]);
    let prior = UserSession {
        user_id: 7,
        user_email: "gone@x.com".to_string(),
        user_name: "Gone".to_string(),
        user_public_key: "PUBKEY".to_string(),
        user_avatar_url: None,
    };
    let mut context = InMemorySessionContext::with_session(prior);
    match service.refresh_user_session(&mut context) {
        Err(ServiceError::NotFound(key)) => assert_eq!(key, "7"),
        _ => panic!("expected NotFound"),
    }
}

#[test]
fn sign_up_token_rejects_empty_name_without_side_effects() {
    let mut service = make_service(vec![], vec![]);
    let result = service.set_sign_up_token("", "a@x.com", "pw", &None);
    assert!(matches!(result, Err(ServiceError::InvalidArgument)));
    assert!(service.sign_up_token_repository.as_ref().unwrap().tokens.is_empty());
    assert!(service.email_sender.as_ref().unwrap().messages.is_empty());
}

#[test]
fn sign_up_token_rejects_whitespace_only_fields_without_side_effects() {
    let mut service = make_service(vec![], vec![]);
    let result = service.set_sign_up_token("Ann", " \t\r\n", "pw", &None);
    assert!(matches!(result, Err(ServiceError::InvalidArgument)));
    let result = service.set_sign_up_token("Ann", "a@x.com", "   ", &None);
    assert!(matches!(result, Err(ServiceError::InvalidArgument)));
    assert!(service.sign_up_token_repository.as_ref().unwrap().tokens.is_empty());
    assert!(service.email_sender.as_ref().unwrap().messages.is_empty());
}

#[test]
fn sign_up_token_persists_token_and_sends_pin() {
    let mut service = make_service(vec![], vec![]);
    let avatar = Some("http://example.com/ann.png".to_string());
    let result = service.set_sign_up_token("Ann", "ann@x.com", "pw", &avatar);
    assert_eq!(result.unwrap(), true);

    let tokens = &service.sign_up_token_repository.as_ref().unwrap().tokens;
    assert_eq!(tokens.len(), 1);
    let value: serde_json::Value = serde_json::from_str(&tokens[0]).unwrap();
    let pin = value["pin"].as_str().unwrap();
    assert_eq!(pin.len(), 8);
    assert!(pin.chars().all(|c| c.is_ascii_alphanumeric()));
    assert_eq!(value["name"].as_str().unwrap(), "Ann");
    assert_eq!(value["email"].as_str().unwrap(), "ann@x.com");
    assert_eq!(value["avatar_url"].as_str().unwrap(), "http://example.com/ann.png");
    assert!(check_password("pw", value["password"].as_str().unwrap()));
    assert!(!check_password("other", value["password"].as_str().unwrap()));

    let messages = &service.email_sender.as_ref().unwrap().messages;
    assert_eq!(messages.len(), 1);
    assert_eq!(messages[0].to, "ann@x.com");
    assert_eq!(messages[0].subject, "Welcome to Darim");
    assert!(messages[0].body.contains(pin));
    assert!(messages[0].body.contains("Hello Ann :)"));
}

#[test]
fn sign_up_token_without_avatar_serializes_null() {
    let mut service = make_service(vec![], vec![]);
    let result = service.set_sign_up_token("Bob", "bob@x.com", "pw", &None);
    assert_eq!(result.unwrap(), true);
    let tokens = &service.sign_up_token_repository.as_ref().unwrap().tokens;
    assert_eq!(tokens.len(), 1);
    let value: serde_json::Value = serde_json::from_str(&tokens[0]).unwrap();
    assert!(value["avatar_url"].is_null());
}

#[test]
fn password_token_for_unknown_email_reports_not_found() {
    let mut service = make_service(vec![sample_user()], vec![sample_key()]);
    match service.set_password_token("missing@x.com") {
        Err(ServiceError::NotFound(key)) => assert_eq!(key, "missing@x.com"),
        _ => panic!("expected NotFound"),
    }
    assert!(service.password_token_repository.as_ref().unwrap().tokens.is_empty());
    assert!(service.email_sender.as_ref().unwrap().messages.is_empty());
}

#[test]
fn password_token_persists_token_and_sends_credentials() {
    let mut service = make_service(vec![sample_user()], vec![sample_key()]);
    let result = service.set_password_token("a@x.com");
    assert_eq!(result.unwrap(), true);

    let tokens = &service.password_token_repository.as_ref().unwrap().tokens;
    assert_eq!(tokens.len(), 1);
    let value: serde_json::Value = serde_json::from_str(&tokens[0]).unwrap();
    let id = value["id"].as_str().unwrap();
    let password = value["password"].as_str().unwrap();
    assert_eq!(id.len(), 32);
    assert!(id.chars().all(|c| c.is_ascii_alphanumeric()));
    assert_eq!(password.len(), 512);
    assert!(password.chars().all(|c| c.is_ascii_alphanumeric()));

    let messages = &service.email_sender.as_ref().unwrap().messages;
    assert_eq!(messages.len(), 1);
    assert_eq!(messages[0].to, "a@x.com");
    assert_eq!(messages[0].subject, "Please reset your password");
    assert!(messages[0].body.contains(id));
    assert!(messages[0].body.contains(password));
}

#[test]
fn two_password_tokens_differ() {
    let mut service = make_service(vec![sample_user()], vec![sample_key()]);
    service.set_password_token("a@x.com").unwrap();
    service.set_password_token("a@x.com").unwrap();
    let tokens = &service.password_token_repository.as_ref().unwrap().tokens;
    assert_eq!(tokens.len(), 2);
    assert_ne!(tokens[0], tokens[1]);
}

#[test]
fn new_service_has_no_stores() {
    let service = TestService::new();
    assert!(service.sign_up_token_repository.is_none());
    assert!(service.password_token_repository.is_none());
    assert!(service.user_key_repository.is_none());
    assert!(service.user_repository.is_none());
    assert!(service.email_sender.is_none());
}

#[test]
fn default_service_has_no_stores() {
    let service: TestService = Default::default();
    assert!(service.sign_up_token_repository.is_none());
    assert!(service.password_token_repository.is_none());
    assert!(service.user_key_repository.is_none());
    assert!(service.user_repository.is_none());
    assert!(service.email_sender.is_none());
}
