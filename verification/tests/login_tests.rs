use user_backend::NewUser;
use user_backend::RepoError;
use user_backend::UserStore;
use user_backend::decode_token_claims;
use user_backend::LOGIN_EXPIRY;

fn store_with(email: &str, password: &str) -> UserStore {
    let mut store = UserStore::new();
    let input = NewUser {
        pseudo: Some("alice".to_string()),
        email: Some(email.to_string()),
        password_hash: Some(password.to_string()),
        role: Some("user".to_string()),
    };
    store.create_user(&input).unwrap();
    store
}

#[test]
fn login_issues_decodable_token_with_email_subject() {
    let store = store_with("a@x.com", "secret123");
    let secret = b"top-secret-key";
    let token = store.login("a@x.com", "secret123", secret).unwrap();
    let claims = decode_token_claims(&token, secret).unwrap();
    assert_eq!(claims.sub, "a@x.com");
    assert_eq!(claims.exp, LOGIN_EXPIRY);
}

#[test]
fn login_token_decodes_with_the_jwt_library_itself() {
    let store = store_with("a@x.com", "secret123");
    let secret = b"top-secret-key";
    let token = store.login("a@x.com", "secret123", secret).unwrap();
    let mut validation = jsonwebtoken::Validation::new(jsonwebtoken::Algorithm::HS256);
    validation.validate_exp = false;
    validation.required_spec_claims = std::collections::HashSet::new();
    let data = jsonwebtoken::decode::<serde_json::Value>(
        &token,
        &jsonwebtoken::DecodingKey::from_secret(secret),
        &validation,
    )
    .unwrap();
    assert_eq!(data.claims.get("sub").unwrap().as_str(), Some("a@x.com"));
    assert_eq!(data.claims.get("exp").unwrap().as_u64(), Some(10000000000));
}

#[test]
fn login_rejects_wrong_password_and_unknown_email_alike() {
    let store = store_with("a@x.com", "secret123");
    let secret = b"top-secret-key";
    let wrong_password = store.login("a@x.com", "secret124", secret);
    let unknown_email = store.login("b@x.com", "secret123", secret);
    assert!(matches!(wrong_password, Err(RepoError::NotFound)));
    assert!(matches!(unknown_email, Err(RepoError::NotFound)));
    assert_eq!(wrong_password.err(), unknown_email.err());
}

#[test]
fn login_rejects_wrong_secret_at_decode() {
    let store = store_with("a@x.com", "secret123");
    let token = store.login("a@x.com", "secret123", b"key-one").unwrap();
    assert!(decode_token_claims(&token, b"key-two").is_none());
}

#[test]
fn login_matches_first_of_two_rows_with_equal_email() {
    let mut store = UserStore::new();
    let first = NewUser {
        pseudo: Some("a".to_string()),
        email: Some("dup@x.com".to_string()),
        password_hash: Some("pw-one".to_string()),
        role: None,
    };
    let second = NewUser {
        pseudo: Some("b".to_string()),
        email: Some("dup@x.com".to_string()),
        password_hash: Some("pw-two".to_string()),
        role: None,
    };
    store.create_user(&first).unwrap();
    store.create_user(&second).unwrap();
    assert!(store.login("dup@x.com", "pw-one", b"k").is_ok());
    assert!(matches!(store.login("dup@x.com", "pw-two", b"k"), Err(RepoError::NotFound)));
}

#[test]
fn token_is_not_the_email_or_password() {
    let store = store_with("a@x.com", "secret123");
    let token = store.login("a@x.com", "secret123", b"k").unwrap();
    assert_ne!(token, "a@x.com");
    assert_ne!(token, "secret123");
    assert_eq!(token.matches('.').count(), 2);
}
