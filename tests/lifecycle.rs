use auth_server::error::AuthError;
use auth_server::model::{
    AccountAuthenticate, AccountRegister, IdentityCreate, IdentitySource, RefreshToken,
    RefreshTokenCreate, TOKEN_EXPIRY_SECONDS, TOKEN_LENGTH,
};
use auth_server::service::AuthService;
use auth_server::store::AuthStore;
use auth_server::token::{id_to_string, Claims, JsonWebToken};

fn signer() -> JsonWebToken {
    JsonWebToken::new(b"test-signing-secret".to_vec(), 24).expect("valid lifetime")
}

fn register(name: &str, email: &str, password: Option<&str>) -> AccountRegister {
    AccountRegister {
        given_name: name.to_string(),
        email: email.to_string(),
        password: password.map(|p| p.to_string()),
    }
}

fn login(email: &str, password: &str) -> AccountAuthenticate {
    AccountAuthenticate { email: email.to_string(), password: password.to_string() }
}

fn flip_char(token: &str, at: usize) -> String {
    let mut chars: Vec<char> = token.chars().collect();
    chars[at] = if chars[at] == 'A' { 'B' } else { 'A' };
    chars.into_iter().collect()
}

#[test]
fn signer_rejects_lifetimes_outside_one_to_twenty_four_hours() {
    assert!(JsonWebToken::new(b"k".to_vec(), 0).is_none());
    assert!(JsonWebToken::new(b"k".to_vec(), 25).is_none());
    assert_eq!(JsonWebToken::new(b"k".to_vec(), 1).unwrap().expiry_seconds(), 3600);
    assert_eq!(JsonWebToken::new(b"k".to_vec(), 24).unwrap().expiry_seconds(), 86400);
}

#[test]
fn claims_carry_issuer_subject_and_expiry() {
    let c = Claims::new(42, &"ada@example.com".to_string(), 1_000, 3_600);
    assert_eq!(c.iss, "authentication");
    assert_eq!(c.sub, "42");
    assert_eq!(c.iat, 1_000);
    assert_eq!(c.exp, 4_600);
    assert_eq!(c.email, "ada@example.com");
    assert_eq!(Claims::new(-7, &"x".to_string(), 0, 0).sub, "-7");
}

#[test]
fn issued_token_validates_until_expiry() {
    let s = signer();
    let now = 1_700_000_000;
    let token = s.create_token_at(5, &"ada@example.com".to_string(), now).expect("signed");
    let claims = s.validate_token_at(&token, now).expect("accepted right after issue");
    assert_eq!(claims.sub, "5");
    assert_eq!(claims.email, "ada@example.com");
    assert_eq!(claims.iat, now);
    assert_eq!(claims.exp, now + 86400);
    assert!(s.validate_token_at(&token, now + 86399).is_ok());
    assert!(matches!(s.validate_token_at(&token, now + 86400), Err(AuthError::InvalidToken)));
    assert!(matches!(s.validate_token_at(&token, now + 90000), Err(AuthError::InvalidToken)));
}

#[test]
fn fresh_access_token_round_trips_and_flipped_one_is_refused() {
    let s = signer();
    let token = s.create_token(9, &"ada@example.com".to_string()).expect("signed");
    assert!(token.split('.').count() == 3);
    assert!(s.validate_token(&token).is_ok());
    for at in [3, token.len() / 2, token.len() - 5] {
        let flipped = flip_char(&token, at);
        assert_ne!(flipped, token);
        assert!(matches!(s.validate_token(&flipped), Err(AuthError::InvalidToken)));
    }
}

#[test]
fn token_signed_with_another_secret_is_refused() {
    let other = JsonWebToken::new(b"another-secret".to_vec(), 24).unwrap();
    let token = other.create_token(1, &"a@b.c".to_string()).unwrap();
    assert!(matches!(signer().validate_token(&token), Err(AuthError::InvalidToken)));
    assert!(matches!(signer().validate_token("not a token"), Err(AuthError::InvalidToken)));
    assert!(matches!(signer().validate_token(""), Err(AuthError::InvalidToken)));
}

#[test]
fn generated_refresh_tokens_are_alphanumeric_and_distinct() {
    let a = RefreshToken::generate();
    let b = RefreshToken::generate();
    assert_eq!(a.chars().count(), TOKEN_LENGTH);
    assert!(a.chars().all(|c| c.is_ascii_alphanumeric()));
    assert_ne!(a, b);
}

#[test]
fn refresh_token_create_lasts_seven_days() {
    let c = RefreshTokenCreate::new(3, 100, "tok".to_string());
    assert_eq!(c.account_id, 3);
    assert_eq!(c.issued_at, 100);
    assert_eq!(c.expires, 100 + 604800);
    assert_eq!(TOKEN_EXPIRY_SECONDS, 604800);
}

#[test]
fn duplicate_registration_is_rejected_without_partial_rows() {
    let mut store = AuthStore::new();
    let first = store.register_new_account(&register("Ada", "ada@example.com", Some("pw")), Ok("hash1".to_string()), 1, 10);
    let a = first.expect("first registration");
    assert_eq!(a.id, 1);
    assert_eq!(a.email, "ada@example.com");
    assert_eq!(a.given_name, "Ada");
    assert_eq!(a.created_at, 10);
    let second = store.register_new_account(&register("Other", "ada@example.com", Some("pw2")), Ok("hash2".to_string()), 2, 11);
    match second {
        Err(AuthError::UserAlreadyExists(email)) => assert_eq!(email, "ada@example.com"),
        _ => panic!("expected UserAlreadyExists"),
    }
    assert_eq!(store.account_count(), 1);
    assert_eq!(store.identity_count(), 1);
    assert_eq!(store.password_hash_for(&"ada@example.com".to_string()), Some("hash1".to_string()));
}

#[test]
fn hashing_failure_creates_nothing() {
    let mut store = AuthStore::new();
    let r = store.register_new_account(&register("Ada", "ada@example.com", Some("pw")), Err(AuthError::HashingError), 1, 10);
    assert!(matches!(r, Err(AuthError::HashingError)));
    assert_eq!(store.account_count(), 0);
    assert_eq!(store.identity_count(), 0);
}

#[test]
fn registration_without_password_has_no_identity() {
    let mut store = AuthStore::new();
    let a = store.register_new_account(&register("Bo", "bo@example.com", None), Err(AuthError::HashingError), 7, 1).unwrap();
    assert_eq!(a.uuid, 7);
    assert_eq!(store.identity_count(), 0);
    assert_eq!(store.password_hash_for(&"bo@example.com".to_string()), None);
    let r = store.authenticate_account(&login("bo@example.com", "x"), Ok(true));
    assert!(matches!(r, Err(AuthError::InvalidUsernameOrPassword)));
}

#[test]
fn wrong_password_and_unknown_email_give_the_same_error() {
    let mut store = AuthStore::new();
    store.register_new_account(&register("Ada", "ada@example.com", Some("pw")), Ok("h".to_string()), 1, 1).unwrap();
    let wrong = store.authenticate_account(&login("ada@example.com", "wrong"), Ok(false));
    let unknown = store.authenticate_account(&login("nobody@example.com", "pw"), Ok(true));
    let broken = store.authenticate_account(&login("ada@example.com", "pw"), Err(AuthError::HashingError));
    assert!(matches!(wrong, Err(AuthError::InvalidUsernameOrPassword)));
    assert!(matches!(unknown, Err(AuthError::InvalidUsernameOrPassword)));
    assert!(matches!(broken, Err(AuthError::InvalidUsernameOrPassword)));
    let ok = store.authenticate_account(&login("ada@example.com", "pw"), Ok(true)).unwrap();
    assert_eq!(ok.id, 1);
    assert_eq!(ok.email, "ada@example.com");
}

#[test]
fn identities_are_unique_per_provider() {
    let mut store = AuthStore::new();
    store.register_new_account(&register("Ada", "ada@example.com", Some("pw")), Ok("h".to_string()), 1, 1).unwrap();
    let g = store
        .add_identity(&IdentityCreate { account_id: 1, source: IdentitySource::Google, credential: "g-token".to_string() })
        .unwrap();
    assert_eq!(g.id, 2);
    assert_eq!(g.account_id, 1);
    assert_eq!(g.source, IdentitySource::Google);
    let again = store.add_identity(&IdentityCreate { account_id: 1, source: IdentitySource::Google, credential: "x".to_string() });
    assert!(matches!(again, Err(AuthError::IdentityConflict)));
    let pw = store.add_identity(&IdentityCreate { account_id: 1, source: IdentitySource::Password, credential: "x".to_string() });
    assert!(matches!(pw, Err(AuthError::IdentityConflict)));
    let missing = store.add_identity(&IdentityCreate { account_id: 2, source: IdentitySource::Google, credential: "x".to_string() });
    assert!(matches!(missing, Err(AuthError::InvalidRequest(_))));
    let list = store.get_identities_for_account(1);
    assert_eq!(list.len(), 2);
    assert_eq!(list[0].source, IdentitySource::Password);
    assert_eq!(list[1].source, IdentitySource::Google);
    assert!(store.get_identities_for_account(2).is_empty());
}

#[test]
fn refresh_token_for_unknown_account_is_a_database_error() {
    let mut store = AuthStore::new();
    let r = store.insert_refresh_token(RefreshTokenCreate::new(1, 0, "t".to_string()));
    assert!(matches!(r, Err(AuthError::DatabaseError)));
    assert!(matches!(store.issue_refresh_token(1), Err(AuthError::DatabaseError)));
    assert_eq!(store.refresh_token_count(), 0);
}

#[test]
fn revoke_all_rejects_only_that_accounts_tokens() {
    let mut store = AuthStore::new();
    store.register_new_account(&register("Ada", "ada@example.com", Some("pw")), Ok("h".to_string()), 1, 1).unwrap();
    store.register_new_account(&register("Bo", "bo@example.com", Some("pw")), Ok("h".to_string()), 2, 1).unwrap();
    store.insert_refresh_token(RefreshTokenCreate::new(1, 1000, "ada-1".to_string())).unwrap();
    store.insert_refresh_token(RefreshTokenCreate::new(1, 1000, "ada-2".to_string())).unwrap();
    store.insert_refresh_token(RefreshTokenCreate::new(2, 1000, "bo-1".to_string())).unwrap();
    assert!(store.validate_refresh_token_at(&"ada-1".to_string(), 2000).is_ok());
    store.revoke_all_tokens_for_account_at(1, 1500);
    assert!(matches!(store.validate_refresh_token_at(&"ada-1".to_string(), 2000), Err(AuthError::InvalidToken)));
    assert!(matches!(store.validate_refresh_token_at(&"ada-2".to_string(), 2000), Err(AuthError::InvalidToken)));
    let bo = store.validate_refresh_token_at(&"bo-1".to_string(), 2000).unwrap();
    assert_eq!(bo.account_id, 2);
    assert!(!bo.revoked);
    // a second revocation keeps the first revocation time
    store.revoke_all_tokens_for_account_at(1, 1800);
    assert_eq!(store.refresh_token_count(), 3);
    assert!(matches!(store.validate_refresh_token_at(&"bo-1".to_string(), 1000 + TOKEN_EXPIRY_SECONDS), Err(AuthError::InvalidToken)));
}

#[test]
fn register_then_authenticate_end_to_end() {
    let mut service = AuthService::new(AuthStore::new(), signer());
    let reg = register("Ada", "ada@example.com", Some("P@ssw0rd"));
    let registered = service.register_user(&reg, Ok("stored-hash".to_string())).expect("registered");
    assert_eq!(registered.account.email, "ada@example.com");
    assert_eq!(registered.tokens.refresh_token.account_id, registered.account.id);
    assert_eq!(registered.tokens.refresh_token.token.len(), TOKEN_LENGTH);
    let claims = service.validate_token(&registered.tokens.jwt).expect("valid access token");
    assert_eq!(claims.sub, registered.account.id.to_string());

    let hash = service.password_hash_for(&"ada@example.com".to_string()).expect("password identity");
    assert_eq!(hash, "stored-hash");
    let again = service
        .authenticate_user(&login("ada@example.com", "P@ssw0rd"), Ok(true))
        .expect("authenticated");
    assert_eq!(again.account.id, registered.account.id);
    assert_ne!(again.tokens.refresh_token.token, registered.tokens.refresh_token.token);
    assert_eq!(service.store().refresh_token_count(), 2);

    let wrong = service.authenticate_user(&login("ada@example.com", "wrong"), Ok(false));
    assert!(matches!(wrong, Err(AuthError::InvalidUsernameOrPassword)));
    assert_eq!(service.store().refresh_token_count(), 2);

    let dup = service.register_user(&reg, Ok("other-hash".to_string()));
    assert!(matches!(dup, Err(AuthError::UserAlreadyExists(_))));
    assert_eq!(service.store().account_count(), 1);

    service.revoke_all(registered.account.id);
    let r1 = service.store().validate_refresh_token(&registered.tokens.refresh_token.token);
    assert!(matches!(r1, Err(AuthError::InvalidToken)));
}

#[test]
fn service_adds_identities() {
    let mut service = AuthService::new(AuthStore::new(), signer());
    service.register_user(&register("Ada", "ada@example.com", None), Err(AuthError::HashingError)).unwrap();
    let g = service.add_identity_provider(1, IdentitySource::Google, &"g-token".to_string(), Err(AuthError::HashingError));
    assert!(g.is_ok());
    let p = service.add_identity_provider(1, IdentitySource::Password, &"pw".to_string(), Err(AuthError::HashingError));
    assert!(matches!(p, Err(AuthError::HashingError)));
    let p = service.add_identity_provider(1, IdentitySource::Password, &"pw".to_string(), Ok("pw-hash".to_string()));
    assert!(p.is_ok());
    assert_eq!(service.password_hash_for(&"ada@example.com".to_string()), Some("pw-hash".to_string()));
    assert_eq!(service.store().get_identities_for_account(1).len(), 2);
}

#[test]
fn error_messages_name_the_failure() {
    assert_eq!(AuthError::InvalidToken.message(), "invalid token");
    assert_eq!(AuthError::InvalidUsernameOrPassword.message(), "invalid username or password");
    assert_eq!(AuthError::HashingError.message(), "hashing error");
}

#[test]
fn account_ids_are_written_in_decimal() {
    assert_eq!(id_to_string(0), "0");
    assert_eq!(id_to_string(7), "7");
    assert_eq!(id_to_string(1234567), "1234567");
    assert_eq!(id_to_string(-42), "-42");
    assert_eq!(id_to_string(i32::MAX), "2147483647");
    assert_eq!(id_to_string(i32::MIN), "-2147483648");
}

#[test]
fn refresh_token_issued_at_a_given_time() {
    let mut store = AuthStore::new();
    store.register_new_account(&register("Ada", "ada@example.com", None), Err(AuthError::HashingError), 1, 1).unwrap();
    let t = store.issue_refresh_token_at(1, 5_000).unwrap();
    assert_eq!(t.id, 1);
    assert_eq!(t.issued_at, 5_000);
    assert_eq!(t.expires, 5_000 + TOKEN_EXPIRY_SECONDS);
    assert_eq!(t.token.len(), TOKEN_LENGTH);
    assert!(!t.revoked);
    assert!(matches!(store.issue_refresh_token_at(1, i64::MAX - 10), Err(AuthError::DatabaseError)));
    assert!(matches!(store.issue_refresh_token_at(2, 5_000), Err(AuthError::DatabaseError)));
    assert_eq!(store.refresh_token_count(), 1);
}

#[test]
fn tokens_issued_at_a_given_time() {
    let mut service = AuthService::new(AuthStore::new(), signer());
    let u = service.register_user(&register("Ada", "ada@example.com", Some("pw")), Ok("h".to_string())).unwrap();
    let now = 1_700_000_000;
    let t = service.issue_tokens_at(&u.account, now).unwrap();
    let claims = signer().validate_token_at(&t.jwt, now).unwrap();
    assert_eq!(claims.iat, now);
    assert_eq!(claims.exp, now + 86400);
    assert_eq!(claims.sub, "1");
    assert_eq!(t.refresh_token.issued_at, now);
    assert_eq!(t.refresh_token.expires - t.refresh_token.issued_at, 7 * 24 * 3600);
    assert!(matches!(service.issue_tokens_at(&u.account, i64::MAX - 100), Err(AuthError::InvalidToken)));
    assert_eq!(service.store().refresh_token_count(), 2);
}
