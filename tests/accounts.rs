use todo_service::account::{
    AuthTokenGenerator as _, LoginRequest, PasswordHasher as _, RegisterRequest,
};
use todo_service::account_service::AccountService;
use todo_service::errors::ErrorKind;
use todo_service::jwt::{account_from_claims, AuthTokenGenerator};
use todo_service::memory::MemoryAccountStore;
use todo_service::password::PasswordHasher;

const LIFETIME: i64 = 3600;

fn generator() -> AuthTokenGenerator {
    AuthTokenGenerator::new(LIFETIME, "SECRET-REDACTED".to_string())
}

fn accounts() -> AccountService<MemoryAccountStore, PasswordHasher, AuthTokenGenerator> {
    AccountService::new(MemoryAccountStore::new(1_700_000_000), PasswordHasher::new(), generator())
}

fn register_request(login: &str, password: &str) -> RegisterRequest {
    RegisterRequest { login: login.to_string(), password: password.to_string() }
}

fn login_request(login: &str, password: &str) -> LoginRequest {
    LoginRequest { login: login.to_string(), password: password.to_string() }
}

#[test]
fn register_then_login_scenario() {
    let mut service = accounts();
    let a = service.register(register_request("alice", "pw1"), 1_000).unwrap();
    let b = service.login(login_request("alice", "pw1"), 1_000).unwrap();
    assert_ne!(a.token, b.token);
    assert_eq!(a.expires, 1_000 + LIFETIME);
    assert_eq!(b.expires, 1_000 + LIFETIME);
    let id_a = service.authorize(a.token.clone(), 1_002).unwrap();
    let id_b = service.authorize(b.token.clone(), 1_002).unwrap();
    assert_eq!(id_a, id_b);

    let wrong = service.login(login_request("alice", "wrong"), 1_003).unwrap_err();
    assert_eq!(wrong.kind(), ErrorKind::Forbidden);
    assert_eq!(wrong.message(), "Unauthorized");
}

#[test]
fn unknown_login_is_not_found() {
    let mut service = accounts();
    let err = service.login(login_request("bob", "pw"), 0).unwrap_err();
    assert_eq!(err.kind(), ErrorKind::NotFound);
}

#[test]
fn duplicate_login_is_refused() {
    let mut service = accounts();
    service.register(register_request("carol", "secret"), 0).unwrap();
    let err = service.register(register_request("carol", "other"), 0).unwrap_err();
    assert_eq!(err.kind(), ErrorKind::Unknown);
}

#[test]
fn token_parses_until_expiry() {
    let mut generator = generator();
    let token = generator.generate(42, 10_000).unwrap();
    assert_eq!(token.expires, 10_000 + LIFETIME);
    assert_eq!(generator.parse(token.token.clone(), 10_000).unwrap(), 42);
    assert_eq!(generator.parse(token.token.clone(), token.expires - 1).unwrap(), 42);
    let at_expiry = generator.parse(token.token.clone(), token.expires).unwrap_err();
    assert_eq!(at_expiry.kind(), ErrorKind::Forbidden);
    let later = generator.parse(token.token.clone(), token.expires + 500).unwrap_err();
    assert_eq!(later.kind(), ErrorKind::Forbidden);
}

#[test]
fn token_of_negative_account_round_trips() {
    let mut generator = generator();
    let token = generator.generate(-5, 0).unwrap();
    assert_eq!(generator.parse(token.token, 1).unwrap(), -5);
}

#[test]
fn token_under_another_secret_is_refused() {
    let token = generator().generate(1, 0).unwrap();
    assert!(!token.token.is_empty());
    let other = AuthTokenGenerator::new(LIFETIME, "another".to_string());
    assert_eq!(other.parse(token.token, 1).unwrap_err().kind(), ErrorKind::Forbidden);
}

#[test]
fn malformed_token_is_refused() {
    let err = generator().parse("not.a.token".to_string(), 0).unwrap_err();
    assert_eq!(err.kind(), ErrorKind::Forbidden);
}

#[test]
fn expiry_overflow_is_unknown() {
    let err = generator().generate(1, i64::MAX).unwrap_err();
    assert_eq!(err.kind(), ErrorKind::Unknown);
}

#[test]
fn claims_decide_the_account() {
    assert_eq!(account_from_claims(Some(7), Some(100), 99).unwrap(), 7);
    assert_eq!(account_from_claims(Some(7), Some(100), 100).unwrap_err().kind(), ErrorKind::Forbidden);
    assert!(account_from_claims(None, Some(100), 0).is_err());
    assert!(account_from_claims(Some(7), None, 0).is_err());
    assert!(account_from_claims(Some(1 << 40), Some(100), 0).is_err());
}

#[test]
fn hashing_twice_differs_and_both_verify() {
    let hasher = PasswordHasher::new();
    let first = hasher.hash("pw1".to_string()).unwrap();
    let second = hasher.hash("pw1".to_string()).unwrap();
    assert_ne!(first, second);
    assert_ne!(first, "pw1");
    assert!(hasher.verify("pw1".to_string(), first.clone()));
    assert!(hasher.verify("pw1".to_string(), second));
    assert!(!hasher.verify("pw2".to_string(), first));
}

#[test]
fn malformed_hash_does_not_verify() {
    let hasher = PasswordHasher::new();
    assert!(!hasher.verify("pw".to_string(), "not a phc string".to_string()));
    assert!(!hasher.verify("pw".to_string(), String::new()));
}

#[test]
fn tokens_at_one_instant_differ() {
    let mut generator = generator();
    let first = generator.generate(3, 500).unwrap();
    let second = generator.generate(3, 500).unwrap();
    assert_ne!(first.token, second.token);
    assert_eq!(first.expires, second.expires);
    assert_eq!(generator.parse(first.token, 501).unwrap(), 3);
    assert_eq!(generator.parse(second.token, 501).unwrap(), 3);
}

#[test]
fn stored_hash_is_an_argon2id_phc_string() {
    let hash = PasswordHasher::new().hash("pw1".to_string()).unwrap();
    assert!(hash.starts_with("$argon2id$"));
}
