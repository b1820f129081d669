use axum_api::api::get_token;
use axum_api::database::User;
use axum_api::token::{Algorithm, TokenError, TokenManager, TokenPayload};
use std::time::{Duration, SystemTime, UNIX_EPOCH};
use axum_api::api::{answer_login, report_token, LoginResponse};

fn user(email: &str) -> User {
    User { email: email.to_string(), password: "pw".to_string() }
}

fn manager(algorithm: Algorithm, secret: &str) -> TokenManager {
    TokenManager::new(Duration::from_secs(600), Duration::from_secs(30), algorithm, secret.into())
}

fn now() -> u64 {
    SystemTime::now().duration_since(UNIX_EPOCH).unwrap().as_secs()
}

#[test]
fn issued_token_reads_back_its_user() {
    let tokens = manager(Algorithm::HS256, "secret");
    let before = now();
    let token = tokens.new_token(&user("email@addre.ss")).ok().unwrap();
    let payload = tokens.decode_and_validate_token(token).ok().unwrap();
    assert_eq!(payload.user_email, "email@addre.ss");
    assert!(payload.exp >= before + 600 && payload.exp <= now() + 600);
}

#[test]
fn each_hmac_algorithm_round_trips() {
    for algorithm in [Algorithm::HS256, Algorithm::HS384, Algorithm::HS512] {
        let tokens = manager(algorithm, "another secret");
        let token = tokens.new_token(&user("x@y.z")).ok().unwrap();
        let payload = tokens.decode_and_validate_token(token).ok().unwrap();
        assert_eq!(payload.user_email, "x@y.z");
    }
}

#[test]
fn non_hmac_algorithm_with_a_non_key_secret_issues_no_token() {
    for algorithm in [Algorithm::RS512, Algorithm::ES256, Algorithm::PS512, Algorithm::EdDSA] {
        let tokens = manager(algorithm, "secret");
        assert!(matches!(tokens.new_token(&user("x@y.z")), Err(TokenError::Jwt(_))));
    }
}

const ED25519_PUBLIC_KEY: &str = "-----BEGIN PUBLIC KEY-----\nMCowBQYDK2VwAyEA2+Jj2UvNCvQiUPNYRgSi0cJSPiJI6Rs6D0UTeEpQVj8=\n-----END PUBLIC KEY-----\n";

#[test]
fn eddsa_public_key_checks_but_does_not_sign() {
    let verifier = manager(Algorithm::EdDSA, ED25519_PUBLIC_KEY);
    // a public key is no key to sign with
    assert!(matches!(verifier.new_token(&user("ed@dsa.org")), Err(TokenError::Jwt(_))));
    // and a token it did not sign does not verify
    let hmac_token = manager(Algorithm::HS256, "secret").new_token(&user("ed@dsa.org")).ok().unwrap();
    assert!(matches!(verifier.decode_and_validate_token(hmac_token), Err(TokenError::Jwt(_))));
}

#[test]
fn payload_made_at_a_clock_reading_expires_one_lifetime_later() {
    let now = UNIX_EPOCH + Duration::from_secs(1000);
    let payload = TokenPayload::new_at(&user("a@b.c"), Duration::from_secs(600), now).ok().unwrap();
    assert_eq!(payload.exp, 1600);
    assert_eq!(payload.user_email, "a@b.c");
}

#[test]
fn payload_expiry_is_whole_seconds_of_the_sum() {
    let now = UNIX_EPOCH + Duration::from_millis(1_000_900);
    let payload = TokenPayload::new_at(&user("a@b.c"), Duration::from_millis(500), now).ok().unwrap();
    assert_eq!(payload.exp, 1001);
}

#[test]
fn payload_expiry_out_of_range_is_a_clock_error() {
    let now = UNIX_EPOCH + Duration::from_secs(1000);
    assert!(matches!(TokenPayload::new_at(&user("a@b.c"), Duration::MAX, now), Err(TokenError::Clock)));
    let before_epoch = UNIX_EPOCH - Duration::from_secs(10_000);
    assert!(matches!(
        TokenPayload::new_at(&user("a@b.c"), Duration::from_secs(1), before_epoch),
        Err(TokenError::Clock)
    ));
}

#[test]
fn token_issued_at_a_time_is_accepted_until_expiry_plus_leeway() {
    let tokens = manager(Algorithm::HS256, "secret");
    let issued_at = UNIX_EPOCH + Duration::from_secs(5000);
    let token = tokens.new_token_at(&user("t@i.me"), issued_at).ok().unwrap();
    // expiry 5600, leeway 30
    let payload = TokenPayload::decode_at(&token, Algorithm::HS256, "secret", 30, Some(5630)).ok().unwrap();
    assert_eq!(payload.exp, 5600);
    assert_eq!(payload.user_email, "t@i.me");
    assert!(matches!(
        TokenPayload::decode_at(&token, Algorithm::HS256, "secret", 30, Some(5631)),
        Err(TokenError::Expired)
    ));
    assert!(matches!(
        TokenPayload::decode_at(&token, Algorithm::HS256, "secret", 30, None),
        Err(TokenError::Clock)
    ));
    assert!(matches!(
        TokenPayload::decode_at("x.y.z", Algorithm::HS256, "secret", 30, None),
        Err(TokenError::Jwt(_))
    ));
}

#[test]
fn login_answer_follows_token_outcome() {
    assert!(matches!(answer_login(Ok("tok".to_string())), LoginResponse::Token(t) if t == "tok"));
    assert!(matches!(answer_login(Err(TokenError::Clock)), LoginResponse::InternalServerError));
}

#[test]
fn token_report_follows_decoding_outcome() {
    let payload = TokenPayload::with_expiry(&user("r@e.p"), 9);
    let report = report_token("tok", Ok(payload));
    assert_eq!(report.token, "tok");
    assert!(report.valid);
    assert_eq!(report.user_email.as_deref(), Some("r@e.p"));
    let report = report_token("tok", Err(TokenError::Expired));
    assert!(!report.valid);
    assert_eq!(report.user_email, None);
}

#[test]
fn hmac_encoding_is_deterministic() {
    let first = TokenPayload::with_expiry(&user("d@e.t"), 77).encode(Algorithm::HS384, "k").ok().unwrap();
    let second = TokenPayload::with_expiry(&user("d@e.t"), 77).encode(Algorithm::HS384, "k").ok().unwrap();
    assert_eq!(first, second);
    let other_key = TokenPayload::with_expiry(&user("d@e.t"), 77).encode(Algorithm::HS384, "j").ok().unwrap();
    assert_ne!(first, other_key);
}

#[test]
fn token_without_two_dots_is_refused() {
    for token in ["", "abc", "a.b"] {
        assert!(matches!(
            TokenPayload::decode_at(token, Algorithm::HS256, "secret", 0, Some(0)),
            Err(TokenError::Jwt(_))
        ));
    }
}
