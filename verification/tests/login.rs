use axum_api::api::{login, register, LoginResponse, StatusCode};
use axum_api::database::{SimpleMemoryDatabase, User};
use axum_api::token::{Algorithm, TokenManager};
use std::time::Duration;

fn user(email: &str, password: &str) -> User {
    User { email: email.to_string(), password: password.to_string() }
}

fn token_manager() -> TokenManager {
    TokenManager::new(
        Duration::from_secs(10u64.pow(10)),
        Duration::from_secs(10u64.pow(10)),
        Algorithm::HS256,
        "secret".into(),
    )
}

#[test]
fn login_without_account() {
    let database = SimpleMemoryDatabase::new();
    let response = login(&database, &token_manager(), &user("email@addre.ss", "pw"));
    assert_eq!(response.status(), StatusCode::Unauthorized);
    assert!(!matches!(response, LoginResponse::Token(_)));
}

#[test]
fn login_with_wrong_password() {
    let mut database = SimpleMemoryDatabase::new();
    let tokens = token_manager();
    register(&mut database, user("email@addre.ss", "P_ass1Wo$rD"));

    for password_attempt in [
        "Pass1Wo$rD",
        "P_ass1WorD",
        "P_ass1Wo$RD",
        "P_ass1Wo$rD ",
        " P_ass1Wo$rD",
        "P_ass 1Wo$rD",
        "P__ass1Wo$rD",
    ] {
        let response = login(&database, &tokens, &user("email@addre.ss", password_attempt));
        assert_eq!(response.status(), StatusCode::Unauthorized);
        assert!(!matches!(response, LoginResponse::Token(_)));
    }
}

#[test]
fn login_with_correct_password() {
    let mut database = SimpleMemoryDatabase::new();
    let tokens = token_manager();
    register(&mut database, user("email@addre.ss", "P_ass1Wo$rD"));

    let response = login(&database, &tokens, &user("email@addre.ss", "P_ass1Wo$rD"));
    assert_eq!(response.status(), StatusCode::Success);
    assert!(matches!(response, LoginResponse::Token(_)));
}
