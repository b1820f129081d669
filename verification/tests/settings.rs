use axum_api::api::{register_response, login_response, LoginResponse, StatusCode};
use axum_api::config::Config;
use axum_api::database::{SimpleMemoryDatabase, User};
use axum_api::token::{Algorithm, TokenManager};
use axum_api::ServerState;
use std::time::Duration;

#[test]
fn default_config_values() {
    let config = Config::default();
    assert_eq!(config.server_host, "127.0.0.1:3000");
    assert_eq!(config.database_hosts, vec!["127.0.0.1:9042".to_string()]);
    assert_eq!(config.lifetime, 600);
    assert_eq!(config.lifetime_leeway, 30);
    assert_eq!(config.signing_algorithm, "HS256");
    assert_eq!(config.secret_path, "resources/secret");
}

#[test]
fn server_state_shares_its_parts() {
    let tokens = TokenManager::new(Duration::from_secs(1), Duration::from_secs(2), Algorithm::HS256, "s".into());
    let state = ServerState::new(SimpleMemoryDatabase::new(), tokens);
    let shared = state.token_manager();
    assert_eq!(shared.lifetime(), Duration::from_secs(1));
    assert_eq!(shared.lifetime_leeway(), Duration::from_secs(2));
    let _database: &SimpleMemoryDatabase = state.database();
}

#[test]
fn registration_answers() {
    assert_eq!(register_response(true), StatusCode::Success);
    assert_eq!(register_response(false), StatusCode::Conflict);
}

#[test]
fn login_answers() {
    let user = User { email: "a@b.c".to_string(), password: "p".to_string() };
    let hmac = TokenManager::new(Duration::from_secs(60), Duration::from_secs(0), Algorithm::HS384, "k".into());
    assert!(matches!(login_response(false, &hmac, &user), LoginResponse::Unauthorized));
    let response = login_response(true, &hmac, &user);
    assert_eq!(response.status(), StatusCode::Success);
    assert!(matches!(response, LoginResponse::Token(_)));
    let rsa = TokenManager::new(Duration::from_secs(60), Duration::from_secs(0), Algorithm::RS256, "k".into());
    let response = login_response(true, &rsa, &user);
    assert_eq!(response.status(), StatusCode::InternalServerError);
    assert!(matches!(login_response(false, &rsa, &user), LoginResponse::Unauthorized));
}
