use axum_api::api::{register, StatusCode};
use axum_api::database::{SimpleMemoryDatabase, User};

fn user(email: &str, password: &str) -> User {
    User { email: email.to_string(), password: password.to_string() }
}

#[test]
fn register_multiple_successfully() {
    let mut database = SimpleMemoryDatabase::new();
    for (email, password) in [
        ("email@addre.ss", "2kj7g435yewrktjh"),
        ("email2@addre.ss", "sdkh4k2qj43lw"),
        ("email3@addre.ss", "125c3kj4hk3huwy"),
        ("email@add.ress", "12jk67h354jl21"),
        ("someone@gmail.com", "j2h4kj623467385"),
    ] {
        let status = register(&mut database, user(email, password));
        assert_eq!(status, StatusCode::Success);
    }
}

#[test]
fn register_with_duplicate_email() {
    let mut database = SimpleMemoryDatabase::new();
    register(&mut database, user("dupl@ica.te", "pw"));

    for (email, password) in [
        ("dupl@ica.te", "kjh3k4734g6h12j5"),
        ("dupl@ica.te", "khk45h8kjl68h2346"),
        ("dupl@ica.te", "lkjhlkjh7845j2371"),
        ("dupl@ica.te", "kjh85j37hj5242"),
        ("dupl@ica.te", "saqewry89r"),
    ] {
        let status = register(&mut database, user(email, password));
        assert_eq!(status, StatusCode::Conflict);
    }
}
