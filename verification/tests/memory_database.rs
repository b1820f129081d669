use axum_api::database::{Database, SimpleMemoryDatabase, User};

fn user(email: &str, password: &str) -> User {
    User { email: email.to_string(), password: password.to_string() }
}

#[test]
fn new_store_accepts_no_login() {
    let database = SimpleMemoryDatabase::new();
    assert!(!database.validate_user(&user("a@b.c", "")));
}

#[test]
fn registered_user_validates_with_its_password_only() {
    let mut database = SimpleMemoryDatabase::new();
    assert!(database.try_add_user(user("a@b.c", "secret")));
    assert!(database.validate_user(&user("a@b.c", "secret")));
    assert!(!database.validate_user(&user("a@b.c", "secreT")));
    assert!(!database.validate_user(&user("a@b.c", "")));
    assert!(!database.validate_user(&user("A@b.c", "secret")));
}

#[test]
fn refused_registration_keeps_first_password() {
    let mut database = SimpleMemoryDatabase::new();
    assert!(database.try_add_user(user("a@b.c", "first")));
    assert!(!database.try_add_user(user("a@b.c", "second")));
    assert!(database.validate_user(&user("a@b.c", "first")));
    assert!(!database.validate_user(&user("a@b.c", "second")));
}

#[test]
fn registration_leaves_other_users() {
    let mut database = SimpleMemoryDatabase::new();
    assert!(database.try_add_user(user("one@x.y", "1")));
    assert!(database.try_add_user(user("two@x.y", "2")));
    assert!(database.validate_user(&user("one@x.y", "1")));
    assert!(database.validate_user(&user("two@x.y", "2")));
    assert!(!database.validate_user(&user("one@x.y", "2")));
    assert!(!database.validate_user(&user("two@x.y", "1")));
}

#[test]
fn empty_email_is_an_email_like_any_other() {
    let mut database = SimpleMemoryDatabase::new();
    assert!(database.try_add_user(user("", "")));
    assert!(!database.try_add_user(user("", "x")));
    assert!(database.validate_user(&user("", "")));
}
