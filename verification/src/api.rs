//! What the API endpoints answer: registration, login, and the check of a
//! token.

use crate::database::{after_registration, credentials_match, Database, User};
use crate::token::{is_clock_reading, TokenError, TokenManager, TokenPayload};
use std::time::SystemTime;
use vstd::prelude::*;

verus! {

/// The HTTP statuses that the endpoints answer with.
#[derive(PartialEq, Eq, Structural, Clone, Copy, Debug)]
pub enum StatusCode {
    /// 200
    Success,
    /// 401
    Unauthorized,
    /// 409
    Conflict,
    /// 500
    InternalServerError,
}

/// The status that a registration is answered with, given whether the user
/// was added: a refused registration is taken for an email conflict.
pub open spec fn registration_status(added: bool) -> StatusCode {
    if added {
        StatusCode::Success
    } else {
        StatusCode::Conflict
    }
}

/// Answers a registration, given whether the database added the user.
pub fn register_response(added: bool) -> (status: StatusCode)
    ensures
        status == registration_status(added),
{
    if !added {
        // a store refuses a user whose email is taken
        return StatusCode::Conflict;
    }
    StatusCode::Success
}

/// Handles a registration: adds `user` to the database unless its email is
/// taken, and answers 200 where it was added, 409 where it was not.
pub fn register<D: Database>(database: &mut D, user: User) -> (status: StatusCode)
    ensures
        status == registration_status(!old(database).credentials().contains_key(user.email@)),
        final(database).credentials() == after_registration(
            old(database).credentials(),
            user.email@,
            user.password@,
        ),
{
    let added = database.try_add_user(user);
    register_response(added)
}

/// The answer to a login.
pub enum LoginResponse {
    /// 401 with an empty body: the credentials do not match.
    Unauthorized,
    /// 500 with an empty body: no token could be created.
    InternalServerError,
    /// 200 with the body `{"token": ..}`.
    Token(String),
}

impl LoginResponse {
    /// The status of the answer.
    pub open spec fn status_spec(&self) -> StatusCode {
        match self {
            LoginResponse::Unauthorized => StatusCode::Unauthorized,
            LoginResponse::InternalServerError => StatusCode::InternalServerError,
            LoginResponse::Token(_) => StatusCode::Success,
        }
    }

    /// The status of the answer.
    pub fn status(&self) -> (status: StatusCode)
        ensures
            status == self.status_spec(),
    {
        match self {
            LoginResponse::Unauthorized => StatusCode::Unauthorized,
            LoginResponse::InternalServerError => StatusCode::InternalServerError,
            LoginResponse::Token(_) => StatusCode::Success,
        }
    }
}

/// The answer to a login whose credentials match, given the outcome of
/// creating a token: the token, or an internal error where none was created.
pub open spec fn login_answer(issued: Result<String, TokenError>) -> LoginResponse {
    match issued {
        Ok(token) => LoginResponse::Token(token),
        Err(_) => LoginResponse::InternalServerError,
    }
}

/// Answers a login whose credentials match, given the outcome of creating a
/// token for the user.
pub fn answer_login(issued: Result<String, TokenError>) -> (response: LoginResponse)
    ensures
        response == login_answer(issued),
{
    match issued {
        Ok(token) => LoginResponse::Token(token),
        Err(_) => LoginResponse::InternalServerError,
    }
}

/// Answers a login, given whether the database accepts the user's
/// credentials: a refusal where they do not match; else the token that the
/// manager creates for the user at the current time, or an internal error
/// where it creates none.
pub fn login_response(credentials_valid: bool, tokens: &TokenManager, user: &User) -> (response:
    LoginResponse)
    ensures
        !credentials_valid ==> response is Unauthorized,
        credentials_valid ==> exists|now: SystemTime, issued: Result<String, TokenError>|
            is_clock_reading(now) && #[trigger] tokens.issues(user.email@, now, issued) && response
                == login_answer(issued),
{
    if !credentials_valid {
        return LoginResponse::Unauthorized;
    }
    let issued = tokens.new_token(user);
    let response = answer_login(issued);
    proof {
        let now = choose|now: SystemTime|
            is_clock_reading(now) && #[trigger] tokens.issues(user.email@, now, issued);
        assert(is_clock_reading(now) && tokens.issues(user.email@, now, issued) && response
            == login_answer(issued));
    }
    response
}

/// Handles a login: checks the credentials against the database and, where
/// they match, answers with a new token for the user.
pub fn login<D: Database>(database: &D, tokens: &TokenManager, user: &User) -> (response:
    LoginResponse)
    ensures
        !credentials_match(database.credentials(), user.email@, user.password@)
            ==> response is Unauthorized,
        credentials_match(database.credentials(), user.email@, user.password@) ==> exists|
            now: SystemTime,
            issued: Result<String, TokenError>,
        | is_clock_reading(now) && #[trigger] tokens.issues(user.email@, now, issued) && response
            == login_answer(issued),
{
    let valid = database.validate_user(user);
    login_response(valid, tokens, user)
}

/// The answer to a check of a token: the token itself, whether it is valid,
/// and, where it is, the email of the user it was issued to.
pub struct TokenReport {
    pub token: String,
    pub valid: bool,
    pub user_email: Option<String>,
}

/// `report` reports on `token` given the outcome of decoding it: the token, its
/// validity, and the email where it is valid.
pub open spec fn reports(
    token: Seq<char>,
    decoded: Result<TokenPayload, TokenError>,
    report: TokenReport,
) -> bool {
    &&& report.token@ == token
    &&& report.valid == decoded is Ok
    &&& match decoded {
        Ok(p) => report.user_email matches Some(e) && e@ == p.user_email@,
        Err(_) => report.user_email is None,
    }
}

/// Reports on `token`, given the outcome of decoding it.
pub fn report_token(token: &str, decoded: Result<TokenPayload, TokenError>) -> (report: TokenReport)
    ensures
        reports(token@, decoded, report),
{
    let valid = decoded.is_ok();
    let user_email = match decoded {
        Ok(p) => Some(p.user_email),
        Err(_) => None,
    };
    TokenReport { token: token.to_owned(), valid, user_email }
}

/// Handles a check of a token: decodes and validates it with the token
/// manager at the current time, and reports the outcome.
pub fn get_token(tokens: &TokenManager, token: &str) -> (report: TokenReport)
    ensures
        exists|now: SystemTime, decoded: Result<TokenPayload, TokenError>|
            is_clock_reading(now) && #[trigger] tokens.decodes(token@, now, decoded) && reports(
                token@,
                decoded,
                report,
            ),
{
    let decoded = tokens.decode_and_validate_token(token.to_owned());
    let ghost d = decoded;
    let report = report_token(token, decoded);
    proof {
        let now = choose|now: SystemTime|
            is_clock_reading(now) && #[trigger] tokens.decodes(token@, now, d);
        assert(is_clock_reading(now) && tokens.decodes(token@, now, d) && reports(
            token@,
            d,
            report,
        ));
    }
    report
}

/// Registration followed by login: a registration of a new email is answered
/// with 200, and afterwards a login with that email is refused exactly when
/// its password differs from the registered one.
pub proof fn lemma_register_then_login(
    map: Map<Seq<char>, Seq<char>>,
    email: Seq<char>,
    password: Seq<char>,
    attempt: Seq<char>,
)
    requires
        !map.contains_key(email),
    ensures
        registration_status(!map.contains_key(email)) == StatusCode::Success,
        !credentials_match(after_registration(map, email, password), email, attempt) <==> attempt
            != password,
{
}

/// A registration with an email that is already registered is answered with
/// 409 and leaves the store as it was, whatever password it carries.
pub proof fn lemma_duplicate_registration_conflicts(
    map: Map<Seq<char>, Seq<char>>,
    email: Seq<char>,
    password: Seq<char>,
    other_password: Seq<char>,
)
    ensures
        registration_status(!after_registration(map, email, password).contains_key(email))
            == StatusCode::Conflict,
        after_registration(after_registration(map, email, password), email, other_password)
            == after_registration(map, email, password),
{
}

} // verus!
