//! JSON web tokens for API access: what a token says, how it is issued and
//! how it is checked.

use crate::database::User;
use jsonwebtoken::Algorithm as JwtAlgorithm;
use std::str::FromStr;
use std::time::Duration;
use std::time::SystemTime;
use std::time::SystemTimeError;
use vstd::prelude::*;

verus! {

#[verifier::external_type_specification]
#[verifier::external_body]
pub struct ExJwtError(jsonwebtoken::errors::Error);

#[verifier::external_type_specification]
#[verifier::external_body]
pub struct ExSystemTime(SystemTime);

#[verifier::external_type_specification]
#[verifier::external_body]
pub struct ExSystemTimeError(SystemTimeError);

/// The algorithms that tokens can be signed with.
#[derive(PartialEq, Eq, Structural, Clone, Copy, Debug)]
pub enum Algorithm {
    HS256,
    HS384,
    HS512,
    ES256,
    ES384,
    RS256,
    RS384,
    RS512,
    PS256,
    PS384,
    PS512,
    EdDSA,
}

/// The name by which an algorithm is known in a token's header.
pub open spec fn algorithm_name(algorithm: Algorithm) -> Seq<char> {
    match algorithm {
        Algorithm::HS256 => "HS256"@,
        Algorithm::HS384 => "HS384"@,
        Algorithm::HS512 => "HS512"@,
        Algorithm::ES256 => "ES256"@,
        Algorithm::ES384 => "ES384"@,
        Algorithm::RS256 => "RS256"@,
        Algorithm::RS384 => "RS384"@,
        Algorithm::RS512 => "RS512"@,
        Algorithm::PS256 => "PS256"@,
        Algorithm::PS384 => "PS384"@,
        Algorithm::PS512 => "PS512"@,
        Algorithm::EdDSA => "EdDSA"@,
    }
}

/// The name of an HMAC algorithm: one that signs with a shared secret.
pub open spec fn is_hmac_name(name: Seq<char>) -> bool {
    name == "HS256"@ || name == "HS384"@ || name == "HS512"@
}

/// The algorithm signs with a shared secret.
pub open spec fn is_hmac(algorithm: Algorithm) -> bool {
    algorithm is HS256 || algorithm is HS384 || algorithm is HS512
}

/// Of the algorithms, exactly the HMAC ones have an HMAC name.
pub proof fn lemma_hmac_names(algorithm: Algorithm)
    ensures
        is_hmac_name(algorithm_name(algorithm)) <==> is_hmac(algorithm),
{
    reveal_strlit("HS256");
    reveal_strlit("HS384");
    reveal_strlit("HS512");
    reveal_strlit("ES256");
    reveal_strlit("ES384");
    reveal_strlit("RS256");
    reveal_strlit("RS384");
    reveal_strlit("RS512");
    reveal_strlit("PS256");
    reveal_strlit("PS384");
    reveal_strlit("PS512");
    reveal_strlit("EdDSA");
    if !is_hmac(algorithm) {
        // the other algorithms' names do not start with 'H'
        assert(algorithm_name(algorithm)[0] != 'H');
        assert("HS256"@[0] == 'H' && "HS384"@[0] == 'H' && "HS512"@[0] == 'H');
    }
}

/// The name of an algorithm whose signature is a function of the key and
/// the message: HMAC, RSASSA-PKCS1-v1_5 and EdDSA (RSASSA-PSS and ECDSA draw
/// random numbers into the signature).
pub open spec fn is_deterministic_name(name: Seq<char>) -> bool {
    is_hmac_name(name) || name == "RS256"@ || name == "RS384"@ || name == "RS512"@ || name
        == "EdDSA"@
}

/// The algorithm's signature is a function of the key and the message.
pub open spec fn is_deterministic(algorithm: Algorithm) -> bool {
    is_hmac(algorithm) || algorithm is RS256 || algorithm is RS384 || algorithm is RS512
        || algorithm is EdDSA
}

/// Of the algorithms, exactly the deterministic ones have a deterministic
/// signer's name.
pub proof fn lemma_deterministic_names(algorithm: Algorithm)
    ensures
        is_deterministic_name(algorithm_name(algorithm)) <==> is_deterministic(algorithm),
{
    lemma_hmac_names(algorithm);
    reveal_strlit("HS256");
    reveal_strlit("HS384");
    reveal_strlit("HS512");
    reveal_strlit("ES256");
    reveal_strlit("ES384");
    reveal_strlit("RS256");
    reveal_strlit("RS384");
    reveal_strlit("RS512");
    reveal_strlit("PS256");
    reveal_strlit("PS384");
    reveal_strlit("PS512");
    reveal_strlit("EdDSA");
    if !is_deterministic(algorithm) {
        // the others are ES.. and PS..: neither H.., R.. nor Ed..
        assert(algorithm_name(algorithm)[0] == 'E' || algorithm_name(algorithm)[0] == 'P');
        assert(algorithm_name(algorithm)[1] == 'S');
        assert("RS256"@[0] == 'R' && "RS384"@[0] == 'R' && "RS512"@[0] == 'R');
        assert("EdDSA"@[1] == 'd');
        assert("HS256"@[0] == 'H' && "HS384"@[0] == 'H' && "HS512"@[0] == 'H');
    }
}

/// Each algorithm is written under its own name: the name by which a token's
/// header records an algorithm is the one that jsonwebtoken reads back as
/// that same algorithm, so no two algorithms share a name and none is
/// recorded under another's.
pub proof fn lemma_algorithm_names_read_back(algorithm: Algorithm)
    ensures
        jwt_algorithm_of_name(algorithm_name(algorithm)) == Some(algorithm),
        forall|other: Algorithm|
            #[trigger] algorithm_name(other) == algorithm_name(algorithm) ==> other == algorithm,
{
    reveal_strlit("HS256");
    reveal_strlit("HS384");
    reveal_strlit("HS512");
    reveal_strlit("ES256");
    reveal_strlit("ES384");
    reveal_strlit("RS256");
    reveal_strlit("RS384");
    reveal_strlit("RS512");
    reveal_strlit("PS256");
    reveal_strlit("PS384");
    reveal_strlit("PS512");
    reveal_strlit("EdDSA");
    assert forall|other: Algorithm|
        #[trigger] algorithm_name(other) == algorithm_name(algorithm) implies other == algorithm by {
        if other != algorithm {
            lemma_distinct_names(other, algorithm);
        }
    }
    if jwt_algorithm_of_name(algorithm_name(algorithm)) != Some(algorithm) {
        let a = jwt_algorithm_of_name(algorithm_name(algorithm))->0;
        assert(jwt_algorithm_of_name(algorithm_name(algorithm)) is Some);
        assert(algorithm_name(a) == algorithm_name(algorithm));
        lemma_distinct_names(a, algorithm);
    }
}

/// Two different algorithms have different names.
proof fn lemma_distinct_names(first: Algorithm, second: Algorithm)
    requires
        first != second,
    ensures
        algorithm_name(first) != algorithm_name(second),
{
    reveal_strlit("HS256");
    reveal_strlit("HS384");
    reveal_strlit("HS512");
    reveal_strlit("ES256");
    reveal_strlit("ES384");
    reveal_strlit("RS256");
    reveal_strlit("RS384");
    reveal_strlit("RS512");
    reveal_strlit("PS256");
    reveal_strlit("PS384");
    reveal_strlit("PS512");
    reveal_strlit("EdDSA");
    let (x, y) = (algorithm_name(first), algorithm_name(second));
    assert(x[0] != y[0] || x[1] != y[1] || x[2] != y[2] || x[3] != y[3]);
}

/// `name` is the name of one of the algorithms.
pub open spec fn is_algorithm_name(name: Seq<char>) -> bool {
    exists|algorithm: Algorithm| #[trigger] algorithm_name(algorithm) == name
}

/// The algorithm that jsonwebtoken's `Algorithm::from_str` reads from a name:
/// each of the twelve names of JSON web algorithms (RFC 7518, RFC 8037) stands
/// for its algorithm, and no other string for any.
pub open spec fn jwt_algorithm_of_name(name: Seq<char>) -> Option<Algorithm> {
    if name == "HS256"@ {
        Some(Algorithm::HS256)
    } else if name == "HS384"@ {
        Some(Algorithm::HS384)
    } else if name == "HS512"@ {
        Some(Algorithm::HS512)
    } else if name == "ES256"@ {
        Some(Algorithm::ES256)
    } else if name == "ES384"@ {
        Some(Algorithm::ES384)
    } else if name == "RS256"@ {
        Some(Algorithm::RS256)
    } else if name == "RS384"@ {
        Some(Algorithm::RS384)
    } else if name == "PS256"@ {
        Some(Algorithm::PS256)
    } else if name == "PS384"@ {
        Some(Algorithm::PS384)
    } else if name == "PS512"@ {
        Some(Algorithm::PS512)
    } else if name == "RS512"@ {
        Some(Algorithm::RS512)
    } else if name == "EdDSA"@ {
        Some(Algorithm::EdDSA)
    } else {
        None
    }
}

/// Reads an algorithm's name with jsonwebtoken's `Algorithm::from_str`,
/// which knows the twelve names exactly, and refuses every other string.
#[verifier::external_body]
fn jwt_algorithm_from_name(name: &str) -> (algorithm: Result<Algorithm, jsonwebtoken::errors::Error>)
    ensures
        algorithm is Ok <==> is_algorithm_name(name@),
        algorithm matches Ok(a) ==> algorithm_name(a) == name@,
        algorithm is Ok <==> jwt_algorithm_of_name(name@) is Some,
        algorithm matches Ok(a) ==> jwt_algorithm_of_name(name@) == Some(a),
{
    match JwtAlgorithm::from_str(name) {
        Ok(JwtAlgorithm::HS256) => Ok(Algorithm::HS256),
        Ok(JwtAlgorithm::HS384) => Ok(Algorithm::HS384),
        Ok(JwtAlgorithm::HS512) => Ok(Algorithm::HS512),
        Ok(JwtAlgorithm::ES256) => Ok(Algorithm::ES256),
        Ok(JwtAlgorithm::ES384) => Ok(Algorithm::ES384),
        Ok(JwtAlgorithm::RS256) => Ok(Algorithm::RS256),
        Ok(JwtAlgorithm::RS384) => Ok(Algorithm::RS384),
        Ok(JwtAlgorithm::RS512) => Ok(Algorithm::RS512),
        Ok(JwtAlgorithm::PS256) => Ok(Algorithm::PS256),
        Ok(JwtAlgorithm::PS384) => Ok(Algorithm::PS384),
        Ok(JwtAlgorithm::PS512) => Ok(Algorithm::PS512),
        Ok(JwtAlgorithm::EdDSA) => Ok(Algorithm::EdDSA),
        Err(e) => Err(e),
    }
}

/// The kinds of key that the algorithms sign and verify with.
#[derive(PartialEq, Eq, Structural, Clone, Copy, Debug)]
pub enum KeyFamily {
    /// A shared secret.
    Hmac,
    /// An RSA key, in PEM.
    Rsa,
    /// An elliptic-curve key, in PEM.
    Ec,
    /// An Ed25519 key, in PEM.
    Ed,
}

/// The kind of key that an algorithm signs and verifies with.
pub open spec fn algorithm_family(algorithm: Algorithm) -> KeyFamily {
    match algorithm {
        Algorithm::HS256 | Algorithm::HS384 | Algorithm::HS512 => KeyFamily::Hmac,
        Algorithm::ES256 | Algorithm::ES384 => KeyFamily::Ec,
        Algorithm::EdDSA => KeyFamily::Ed,
        _ => KeyFamily::Rsa,
    }
}

impl Algorithm {
    /// The kind of key that the algorithm signs and verifies with.
    pub fn family(self) -> (family: KeyFamily)
        ensures
            family == algorithm_family(self),
    {
        match self {
            Algorithm::HS256 | Algorithm::HS384 | Algorithm::HS512 => KeyFamily::Hmac,
            Algorithm::ES256 | Algorithm::ES384 => KeyFamily::Ec,
            Algorithm::EdDSA => KeyFamily::Ed,
            Algorithm::RS256 | Algorithm::RS384 | Algorithm::RS512 | Algorithm::PS256
            | Algorithm::PS384 | Algorithm::PS512 => KeyFamily::Rsa,
        }
    }

    /// The algorithm with the given name, as a token's header writes it.
    pub fn from_name(name: &str) -> (algorithm: Result<Algorithm, TokenError>)
        ensures
            algorithm is Ok <==> is_algorithm_name(name@),
            algorithm matches Ok(a) ==> algorithm_name(a) == name@,
            algorithm is Err ==> algorithm matches Err(TokenError::Jwt(_)),
    {
        match jwt_algorithm_from_name(name) {
            Ok(algorithm) => Ok(algorithm),
            Err(e) => Err(TokenError::Jwt(e)),
        }
    }

    /// The name by which the algorithm is known in a token's header.
    pub fn name(self) -> (name: &'static str)
        ensures
            name@ == algorithm_name(self),
    {
        match self {
            Algorithm::HS256 => "HS256",
            Algorithm::HS384 => "HS384",
            Algorithm::HS512 => "HS512",
            Algorithm::ES256 => "ES256",
            Algorithm::ES384 => "ES384",
            Algorithm::RS256 => "RS256",
            Algorithm::RS384 => "RS384",
            Algorithm::RS512 => "RS512",
            Algorithm::PS256 => "PS256",
            Algorithm::PS384 => "PS384",
            Algorithm::PS512 => "PS512",
            Algorithm::EdDSA => "EdDSA",
        }
    }
}

/// The token that jsonwebtoken's `encode` writes for the claims
/// `{"exp": exp, "user_email": user_email}` under a header for the named
/// algorithm, signed with the key that `secret` gives for `family`, where the
/// algorithm signs without random numbers.
pub uninterp spec fn jwt_token(
    algorithm: Seq<char>,
    family: KeyFamily,
    exp: u64,
    user_email: Seq<char>,
    secret: Seq<char>,
) -> Seq<char>;

/// `token` is a JSON web token with a header for the named algorithm and the
/// claims `{"exp": exp, "user_email": user_email}`, whose signature is made
/// with the key that `secret` gives for `family`.
pub uninterp spec fn jwt_signed(
    token: Seq<char>,
    algorithm: Seq<char>,
    family: KeyFamily,
    exp: u64,
    user_email: Seq<char>,
    secret: Seq<char>,
) -> bool;

/// What jsonwebtoken's `decode` reads from `token` with the named algorithm
/// and the key that `secret` gives for `family`, expiry left unchecked:
/// `None` where it refuses the token, else the `exp` claim where it is an
/// unsigned integer and the `user_email` claim where it is a string.
pub uninterp spec fn jwt_verified_claims(
    token: Seq<char>,
    algorithm: Seq<char>,
    family: KeyFamily,
    secret: Seq<char>,
) -> Option<(Option<u64>, Option<Seq<char>>)>;

/// What decoding `token` with `algorithm` and the key that `secret` gives for
/// it reads.
pub open spec fn jwt_decoded(token: Seq<char>, algorithm: Algorithm, secret: Seq<char>) -> Option<
    (Option<u64>, Option<Seq<char>>),
> {
    jwt_verified_claims(token, algorithm_name(algorithm), algorithm_family(algorithm), secret)
}

/// Whatever key verifies `token` with the named algorithm and `family`, it
/// reads the claims `exp` and `user_email`: the claims are those that the
/// token itself carries.
pub open spec fn carries_claims(
    token: Seq<char>,
    algorithm: Seq<char>,
    family: KeyFamily,
    exp: u64,
    user_email: Seq<char>,
) -> bool {
    forall|key: Seq<char>|
        #[trigger] jwt_verified_claims(token, algorithm, family, key) is Some
            ==> jwt_verified_claims(token, algorithm, family, key) == Some(
            (Some(exp), Some(user_email)),
        )
}

/// The number of `.` in a text.
pub open spec fn dot_count(text: Seq<char>) -> nat
    decreases text.len(),
{
    if text.len() == 0 {
        0
    } else {
        dot_count(text.drop_last()) + if text.last() == '.' {
            1nat
        } else {
            0nat
        }
    }
}

/// The view of an optional string.
pub open spec fn optional_view(text: Option<String>) -> Option<Seq<char>> {
    match text {
        Some(t) => Some(t@),
        None => None,
    }
}

/// Writes a token with `jsonwebtoken::encode`: the header is
/// `Header::new(algorithm)`, the claims are `exp` and `user_email` (serialized
/// as the JSON object `{"exp":..,"user_email":..}`), and the key is made from
/// `secret` for `family`: `EncodingKey::from_secret` for a shared secret, else
/// `from_rsa_pem`, `from_ec_pem` or `from_ed_pem`.
///
/// The algorithm is given by its name and read with `Algorithm::from_str`.
/// A token that `encode` writes is `header.claims.signature`, the signature
/// made over the first two parts with the key built from `secret`; decoding
/// it with any key that verifies it reads its two claims. For HMAC,
/// RSASSA-PKCS1-v1_5 and EdDSA the token is a function of the arguments. For
/// an HMAC algorithm with a shared-secret key, serializing and signing cannot
/// fail, and `decode` with the same algorithm and secret verifies the token.
/// For the other families success is left open: it rests on whether the
/// secret is a PEM private key that the signer accepts and, for RSA and
/// ECDSA, on ring's system random source.
#[verifier::external_body]
fn jwt_encode(algorithm: &str, family: KeyFamily, exp: u64, user_email: &str, secret: &str) -> (token:
    Result<String, jsonwebtoken::errors::Error>)
    ensures
        is_hmac_name(algorithm@) && family == KeyFamily::Hmac ==> token is Ok,
        token matches Ok(t) ==> jwt_signed(t@, algorithm@, family, exp, user_email@, secret@),
        token matches Ok(t) ==> carries_claims(t@, algorithm@, family, exp, user_email@),
        is_deterministic_name(algorithm@) ==> (token matches Ok(t) ==> t@ == jwt_token(
            algorithm@,
            family,
            exp,
            user_email@,
            secret@,
        )),
        is_hmac_name(algorithm@) && family == KeyFamily::Hmac ==> (token matches Ok(t)
            ==> jwt_verified_claims(t@, algorithm@, family, secret@) == Some(
            (Some(exp), Some(user_email@)),
        )),
{
    let algorithm = JwtAlgorithm::from_str(algorithm)?;
    let key = match family {
        KeyFamily::Hmac => jsonwebtoken::EncodingKey::from_secret(secret.as_bytes()),
        KeyFamily::Rsa => jsonwebtoken::EncodingKey::from_rsa_pem(secret.as_bytes())?,
        KeyFamily::Ec => jsonwebtoken::EncodingKey::from_ec_pem(secret.as_bytes())?,
        KeyFamily::Ed => jsonwebtoken::EncodingKey::from_ed_pem(secret.as_bytes())?,
    };
    let mut claims = std::collections::BTreeMap::new();
    claims.insert("exp", serde_json::Value::from(exp));
    claims.insert("user_email", serde_json::Value::from(user_email));
    jsonwebtoken::encode(&jsonwebtoken::Header::new(algorithm), &claims, &key)
}

/// Reads a token with `jsonwebtoken::decode`, the claims taken as a JSON
/// value, under `Validation::new(algorithm)` with its expiry check switched
/// off, and the key made from `secret` for `family`: `DecodingKey::from_secret`
/// for a shared secret, else `from_rsa_pem`, `from_ec_pem` or `from_ed_pem`
/// (for these a public key). Returns the `exp` claim where it is an unsigned
/// integer and the `user_email` claim where it is a string.
///
/// Without the expiry check, decoding reads no clock, and verifying draws no
/// random number: the outcome is a function of the arguments. `decode` still
/// requires an `exp` claim, and refuses a token without two `.` separators.
#[verifier::external_body]
fn jwt_decode(token: &str, algorithm: &str, family: KeyFamily, secret: &str) -> (claims: Result<
    (Option<u64>, Option<String>),
    jsonwebtoken::errors::Error,
>)
    ensures
        claims is Ok <==> jwt_verified_claims(token@, algorithm@, family, secret@) is Some,
        claims matches Ok(c) ==> jwt_verified_claims(token@, algorithm@, family, secret@) == Some(
            (c.0, optional_view(c.1)),
        ),
        dot_count(token@) < 2 ==> claims is Err,
{
    let algorithm = JwtAlgorithm::from_str(algorithm)?;
    let key = match family {
        KeyFamily::Hmac => jsonwebtoken::DecodingKey::from_secret(secret.as_bytes()),
        KeyFamily::Rsa => jsonwebtoken::DecodingKey::from_rsa_pem(secret.as_bytes())?,
        KeyFamily::Ec => jsonwebtoken::DecodingKey::from_ec_pem(secret.as_bytes())?,
        KeyFamily::Ed => jsonwebtoken::DecodingKey::from_ed_pem(secret.as_bytes())?,
    };
    let mut validation = jsonwebtoken::Validation::new(algorithm);
    validation.validate_exp = false;
    let data = jsonwebtoken::decode::<serde_json::Value>(token, &key, &validation)?;
    Ok((data.claims["exp"].as_u64(), data.claims["user_email"].as_str().map(String::from)))
}

/// The time `duration` after `time`, where the platform can represent it:
/// what `SystemTime::checked_add` gives.
pub uninterp spec fn time_after(time: SystemTime, duration: Duration) -> Option<SystemTime>;

/// The time elapsed from the Unix epoch to `time`, `None` for a time before
/// the epoch: what `SystemTime::duration_since(UNIX_EPOCH)` gives.
pub uninterp spec fn time_since_epoch(time: SystemTime) -> Option<Duration>;

/// The whole seconds of a duration, its fractional part dropped: what
/// `Duration::as_secs` gives.
pub uninterp spec fn whole_seconds(duration: Duration) -> u64;

/// Reads the system clock with `SystemTime::now`.
#[verifier::external_body]
fn system_time_now() -> (now: SystemTime) {
    SystemTime::now()
}

/// `SystemTime::checked_add`: the time `duration` after `time`, where the
/// platform can represent it; a function of its arguments. That time is no
/// earlier than `time`, so it lies no earlier after the Unix epoch.
#[verifier::external_body]
fn system_time_checked_add(time: SystemTime, duration: Duration) -> (later: Option<SystemTime>)
    ensures
        later == time_after(time, duration),
        later matches Some(l) ==> (time_since_epoch(time) is Some ==> time_since_epoch(l) is Some
            && whole_seconds(time_since_epoch(time)->0) <= whole_seconds(time_since_epoch(l)->0)),
{
    time.checked_add(duration)
}

/// `SystemTime::duration_since` the Unix epoch; an error exactly for a time
/// before it. A function of its argument.
#[verifier::external_body]
fn system_time_since_epoch(time: SystemTime) -> (since: Result<Duration, SystemTimeError>)
    ensures
        since is Ok <==> time_since_epoch(time) is Some,
        since matches Ok(d) ==> time_since_epoch(time) == Some(d),
{
    time.duration_since(std::time::UNIX_EPOCH)
}

/// `Duration::as_secs`: the whole seconds of a duration.
#[verifier::external_body]
fn duration_as_secs(duration: Duration) -> (secs: u64)
    ensures
        secs == whole_seconds(duration),
{
    duration.as_secs()
}

/// `time` is a reading of the system clock: a value that `SystemTime::now`
/// returned.
pub closed spec fn is_clock_reading(time: SystemTime) -> bool {
    call_ensures(system_time_now, (), time)
}

/// Reads the system clock.
fn read_clock() -> (now: SystemTime)
    ensures
        is_clock_reading(now),
{
    let read = system_time_now;
    read()
}

/// Reads the system clock: the whole seconds since the Unix epoch, `None`
/// where it reads before the epoch.
fn clock_seconds() -> (now: Option<u64>)
    ensures
        exists|clock: SystemTime|
            is_clock_reading(clock) && now == #[trigger] seconds_since_epoch(clock),
{
    let clock = read_clock();
    let now = match system_time_since_epoch(clock) {
        Ok(since_epoch) => Some(duration_as_secs(since_epoch)),
        Err(_) => None,
    };
    assert(now == seconds_since_epoch(clock));
    now
}

/// The whole seconds since the Unix epoch at clock reading `now`; `None` for a
/// reading before the epoch.
pub open spec fn seconds_since_epoch(now: SystemTime) -> Option<u64> {
    match time_since_epoch(now) {
        Some(since) => Some(whole_seconds(since)),
        None => None,
    }
}

/// The expiry, in whole seconds since the Unix epoch, of a token issued at
/// clock reading `now` with the given lifetime: the whole seconds of
/// `now + lifetime`; `None` where that time cannot be represented or lies
/// before the epoch.
pub open spec fn expiry_after(now: SystemTime, lifetime: Duration) -> Option<u64> {
    match time_after(now, lifetime) {
        Some(expiry) => seconds_since_epoch(expiry),
        None => None,
    }
}

/// Why a token could not be issued or was not accepted.
pub enum TokenError {
    /// jsonwebtoken refused to encode the claims or to decode the token.
    Jwt(jsonwebtoken::errors::Error),
    /// The system clock reads before the Unix epoch, or the expiry time lies
    /// beyond what the platform can represent.
    Clock,
    /// The token lacks the `exp` or the `user_email` claim.
    MissingClaim,
    /// The token has expired, even allowing for the leeway.
    Expired,
}

/// A token expiring at `exp` (seconds since the Unix epoch) counts as expired
/// at time `now` under the given leeway in seconds.
pub open spec fn is_expired(exp: u64, now: u64, leeway: u64) -> bool {
    exp + leeway < now
}

/// The payload of a JSON web token for API access.
pub struct TokenPayload {
    /// The expiry time, in seconds since the Unix epoch.
    pub exp: u64,
    /// The email of the user that the token was issued to.
    pub user_email: String,
}

/// The payload for a user with the given email, made at clock reading `now`
/// with the given lifetime: it expires one lifetime after `now`, or cannot be
/// made where that expiry cannot be represented. A reading after the Unix
/// epoch whose sum with the lifetime can be represented gives a payload, and
/// the payload expires no earlier than the reading.
pub open spec fn payload_at(
    user_email: Seq<char>,
    lifetime: Duration,
    now: SystemTime,
    payload: Result<TokenPayload, TokenError>,
) -> bool {
    &&& match expiry_after(now, lifetime) {
        Some(exp) => payload matches Ok(p) && p.exp == exp && p.user_email@ == user_email,
        None => payload matches Err(TokenError::Clock),
    }
    &&& time_since_epoch(now) is Some && time_after(now, lifetime) is Some ==> payload is Ok
    &&& payload matches Ok(p) ==> (seconds_since_epoch(now) matches Some(n) ==> n <= p.exp)
}

/// How decoding a token with the given verified claims (`None`: not
/// verified) is answered at time `now` (`None`: the clock reads before the
/// Unix epoch) under `leeway` seconds: a token that is not verified is
/// refused with jsonwebtoken's error, one that lacks a claim is refused as
/// such; one that has both claims is refused where the clock cannot be read
/// or the token has expired, and otherwise accepted with exactly its claims.
pub open spec fn answers_claims_at(
    claims: Option<(Option<u64>, Option<Seq<char>>)>,
    now: Option<u64>,
    leeway: u64,
    payload: Result<TokenPayload, TokenError>,
) -> bool {
    match claims {
        None => payload matches Err(TokenError::Jwt(_)),
        Some((Some(e), Some(m))) => match now {
            None => payload matches Err(TokenError::Clock),
            Some(n) => if is_expired(e, n, leeway) {
                payload matches Err(TokenError::Expired)
            } else {
                payload matches Ok(p) && p.exp == e && p.user_email@ == m
            },
        },
        Some(_) => payload matches Err(TokenError::MissingClaim),
    }
}

/// How a token for a user with the given email is issued at clock reading
/// `now`, with the algorithm, secret and lifetime given: where the expiry
/// cannot be represented it is not issued; else it is a token of the expiry
/// and the email, signed with the key that the secret gives, which any key
/// that verifies it reads back; or jsonwebtoken's error. An HMAC algorithm
/// always issues one, and decoding with the same secret reads it back; a
/// deterministic signer's token is a function of the arguments.
pub open spec fn issues_at(
    algorithm: Algorithm,
    secret: Seq<char>,
    lifetime: Duration,
    user_email: Seq<char>,
    now: SystemTime,
    token: Result<String, TokenError>,
) -> bool {
    &&& match expiry_after(now, lifetime) {
        None => token matches Err(TokenError::Clock),
        Some(exp) => {
            &&& is_hmac(algorithm) ==> token is Ok
            &&& token matches Ok(t) ==> jwt_signed(
                t@,
                algorithm_name(algorithm),
                algorithm_family(algorithm),
                exp,
                user_email,
                secret,
            )
            &&& token matches Ok(t) ==> carries_claims(
                t@,
                algorithm_name(algorithm),
                algorithm_family(algorithm),
                exp,
                user_email,
            )
            &&& is_deterministic(algorithm) ==> (token matches Ok(t) ==> t@ == jwt_token(
                algorithm_name(algorithm),
                algorithm_family(algorithm),
                exp,
                user_email,
                secret,
            ))
            &&& is_hmac(algorithm) ==> (token matches Ok(t) ==> jwt_decoded(t@, algorithm, secret)
                == Some((Some(exp), Some(user_email))))
            &&& token is Err ==> token matches Err(TokenError::Jwt(_))
        },
    }
    &&& time_since_epoch(now) is Some && time_after(now, lifetime) is Some && is_hmac(algorithm)
        ==> token is Ok
}

impl TokenPayload {
    /// A payload for `user` that expires at `exp`.
    pub fn with_expiry(user: &User, exp: u64) -> (payload: Self)
        ensures
            payload.exp == exp,
            payload.user_email@ == user.email@,
    {
        TokenPayload { exp, user_email: user.email.clone() }
    }

    /// A payload for `user`, made at clock reading `now`, that expires
    /// `lifetime` after it, in whole seconds since the Unix epoch.
    ///
    /// Fails where `now + lifetime` cannot be represented or lies before the
    /// epoch.
    pub fn new_at(user: &User, lifetime: Duration, now: SystemTime) -> (payload: Result<Self, TokenError>)
        ensures
            payload_at(user.email@, lifetime, now, payload),
    {
        let expiry = match system_time_checked_add(now, lifetime) {
            Some(expiry) => expiry,
            None => return Err(TokenError::Clock),
        };
        let since_epoch = match system_time_since_epoch(expiry) {
            Ok(since_epoch) => since_epoch,
            Err(_) => return Err(TokenError::Clock),
        };
        Ok(TokenPayload::with_expiry(user, duration_as_secs(since_epoch)))
    }

    /// A payload for `user` that expires `lifetime` from now, in whole seconds
    /// since the Unix epoch.
    ///
    /// Fails where the clock reads such that the expiry cannot be represented
    /// or lies before the epoch.
    pub fn new(user: &User, lifetime: Duration) -> (payload: Result<Self, TokenError>)
        ensures
            exists|now: SystemTime|
                is_clock_reading(now) && #[trigger] payload_at(user.email@, lifetime, now, payload),
    {
        let now = read_clock();
        let payload = TokenPayload::new_at(user, lifetime, now);
        assert(payload_at(user.email@, lifetime, now, payload));
        payload
    }

    /// Encodes the payload into a JSON web token signed with `secret`: a
    /// shared secret for the HMAC algorithms, else a PEM private key of the
    /// algorithm's family.
    ///
    /// A token carries the payload's claims, signed with the key that the
    /// secret gives; any key that verifies it reads them back. With an HMAC
    /// algorithm it always succeeds, and decoding with the same algorithm and
    /// secret reads the claims back. With HMAC, RSASSA-PKCS1-v1_5 and EdDSA
    /// the token is a function of the claims, the algorithm and the secret.
    pub fn encode(&self, algorithm: Algorithm, secret: &str) -> (token: Result<String, TokenError>)
        ensures
            is_hmac(algorithm) ==> token is Ok,
            token matches Ok(t) ==> jwt_signed(
                t@,
                algorithm_name(algorithm),
                algorithm_family(algorithm),
                self.exp,
                self.user_email@,
                secret@,
            ),
            token matches Ok(t) ==> carries_claims(
                t@,
                algorithm_name(algorithm),
                algorithm_family(algorithm),
                self.exp,
                self.user_email@,
            ),
            is_deterministic(algorithm) ==> (token matches Ok(t) ==> t@ == jwt_token(
                algorithm_name(algorithm),
                algorithm_family(algorithm),
                self.exp,
                self.user_email@,
                secret@,
            )),
            is_hmac(algorithm) ==> (token matches Ok(t) ==> jwt_decoded(t@, algorithm, secret@)
                == Some((Some(self.exp), Some(self.user_email@)))),
            token is Err ==> token matches Err(TokenError::Jwt(_)),
    {
        proof {
            lemma_hmac_names(algorithm);
            lemma_deterministic_names(algorithm);
        }
        match jwt_encode(
            algorithm.name(),
            algorithm.family(),
            self.exp,
            self.user_email.as_str(),
            secret,
        ) {
            Ok(token) => Ok(token),
            Err(e) => Err(TokenError::Jwt(e)),
        }
    }

    /// The payload that decoded claims amount to at time `now` (seconds since
    /// the Unix epoch) under `leeway` seconds: both claims must be there, and
    /// the token must not have expired.
    pub fn from_claims(exp: Option<u64>, user_email: Option<String>, now: u64, leeway: u64) -> (payload:
        Result<Self, TokenError>)
        ensures
            match (exp, user_email) {
                (Some(e), Some(m)) => if is_expired(e, now, leeway) {
                    payload matches Err(TokenError::Expired)
                } else {
                    payload matches Ok(p) && p.exp == e && p.user_email@ == m@
                },
                _ => payload matches Err(TokenError::MissingClaim),
            },
    {
        match (exp, user_email) {
            (Some(exp), Some(user_email)) => {
                if (exp as u128) + (leeway as u128) < (now as u128) {
                    Err(TokenError::Expired)
                } else {
                    Ok(TokenPayload { exp, user_email })
                }
            },
            _ => Err(TokenError::MissingClaim),
        }
    }

    /// Decodes a payload from a JSON web token with `algorithm` and the key
    /// that `secret` gives for it, at time `now` (seconds since the Unix
    /// epoch; `None` where the clock reads before it), allowing `leeway`
    /// seconds past the token's expiry.
    pub fn decode_at(
        token: &str,
        algorithm: Algorithm,
        secret: &str,
        leeway: u64,
        now: Option<u64>,
    ) -> (payload: Result<Self, TokenError>)
        ensures
            answers_claims_at(jwt_decoded(token@, algorithm, secret@), now, leeway, payload),
    {
        let (exp, user_email) = match jwt_decode(token, algorithm.name(), algorithm.family(), secret) {
            Ok(claims) => claims,
            Err(e) => return Err(TokenError::Jwt(e)),
        };
        if exp.is_none() || user_email.is_none() {
            return Err(TokenError::MissingClaim);
        }
        match now {
            Some(now) => TokenPayload::from_claims(exp, user_email, now, leeway),
            None => Err(TokenError::Clock),
        }
    }

    /// Decodes a payload from a JSON web token with `algorithm` and the key
    /// that `secret` gives for it, and checks at the current time that it has
    /// not expired, allowing the whole seconds of `leeway`.
    pub fn decode(token: &str, algorithm: Algorithm, secret: &str, leeway: Duration) -> (payload:
        Result<Self, TokenError>)
        ensures
            exists|now: SystemTime|
                is_clock_reading(now) && answers_claims_at(
                    jwt_decoded(token@, algorithm, secret@),
                    #[trigger] seconds_since_epoch(now),
                    whole_seconds(leeway),
                    payload,
                ),
    {
        let now = clock_seconds();
        let payload = TokenPayload::decode_at(token, algorithm, secret, duration_as_secs(leeway), now);
        proof {
            let clock = choose|clock: SystemTime|
                is_clock_reading(clock) && now == #[trigger] seconds_since_epoch(clock);
            assert(is_clock_reading(clock) && answers_claims_at(
                jwt_decoded(token@, algorithm, secret@),
                seconds_since_epoch(clock),
                whole_seconds(leeway),
                payload,
            ));
        }
        payload
    }
}

/// Configurable manager for JSON web tokens for API access.
pub struct TokenManager {
    lifetime: Duration,
    lifetime_leeway: Duration,
    encoding_algorithm: Algorithm,
    secret: String,
}

impl TokenManager {
    /// How long an issued token stays valid.
    pub closed spec fn lifetime_spec(&self) -> Duration {
        self.lifetime
    }

    /// How long past its expiry a token is still accepted.
    pub closed spec fn leeway_spec(&self) -> Duration {
        self.lifetime_leeway
    }

    /// The algorithm that tokens are signed with.
    pub closed spec fn algorithm_spec(&self) -> Algorithm {
        self.encoding_algorithm
    }

    /// The secret, or key, that tokens are signed and checked with.
    pub closed spec fn secret_spec(&self) -> Seq<char> {
        self.secret@
    }

    /// How the manager issues a token for a user with the given email at
    /// clock reading `now`.
    pub open spec fn issues(&self, user_email: Seq<char>, now: SystemTime, token: Result<String, TokenError>) -> bool {
        issues_at(
            self.algorithm_spec(),
            self.secret_spec(),
            self.lifetime_spec(),
            user_email,
            now,
            token,
        )
    }

    /// How the manager answers a check of `token` at clock reading `now`.
    pub open spec fn decodes(&self, token: Seq<char>, now: SystemTime, payload: Result<TokenPayload, TokenError>) -> bool {
        answers_claims_at(
            jwt_decoded(token, self.algorithm_spec(), self.secret_spec()),
            seconds_since_epoch(now),
            whole_seconds(self.leeway_spec()),
            payload,
        )
    }

    /// Creates a new token manager.
    pub fn new(lifetime: Duration, lifetime_leeway: Duration, encoding_algorithm: Algorithm, secret: String) -> (manager: Self)
        ensures
            manager.lifetime_spec() == lifetime,
            manager.leeway_spec() == lifetime_leeway,
            manager.algorithm_spec() == encoding_algorithm,
            manager.secret_spec() == secret@,
    {
        TokenManager { lifetime, lifetime_leeway, encoding_algorithm, secret }
    }

    /// How long an issued token stays valid.
    pub fn lifetime(&self) -> (lifetime: Duration)
        ensures
            lifetime == self.lifetime_spec(),
    {
        self.lifetime
    }

    /// Gives access to the lifetime of the tokens that will be issued.
    pub fn lifetime_mut(&mut self) -> (lifetime: &mut Duration)
        ensures
            *lifetime == old(self).lifetime_spec(),
            final(self).lifetime_spec() == *final(lifetime),
            final(self).leeway_spec() == old(self).leeway_spec(),
            final(self).algorithm_spec() == old(self).algorithm_spec(),
            final(self).secret_spec() == old(self).secret_spec(),
    {
        &mut self.lifetime
    }

    /// How long past its expiry a token is still accepted.
    pub fn lifetime_leeway(&self) -> (leeway: Duration)
        ensures
            leeway == self.leeway_spec(),
    {
        self.lifetime_leeway
    }

    /// Gives access to the leeway that tokens are checked with.
    pub fn lifetime_leeway_mut(&mut self) -> (leeway: &mut Duration)
        ensures
            *leeway == old(self).leeway_spec(),
            final(self).leeway_spec() == *final(leeway),
            final(self).lifetime_spec() == old(self).lifetime_spec(),
            final(self).algorithm_spec() == old(self).algorithm_spec(),
            final(self).secret_spec() == old(self).secret_spec(),
    {
        &mut self.lifetime_leeway
    }

    /// Creates a new token for `user` at clock reading `now`, expiring one
    /// lifetime after it.
    pub fn new_token_at(&self, user: &User, now: SystemTime) -> (token: Result<String, TokenError>)
        ensures
            self.issues(user.email@, now, token),
    {
        let payload = match TokenPayload::new_at(user, self.lifetime, now) {
            Ok(payload) => payload,
            Err(e) => return Err(e),
        };
        payload.encode(self.encoding_algorithm, self.secret.as_str())
    }

    /// Creates a new token for `user`, expiring one lifetime from now.
    ///
    /// With an HMAC algorithm, the token is made with the shared secret and
    /// is issued unless the clock reads such that the expiry cannot be
    /// represented; it carries the user's email and the expiry, and decoding
    /// it with the manager's algorithm and secret reads them back. With
    /// another algorithm the secret must be a PEM private key of its family.
    pub fn new_token(&self, user: &User) -> (token: Result<String, TokenError>)
        ensures
            exists|now: SystemTime|
                is_clock_reading(now) && #[trigger] self.issues(user.email@, now, token),
    {
        let now = read_clock();
        let token = self.new_token_at(user, now);
        assert(self.issues(user.email@, now, token));
        token
    }

    /// Decodes a token into a payload according to the manager's
    /// configuration: its algorithm, its secret (for the algorithms other than
    /// HMAC, a PEM public key), and its leeway for expiry, at the current time.
    pub fn decode_and_validate_token(&self, token: String) -> (payload: Result<TokenPayload, TokenError>)
        ensures
            exists|now: SystemTime|
                is_clock_reading(now) && #[trigger] self.decodes(token@, now, payload),
    {
        let now = clock_seconds();
        let payload = TokenPayload::decode_at(
            token.as_str(),
            self.encoding_algorithm,
            self.secret.as_str(),
            duration_as_secs(self.lifetime_leeway),
            now,
        );
        proof {
            let clock = choose|clock: SystemTime|
                is_clock_reading(clock) && now == #[trigger] seconds_since_epoch(clock);
            assert(is_clock_reading(clock) && self.decodes(token@, clock, payload));
        }
        payload
    }
}

/// A token is read back as it was issued: a token that a manager with an HMAC
/// algorithm issued for a user at one clock reading, checked by that manager
/// at any clock reading up to its expiry plus the leeway, is accepted as that
/// user's, with that expiry; checked later, it is refused as expired.
pub proof fn lemma_issued_token_reads_back(
    manager: TokenManager,
    user_email: Seq<char>,
    issued_at: SystemTime,
    token: String,
    checked_at: SystemTime,
    payload: Result<TokenPayload, TokenError>,
)
    requires
        is_hmac(manager.algorithm_spec()),
        manager.issues(user_email, issued_at, Ok(token)),
        manager.decodes(token@, checked_at, payload),
        seconds_since_epoch(checked_at) is Some,
    ensures
        expiry_after(issued_at, manager.lifetime_spec()) matches Some(exp) && {
            let now = seconds_since_epoch(checked_at)->0;
            let leeway = whole_seconds(manager.leeway_spec());
            &&& now <= exp + leeway ==> (payload matches Ok(p) && p.exp == exp && p.user_email@
                == user_email)
            &&& now > exp + leeway ==> payload matches Err(TokenError::Expired)
        },
{
}

/// A token is checked at the moment of the check: a token that a manager
/// with an HMAC algorithm issued at one reading of the system clock, checked
/// by that manager at a later reading, is accepted as the user's, with the
/// expiry one lifetime after the first reading, as long as the later reading
/// lies no further than the leeway past that expiry, and refused as expired
/// beyond it.
pub proof fn lemma_token_checked_at_its_reading(
    manager: TokenManager,
    user_email: Seq<char>,
    issued_at: SystemTime,
    token: String,
    checked_at: SystemTime,
    payload: Result<TokenPayload, TokenError>,
)
    requires
        is_hmac(manager.algorithm_spec()),
        is_clock_reading(issued_at),
        is_clock_reading(checked_at),
        manager.issues(user_email, issued_at, Ok(token)),
        manager.decodes(token@, checked_at, payload),
        seconds_since_epoch(checked_at) is Some,
    ensures
        expiry_after(issued_at, manager.lifetime_spec()) matches Some(exp) && {
            let now = seconds_since_epoch(checked_at)->0;
            let leeway = whole_seconds(manager.leeway_spec());
            &&& now <= exp + leeway <==> payload is Ok
            &&& payload matches Ok(p) ==> p.exp == exp && p.user_email@ == user_email
            &&& payload is Err ==> payload matches Err(TokenError::Expired)
        },
{
    lemma_issued_token_reads_back(manager, user_email, issued_at, token, checked_at, payload);
}

/// A token is never taken for another user or another expiry, whatever the
/// algorithm: a token that one manager issued for a user, checked by any
/// manager with the same algorithm (whatever its key), is either refused
/// because that manager's key does not verify it, or read as that user's
/// with that expiry: accepted up to the expiry plus the checker's leeway, and
/// refused as expired after it.
pub proof fn lemma_issued_token_never_misread(
    issuer: TokenManager,
    checker: TokenManager,
    user_email: Seq<char>,
    issued_at: SystemTime,
    token: String,
    checked_at: SystemTime,
    payload: Result<TokenPayload, TokenError>,
)
    requires
        checker.algorithm_spec() == issuer.algorithm_spec(),
        issuer.issues(user_email, issued_at, Ok(token)),
        checker.decodes(token@, checked_at, payload),
        seconds_since_epoch(checked_at) is Some,
    ensures
        expiry_after(issued_at, issuer.lifetime_spec()) matches Some(exp) && {
            let now = seconds_since_epoch(checked_at)->0;
            let leeway = whole_seconds(checker.leeway_spec());
            ||| payload matches Err(TokenError::Jwt(_))
            ||| now <= exp + leeway && (payload matches Ok(p) && p.exp == exp && p.user_email@
                == user_email)
            ||| now > exp + leeway && payload matches Err(TokenError::Expired)
        },
{
    let exp = expiry_after(issued_at, issuer.lifetime_spec())->0;
    let claims = jwt_decoded(token@, checker.algorithm_spec(), checker.secret_spec());
    if claims is Some {
        assert(jwt_verified_claims(
            token@,
            algorithm_name(checker.algorithm_spec()),
            algorithm_family(checker.algorithm_spec()),
            checker.secret_spec(),
        ) is Some);
    }
}

/// A token with both claims is accepted exactly until its expiry plus the
/// leeway: at a time `now` it is expired exactly when `now` lies past
/// `exp + leeway`.
pub proof fn lemma_expiry_window(exp: u64, now: u64, leeway: u64)
    ensures
        !is_expired(exp, now, leeway) <==> now <= exp + leeway,
        now <= exp ==> !is_expired(exp, now, leeway),
{
}

} // verus!
