//! Password hashing and identity tokens.
//!
//! Hashing is Argon2 and tokens are HS256 JSON Web Tokens; both are computed
//! by outside crates and enter the proofs only through the trusted items of
//! this file. What is verified here is the rule on top of them: a token stands
//! for its subject as long as its expiry lies strictly in the future.

use argon2::password_hash::rand_core::OsRng;
use argon2::password_hash::SaltString;
use argon2::{Argon2, PasswordHash, PasswordHasher, PasswordVerifier};
use jsonwebtoken::{decode, encode, Algorithm, DecodingKey, EncodingKey, Header, Validation};
use vstd::prelude::*;

verus! {

/// Seconds for which a token from [`generate_jwt`] is valid: fifteen minutes.
pub const TOKEN_VALIDITY_SECS: u64 = 900;

/// The verified payload of a token: who it stands for, and until when
/// (seconds since the Unix epoch, exclusive).
#[derive(Debug, PartialEq, Eq)]
pub struct Claims {
    pub sub: String,
    pub exp: u64,
}

/// A claim as contracts see it.
pub struct ClaimsView {
    pub sub: Seq<char>,
    pub exp: u64,
}

impl View for Claims {
    type V = ClaimsView;

    open spec fn view(&self) -> ClaimsView {
        ClaimsView { sub: self.sub@, exp: self.exp }
    }
}

impl Clone for Claims {
    fn clone(&self) -> (copy: Self)
        ensures
            copy == *self,
    {
        Claims { sub: self.sub.clone(), exp: self.exp }
    }
}

/// The view of a claim that may be absent.
pub open spec fn claims_view(claims: Option<Claims>) -> Option<ClaimsView> {
    match claims {
        Some(c) => Some(c@),
        None => None,
    }
}

/// Why a password operation failed.
#[derive(Clone, Copy, Debug, PartialEq, Eq, Structural)]
pub enum PasswordError {
    /// The hasher could not produce a hash.
    HashingFailed,
    /// The stored hash is not a well-formed PHC string.
    MalformedHash,
}

// ---------------------------------------------------------------------------
// Trusted items
// ---------------------------------------------------------------------------

/// `argon2::password_hash::Error`, carried through unread: the library maps
/// every value of it to a [`PasswordError`] by where it arose.
#[verifier::external_type_specification]
#[verifier::external_body]
pub struct ExPasswordHashError(argon2::password_hash::Error);

/// `argon2::password_hash::SaltString`, carried unread from the generator
/// to the hasher.
#[verifier::external_type_specification]
#[verifier::external_body]
pub struct ExSaltString(argon2::password_hash::SaltString);

/// What `Argon2::default().verify_password` decides for a password and a PHC
/// hash string: `None` where `PasswordHash::new` rejects the string,
/// otherwise whether the password matches.
pub uninterp spec fn password_check(password: Seq<char>, hash: Seq<char>) -> Option<bool>;

/// The compact HS256 token that `jsonwebtoken::encode` produces for the
/// claims `{sub, exp}` under a secret.
pub uninterp spec fn jwt_encoding(sub: Seq<char>, exp: u64, secret: Seq<u8>) -> Seq<char>;

/// What `jsonwebtoken::decode` recovers from a token under a secret when it
/// checks the HS256 signature and the shape of the claims but not the clock:
/// the subject and expiry, or `None` where it reports any error.
pub uninterp spec fn jwt_decoding(token: Seq<char>, secret: Seq<u8>) -> Option<(Seq<char>, u64)>;

/// Calls `SaltString::generate` with the operating system's generator. The
/// salt is random: nothing is claimed of it.
#[verifier::external_body]
fn random_salt() -> SaltString {
    SaltString::generate(&mut OsRng)
}

/// Calls `PasswordHasher::hash_password` on `Argon2::default()` and renders
/// the result as a PHC string. Trusted: a hash that comes back verifies
/// against the password it was made from, as the crate's documentation shows.
#[verifier::external_body]
fn argon2_hash(password: &str, salt: &SaltString) -> (hashed: Result<
    String,
    argon2::password_hash::Error,
>)
    ensures
        hashed matches Ok(h) ==> password_check(password@, h@) == Some(true),
{
    Ok(Argon2::default().hash_password(password.as_bytes(), salt)?.to_string())
}

/// Calls `PasswordHash::new` on the hash string and, where it parses,
/// `PasswordVerifier::verify_password` on `Argon2::default()`. Trusted: the
/// outcome is [`password_check`] of the two strings; an error comes back
/// exactly where the hash string does not parse.
#[verifier::external_body]
fn argon2_verify(password: &str, hash: &str) -> (verdict: Result<
    bool,
    argon2::password_hash::Error,
>)
    ensures
        verdict matches Ok(b) ==> password_check(password@, hash@) == Some(b),
        verdict is Err ==> password_check(password@, hash@) is None,
{
    let parsed = PasswordHash::new(hash)?;
    Ok(Argon2::default().verify_password(password.as_bytes(), &parsed).is_ok())
}

/// Calls `jsonwebtoken::encode` with the default header (HS256), the JSON
/// object `{"sub": sub, "exp": exp}` and the secret as an HMAC key. Trusted:
/// the call does not fail on such input, the token is [`jwt_encoding`] of the
/// arguments, and decoding it under the same secret gives the claims back.
#[verifier::external_body]
fn jwt_sign(sub: &str, exp: u64, secret: &[u8]) -> (token: String)
    ensures
        token@ == jwt_encoding(sub@, exp, secret@),
        jwt_decoding(token@, secret@) == Some((sub@, exp)),
{
    let mut claims = serde_json::Map::new();
    claims.insert("sub".to_string(), serde_json::Value::from(sub));
    claims.insert("exp".to_string(), serde_json::Value::from(exp));
    encode(&Header::default(), &claims, &EncodingKey::from_secret(secret))
        .expect("HS256 signing of a JSON object cannot fail")
}

/// Calls `jsonwebtoken::decode` for HS256 with expiry validation switched
/// off, and reads the string `sub` and the unsigned integer `exp` out of the
/// decoded JSON. Trusted: the result is [`jwt_decoding`] of the arguments.
#[verifier::external_body]
fn jwt_open(token: &str, secret: &[u8]) -> (claims: Option<Claims>)
    ensures
        claims matches Some(c) ==> jwt_decoding(token@, secret@) == Some((c.sub@, c.exp)),
        claims is None ==> jwt_decoding(token@, secret@) is None,
{
    let mut validation = Validation::new(Algorithm::HS256);
    validation.validate_exp = false;
    let key = DecodingKey::from_secret(secret);
    let data = decode::<serde_json::Value>(token, &key, &validation).ok()?;
    let sub = data.claims.get("sub")?.as_str()?.to_string();
    let exp = data.claims.get("exp")?.as_u64()?;
    Some(Claims { sub, exp })
}

/// The text that `DateTime::to_rfc3339` gives for the UTC instant that lies
/// `seconds` seconds and `nanos` nanoseconds after the Unix epoch.
pub uninterp spec fn rfc3339_text(seconds: i64, nanos: u32) -> Seq<char>;

/// Calls `chrono::Utc::now` once and hands that instant out in three forms:
/// its `timestamp`, its `timestamp_subsec_nanos` and its `to_rfc3339`.
/// Nothing is claimed of the time itself. Trusted: the text is the rendering
/// of the very instant that the two numbers give.
#[verifier::external_body]
pub(crate) fn utc_now() -> (reading: (i64, u32, String))
    ensures
        reading.2@ == rfc3339_text(reading.0, reading.1),
{
    let now = chrono::Utc::now();
    (now.timestamp(), now.timestamp_subsec_nanos(), now.to_rfc3339())
}

// ---------------------------------------------------------------------------
// Passwords
// ---------------------------------------------------------------------------

/// Hashes a password with a fresh random salt.
///
/// Two calls on one password give different hashes, so the contract states
/// what every hash has in common: it verifies against the password.
pub fn hash_password(password: &str) -> (hashed: Result<String, PasswordError>)
    ensures
        hashed matches Ok(h) ==> password_check(password@, h@) == Some(true),
        hashed matches Err(e) ==> e == PasswordError::HashingFailed,
{
    let salt = random_salt();
    match argon2_hash(password, &salt) {
        Ok(h) => Ok(h),
        Err(_) => Err(PasswordError::HashingFailed),
    }
}

/// The outcome of verification as callers receive it.
pub open spec fn verification_of(check: Option<bool>) -> Result<bool, PasswordError> {
    match check {
        Some(b) => Ok(b),
        None => Err(PasswordError::MalformedHash),
    }
}

/// Checks a password against a stored hash. A malformed hash is an error,
/// never a match.
pub fn verify_password(password: &str, hash: &str) -> (verdict: Result<bool, PasswordError>)
    ensures
        verdict == verification_of(password_check(password@, hash@)),
{
    match argon2_verify(password, hash) {
        Ok(b) => Ok(b),
        Err(_) => Err(PasswordError::MalformedHash),
    }
}

// ---------------------------------------------------------------------------
// Tokens
// ---------------------------------------------------------------------------

/// `token` is the token signed for `subject` with expiry `exp` under
/// `secret`, and it decodes under that secret to those claims.
pub open spec fn signed_for(token: Seq<char>, subject: Seq<char>, exp: u64, secret: Seq<u8>) -> bool {
    &&& token == jwt_encoding(subject, exp, secret)
    &&& jwt_decoding(token, secret) == Some((subject, exp))
}

/// `token` was issued for `subject` at time `now` with validity `window`.
pub open spec fn issued_at(
    token: Seq<char>,
    subject: Seq<char>,
    secret: Seq<u8>,
    now: u64,
    window: u64,
) -> bool {
    &&& now + window <= u64::MAX
    &&& signed_for(token, subject, (now + window) as u64, secret)
}

/// A decoded claim counts at time `now` iff its expiry lies strictly in the
/// future; there is no leeway.
pub open spec fn live(decoded: Option<ClaimsView>, now: u64) -> Option<ClaimsView> {
    match decoded {
        Some(c) => if now < c.exp {
            Some(c)
        } else {
            None
        },
        None => None,
    }
}

/// The claims that `token` proves at time `now` under `secret`, if any.
pub open spec fn token_claims(token: Seq<char>, secret: Seq<u8>, now: u64) -> Option<ClaimsView> {
    match jwt_decoding(token, secret) {
        Some((sub, exp)) => live(Some(ClaimsView { sub, exp }), now),
        None => None,
    }
}

/// Drops a decoded claim that has expired at `now`.
pub fn check_expiry(decoded: Option<Claims>, now: u64) -> (claims: Option<Claims>)
    ensures
        claims_view(claims) == live(claims_view(decoded), now),
        claims matches Some(c) ==> decoded == Some(c),
{
    match decoded {
        Some(c) => {
            if now < c.exp {
                Some(c)
            } else {
                None
            }
        },
        None => None,
    }
}

/// Signs a token for `subject` that expires `window` seconds after `now`.
///
/// Returns `None` exactly when that expiry does not fit in 64 bits.
pub fn issue_token(subject: &str, secret: &[u8], now: u64, window: u64) -> (token: Option<String>)
    ensures
        token is Some <==> now + window <= u64::MAX,
        token matches Some(t) ==> issued_at(t@, subject@, secret@, now, window),
        token matches Some(t) ==> (window > 0 ==> token_claims(t@, secret@, now) == Some(
            ClaimsView { sub: subject@, exp: (now + window) as u64 },
        )),
{
    match now.checked_add(window) {
        Some(exp) => Some(jwt_sign(subject, exp, secret)),
        None => None,
    }
}

/// Verifies `token` at time `now`: signature, claim shape and expiry.
///
/// `None` stands for every kind of invalid token alike.
pub fn verify_token(token: &str, secret: &[u8], now: u64) -> (claims: Option<Claims>)
    ensures
        claims_view(claims) == token_claims(token@, secret@, now),
{
    check_expiry(jwt_open(token, secret), now)
}

/// A clock reading as a count of seconds since the epoch; a reading before
/// the epoch counts as the epoch.
pub open spec fn seconds_since_epoch(reading: i64) -> u64 {
    if reading < 0 {
        0
    } else {
        reading as u64
    }
}

/// The clock reading as a count of seconds since the epoch; a clock set
/// before the epoch reads as the epoch.
pub fn epoch_seconds(reading: i64) -> (now: u64)
    ensures
        now == seconds_since_epoch(reading),
        now == if reading < 0 { 0 } else { reading },
        now <= i64::MAX,
{
    if reading < 0 {
        0
    } else {
        reading as u64
    }
}

/// Signs a token for `user_id` that expires [`TOKEN_VALIDITY_SECS`] after
/// the current time.
///
/// The clock is read inside, so the contract holds for whatever it said: the
/// token was issued at some time with the fixed window.
pub fn generate_jwt(user_id: &str, secret: &[u8]) -> (token: String)
    ensures
        exists|now: u64| #[trigger] issued_at(token@, user_id@, secret@, now, TOKEN_VALIDITY_SECS),
{
    let now = epoch_seconds(utc_now().0);
    let token = jwt_sign(user_id, now + TOKEN_VALIDITY_SECS, secret);
    assert(issued_at(token@, user_id@, secret@, now, TOKEN_VALIDITY_SECS));
    token
}

/// Verifies `token` against the current time.
///
/// The clock is read inside, so the contract holds for whatever it said: the
/// result is that of [`verify_token`] at some time.
pub fn verify_jwt(token: &str, secret: &[u8]) -> (claims: Option<Claims>)
    ensures
        exists|now: u64| claims_view(claims) == #[trigger] token_claims(token@, secret@, now),
{
    let now = epoch_seconds(utc_now().0);
    verify_token(token, secret, now)
}

// ---------------------------------------------------------------------------
// Laws
// ---------------------------------------------------------------------------

/// A token verified at the moment it was issued yields a claim with its
/// subject, whatever the subject, the secret and the (positive) window.
pub proof fn issued_token_verifies(
    token: Seq<char>,
    subject: Seq<char>,
    secret: Seq<u8>,
    now: u64,
    window: u64,
)
    requires
        issued_at(token, subject, secret, now, window),
        window > 0,
    ensures
        token_claims(token, secret, now) == Some(
            ClaimsView { sub: subject, exp: (now + window) as u64 },
        ),
{
}

/// A token stays valid until just before its window has elapsed.
pub proof fn token_valid_within_window(
    token: Seq<char>,
    subject: Seq<char>,
    secret: Seq<u8>,
    now: u64,
    window: u64,
    later: u64,
)
    requires
        issued_at(token, subject, secret, now, window),
        later < now + window,
    ensures
        token_claims(token, secret, later) == Some(
            ClaimsView { sub: subject, exp: (now + window) as u64 },
        ),
{
}

/// A token verified once its window has elapsed is invalid, whatever the
/// subject and the window.
pub proof fn expired_token_is_invalid(
    token: Seq<char>,
    subject: Seq<char>,
    secret: Seq<u8>,
    now: u64,
    window: u64,
    later: u64,
)
    requires
        issued_at(token, subject, secret, now, window),
        later >= now + window,
    ensures
        token_claims(token, secret, later) is None,
{
}

} // verus!
