//! Parts of the storage and security adapters: reading stored amounts and
//! statuses back, the claims of signed tokens and their expiry, password
//! hashing with Argon2, and an email sender that sends nothing.

use vstd::prelude::*;

use crate::auth::{AccessClaims, AuthError, RefreshClaims, UserRole};
use crate::notifications::{EmailMessage, EmailSender, NotificationError};
use crate::repos::PersistenceError;
use crate::shared::{Currency, Money};
use crate::status::StatusText;
use crate::platform::in_calendar;
use crate::text::{owned, push_text, utf8_len};

verus! {

/// A stored amount read back: its currency code must parse and its amount
/// must not be negative; a stored value that does not is a storage failure.
pub fn parse_money(amount_minor: i64, currency: &str) -> (r: Result<Money, PersistenceError>)
    ensures
        match Currency::spec_parse(currency@) {
            None => r matches Err(PersistenceError::Repository(m)) && m@ == "invalid currency"@,
            Some(code) => if amount_minor < 0 {
                r matches Err(PersistenceError::Repository(m)) && m@ == "amount must be non-negative"@
            } else {
                r matches Ok(v) && v.amount_minor == amount_minor && v.currency.spec_text() == code
            },
        },
{
    let currency = match Currency::from_str(currency) {
        Ok(c) => c,
        Err(e) => return Err(PersistenceError::Repository(owned(e))),
    };
    match Money::new(amount_minor, currency) {
        Ok(m) => Ok(m),
        Err(e) => Err(PersistenceError::Repository(owned(e))),
    }
}

/// A stored status read back; a text that names no status is a storage failure.
pub fn parse_status<T: StatusText>(value: &str) -> (r: Result<T, PersistenceError>)
    ensures
        match T::spec_parse_text(value@) {
            Some(v) => r matches Ok(x) && x == v,
            None => r matches Err(PersistenceError::Repository(m)) && m@ == T::spec_parse_error(),
        },
{
    match T::parse_text(value) {
        Ok(v) => Ok(v),
        Err(e) => Err(PersistenceError::Repository(owned(e))),
    }
}

/// The secrets that tokens are signed with and how long they live, in seconds.
#[derive(Debug)]
pub struct JwtConfig {
    pub access_secret: String,
    pub refresh_secret: String,
    pub access_ttl_secs: i64,
    pub refresh_ttl_secs: i64,
}

/// Issues and reads signed access, refresh and email verification tokens.
#[derive(Debug)]
pub struct JwtTokenService {
    config: JwtConfig,
}

impl JwtTokenService {
    pub closed spec fn spec_config(&self) -> JwtConfig {
        self.config
    }

    pub fn new(config: JwtConfig) -> (s: JwtTokenService)
        ensures
            s.spec_config() == config,
    {
        JwtTokenService { config }
    }

    /// The configuration the service signs with.
    pub fn config(&self) -> (c: &JwtConfig)
        ensures
            *c == self.spec_config(),
    {
        &self.config
    }
}

/// A signed token and when it expires, in microseconds since the Unix epoch.
#[derive(Debug)]
pub struct IssuedToken {
    pub token: String,
    pub expires_at: i64,
}

/// A signed email verification token and when it expires.
#[derive(Debug)]
pub struct IssuedVerificationToken {
    pub token: String,
    pub expires_at: i64,
}

/// Claims of an email verification token.
#[derive(Debug)]
pub struct EmailVerificationClaims {
    pub sub: u128,
    pub verification_id: u128,
    pub exp: i64,
    pub iat: i64,
    pub token_type: String,
}

/// Whether an instant, in microseconds since the Unix epoch, falls on a day of
/// chrono's calendar (1970-01-01 is day 719163 of it).
pub open spec fn instant_in_calendar(micros: int) -> bool {
    in_calendar(micros / 86_400_000_000 + 719_163)
}

/// Whether a whole number of seconds makes a chrono `TimeDelta`, which holds
/// at most `i64::MAX` milliseconds either way.
pub open spec fn seconds_in_delta_range(secs: int) -> bool {
    -9_223_372_036_854_775 <= secs <= 9_223_372_036_854_775
}

/// Whether `secs` seconds can be added to the instant `now` in chrono: both
/// the start and the end fall in its calendar and the span is a `TimeDelta`.
pub open spec fn can_add_seconds(now: int, secs: int) -> bool {
    instant_in_calendar(now) && seconds_in_delta_range(secs) && instant_in_calendar(now + secs * 1_000_000)
}

/// The instant `secs` seconds after `now`, both in microseconds; wraps
/// `chrono::DateTime::from_timestamp_micros(now)`, `TimeDelta::try_seconds(secs)`
/// and `checked_add_signed`, each of which gives `None` exactly outside the
/// ranges that `can_add_seconds` names.
#[verifier::external_body]
fn instant_after_seconds(now: i64, secs: i64) -> (r: Option<i64>)
    ensures
        r is Some <==> can_add_seconds(now as int, secs as int),
        r matches Some(m) ==> m == now + secs * 1_000_000,
{
    let start = chrono::DateTime::from_timestamp_micros(now)?;
    let span = chrono::TimeDelta::try_seconds(secs)?;
    start.checked_add_signed(span).map(|d| d.timestamp_micros())
}

/// The instant of a Unix timestamp in seconds, in microseconds; wraps
/// `chrono::DateTime::from_timestamp(secs, 0)`, which gives `None` exactly for
/// a timestamp whose day falls outside chrono's calendar.
#[verifier::external_body]
fn instant_of_seconds(secs: i64) -> (r: Option<i64>)
    ensures
        r is Some <==> in_calendar(secs / 86_400 + 719_163),
        r matches Some(m) ==> m == secs * 1_000_000,
{
    chrono::DateTime::<chrono::Utc>::from_timestamp(secs, 0).map(|d| d.timestamp_micros())
}

/// The whole seconds of an instant in microseconds, rounded down.
pub fn unix_seconds(micros: i64) -> (s: i64)
    ensures
        s == micros / 1_000_000,
{
    if micros >= 0 {
        let q = (micros as u64) / 1_000_000u64;
        assert(q <= micros);
        q as i64
    } else {
        let a: i64 = -(micros + 1);
        let q = (a as u64) / 1_000_000u64;
        assert(q <= a);
        let r: i64 = -(q as i64) - 1;
        assert(micros / 1_000_000 == r) by (nonlinear_arith)
            requires
                a == -(micros + 1),
                a >= 0,
                q == a / 1_000_000,
                r == -q - 1,
        {
            assert(a == q * 1_000_000 + a % 1_000_000);
            assert(micros == r * 1_000_000 + (999_999 - a % 1_000_000));
        }
        r
    }
}

/// The claims of an access token issued at `now` and when it expires, or
/// `None` when chrono cannot add the lifetime to `now`.
pub fn access_claims(
    config: &JwtConfig,
    user_id: u128,
    role: UserRole,
    session_id: u128,
    jti: u128,
    now: i64,
) -> (r: Option<(AccessClaims, i64)>)
    ensures
        r is Some <==> can_add_seconds(now as int, config.access_ttl_secs as int),
        r matches Some((c, expires_at)) ==> ({
            &&& expires_at == now + config.access_ttl_secs * 1_000_000
            &&& c.sub == user_id && c.role == role && c.session_id == session_id && c.jti == jti
            &&& c.exp == expires_at / 1_000_000
            &&& c.iat == now / 1_000_000
            &&& c.token_type@ == "access"@
        }),
{
    let expires_at = instant_after_seconds(now, config.access_ttl_secs)?;
    Some((
        AccessClaims {
            sub: user_id,
            role,
            session_id,
            jti,
            exp: unix_seconds(expires_at),
            iat: unix_seconds(now),
            token_type: owned("access"),
        },
        expires_at,
    ))
}

/// The claims of a refresh token issued at `now` and when it expires, or
/// `None` when chrono cannot add the lifetime to `now`.
pub fn refresh_claims(config: &JwtConfig, user_id: u128, session_id: u128, now: i64) -> (r: Option<
    (RefreshClaims, i64),
>)
    ensures
        r is Some <==> can_add_seconds(now as int, config.refresh_ttl_secs as int),
        r matches Some((c, expires_at)) ==> ({
            &&& expires_at == now + config.refresh_ttl_secs * 1_000_000
            &&& c.sub == user_id && c.session_id == session_id
            &&& c.exp == expires_at / 1_000_000
            &&& c.iat == now / 1_000_000
            &&& c.token_type@ == "refresh"@
        }),
{
    let expires_at = instant_after_seconds(now, config.refresh_ttl_secs)?;
    Some((
        RefreshClaims {
            sub: user_id,
            session_id,
            exp: unix_seconds(expires_at),
            iat: unix_seconds(now),
            token_type: owned("refresh"),
        },
        expires_at,
    ))
}

/// The claims of an email verification token issued at `now`, which lives
/// a day, or `None` when chrono cannot add a day to `now`.
pub fn verification_claims(user_id: u128, verification_id: u128, now: i64) -> (r: Option<
    (EmailVerificationClaims, i64),
>)
    ensures
        r is Some <==> can_add_seconds(now as int, 86_400),
        r matches Some((c, expires_at)) ==> ({
            &&& expires_at == now + 86_400 * 1_000_000
            &&& c.sub == user_id && c.verification_id == verification_id
            &&& c.exp == expires_at / 1_000_000
            &&& c.iat == now / 1_000_000
            &&& c.token_type@ == "email_verification"@
        }),
{
    let expires_at = instant_after_seconds(now, 86_400)?;
    Some((
        EmailVerificationClaims {
            sub: user_id,
            verification_id,
            exp: unix_seconds(expires_at),
            iat: unix_seconds(now),
            token_type: owned("email_verification"),
        },
        expires_at,
    ))
}

/// When a decoded email verification token expires: its `exp` in
/// microseconds; an `exp` outside the range of calendar time is a security
/// failure.
pub fn verification_expiry(exp: i64) -> (r: Result<i64, AuthError>)
    ensures
        r is Ok <==> in_calendar(exp / 86_400 + 719_163),
        r matches Ok(m) ==> m == exp * 1_000_000,
        r matches Err(e) ==> e matches AuthError::Security(m) && m@ == "invalid email verification exp"@,
{
    match instant_of_seconds(exp) {
        Some(m) => Ok(m),
        None => Err(AuthError::Security(owned("invalid email verification exp"))),
    }
}

/// Hashes and checks secrets.
pub trait PasswordHasher {
    fn hash_secret(&self, value: &str) -> Result<String, AuthError>;

    fn verify_secret(&self, value: &str, hash: &str) -> Result<bool, AuthError>;
}

/// Hashes secrets with Argon2 and a random salt.
#[derive(Debug, Default)]
pub struct Argon2PasswordHasher;

/// The PHC string that every hash of `Argon2::default()` begins with: the
/// Argon2id algorithm, version 19, 19456 KiB of memory, 2 passes, 1 lane.
pub open spec fn argon2_default_prefix() -> Seq<char> {
    "$argon2id$v=19$m=19456,t=2,p=1$"@
}

/// The Argon2 hash of a secret with a fresh random salt, as a PHC string, or
/// the text of the failure; wraps `Argon2::default().hash_password` with
/// `SaltString::generate(&mut OsRng)`. Hashing fails only for a secret of more
/// than `0xFFFF_FFFF` bytes; the string begins with the default parameters and
/// Argon2 accepts the secret for it. The salt, and so the rest of the string,
/// is random and not stated.
#[verifier::external_body]
fn argon2_hash(value: &str) -> (r: Result<String, String>)
    ensures
        utf8_len(value@) <= 0xFFFF_FFFF ==> r is Ok,
        r matches Ok(h) ==> argon2_default_prefix().is_prefix_of(h@) && phc_hash(h@) && argon2_accepts(value@, h@),
{
    let salt = argon2::password_hash::SaltString::generate(&mut argon2::password_hash::rand_core::OsRng);
    argon2::password_hash::PasswordHasher::hash_password(&argon2::Argon2::default(), value.as_bytes(), &salt)
        .map(|h| h.to_string())
        .map_err(|e| e.to_string())
}

/// Whether Argon2 accepts `value` for the PHC string `hash`.
pub uninterp spec fn argon2_accepts(value: Seq<char>, hash: Seq<char>) -> bool;

/// Whether `PasswordHash::new` reads `hash` as a PHC string.
pub uninterp spec fn phc_hash(hash: Seq<char>) -> bool;

/// Reads `hash` as a PHC string (`PasswordHash::new`) and asks Argon2 whether
/// `value` matches it (`Argon2::default().verify_password(..).is_ok()`); it
/// fails, with the text of the failure, exactly when the string does not parse.
#[verifier::external_body]
fn argon2_verify(value: &str, hash: &str) -> (r: Result<bool, String>)
    ensures
        r is Ok <==> phc_hash(hash@),
        r matches Ok(b) ==> b == argon2_accepts(value@, hash@),
{
    let parsed = argon2::password_hash::PasswordHash::new(hash).map_err(|e| e.to_string())?;
    let checker = argon2::Argon2::default();
    Ok(argon2::password_hash::PasswordVerifier::verify_password(&checker, value.as_bytes(), &parsed).is_ok())
}

/// `prefix` followed by `detail`.
fn prefixed(prefix: &str, detail: &str) -> (s: String)
    ensures
        s@ == prefix@ + detail@,
{
    let mut s = owned(prefix);
    push_text(&mut s, detail);
    s
}

impl PasswordHasher for Argon2PasswordHasher {
    /// An Argon2id hash with the default parameters that Argon2 accepts the
    /// secret for; hashing fails only for a secret of more than `0xFFFF_FFFF`
    /// bytes, and a failure is a security failure that names its cause.
    fn hash_secret(&self, value: &str) -> (r: Result<String, AuthError>)
        ensures
            utf8_len(value@) <= 0xFFFF_FFFF ==> r is Ok,
            r matches Ok(h) ==> argon2_default_prefix().is_prefix_of(h@) && phc_hash(h@) && argon2_accepts(
                value@,
                h@,
            ),
            r matches Err(e) ==> e matches AuthError::Security(m) && exists|d: Seq<char>| m@
                == "failed to hash secret: "@ + d,
    {
        match argon2_hash(value) {
            Ok(h) => Ok(h),
            Err(detail) => {
                let m = prefixed("failed to hash secret: ", detail.as_str());
                assert(m@ == "failed to hash secret: "@ + detail@);
                Err(AuthError::Security(m))
            },
        }
    }

    /// Whether the secret matches the hash; it answers for every PHC string,
    /// and a hash that is not one is a security failure that names its cause.
    fn verify_secret(&self, value: &str, hash: &str) -> (r: Result<bool, AuthError>)
        ensures
            r is Ok <==> phc_hash(hash@),
            r matches Ok(b) ==> b == argon2_accepts(value@, hash@),
            r matches Err(e) ==> e matches AuthError::Security(m) && exists|d: Seq<char>| m@
                == "invalid password hash: "@ + d,
    {
        match argon2_verify(value, hash) {
            Ok(b) => Ok(b),
            Err(detail) => {
                let m = prefixed("invalid password hash: ", detail.as_str());
                assert(m@ == "invalid password hash: "@ + detail@);
                Err(AuthError::Security(m))
            },
        }
    }
}

/// An email sender that sends nothing.
#[derive(Debug, Default)]
pub struct NoopEmailSender;

impl EmailSender for NoopEmailSender {
    fn send(&self, message: EmailMessage) -> (r: Result<(), NotificationError>)
        ensures
            r is Ok,
    {
        Ok(())
    }
}

} // verus!
