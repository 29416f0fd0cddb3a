//! Users, sessions and tokens, and the decisions of registration, login,
//! session refresh and e-mail verification.

use vstd::prelude::*;

use crate::status::StatusText;

use crate::text::{
    ascii_lower_seq, ascii_lowercase, is_trimmed, lemma_lower_idempotent,
    lemma_lower_keeps_trimmed, lemma_trim_fixed, lemma_trim_is_trimmed, owned, push_text, str_eq,
    trim, trim_text,
};

verus! {

/// Role of a user on the platform.
#[derive(Clone, Copy, Debug, PartialEq, Eq, Structural)]
pub enum UserRole {
    Parent,
    Contributor,
    Student,
    SchoolAdmin,
    Donor,
    PlatformAdmin,
}

impl UserRole {
    /// The text that stands for this value.
    pub open spec fn spec_text(self) -> Seq<char> {
        match self {
            UserRole::Parent => "parent"@,
            UserRole::Contributor => "contributor"@,
            UserRole::Student => "student"@,
            UserRole::SchoolAdmin => "school_admin"@,
            UserRole::Donor => "donor"@,
            UserRole::PlatformAdmin => "platform_admin"@,
        }
    }

    /// The value that a text stands for, if any.
    pub open spec fn spec_parse(text: Seq<char>) -> Option<UserRole> {
        if text == "parent"@ {
            Some(UserRole::Parent)
        } else if text == "contributor"@ {
            Some(UserRole::Contributor)
        } else if text == "student"@ {
            Some(UserRole::Student)
        } else if text == "school_admin"@ {
            Some(UserRole::SchoolAdmin)
        } else if text == "donor"@ {
            Some(UserRole::Donor)
        } else if text == "platform_admin"@ {
            Some(UserRole::PlatformAdmin)
        } else {
            None
        }
    }

    pub fn as_str(&self) -> (text: &'static str)
        ensures
            text@ == self.spec_text(),
    {
        match self {
            UserRole::Parent => "parent",
            UserRole::Contributor => "contributor",
            UserRole::Student => "student",
            UserRole::SchoolAdmin => "school_admin",
            UserRole::Donor => "donor",
            UserRole::PlatformAdmin => "platform_admin",
        }
    }

    pub fn from_str(value: &str) -> (parsed: Result<UserRole, &'static str>)
        ensures
            parsed matches Ok(v) ==> Self::spec_parse(value@) == Some(v),
            parsed matches Err(e) ==> Self::spec_parse(value@) is None && e@ == "invalid user role"@,
    {
        if str_eq(value, "parent") {
            Ok(UserRole::Parent)
        } else if str_eq(value, "contributor") {
            Ok(UserRole::Contributor)
        } else if str_eq(value, "student") {
            Ok(UserRole::Student)
        } else if str_eq(value, "school_admin") {
            Ok(UserRole::SchoolAdmin)
        } else if str_eq(value, "donor") {
            Ok(UserRole::Donor)
        } else if str_eq(value, "platform_admin") {
            Ok(UserRole::PlatformAdmin)
        } else {
            Err("invalid user role")
        }
    }
}

/// Reading back the text of a value gives the value.
pub proof fn lemma_user_role_text_round_trip(value: UserRole)
    ensures
        UserRole::spec_parse(value.spec_text()) == Some(value),
{
    reveal_strlit("parent");
    reveal_strlit("contributor");
    reveal_strlit("student");
    reveal_strlit("school_admin");
    reveal_strlit("donor");
    reveal_strlit("platform_admin");
    assert("parent"@[0] != "contributor"@[0]);
    assert("parent"@[0] != "student"@[0]);
    assert("parent"@[0] != "school_admin"@[0]);
    assert("parent"@[0] != "donor"@[0]);
    assert("parent"@[1] != "platform_admin"@[1]);
    assert("contributor"@[0] != "student"@[0]);
    assert("contributor"@[0] != "school_admin"@[0]);
    assert("contributor"@[0] != "donor"@[0]);
    assert("contributor"@[0] != "platform_admin"@[0]);
    assert("student"@[1] != "school_admin"@[1]);
    assert("student"@[0] != "donor"@[0]);
    assert("student"@[0] != "platform_admin"@[0]);
    assert("school_admin"@[0] != "donor"@[0]);
    assert("school_admin"@[0] != "platform_admin"@[0]);
    assert("donor"@[0] != "platform_admin"@[0]);
}


/// A registered user.
#[derive(Debug)]
pub struct User {
    pub id: u128,
    pub email: String,
    pub password_hash: String,
    pub role: UserRole,
    pub email_verified: bool,
    pub mfa_enabled: bool,
    pub status: String,
    pub created_at: i64,
    pub updated_at: i64,
}

/// What registration stores for a new user.
#[derive(Debug)]
pub struct NewUser {
    pub email: String,
    pub password_hash: String,
    pub role: UserRole,
}

/// Claims of an access token.
#[derive(Debug)]
pub struct AccessClaims {
    pub sub: u128,
    pub role: UserRole,
    pub session_id: u128,
    pub jti: u128,
    pub exp: i64,
    pub iat: i64,
    pub token_type: String,
}

/// Claims of a refresh token.
#[derive(Debug)]
pub struct RefreshClaims {
    pub sub: u128,
    pub session_id: u128,
    pub exp: i64,
    pub iat: i64,
    pub token_type: String,
}

/// A stored refresh session; the token itself is kept only as a hash.
#[derive(Debug)]
pub struct RefreshSession {
    pub id: u128,
    pub user_id: u128,
    pub token_hash: String,
    pub expires_at: i64,
    pub revoked_at: Option<i64>,
}

/// A stored e-mail verification token; the token itself is kept only as a hash.
#[derive(Debug)]
pub struct EmailVerificationToken {
    pub id: u128,
    pub user_id: u128,
    pub token_hash: String,
    pub expires_at: i64,
    pub consumed_at: Option<i64>,
}

/// What the platform shows of a user: everything but the password hash.
#[derive(Debug)]
pub struct PublicUser {
    pub id: u128,
    pub email: String,
    pub role: UserRole,
    pub email_verified: bool,
    pub mfa_enabled: bool,
    pub status: String,
    pub created_at: i64,
    pub updated_at: i64,
}

impl PublicUser {
    /// The public part of a user.
    pub fn from_user(value: User) -> (p: PublicUser)
        ensures
            p.id == value.id && p.email == value.email && p.role == value.role && p.email_verified
                == value.email_verified && p.mfa_enabled == value.mfa_enabled && p.status
                == value.status && p.created_at == value.created_at && p.updated_at
                == value.updated_at,
    {
        PublicUser {
            id: value.id,
            email: value.email,
            role: value.role,
            email_verified: value.email_verified,
            mfa_enabled: value.mfa_enabled,
            status: value.status,
            created_at: value.created_at,
            updated_at: value.updated_at,
        }
    }
}

/// The user on whose behalf a request runs.
#[derive(Clone, Copy, Debug, PartialEq, Eq, Structural)]
pub struct AuthenticatedUser {
    pub user_id: u128,
    pub role: UserRole,
    pub session_id: u128,
}

/// Failures of authentication and account operations.
#[derive(Debug)]
pub enum AuthError {
    EmailAlreadyExists,
    InvalidCredentials,
    Unauthorized,
    Forbidden,
    NotFound,
    EmailAlreadyVerified,
    InvalidVerificationToken,
    Repository(String),
    Security(String),
}

impl AuthError {
    pub open spec fn spec_message(&self) -> Seq<char> {
        match self {
            AuthError::EmailAlreadyExists => "email already exists"@,
            AuthError::InvalidCredentials => "invalid credentials"@,
            AuthError::Unauthorized => "unauthorized"@,
            AuthError::Forbidden => "forbidden"@,
            AuthError::NotFound => "not found"@,
            AuthError::EmailAlreadyVerified => "email already verified"@,
            AuthError::InvalidVerificationToken => "invalid verification token"@,
            AuthError::Repository(m) => "repository error: "@ + m@,
            AuthError::Security(m) => "security error: "@ + m@,
        }
    }

    /// The text shown for this error.
    pub fn message(&self) -> (m: String)
        ensures
            m@ == self.spec_message(),
    {
        match self {
            AuthError::EmailAlreadyExists => owned("email already exists"),
            AuthError::InvalidCredentials => owned("invalid credentials"),
            AuthError::Unauthorized => owned("unauthorized"),
            AuthError::Forbidden => owned("forbidden"),
            AuthError::NotFound => owned("not found"),
            AuthError::EmailAlreadyVerified => owned("email already verified"),
            AuthError::InvalidVerificationToken => owned("invalid verification token"),
            AuthError::Repository(m) => {
                let mut s = owned("repository error: ");
                push_text(&mut s, m.as_str());
                s
            },
            AuthError::Security(m) => {
                let mut s = owned("security error: ");
                push_text(&mut s, m.as_str());
                s
            },
        }
    }
}

/// Input of registration.
#[derive(Debug)]
pub struct RegisterInput {
    pub email: String,
    pub password: String,
    pub role: UserRole,
}

/// Input of login.
#[derive(Debug)]
pub struct LoginInput {
    pub email: String,
    pub password: String,
}

/// The tokens of a session and when they expire, in microseconds since the Unix epoch.
#[derive(Debug)]
pub struct AuthTokens {
    pub access_token: String,
    pub refresh_token: String,
    pub access_expires_at: i64,
    pub refresh_expires_at: i64,
}

/// A signed-in user and the tokens of the new session.
#[derive(Debug)]
pub struct AuthResponse {
    pub user: PublicUser,
    pub tokens: AuthTokens,
}

/// A user and the token that verifies their address, with its expiry.
#[derive(Debug)]
pub struct EmailVerificationResponse {
    pub user: PublicUser,
    pub verification_token: String,
    pub verification_expires_at: i64,
}

/// Second-factor requirements of a user.
#[derive(Debug)]
pub struct MfaHooks {
    pub required: bool,
    pub methods: Vec<&'static str>,
}

/// The canonical form of an e-mail address: trimmed and ASCII lower-cased.
pub open spec fn spec_normalize_email(email: Seq<char>) -> Seq<char> {
    ascii_lower_seq(trim(email))
}

pub fn normalize_email(email: &str) -> (r: String)
    ensures
        r@ == spec_normalize_email(email@),
{
    let t = trim_text(email);
    ascii_lowercase(t.as_str())
}

/// Normalizing an address that is already normal leaves it unchanged.
pub proof fn lemma_normalize_email_idempotent(email: Seq<char>)
    ensures
        spec_normalize_email(spec_normalize_email(email)) == spec_normalize_email(email),
{
    let t = trim(email);
    lemma_trim_is_trimmed(email);
    lemma_lower_keeps_trimmed(t);
    lemma_trim_fixed(ascii_lower_seq(t));
    lemma_lower_idempotent(t);
}

/// Roles that may sign themselves up: everyone but administrators.
pub open spec fn spec_registerable_role(role: UserRole) -> bool {
    !(role is PlatformAdmin || role is SchoolAdmin)
}

pub fn ensure_registerable_role(role: UserRole) -> (r: Result<(), AuthError>)
    ensures
        r is Ok <==> spec_registerable_role(role),
        r matches Err(e) ==> e is Forbidden,
{
    match role {
        UserRole::PlatformAdmin | UserRole::SchoolAdmin => Err(AuthError::Forbidden),
        _ => Ok(()),
    }
}

/// Only users whose status is `active` may hold sessions.
pub fn ensure_active_user(user: &User) -> (r: Result<(), AuthError>)
    ensures
        r is Ok <==> user.status@ == "active"@,
        r matches Err(e) ==> e is Unauthorized,
{
    if str_eq(user.status.as_str(), "active") {
        Ok(())
    } else {
        Err(AuthError::Unauthorized)
    }
}

/// Second-factor requirements: TOTP exactly when the user enabled MFA.
pub fn mfa_hooks(user: &PublicUser) -> (h: MfaHooks)
    ensures
        h.required == user.mfa_enabled,
        user.mfa_enabled ==> h.methods@.len() == 1 && h.methods@[0]@ == "totp"@,
        !user.mfa_enabled ==> h.methods@.len() == 0,
{
    let mut methods: Vec<&'static str> = Vec::new();
    if user.mfa_enabled {
        methods.push("totp");
    }
    MfaHooks { required: user.mfa_enabled, methods }
}

/// Registration may go on: the role may sign up and the address is free.
pub fn check_registration(role: UserRole, email_taken: bool) -> (r: Result<(), AuthError>)
    ensures
        r is Ok <==> spec_registerable_role(role) && !email_taken,
        r matches Err(e) ==> (if !spec_registerable_role(role) {
            e is Forbidden
        } else {
            e is EmailAlreadyExists
        }),
{
    ensure_registerable_role(role)?;
    if email_taken {
        return Err(AuthError::EmailAlreadyExists);
    }
    Ok(())
}

/// The account that a login may go on with: a known, active user.
pub fn login_account(user: Option<User>) -> (r: Result<User, AuthError>)
    ensures
        match user {
            None => r matches Err(e) && e is InvalidCredentials,
            Some(u) => if u.status@ == "active"@ {
                r == Ok::<User, AuthError>(u)
            } else {
                r matches Err(e) && e is Unauthorized
            },
        },
{
    match user {
        None => Err(AuthError::InvalidCredentials),
        Some(u) => {
            ensure_active_user(&u)?;
            Ok(u)
        },
    }
}

/// A login succeeds only when the password matched the stored hash.
pub fn check_password(password_ok: bool) -> (r: Result<(), AuthError>)
    ensures
        r is Ok <==> password_ok,
        r matches Err(e) ==> e is InvalidCredentials,
{
    if password_ok {
        Ok(())
    } else {
        Err(AuthError::InvalidCredentials)
    }
}

/// Whether a stored refresh session may be used with the given claims at `now`:
/// it exists, belongs to the token's subject, is not revoked and has not expired.
pub open spec fn spec_refresh_session_usable(
    claims_sub: u128,
    session: Option<&RefreshSession>,
    now: i64,
) -> bool {
    match session {
        None => false,
        Some(s) => s.user_id == claims_sub && s.revoked_at is None && now < s.expires_at,
    }
}

pub fn check_refresh_session(claims: &RefreshClaims, session: Option<&RefreshSession>, now: i64) -> (r:
    Result<(), AuthError>)
    ensures
        r is Ok <==> spec_refresh_session_usable(claims.sub, session, now),
        r matches Err(e) ==> e is Unauthorized,
{
    match session {
        None => Err(AuthError::Unauthorized),
        Some(s) => {
            if s.user_id != claims.sub || s.revoked_at.is_some() {
                return Err(AuthError::Unauthorized);
            }
            if s.expires_at <= now {
                return Err(AuthError::Unauthorized);
            }
            Ok(())
        },
    }
}

/// A refresh session as storage keeps it once revoked at `now`; a session
/// revoked before keeps its first revocation time.
pub open spec fn spec_revoked_session(s: RefreshSession, now: i64) -> RefreshSession {
    if s.revoked_at is None {
        RefreshSession { revoked_at: Some(now), ..s }
    } else {
        s
    }
}

/// Revokes a refresh session at `now`.
pub fn revoke_session(s: RefreshSession, now: i64) -> (r: RefreshSession)
    ensures
        r == spec_revoked_session(s, now),
{
    if s.revoked_at.is_none() {
        RefreshSession { revoked_at: Some(now), ..s }
    } else {
        s
    }
}

/// A refresh rotates the session: once the session it used is revoked, the
/// same refresh token is refused at any later time.
pub proof fn lemma_revoked_session_is_refused(claims_sub: u128, s: RefreshSession, revoked: i64, later: i64)
    ensures
        !spec_refresh_session_usable(claims_sub, Some(&spec_revoked_session(s, revoked)), later),
{
}

/// A refresh succeeds only when the presented token matched the stored hash.
pub fn check_refresh_token_hash(matches: bool) -> (r: Result<(), AuthError>)
    ensures
        r is Ok <==> matches,
        r matches Err(e) ==> e is Unauthorized,
{
    if matches {
        Ok(())
    } else {
        Err(AuthError::Unauthorized)
    }
}

/// The user that a new session may be issued to after a refresh: known and active.
pub fn refresh_account(user: Option<User>) -> (r: Result<User, AuthError>)
    ensures
        match user {
            None => r matches Err(e) && e is Unauthorized,
            Some(u) => if u.status@ == "active"@ {
                r == Ok::<User, AuthError>(u)
            } else {
                r matches Err(e) && e is Unauthorized
            },
        },
{
    match user {
        None => Err(AuthError::Unauthorized),
        Some(u) => {
            ensure_active_user(&u)?;
            Ok(u)
        },
    }
}

/// The user that a profile lookup shows: known and active.
pub fn visible_account(user: Option<User>) -> (r: Result<User, AuthError>)
    ensures
        match user {
            None => r matches Err(e) && e is NotFound,
            Some(u) => if u.status@ == "active"@ {
                r == Ok::<User, AuthError>(u)
            } else {
                r matches Err(e) && e is Unauthorized
            },
        },
{
    match user {
        None => Err(AuthError::NotFound),
        Some(u) => {
            ensure_active_user(&u)?;
            Ok(u)
        },
    }
}

/// A user as storage keeps it once the address is verified.
pub fn verified_user(u: User) -> (r: User)
    ensures
        r == (User { email_verified: true, ..u }),
{
    User { email_verified: true, ..u }
}

/// Whether e-mail verification may start for a user: known, active and not yet verified.
pub fn check_verification_start(user: Option<&User>) -> (r: Result<(), AuthError>)
    ensures
        match user {
            None => r matches Err(e) && e is NotFound,
            Some(u) => if u.status@ != "active"@ {
                r matches Err(e) && e is Unauthorized
            } else if u.email_verified {
                r matches Err(e) && e is EmailAlreadyVerified
            } else {
                r is Ok
            },
        },
{
    match user {
        None => Err(AuthError::NotFound),
        Some(u) => {
            ensure_active_user(u)?;
            if u.email_verified {
                return Err(AuthError::EmailAlreadyVerified);
            }
            Ok(())
        },
    }
}

/// Whether a presented verification token may verify the address at `now`: the
/// token has not expired, and its stored record exists, belongs to the same user,
/// is unconsumed and unexpired.
pub open spec fn spec_verification_usable(
    user_id: u128,
    token_expires_at: i64,
    record: Option<&EmailVerificationToken>,
    now: i64,
) -> bool {
    now < token_expires_at && match record {
        None => false,
        Some(t) => t.user_id == user_id && t.consumed_at is None && now < t.expires_at,
    }
}

pub fn check_verification_token(
    user_id: u128,
    token_expires_at: i64,
    record: Option<&EmailVerificationToken>,
    now: i64,
) -> (r: Result<(), AuthError>)
    ensures
        r is Ok <==> spec_verification_usable(user_id, token_expires_at, record, now),
        r matches Err(e) ==> e is InvalidVerificationToken,
{
    if token_expires_at <= now {
        return Err(AuthError::InvalidVerificationToken);
    }
    match record {
        None => Err(AuthError::InvalidVerificationToken),
        Some(t) => {
            if t.user_id != user_id || t.consumed_at.is_some() || t.expires_at <= now {
                return Err(AuthError::InvalidVerificationToken);
            }
            Ok(())
        },
    }
}

/// A verification token as storage keeps it once consumed at `now`; a token
/// consumed before keeps its first consumption time.
pub open spec fn spec_consumed_token(t: EmailVerificationToken, now: i64) -> EmailVerificationToken {
    if t.consumed_at is None {
        EmailVerificationToken { consumed_at: Some(now), ..t }
    } else {
        t
    }
}

/// Consumes a verification token at `now`.
pub fn consume_token(t: EmailVerificationToken, now: i64) -> (r: EmailVerificationToken)
    ensures
        r == spec_consumed_token(t, now),
{
    if t.consumed_at.is_none() {
        EmailVerificationToken { consumed_at: Some(now), ..t }
    } else {
        t
    }
}

/// A verification token is single-use: once consumed it verifies nothing,
/// whoever presents it and whenever.
pub proof fn lemma_consumed_token_is_refused(
    user_id: u128,
    token_expires_at: i64,
    t: EmailVerificationToken,
    consumed: i64,
    later: i64,
)
    ensures
        !spec_verification_usable(user_id, token_expires_at, Some(&spec_consumed_token(t, consumed)), later),
{
}

/// A verification succeeds only when the presented token matched the stored hash.
pub fn check_verification_hash(matches: bool) -> (r: Result<(), AuthError>)
    ensures
        r is Ok <==> matches,
        r matches Err(e) ==> e is InvalidVerificationToken,
{
    if matches {
        Ok(())
    } else {
        Err(AuthError::InvalidVerificationToken)
    }
}

/// Whether decoded claims are of the expected kind: `access`, `refresh` or
/// `email_verification`.
pub fn check_token_type(token_type: &str, expected: &str) -> (r: bool)
    ensures
        r == (token_type@ == expected@),
{
    str_eq(token_type, expected)
}


impl StatusText for UserRole {
    open spec fn spec_parse_text(text: Seq<char>) -> Option<UserRole> {
        UserRole::spec_parse(text)
    }

    open spec fn spec_parse_error() -> Seq<char> {
        "invalid user role"@
    }

    fn parse_text(value: &str) -> (r: Result<UserRole, &'static str>) {
        UserRole::from_str(value)
    }
}

} // verus!
