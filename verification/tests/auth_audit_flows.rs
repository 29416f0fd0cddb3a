use edustell::audit::{
    email_domain, fill_context, sanitize_audit_log, preview_value, AuditAction, AuditContext, AuditEntityType, AuditEvent,
};
use edustell::auth::{
    check_password, check_refresh_session, check_refresh_token_hash, check_registration, check_token_type,
    check_verification_hash, check_verification_start, check_verification_token, login_account, mfa_hooks,
    normalize_email, refresh_account, revoke_session, consume_token, verified_user, AuthError, EmailVerificationToken, PublicUser, RefreshClaims,
    RefreshSession, User, UserRole,
};
use edustell::infra::{
    access_claims, parse_money, parse_status, refresh_claims, unix_seconds, verification_claims,
    verification_expiry, Argon2PasswordHasher, JwtConfig, JwtTokenService, PasswordHasher,
};
use edustell::json::{JsonEntry, JsonValue};
use edustell::records::{AuditLog, ExternalReference};
use edustell::repos::PersistenceError;
use edustell::status::{ExternalReferenceEntityType, ExternalReferenceKind, PlanStatus};

fn user(status: &str, verified: bool) -> User {
    User {
        id: 42,
        email: "parent@example.com".to_owned(),
        password_hash: String::new(),
        role: UserRole::Parent,
        email_verified: verified,
        mfa_enabled: false,
        status: status.to_owned(),
        created_at: 0,
        updated_at: 0,
    }
}

fn text_of(value: &JsonValue, key: &str) -> Option<String> {
    match value {
        JsonValue::Object(entries) => entries.iter().find(|e| e.key == key).and_then(|e| match &e.value {
            JsonValue::Text(t) => Some(t.clone()),
            _ => None,
        }),
        _ => None,
    }
}

fn config() -> JwtConfig {
    JwtConfig {
        access_secret: "access-secret".to_owned(),
        refresh_secret: "refresh-secret".to_owned(),
        access_ttl_secs: 900,
        refresh_ttl_secs: 86_400,
    }
}

#[test]
fn register_creates_user_and_session() {
    assert!(check_registration(UserRole::Parent, false).is_ok());
    assert!(matches!(check_registration(UserRole::Parent, true), Err(AuthError::EmailAlreadyExists)));
    assert!(matches!(check_registration(UserRole::PlatformAdmin, false), Err(AuthError::Forbidden)));
    assert_eq!(normalize_email("  Parent@Example.COM "), "parent@example.com");

    let hasher = Argon2PasswordHasher;
    let hash = hasher.hash_secret("correct horse battery staple").unwrap();
    assert!(hash.starts_with("$argon2"));
    assert!(hasher.verify_secret("correct horse battery staple", &hash).unwrap());

    let service = JwtTokenService::new(config());
    let (claims, expires_at) = access_claims(service.config(), 42, UserRole::Parent, 7, 8, 1_700_000_000_000_000).unwrap();
    assert_eq!(claims.token_type, "access");
    assert_eq!(claims.iat, 1_700_000_000);
    assert_eq!(claims.exp, 1_700_000_900);
    assert_eq!(expires_at, 1_700_000_900_000_000);
    let (refresh, refresh_expires) = refresh_claims(service.config(), 42, 7, 1_700_000_000_000_000).unwrap();
    assert_eq!(refresh.token_type, "refresh");
    assert_eq!(refresh_expires, 1_700_086_400_000_000);
}

#[test]
fn login_rejects_invalid_password() {
    let hasher = Argon2PasswordHasher;
    let hash = hasher.hash_secret("right-password").unwrap();
    let ok = hasher.verify_secret("wrong-password", &hash).unwrap();
    let error = check_password(ok).unwrap_err();

    assert!(matches!(error, AuthError::InvalidCredentials));
    assert!(matches!(hasher.verify_secret("x", "not a hash"), Err(AuthError::Security(m)) if m.starts_with("invalid password hash: ")));
    assert!(login_account(Some(user("active", false))).is_ok());
    assert!(matches!(login_account(Some(user("suspended", false))), Err(AuthError::Unauthorized)));
    assert!(matches!(login_account(None), Err(AuthError::InvalidCredentials)));
}

#[test]
fn refresh_rotates_session() {
    let claims = RefreshClaims { sub: 42, session_id: 7, exp: 0, iat: 0, token_type: "refresh".to_owned() };
    let session = RefreshSession { id: 7, user_id: 42, token_hash: String::new(), expires_at: 1_000, revoked_at: None };
    assert!(check_refresh_session(&claims, Some(&session), 999).is_ok());
    assert!(check_refresh_session(&claims, Some(&session), 1_000).is_err());
    let revoked = RefreshSession { revoked_at: Some(500), ..session };
    assert!(matches!(check_refresh_session(&claims, Some(&revoked), 10), Err(AuthError::Unauthorized)));
    assert!(check_refresh_session(&claims, None, 10).is_err());
    assert!(matches!(check_refresh_token_hash(false), Err(AuthError::Unauthorized)));
    assert!(refresh_account(Some(user("active", false))).is_ok());
    assert!(check_token_type("refresh", "refresh"));
    assert!(!check_token_type("access", "refresh"));
}

#[test]
fn email_verification_marks_user_verified() {
    assert!(check_verification_start(Some(&user("active", false))).is_ok());
    assert!(matches!(check_verification_start(Some(&user("active", true))), Err(AuthError::EmailAlreadyVerified)));
    assert!(matches!(check_verification_start(None), Err(AuthError::NotFound)));
    let record = EmailVerificationToken { id: 3, user_id: 42, token_hash: String::new(), expires_at: 2_000, consumed_at: None };
    assert!(check_verification_token(42, 2_000, Some(&record), 1_000).is_ok());
    assert!(matches!(check_verification_token(43, 2_000, Some(&record), 1_000), Err(AuthError::InvalidVerificationToken)));
    assert!(check_verification_token(42, 900, Some(&record), 1_000).is_err());
    assert!(check_verification_hash(true).is_ok());
    let (claims, expires) = verification_claims(42, 3, 0).unwrap();
    assert_eq!(claims.token_type, "email_verification");
    assert_eq!(expires, 86_400_000_000);
    assert_eq!(verification_expiry(claims.exp).unwrap(), 86_400_000_000);
}

#[test]
fn error_messages_and_mfa() {
    assert_eq!(AuthError::Security("boom".to_owned()).message(), "security error: boom");
    assert_eq!(AuthError::EmailAlreadyExists.message(), "email already exists");
    let public = PublicUser {
        id: 1,
        email: "a@b.c".to_owned(),
        role: UserRole::Student,
        email_verified: true,
        mfa_enabled: true,
        status: "active".to_owned(),
        created_at: 0,
        updated_at: 0,
    };
    let hooks = mfa_hooks(&public);
    assert!(hooks.required);
    assert_eq!(hooks.methods, vec!["totp"]);
    assert_eq!(unix_seconds(-1), -1);
    assert_eq!(unix_seconds(1_999_999), 1);
}

#[test]
fn service_records_and_queries_standardized_events() {
    let event = AuditEvent::user_registered(42, "parent", "person@example.com");
    let log = event.into_log();

    assert_eq!(log.entity_type, "user");
    assert_eq!(log.action, "user.registered");
    assert_eq!(log.entity_id, Some(42));
    assert_eq!(text_of(&log.metadata, "email_domain").as_deref(), Some("example.com"));
    assert_eq!(text_of(&log.metadata, "role").as_deref(), Some("parent"));
    assert_eq!(email_domain("no-at-sign"), "");
}

#[test]
fn blockchain_reference_audit_uses_preview_not_full_value() {
    let reference = ExternalReference {
        id: 5,
        entity_type: ExternalReferenceEntityType::Contribution,
        entity_id: 6,
        reference_kind: ExternalReferenceKind::TransactionHash,
        value: "0123456789abcdef0123456789abcdef".to_owned(),
        metadata: JsonValue::Null,
        created_at: 0,
        updated_at: 0,
    };
    let log = AuditEvent::blockchain_reference_attached(Some(1), &reference).into_log();

    assert_eq!(log.action, "blockchain.reference_attached");
    assert_eq!(text_of(&log.metadata, "reference_preview").as_deref(), Some("012345...cdef"));
    assert!(!format!("{:?}", log.metadata).contains("0123456789abcdef0123456789abcdef"));
    assert_eq!(preview_value("short"), "short");
}

#[test]
fn context_fills_only_missing_identifiers() {
    let log = AuditLog {
        id: 1,
        actor_user_id: None,
        entity_type: "user".to_owned(),
        entity_id: None,
        action: "user.registered".to_owned(),
        request_id: Some("own".to_owned()),
        correlation_id: None,
        metadata: JsonValue::Object(vec![JsonEntry { key: "k".to_owned(), value: JsonValue::Null }]),
        created_at: 0,
        updated_at: 0,
    };
    let context = AuditContext { request_id: "req-test".to_owned(), correlation_id: "corr-test".to_owned() };
    let filled = fill_context(log, Some(&context));
    assert_eq!(filled.request_id.as_deref(), Some("own"));
    assert_eq!(filled.correlation_id.as_deref(), Some("corr-test"));
    assert_eq!(AuditEntityType::School.as_str(), "school");
    assert_eq!(AuditAction::SchoolVerified.as_str(), "school.verified");
}

#[test]
fn stored_values_parse_back() {
    let m = parse_money(250, "USDC").unwrap();
    assert_eq!(m.amount_minor, 250);
    assert_eq!(m.currency.as_str(), "USDC");
    assert!(matches!(parse_money(-1, "USD"), Err(PersistenceError::Repository(e)) if e == "amount must be non-negative"));
    assert!(matches!(parse_money(1, "DOLLAR"), Err(PersistenceError::Repository(e)) if e == "invalid currency"));
    let s: PlanStatus = parse_status("active").unwrap();
    assert_eq!(s, PlanStatus::Active);
    let bad: Result<PlanStatus, PersistenceError> = parse_status("nope");
    assert!(matches!(bad, Err(PersistenceError::Repository(e)) if e == "invalid PlanStatus"));
}

#[test]
fn stored_audit_entries_are_tagged_and_redacted() {
    let log = AuditLog {
        id: 1,
        actor_user_id: Some(2),
        entity_type: "kyc_profile".to_owned(),
        entity_id: Some(3),
        action: "kyc.status_changed".to_owned(),
        request_id: None,
        correlation_id: None,
        metadata: JsonValue::Object(vec![
            JsonEntry { key: "provider_reference".to_owned(), value: JsonValue::Text("provider-ref-123".to_owned()) },
            JsonEntry { key: "to_status".to_owned(), value: JsonValue::Text("approved".to_owned()) },
        ]),
        created_at: 0,
        updated_at: 0,
    };
    let context = AuditContext { request_id: "req-test".to_owned(), correlation_id: "corr-test".to_owned() };
    let stored = sanitize_audit_log(log, Some(&context));
    assert_eq!(stored.request_id.as_deref(), Some("req-test"));
    assert_eq!(stored.correlation_id.as_deref(), Some("corr-test"));
    assert_eq!(text_of(&stored.metadata, "provider_reference").as_deref(), Some("[REDACTED]"));
    assert_eq!(text_of(&stored.metadata, "to_status").as_deref(), Some("approved"));
}

#[test]
fn claims_exist_exactly_inside_chrono_calendar() {
    let service = JwtTokenService::new(config());
    assert!(access_claims(service.config(), 1, UserRole::Parent, 2, 3, i64::MAX).is_none());
    assert!(refresh_claims(service.config(), 1, 2, i64::MIN).is_none());
    assert!(verification_claims(1, 2, i64::MAX).is_none());
    let far = JwtConfig { access_ttl_secs: i64::MAX, ..config() };
    assert!(access_claims(&far, 1, UserRole::Parent, 2, 3, 0).is_none());
    let expiry = verification_claims(1, 2, -1).unwrap().1;
    assert_eq!(expiry, 86_400_000_000 - 1);
    assert!(verification_expiry(i64::MAX).is_err());
    assert!(verification_expiry(-1).is_ok());
}

#[test]
fn hashes_use_default_argon2id_parameters() {
    let hasher = Argon2PasswordHasher;
    let hash = hasher.hash_secret("").unwrap();
    assert!(hash.starts_with("$argon2id$v=19$m=19456,t=2,p=1$"));
    assert!(hasher.verify_secret("", &hash).unwrap());
}

#[test]
fn calendar_edges_of_token_instants() {
    assert!(verification_expiry(8_210_266_876_799).is_ok());
    assert!(verification_expiry(8_210_266_876_800).is_err());
    assert!(verification_expiry(-8_334_601_228_800).is_ok());
    assert!(verification_expiry(-8_334_601_228_801).is_err());
    let last_start: i64 = (8_210_266_876_799 - 86_400) * 1_000_000 + 999_999;
    assert!(verification_claims(1, 2, last_start).is_some());
    assert!(verification_claims(1, 2, last_start + 1).is_none());
    let first: i64 = -8_334_601_228_800 * 1_000_000;
    assert!(verification_claims(1, 2, first).is_some());
    assert!(verification_claims(1, 2, first - 1).is_none());
}

#[test]
fn a_revoked_session_and_a_consumed_token_are_refused_afterwards() {
    let claims = RefreshClaims { sub: 42, session_id: 7, exp: 0, iat: 0, token_type: "refresh".to_owned() };
    let session = RefreshSession { id: 7, user_id: 42, token_hash: String::new(), expires_at: 1_000, revoked_at: None };
    assert!(check_refresh_session(&claims, Some(&session), 10).is_ok());
    let revoked = revoke_session(session, 20);
    assert_eq!(revoked.revoked_at, Some(20));
    assert!(matches!(check_refresh_session(&claims, Some(&revoked), 30), Err(AuthError::Unauthorized)));
    assert_eq!(revoke_session(revoked, 40).revoked_at, Some(20));

    let token = EmailVerificationToken { id: 3, user_id: 42, token_hash: String::new(), expires_at: 2_000, consumed_at: None };
    assert!(check_verification_token(42, 2_000, Some(&token), 100).is_ok());
    let consumed = consume_token(token, 150);
    assert_eq!(consumed.consumed_at, Some(150));
    assert!(matches!(check_verification_token(42, 2_000, Some(&consumed), 160), Err(AuthError::InvalidVerificationToken)));

    let verified = verified_user(user("active", false));
    assert!(verified.email_verified);
    assert!(matches!(check_verification_start(Some(&verified)), Err(AuthError::EmailAlreadyVerified)));
}
