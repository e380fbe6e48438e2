use webrust::auth_service::{login_audit_event, map_token_error, AuthService};
use webrust::audit::AuditOutcome;
use webrust::claims_json::{int_string, parse_int, read_claims, write_claims, Claims};
use webrust::errors::AppError;
use webrust::password::{hash_password, verify_password, PasswordError};
use webrust::token::{JwtManager, TokenError};
use webrust::user::{User, UserId, UserRole};
use webrust::value_objects::EmailAddress;

const ID: u128 = 0x67e5_5044_10b1_426f_9247_bb68_0e5f_e0c8;

#[test]
fn hashed_password_verifies_and_others_do_not() {
    let h = hash_password("Sup3rSecure!x").unwrap();
    assert_eq!(verify_password(&h, "Sup3rSecure!x"), Ok(()));
    assert_eq!(verify_password(&h, "Sup3rSecure!y"), Err(PasswordError::InvalidPassword));
}

#[test]
fn two_hashes_of_one_password_differ_and_both_verify() {
    let a = hash_password("Sup3rSecure!x").unwrap();
    let b = hash_password("Sup3rSecure!x").unwrap();
    assert_ne!(a, b);
    assert!(verify_password(&a, "Sup3rSecure!x").is_ok());
    assert!(verify_password(&b, "Sup3rSecure!x").is_ok());
}

#[test]
fn corrupt_hash_is_not_a_credentials_error() {
    assert!(matches!(verify_password("not-a-hash", "pw"), Err(PasswordError::Hash(_))));
}

#[test]
fn token_verifies_right_after_generation_with_the_same_identity() {
    let jwt = JwtManager::new("test-secret", 60);
    let email = EmailAddress::parse("ada@example.com").unwrap();
    let now = 1_700_000_000;
    let details = jwt.generate_at(UserId(ID), &email, UserRole::Admin, now).unwrap();
    assert_eq!(details.expires_at, now + 3600);
    assert_eq!(details.token.split('.').count(), 3);
    let claims = jwt.verify_at(&details.token, now).unwrap();
    assert_eq!(claims.sub, UserId(ID));
    assert_eq!(claims.email, "ada@example.com");
    assert_eq!(claims.role, "admin");
    assert_eq!(claims.iat, now);
    assert_eq!(claims.exp, now + 3600);
}

#[test]
fn token_past_its_expiry_is_expired_not_invalid() {
    let jwt = JwtManager::new("test-secret", 1);
    let email = EmailAddress::parse("ada@example.com").unwrap();
    let now = 1_700_000_000;
    let details = jwt.generate_at(UserId(ID), &email, UserRole::Viewer, now).unwrap();
    assert!(jwt.verify_at(&details.token, now + 60).is_ok());
    assert_eq!(jwt.verify_at(&details.token, now + 61), Err(TokenError::Expired));
}

#[test]
fn tampered_signature_is_invalid() {
    let jwt = JwtManager::new("test-secret", 60);
    let email = EmailAddress::parse("ada@example.com").unwrap();
    let now = 1_700_000_000;
    let token = jwt.generate_at(UserId(ID), &email, UserRole::Admin, now).unwrap().token;
    let mut bytes = token.into_bytes();
    let last = bytes.len() - 2;
    bytes[last] = if bytes[last] == b'A' { b'B' } else { b'A' };
    let tampered = String::from_utf8(bytes).unwrap();
    assert!(matches!(jwt.verify_at(&tampered, now), Err(TokenError::Invalid(_))));
    let other = JwtManager::new("other-secret", 60);
    let token = jwt.generate_at(UserId(ID), &email, UserRole::Admin, now).unwrap().token;
    assert!(matches!(other.verify_at(&token, now), Err(TokenError::Invalid(_))));
    assert!(matches!(jwt.verify_at("not.a.token", now), Err(TokenError::Invalid(_))));
}

#[test]
fn expiry_out_of_range_is_invalid_ttl() {
    let jwt = JwtManager::new("s", i64::MAX / 60);
    let email = EmailAddress::parse("ada@example.com").unwrap();
    assert_eq!(
        jwt.generate_at(UserId(ID), &email, UserRole::Admin, 1_700_000_000),
        Err(TokenError::InvalidTtl)
    );
}

#[test]
fn token_errors_map_to_boundary_errors() {
    assert_eq!(map_token_error(TokenError::Expired), AppError::Unauthorized("token expired".to_string()));
    assert_eq!(
        map_token_error(TokenError::Invalid("x".to_string())),
        AppError::Unauthorized("invalid token".to_string())
    );
    assert!(matches!(map_token_error(TokenError::InvalidTtl), AppError::Unexpected(_)));
}

#[test]
fn claims_text_round_trips() {
    let c = Claims {
        sub: UserId(ID),
        email: "ada@example.com".to_string(),
        role: "viewer".to_string(),
        iat: -5,
        exp: i64::MIN,
    };
    let text = write_claims(&c);
    assert_eq!(
        text,
        format!(
            "{{\"sub\":\"67e55044-10b1-426f-9247-bb680e5fe0c8\",\"email\":\"ada@example.com\",\"role\":\"viewer\",\"iat\":-5,\"exp\":{}}}",
            i64::MIN
        )
    );
    assert_eq!(read_claims(&text), Some(c));
    assert_eq!(read_claims("{}"), None);
}

#[test]
fn integers_are_read_only_in_written_form() {
    assert_eq!(int_string(0), "0");
    assert_eq!(int_string(-42), "-42");
    assert_eq!(int_string(i64::MAX), "9223372036854775807");
    let chars = |s: &str| s.chars().collect::<Vec<char>>();
    assert_eq!(parse_int(&chars("1700000000")), Some(1_700_000_000));
    assert_eq!(parse_int(&chars("-9223372036854775808")), Some(i64::MIN));
    assert_eq!(parse_int(&chars("007")), None);
    assert_eq!(parse_int(&chars("-0")), None);
    assert_eq!(parse_int(&chars("9223372036854775808")), None);
    assert_eq!(parse_int(&chars("")), None);
}

fn stored_user(password: &str) -> User {
    let hash = hash_password(password).unwrap();
    User::try_new(UserId(ID), "Ada", "ada@example.com", UserRole::Admin, &hash, 0, 0).unwrap()
}

#[test]
fn unknown_email_and_wrong_password_read_the_same() {
    let service = AuthService::new(JwtManager::new("test-secret", 60));
    let user = stored_user("Sup3rSecure!x");
    let unknown = service.authenticate(None, "Sup3rSecure!x").unwrap_err();
    let wrong = service.authenticate(Some(&user), "Wr0ngPassword!").unwrap_err();
    assert_eq!(unknown.describe(), wrong.describe());
    assert_eq!(unknown, AppError::Unauthorized("invalid credentials".to_string()));
}

#[test]
fn login_issues_a_token_that_verifies() {
    let service = AuthService::new(JwtManager::new("test-secret", 60));
    let user = stored_user("Sup3rSecure!x");
    let now = 1_700_000_000;
    let session = service.authenticate_at(Some(&user), "Sup3rSecure!x", now).unwrap();
    assert_eq!(session.user.role, UserRole::Admin);
    assert_eq!(session.expires_at, now + 3600);
    assert!(!session.token.is_empty());
    let who = service.verify_at(&session.token, now).unwrap();
    assert_eq!(who.id, UserId(ID));
    assert_eq!(who.email, "ada@example.com");
    assert_eq!(who.role, UserRole::Admin);
    assert_eq!(
        service.verify_at(&session.token, now + 3601),
        Err(AppError::Unauthorized("token expired".to_string()))
    );
}

#[test]
fn login_audit_records_the_returned_outcome() {
    let failure: Result<webrust::auth_service::AuthSession, AppError> =
        Err(AppError::Unauthorized("invalid credentials".to_string()));
    let event = login_audit_event(" eve@example.com\n", &failure);
    assert_eq!(event.action, "auth.login");
    assert_eq!(event.outcome, AuditOutcome::Failure);
    assert_eq!(event.actor.email.as_deref(), Some("eve@example.com"));
    assert_eq!(event.actor.id, None);
    assert_eq!(event.detail.as_deref(), Some("unauthorized: invalid credentials"));
}

#[test]
fn expiry_beyond_the_calendar_range_is_invalid_ttl() {
    let jwt = JwtManager::new("s", 1_000_000_000_000);
    let email = EmailAddress::parse("ada@example.com").unwrap();
    assert_eq!(
        jwt.generate_at(UserId(ID), &email, UserRole::Admin, 1_700_000_000),
        Err(TokenError::InvalidTtl)
    );
    let near = JwtManager::new("s", 1_000_000);
    assert!(near.generate_at(UserId(ID), &email, UserRole::Admin, 1_700_000_000).is_ok());
}

#[test]
fn expiry_at_the_last_representable_second_is_accepted() {
    let jwt = JwtManager::new("s", 1);
    let email = EmailAddress::parse("ada@example.com").unwrap();
    let last: i64 = 8_210_266_876_799;
    assert!(jwt.generate_at(UserId(ID), &email, UserRole::Admin, last - 60).is_ok());
    assert_eq!(
        jwt.generate_at(UserId(ID), &email, UserRole::Admin, last - 59),
        Err(TokenError::InvalidTtl)
    );
}
