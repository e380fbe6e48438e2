use webrust::audit::{AuditActor, AuditEvent, AuditLogger, AuditOutcome, AuditTarget};
use webrust::config::{AppConfig, AuthConfig, BootstrapConfig, DatabaseConfig, ServerConfig, TelemetryConfig};
use webrust::errors::{classify_database_error, AppError, ErrorResponse, Severity};
use webrust::metrics::{prometheus_body, AppMetrics};
use webrust::rate_limit::RateLimitConfig;
use webrust::user::{UpdateUser, UserId};
use webrust::user_service::{list_scope, new_user_from, update_from, user_not_found, CreateUserDto, UpdateUserDto};
use webrust::guard::AuthenticatedUser;
use webrust::user::UserRole;

#[test]
fn audit_record_fills_absent_fields_with_a_placeholder() {
    let event = AuditEvent::failure(
        "user.delete",
        AuditActor::default(),
        AuditTarget::new("user", None),
        Some(format!("bad\n{}", "d".repeat(300))),
        None,
    );
    let record = AuditLogger::new().record(&event);
    assert_eq!(record.action, "user.delete");
    assert_eq!(record.outcome, "failure");
    assert_eq!(record.actor_id, "-");
    assert_eq!(record.actor_email, "-");
    assert_eq!(record.actor_role, "-");
    assert_eq!(record.target_kind, "user");
    assert_eq!(record.target_id, "-");
    assert_eq!(record.ip, "-");
    assert_eq!(record.detail.len(), 256);
    assert!(record.detail.starts_with("badd"));
}

#[test]
fn audit_record_writes_the_actor_id_as_a_uuid() {
    let actor = AuditActor { id: Some(UserId(1)), email: Some("a@b.cd".to_string()), role: Some("admin".to_string()) };
    let event = AuditEvent::success("auth.login", actor, AuditTarget::new("auth", Some("x".to_string())), None, Some("10.0.0.1".to_string()));
    let record = AuditLogger::new().record(&event);
    assert_eq!(record.actor_id, "00000000-0000-0000-0000-000000000001");
    assert_eq!(record.outcome, AuditOutcome::Success.as_str());
    assert_eq!(record.ip, "10.0.0.1");
    assert_eq!(record.detail, "-");
}

#[test]
fn error_table() {
    let cases = [
        (AppError::Validation("v".into()), 400, Severity::Warning, "validation error: v"),
        (AppError::NotFound("n".into()), 404, Severity::Warning, "resource not found: n"),
        (AppError::Conflict("c".into()), 409, Severity::Warning, "conflict detected: c"),
        (AppError::Unauthorized("u".into()), 401, Severity::Warning, "unauthorized: u"),
        (AppError::Forbidden("f".into()), 403, Severity::Warning, "forbidden: f"),
        (AppError::Database("d".into()), 500, Severity::Error, "database error: d"),
        (AppError::Unexpected("x".into()), 500, Severity::Error, "unexpected error: x"),
    ];
    for (e, status, severity, text) in cases {
        assert_eq!(e.status(), status);
        assert_eq!(e.severity(), severity);
        assert_eq!(e.describe(), text);
        let body = ErrorResponse::from_error(&e).error;
        if status == 500 {
            assert_eq!(body, "internal server error");
        } else {
            assert_eq!(body, text);
        }
    }
}

#[test]
fn database_errors_are_classified() {
    assert_eq!(
        classify_database_error(true, None, "", "no rows"),
        AppError::NotFound("resource not found".into())
    );
    assert_eq!(
        classify_database_error(false, Some("23505"), "duplicate key", "db: duplicate key"),
        AppError::Conflict("duplicate key".into())
    );
    assert_eq!(
        classify_database_error(false, Some("42P01"), "no table", "db: no table"),
        AppError::Database("db: no table".into())
    );
}

#[test]
fn counter_names() {
    assert_eq!(AppMetrics::counter_metric("create", "success"), Some("app_user_create_success_total"));
    assert_eq!(AppMetrics::counter_metric("delete", "error"), Some("app_user_delete_error_total"));
    assert_eq!(AppMetrics::counter_metric("list", "ok"), None);
    assert_eq!(AppMetrics::counter_metric("purge", "success"), None);
}

#[test]
fn config_address() {
    let config = AppConfig {
        server: ServerConfig { host: "0.0.0.0".into(), port: 8080 },
        database: DatabaseConfig { uri: "postgres://x".into(), max_connections: 5 },
        telemetry: TelemetryConfig { service_name: "svc".into(), log_level: "info".into() },
        rate_limit: RateLimitConfig { requests_per_second: 2, burst_capacity: 2 },
        auth: AuthConfig { jwt_secret: "s".into(), jwt_ttl_minutes: 0 },
        bootstrap: BootstrapConfig { enabled: false, admin_name: "a".into(), admin_email: "a@b.cd".into(), admin_password: "p".into() },
    };
    assert_eq!(config.address(), "0.0.0.0:8080");
    assert!(!config.ttl_is_valid());
}

fn create(name: &str, email: &str, password: &str, role: &str) -> CreateUserDto {
    CreateUserDto { name: name.into(), email: email.into(), password: password.into(), role: role.into() }
}

#[test]
fn creation_requests_are_validated_in_order() {
    assert_eq!(
        new_user_from(&create("", "bad", "x", "root")).unwrap_err(),
        AppError::Validation("invalid role: root".into())
    );
    assert_eq!(
        new_user_from(&create(" ", "bad", "x", "admin")).unwrap_err(),
        AppError::Validation("name is required".into())
    );
    assert_eq!(
        new_user_from(&create("Ada", "bad", "x", "admin")).unwrap_err(),
        AppError::Validation("email has an invalid format".into())
    );
    assert_eq!(
        new_user_from(&create("Ada", "ada@example.com", "short", "admin")).unwrap_err(),
        AppError::Validation("password must be at least 12 characters".into())
    );
    let user = new_user_from(&create(" Ada ", "ada@example.com", "Sup3rSecure!x", " VIEWER")).unwrap();
    assert_eq!(user.name().as_str(), "Ada");
    assert_eq!(user.role(), UserRole::Viewer);
    assert!(webrust::password::verify_password(user.password_hash().as_str(), "Sup3rSecure!x").is_ok());
}

#[test]
fn update_requests() {
    let empty = UpdateUserDto { name: None, email: None, password: None, role: None };
    assert_eq!(
        update_from(&empty).unwrap_err(),
        AppError::Validation("at least one field must be provided".into())
    );
    let dto = UpdateUserDto { name: Some(" Grace ".into()), email: None, password: None, role: Some("admin".into()) };
    let update = update_from(&dto).unwrap();
    assert_eq!(update.name_str(), Some("Grace"));
    assert_eq!(update.email_str(), None);
    assert_eq!(update.role(), Some(UserRole::Admin));
    assert!(!update.is_empty());
    assert!(UpdateUser::default().is_empty());
}

#[test]
fn listing_scope_and_not_found() {
    let admin = AuthenticatedUser { id: UserId(1), email: "a@b.cd".into(), role: UserRole::Admin };
    let viewer = AuthenticatedUser { id: UserId(2), email: "v@b.cd".into(), role: UserRole::Viewer };
    assert_eq!(list_scope(&admin), None);
    assert_eq!(list_scope(&viewer), Some(UserId(2)));
    assert_eq!(
        user_not_found(UserId(2)),
        AppError::NotFound("user 00000000-0000-0000-0000-000000000002 not found".into())
    );
}

#[test]
fn update_requests_report_the_first_invalid_field() {
    let dto = UpdateUserDto { name: None, email: Some("bad".into()), password: Some("short".into()), role: None };
    assert_eq!(update_from(&dto).unwrap_err(), AppError::Validation("email has an invalid format".into()));
    let dto = UpdateUserDto { name: None, email: None, password: Some("short".into()), role: Some("x".into()) };
    assert_eq!(
        update_from(&dto).unwrap_err(),
        AppError::Validation("password must be at least 12 characters".into())
    );
    let dto = UpdateUserDto { name: None, email: None, password: None, role: Some(" Root".into()) };
    assert_eq!(update_from(&dto).unwrap_err(), AppError::Validation("invalid role:  Root".into()));
    let dto = UpdateUserDto { name: None, email: None, password: Some("N3wPassw0rd!x".into()), role: None };
    let update = update_from(&dto).unwrap();
    let hash = update.password_hash_str().unwrap();
    assert!(webrust::password::verify_password(hash, "N3wPassw0rd!x").is_ok());
}

#[test]
fn metrics_body_is_normalized_for_scraping() {
    assert_eq!(prometheus_body("\n\r\nfoo 1"), "foo 1\n");
    assert_eq!(prometheus_body("foo 1\n"), "foo 1\n");
    assert_eq!(prometheus_body(""), "\n");
    assert_eq!(prometheus_body("\n\n"), "\n");
}
