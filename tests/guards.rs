use webrust::errors::AppError;
use webrust::guard::{
    ensure_admin, ensure_any, extract_bearer_token, require_role, require_self_or_admin,
    AuthenticatedUser,
};
use webrust::user::{UserId, UserRole};

fn user(id: u128, role: UserRole) -> AuthenticatedUser {
    AuthenticatedUser { id: UserId(id), email: "u@example.com".to_string(), role }
}

#[test]
fn self_or_admin_decisions() {
    let viewer = user(1, UserRole::Viewer);
    let admin = user(2, UserRole::Admin);
    assert_eq!(
        require_self_or_admin(&viewer, UserId(3)),
        Err(AppError::Forbidden("insufficient privileges".to_string()))
    );
    assert_eq!(require_self_or_admin(&viewer, UserId(1)), Ok(()));
    assert_eq!(require_self_or_admin(&admin, UserId(99)), Ok(()));
}

#[test]
fn role_requirements() {
    let viewer = user(1, UserRole::Viewer);
    let admin = user(2, UserRole::Admin);
    assert_eq!(ensure_admin(&admin), Ok(()));
    assert_eq!(ensure_admin(&viewer), Err(AppError::Forbidden("admin role required".to_string())));
    assert_eq!(require_role(&viewer, UserRole::Viewer), Ok(()));
    assert!(require_role(&viewer, UserRole::Admin).is_err());
    assert_eq!(ensure_any(&viewer, &[UserRole::Admin, UserRole::Viewer]), Ok(()));
    assert_eq!(
        ensure_any(&viewer, &[UserRole::Admin]),
        Err(AppError::Forbidden("insufficient role".to_string()))
    );
    assert!(ensure_any(&admin, &[]).is_err());
}

#[test]
fn bearer_header_forms() {
    assert_eq!(extract_bearer_token(Some("Bearer abc.def")), Ok("abc.def".to_string()));
    assert_eq!(extract_bearer_token(Some("Bearer   tok  ")), Ok("tok".to_string()));
    let rejected = Err(AppError::Unauthorized("invalid or missing bearer token".to_string()));
    assert_eq!(extract_bearer_token(None), rejected);
    assert_eq!(extract_bearer_token(Some("Basic abc")), rejected);
    assert_eq!(extract_bearer_token(Some("Bearer ")), rejected);
    assert_eq!(extract_bearer_token(Some("Bearer    ")), rejected);
    assert_eq!(extract_bearer_token(Some("bearer abc")), rejected);
}
