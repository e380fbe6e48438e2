use webrust::errors::AppError;
use webrust::user::{parse_role, UserRole};

#[test]
fn role_text_round_trips() {
    for role in [UserRole::Admin, UserRole::Viewer] {
        assert_eq!(UserRole::from_str(role.as_str()), Ok(role));
        assert_eq!(parse_role(role.as_str()), Ok(role));
    }
}

#[test]
fn role_parsing_normalizes_case_and_space() {
    assert_eq!(parse_role("  ADMIN "), Ok(UserRole::Admin));
    assert_eq!(parse_role("Viewer"), Ok(UserRole::Viewer));
}

#[test]
fn unknown_role_is_a_validation_error_with_the_text() {
    assert_eq!(
        parse_role(" Owner "),
        Err(AppError::Validation("invalid role:  Owner ".to_string()))
    );
    let err = UserRole::from_str("Admin").unwrap_err();
    assert_eq!(err.0, "invalid role: Admin");
}
