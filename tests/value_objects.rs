use webrust::errors::DomainError;
use webrust::value_objects::{EmailAddress, PasswordHash, PlainPassword, UserName};

#[test]
fn email_is_trimmed_and_accepted() {
    let e = EmailAddress::parse("  Ada.Lovelace+x@Example.co.uk ").unwrap();
    assert_eq!(e.as_str(), "Ada.Lovelace+x@Example.co.uk");
}

#[test]
fn email_errors_in_order() {
    assert_eq!(EmailAddress::parse("   ").unwrap_err().message(), "email is required");
    let long = format!("{}@example.com", "a".repeat(190));
    assert_eq!(
        EmailAddress::parse(&long).unwrap_err().message(),
        "email must be at most 190 characters"
    );
    for bad in ["ada", "ada@", "@example.com", "ada@example", "ada@example.c", "ada@@example.com", "ada@exa mple.com", "ada@example.c0m"] {
        assert_eq!(
            EmailAddress::parse(bad).unwrap_err(),
            DomainError::Validation("email has an invalid format".to_string()),
            "{bad}"
        );
    }
}

#[test]
fn email_domain_may_hold_dots_before_the_last_one() {
    assert!(EmailAddress::parse("a@b.c.de").is_ok());
    assert!(EmailAddress::parse("a@.de").is_err());
}

#[test]
fn name_rules() {
    assert_eq!(UserName::parse("  Grace ").unwrap().as_str(), "Grace");
    assert_eq!(UserName::parse(" ").unwrap_err().message(), "name is required");
    assert_eq!(
        UserName::parse(&"n".repeat(121)).unwrap_err().message(),
        "name must be at most 120 characters"
    );
    assert!(UserName::parse(&"n".repeat(120)).is_ok());
}

#[test]
fn password_policy() {
    assert!(PlainPassword::parse("Sup3rSecure!x").is_ok());
    assert_eq!(
        PlainPassword::parse("Sh0rt!").unwrap_err().message(),
        "password must be at least 12 characters"
    );
    assert_eq!(
        PlainPassword::parse("alllowercase1!").unwrap_err().message(),
        "password must include uppercase, lowercase, digit and symbol"
    );
    assert_eq!(
        PlainPassword::parse("NoSymbolHere12").unwrap_err().message(),
        "password must include uppercase, lowercase, digit and symbol"
    );
    assert_eq!(
        PlainPassword::parse("Spaces Only 12").unwrap_err().message(),
        "password must include uppercase, lowercase, digit and symbol"
    );
}

#[test]
fn password_hash_must_not_be_empty() {
    assert_eq!(PasswordHash::new(" x ").unwrap().as_str(), "x");
    assert_eq!(PasswordHash::new("  ").unwrap_err().message(), "password hash cannot be empty");
    assert_eq!(PasswordHash::new("x").unwrap().redacted(), "<redacted>");
}
