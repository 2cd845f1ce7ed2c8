use secure_update::version::SemanticVersion;

#[test]
fn test_version_comparison() {
    let v1 = SemanticVersion::new(1, 0, 0);
    let v2 = SemanticVersion::new(1, 0, 1);
    let v3 = SemanticVersion::new(1, 1, 0);
    let v4 = SemanticVersion::new(2, 0, 0);

    assert!(v2.is_newer_than(&v1));
    assert!(v3.is_newer_than(&v2));
    assert!(v4.is_newer_than(&v3));
    assert!(!v1.is_newer_than(&v2));
    assert!(!v1.is_newer_than(&v1));
}

#[test]
fn test_safe_upgrade() {
    let from = SemanticVersion::new(1, 0, 0);
    let to = SemanticVersion::new(1, 0, 1);
    assert!(SemanticVersion::is_safe_upgrade(&from, &to));
    assert!(!SemanticVersion::is_safe_upgrade(&to, &from));
    assert!(!SemanticVersion::is_safe_upgrade(&from, &from));
}

#[test]
fn test_parse() {
    let v = SemanticVersion::parse("2.1.3").unwrap();
    assert_eq!(v, SemanticVersion::new(2, 1, 3));

    assert!(SemanticVersion::parse("invalid").is_err());
    assert!(SemanticVersion::parse("1.2").is_err());
    assert!(SemanticVersion::parse("1.2.3.4").is_err());
}

#[test]
fn parse_error_messages() {
    assert_eq!(
        SemanticVersion::parse("1.2").unwrap_err(),
        "Invalid version format: '1.2' (expected X.Y.Z)"
    );
    assert_eq!(SemanticVersion::parse("a.2.3").unwrap_err(), "Invalid major version: 'a'");
    assert_eq!(SemanticVersion::parse("1.-2.3").unwrap_err(), "Invalid minor version: '-2'");
    assert_eq!(SemanticVersion::parse("1.2.99999999999").unwrap_err(), "Invalid patch version: '99999999999'");
}

#[test]
fn parse_accepts_plus_sign_and_max_values() {
    assert_eq!(SemanticVersion::parse("+1.2.3").unwrap(), SemanticVersion::new(1, 2, 3));
    assert_eq!(
        SemanticVersion::parse("4294967295.0.0").unwrap(),
        SemanticVersion::new(4294967295, 0, 0)
    );
    assert!(SemanticVersion::parse("4294967296.0.0").is_err());
    assert!(SemanticVersion::parse("").is_err());
    assert!(SemanticVersion::parse("1..3").is_err());
}

#[test]
fn to_string_parses_back() {
    for v in [
        SemanticVersion::new(0, 0, 0),
        SemanticVersion::new(1, 20, 300),
        SemanticVersion::new(4294967295, 7, 10),
    ] {
        let text = v.to_string();
        assert_eq!(SemanticVersion::parse(&text).unwrap(), v);
    }
    assert_eq!(SemanticVersion::new(1, 20, 300).to_string(), "1.20.300");
}

#[test]
fn newer_is_a_strict_order_on_examples() {
    let a = SemanticVersion::new(1, 9, 9);
    let b = SemanticVersion::new(2, 0, 0);
    let c = SemanticVersion::new(2, 0, 1);
    assert!(b.is_newer_than(&a) && c.is_newer_than(&b) && c.is_newer_than(&a));
    assert!(!a.is_newer_than(&b));
    assert!(!b.is_newer_than(&b));
}
