use cargo_clone::outcome::version;

#[test]
fn version_from_all_parts() {
    assert_eq!(version(Some("1"), Some("2"), Some("3"), Some("-beta")), "1.2.3-beta");
    assert_eq!(version(Some("1"), Some("2"), Some("3"), None), "1.2.3");
}

#[test]
fn version_with_missing_parts() {
    assert_eq!(version(None, None, None, None), "X.X.X");
    assert_eq!(version(Some("0"), None, Some("9"), Some("")), "0.X.9");
}
