use cargo_clone::specifier::{is_valid_crate_name, parse_name_and_version, CrateSpecifier, SpecifierError};

fn spec(name: &str, version: Option<&str>) -> CrateSpecifier {
    CrateSpecifier { name: name.to_string(), version: version.map(|v| v.to_string()) }
}

#[test]
fn name_alone_has_no_version() {
    assert_eq!(parse_name_and_version("foo"), Ok(spec("foo", None)));
    assert_eq!(parse_name_and_version("cargo-clone"), Ok(spec("cargo-clone", None)));
}

#[test]
fn name_and_version_are_split() {
    assert_eq!(parse_name_and_version("foo@1.1.3"), Ok(spec("foo", Some("1.1.3"))));
    assert_eq!(parse_name_and_version("my_crate@0.2"), Ok(spec("my_crate", Some("0.2"))));
}

#[test]
fn operator_versions_are_kept_verbatim() {
    assert_eq!(parse_name_and_version("foo@~1.1.3"), Ok(spec("foo", Some("~1.1.3"))));
    assert_eq!(parse_name_and_version("foo@1.1.*"), Ok(spec("foo", Some("1.1.*"))));
}

#[test]
fn empty_name_is_rejected() {
    assert_eq!(parse_name_and_version(""), Err(SpecifierError::EmptyName));
    assert_eq!(parse_name_and_version("@1.0.0"), Err(SpecifierError::EmptyName));
}

#[test]
fn empty_version_is_rejected() {
    assert_eq!(parse_name_and_version("foo@"), Err(SpecifierError::EmptyVersion));
}

#[test]
fn invalid_name_is_rejected() {
    assert_eq!(parse_name_and_version("foo bar"), Err(SpecifierError::InvalidName));
    assert_eq!(parse_name_and_version("a.b@1"), Err(SpecifierError::InvalidName));
}

#[test]
fn token_is_split_at_last_at_sign() {
    // the name part is "a@b", which is not a valid name
    assert_eq!(parse_name_and_version("a@b@1"), Err(SpecifierError::InvalidName));
}

#[test]
fn parsing_twice_gives_equal_values() {
    let a = parse_name_and_version("serde@1.0");
    let b = parse_name_and_version("serde@1.0");
    assert_eq!(a, b);
    assert_eq!(parse_name_and_version("x@"), parse_name_and_version("x@"));
}

#[test]
fn crate_names() {
    assert!(is_valid_crate_name("cargo-clone_2"));
    assert!(!is_valid_crate_name(""));
    assert!(!is_valid_crate_name("caf\u{e9}"));
}

#[test]
fn bare_version_is_matched_exactly() {
    assert_eq!(spec("foo", Some("1.0.0")).requirement(), Some("=1.0.0".to_string()));
}

#[test]
fn operator_requirements_pass_through() {
    assert_eq!(spec("foo", Some("~1.0.0")).requirement(), Some("~1.0.0".to_string()));
    assert_eq!(spec("foo", Some(">=2")).requirement(), Some(">=2".to_string()));
    assert_eq!(spec("foo", Some("1.*")).requirement(), Some("1.*".to_string()));
    assert_eq!(spec("foo", None).requirement(), None);
}
