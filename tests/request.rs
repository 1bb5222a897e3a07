use cargo_clone::outcome::{exit_code, CloneError, FAILURE_EXIT_CODE};
use cargo_clone::request::{
    places_per_crate, resolve, select_source, CloneArgs, CloneRequest, SourceFlag, SourceSelector,
    UsageError,
};
use cargo_clone::specifier::{CrateSpecifier, SpecifierError};

fn args(crates: &[&str]) -> CloneArgs {
    CloneArgs {
        crates: crates.iter().map(|c| c.to_string()).collect(),
        registry: None,
        index: None,
        local_registry: None,
        directory: None,
        use_git: false,
    }
}

fn s(v: &str) -> Option<String> {
    Some(v.to_string())
}

#[test]
fn single_crate_with_version() {
    let r = resolve(args(&["cargo-clone@1.0.0"])).unwrap();
    assert_eq!(
        r,
        CloneRequest {
            crates: vec![CrateSpecifier {
                name: "cargo-clone".to_string(),
                version: s("1.0.0")
            }],
            source: SourceSelector::Default,
            directory: None,
            per_crate_dirs: true,
            use_git: false,
        }
    );
}

#[test]
fn two_crates_from_named_registry() {
    let mut a = args(&["foo", "bar"]);
    a.registry = s("myreg");
    let r = resolve(a).unwrap();
    assert_eq!(
        r.crates,
        vec![
            CrateSpecifier { name: "foo".to_string(), version: None },
            CrateSpecifier { name: "bar".to_string(), version: None },
        ]
    );
    assert_eq!(r.source, SourceSelector::AltRegistry("myreg".to_string()));
}

#[test]
fn registry_and_index_conflict() {
    let mut a = args(&["foo"]);
    a.registry = s("a");
    a.index = s("http://x");
    let e = resolve(a).unwrap_err();
    assert_eq!(e, UsageError::ConflictingSources(SourceFlag::Registry, SourceFlag::Index));
    assert_eq!(exit_code(&Err(CloneError::Usage(e))), 101);
}

#[test]
fn every_pair_of_sources_conflicts() {
    assert_eq!(
        select_source(s("a"), None, s("/p")),
        Err(UsageError::ConflictingSources(SourceFlag::Registry, SourceFlag::LocalRegistry))
    );
    assert_eq!(
        select_source(None, s("http://x"), s("/p")),
        Err(UsageError::ConflictingSources(SourceFlag::Index, SourceFlag::LocalRegistry))
    );
    assert_eq!(
        select_source(s("a"), s("http://x"), s("/p")),
        Err(UsageError::ConflictingSources(SourceFlag::Registry, SourceFlag::Index))
    );
}

#[test]
fn conflict_is_reported_before_bad_crates() {
    let mut a = args(&["@bad"]);
    a.index = s("http://x");
    a.local_registry = s("/p");
    assert_eq!(
        resolve(a),
        Err(UsageError::ConflictingSources(SourceFlag::Index, SourceFlag::LocalRegistry))
    );
}

#[test]
fn single_source_flags_select_that_source() {
    assert_eq!(select_source(None, None, None), Ok(SourceSelector::Default));
    assert_eq!(
        select_source(None, s("http://x"), None),
        Ok(SourceSelector::IndexUrl("http://x".to_string()))
    );
    assert_eq!(
        select_source(None, None, s("/p")),
        Ok(SourceSelector::LocalRegistry("/p".to_string()))
    );
}

#[test]
fn no_source_flag_gives_default_registry() {
    let r = resolve(args(&["a", "b@2"])).unwrap();
    assert_eq!(r.source, SourceSelector::Default);
}

#[test]
fn trailing_slash_places_per_crate() {
    let mut a = args(&["foo"]);
    a.directory = s("out/");
    let r = resolve(a).unwrap();
    assert!(r.per_crate_dirs);
    assert_eq!(r.directory, s("out/"));

    let mut b = args(&["foo"]);
    b.directory = s("out");
    let r = resolve(b).unwrap();
    assert!(!r.per_crate_dirs);
    assert_eq!(r.directory, s("out"));
}

#[test]
fn placement_edge_cases() {
    assert!(places_per_crate(&None));
    assert!(!places_per_crate(&s("")));
    assert!(places_per_crate(&s("a/b/")));
    assert!(!places_per_crate(&s("a/b")));
}

#[test]
fn missing_crates_is_a_usage_error() {
    assert_eq!(resolve(args(&[])), Err(UsageError::NoCrates));
}

#[test]
fn first_bad_token_is_named() {
    assert_eq!(
        resolve(args(&["ok", "bad@", "@worse"])),
        Err(UsageError::BadSpecifier(1, SpecifierError::EmptyVersion))
    );
}

#[test]
fn git_flag_is_kept() {
    let mut a = args(&["foo"]);
    a.use_git = true;
    assert!(resolve(a).unwrap().use_git);
}

#[test]
fn exit_codes() {
    assert_eq!(exit_code(&Ok(())), 0);
    assert_eq!(FAILURE_EXIT_CODE, 101);
    assert_eq!(exit_code(&Err(CloneError::Provider("network".to_string()))), 101);
    assert_eq!(
        exit_code(&Err(CloneError::SourceResolution("bad url".to_string()))),
        101
    );
}
