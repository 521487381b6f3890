use woodpecker::launch::{
    is_blank, join_commas, package_of, select_package, validate_session, Config, PackageEntry, Target,
};

fn config(manifest: &str, package: &str, name: &str) -> Config {
    Config {
        manifest_path: manifest.into(),
        package: package.into(),
        target: Target::Binary { name: name.into() },
        features: vec![],
        arguments: vec![],
    }
}

#[test]
fn configuration_names_a_manifest_package_and_target() {
    assert!(config("Cargo.toml", "game", "main").validate().is_ok());
    for (manifest, package, name) in [
        ("", "game", "main"),
        ("Cargo.toml", "", "main"),
        ("Cargo.toml", " \t", "main"),
        ("Cargo.toml", "game", "\u{3000}"),
        ("Cargo.toml", "game", ""),
    ] {
        let error = config(manifest, package, name).validate().unwrap_err();
        assert_eq!(error.code(), "invalid_config");
        assert_eq!(error.message(), "manifest, package and named target are required");
    }
    let mut example = config("Cargo.toml", " game ", "demo");
    example.target = Target::Example { name: "\n".into() };
    assert!(example.validate().is_err());
}

#[test]
fn blank_means_only_unicode_white_space() {
    assert!(is_blank(""));
    assert!(is_blank(" \t\r\n\u{85}\u{a0}\u{2028}"));
    assert!(!is_blank(" a "));
    assert!(!is_blank("\u{200b}"));
}

#[test]
fn run_arguments_name_package_target_features_and_game_arguments() {
    let mut c = config("Cargo.toml", "game", "demo");
    c.target = Target::Example { name: "demo".into() };
    c.features = vec!["a".into(), "b".into()];
    c.arguments = vec!["--level".into(), "2".into()];
    assert_eq!(
        c.run_arguments(),
        vec!["--package", "game", "--example", "demo", "--features", "a,b", "--", "--level", "2"]
    );
    let plain = config("Cargo.toml", "game", "main");
    assert_eq!(plain.run_arguments(), vec!["--package", "game", "--bin", "main", "--"]);
}

#[test]
fn features_are_joined_by_commas() {
    assert_eq!(join_commas(&vec![]), "");
    assert_eq!(join_commas(&vec!["x".into()]), "x");
    assert_eq!(join_commas(&vec!["x".into(), "y".into(), "z".into()]), "x,y,z");
}

fn entry(name: &str, version: Option<&str>) -> PackageEntry {
    PackageEntry { name: Some(name.into()), version: version.map(Into::into), manifest_path: None }
}

#[test]
fn package_and_version_must_resolve_uniquely() {
    let packages = vec![entry("tool", Some("1.0.0")), entry("game", Some("0.3.0"))];
    assert_eq!(select_package(&packages, "game").unwrap(), 1);
    let none = select_package(&packages, "other").unwrap_err();
    assert_eq!(none.code(), "launch");
    assert_eq!(none.message(), "package and version must resolve uniquely");
    let twice = vec![entry("game", Some("0.3.0")), entry("game", Some("0.4.0"))];
    assert!(select_package(&twice, "game").is_err());
    let unversioned = vec![entry("game", None)];
    assert!(select_package(&unversioned, "game").is_err());
    let nameless = vec![PackageEntry { name: None, version: Some("1.0.0".into()), manifest_path: None }, entry("game", Some("1"))];
    assert_eq!(select_package(&nameless, "game").unwrap(), 1);
}

#[test]
fn session_configuration_needs_an_artifact_directory_and_a_valid_pace() {
    let good = config("Cargo.toml", "game", "main");
    assert!(validate_session(&good, "artifacts", true).is_ok());
    for (dir, pace) in [("", true), ("artifacts", false)] {
        let error = validate_session(&good, dir, pace).unwrap_err();
        assert_eq!(error.code(), "invalid_config");
        assert_eq!(error.message(), "artifact directory and valid tick pace required");
    }
    let bad = config("", "game", "main");
    assert_eq!(
        validate_session(&bad, "", false).unwrap_err().message(),
        "manifest, package and named target are required"
    );
}

#[test]
fn the_package_is_read_from_cargo_metadata_output() {
    let stdout = r#"{"packages":[
        {"name":"tools","version":"0.1.0","manifest_path":"/w/tools/Cargo.toml"},
        {"name":"game","version":"1.2.3","manifest_path":"/w/game/Cargo.toml","id":"x"},
        {"name":"game","version":null}
    ],"workspace_root":"/w"}"#;
    let package = package_of(stdout, "game").unwrap();
    assert_eq!(package.name.as_deref(), Some("game"));
    assert_eq!(package.version.as_deref(), Some("1.2.3"));
    assert_eq!(package.manifest_path.as_deref(), Some("/w/game/Cargo.toml"));
    let missing = package_of(r#"{"workspace_root":"/w"}"#, "game").unwrap_err();
    assert_eq!((missing.code(), missing.message()), ("launch", "missing packages"));
    let not_json = package_of("warning: something", "game").unwrap_err();
    assert_eq!(not_json.code(), "launch");
    assert!(!not_json.message().is_empty());
    let unknown = package_of(stdout, "other").unwrap_err();
    assert_eq!(unknown.message(), "package and version must resolve uniquely");
    let twice = r#"{"packages":[{"name":"game","version":"1"},{"name":"game","version":"2"}]}"#;
    assert!(package_of(twice, "game").is_err());
}
