use brust64::pipeline::invocation_allowed;
use brust64::version::version;

#[test]
fn version_joins_components() {
    assert_eq!(
        version(Some("0"), Some("1"), Some("2"), Some("")),
        "cargo-brust64 0.1.2"
    );
}

#[test]
fn version_keeps_prerelease() {
    assert_eq!(
        version(Some("1"), Some("0"), Some("0"), Some("-beta.1")),
        "cargo-brust64 1.0.0-beta.1"
    );
}

#[test]
fn missing_components_stand_as_x() {
    assert_eq!(version(None, None, None, None), "cargo-brust64 X.X.X");
    assert_eq!(
        version(Some("2"), None, Some("7"), None),
        "cargo-brust64 2.X.7"
    );
}

#[test]
fn invocation_needs_host_marker() {
    assert!(invocation_allowed(&Some("/usr/bin/cargo".to_string())));
    assert!(invocation_allowed(&Some(String::new())));
    assert!(!invocation_allowed(&None));
}
