use moonegg_core::version;

#[test]
fn version_matches_package_version() {
    assert_eq!(version(), "0.1.0");
}
