use nextui_updater::version::is_newer;

#[test]
fn numbers_decide_from_left_to_right() {
    assert_eq!(is_newer("2.0.0", "1.9.9"), Ok(true));
    assert_eq!(is_newer("1.19.0", "1.5.0"), Ok(true));
    assert_eq!(is_newer("1.0.10", "1.0.9"), Ok(true));
    assert_eq!(is_newer("1.5.0", "1.19.0"), Ok(false));
    assert_eq!(is_newer("1.9.9", "2.0.0"), Ok(false));
}

#[test]
fn no_version_is_newer_than_itself() {
    for version in ["1.0.0", "0.0.0", "1.2.3-rc.1", "1.2.3+build.5", "1.2.3-a.b+c.d"] {
        assert_eq!(is_newer(version, version), Ok(false));
    }
}

#[test]
fn a_release_is_newer_than_its_prereleases() {
    assert_eq!(is_newer("1.0.0", "1.0.0-rc.1"), Ok(true));
    assert_eq!(is_newer("1.0.0-rc.1", "1.0.0"), Ok(false));
}

#[test]
fn identifiers_decide_last() {
    assert_eq!(is_newer("1.0.0-pre.12", "1.0.0-pre.8"), Ok(true));
    assert_eq!(is_newer("1.0.0-pre.8", "1.0.0-pre.12"), Ok(false));
    assert_eq!(is_newer("1.0.0-beta", "1.0.0-alpha"), Ok(true));
    assert_eq!(is_newer("1.0.0+2", "1.0.0+1"), Ok(true));
    assert_eq!(is_newer("1.0.0+1", "1.0.0+2"), Ok(false));
}

#[test]
fn says_what_is_wrong_with_a_version() {
    assert_eq!(
        is_newer("1.q.r", "1.0.0"),
        Err("unexpected character 'q' while parsing minor version number".to_string())
    );
    assert_eq!(
        is_newer("v1.0.0", "1.0.0"),
        Err("unexpected character 'v' while parsing major version number".to_string())
    );
    assert_eq!(
        is_newer("1.0.0", "1.q.r"),
        Err("unexpected character 'q' while parsing minor version number".to_string())
    );
    assert_eq!(
        is_newer("", "1.q.r"),
        Err("empty string, expected a semver version".to_string())
    );
}
