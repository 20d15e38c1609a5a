use rhizome::version::{is_newer, update_notice};

#[test]
fn version_comparison() {
    assert_eq!(is_newer("0.1.0", "0.2.0"), Some(true));
    assert_eq!(is_newer("0.2.0", "0.2.0"), Some(false));
    assert_eq!(is_newer("1.0.0", "0.9.9"), Some(false));
    assert_eq!(is_newer("0.9.0", "0.10.0"), Some(true));
    assert_eq!(is_newer("v0.1.0", "v0.2.0"), Some(true));

    // None cases, prevents panic
    assert_eq!(is_newer("not-a-version", "0.2.0"), None);
    assert_eq!(is_newer("0.2.0", "not-a-version"), None);
    assert_eq!(is_newer("", ""), None);
}

#[test]
fn version_never_newer_than_itself() {
    for v in ["0.1.0", "v2.3.4", "10.0.1", "7"] {
        assert_eq!(is_newer(v, v), Some(false));
    }
}

#[test]
fn version_newer_is_asymmetric() {
    assert_eq!(is_newer("0.3.0", "0.2.9"), Some(false));
    assert_eq!(is_newer("0.2.9", "0.3.0"), Some(true));
}

#[test]
fn version_newer_is_transitive() {
    assert_eq!(is_newer("0.1.0", "0.2.0"), Some(true));
    assert_eq!(is_newer("0.2.0", "1.0.0"), Some(true));
    assert_eq!(is_newer("0.1.0", "1.0.0"), Some(true));
}

#[test]
fn version_only_three_parts_count() {
    assert_eq!(is_newer("1.2.3", "1.2.3.9"), Some(false));
    assert_eq!(is_newer("1.2", "1.2.0"), Some(true));
    assert_eq!(is_newer("1.2.x", "1.2.0"), None);
    assert_eq!(is_newer("vv1.0.0", "1.0.1"), Some(true));
    assert_eq!(is_newer("1.0.0", "+1.0.1"), Some(true));
}

#[test]
fn version_update_notice() {
    assert_eq!(update_notice("0.1.0", "v0.2.0"), Some("update available → v0.2.0".to_string()));
    assert_eq!(update_notice("0.2.0", "v0.2.0"), None);
    assert_eq!(update_notice("0.2.0", "latest"), None);
}
