use dum::update::{update_check, version_of_tag};

#[test]
fn tag_loses_its_v() {
    assert_eq!(version_of_tag("v0.1.20"), "0.1.20");
    assert_eq!(version_of_tag("0.1.20"), "0.1.20");
    assert_eq!(version_of_tag("v1.0.0-preview"), "1.0.0-preiew");
    assert_eq!(version_of_tag(""), "");
}

#[test]
fn different_release_is_announced() {
    assert_eq!(update_check("0.1.19", "v0.1.20"), Some("0.1.20".to_string()));
    assert_eq!(update_check("0.1.19", "v0.1.18"), Some("0.1.18".to_string()));
}

#[test]
fn same_release_is_not_announced() {
    assert_eq!(update_check("0.1.19", "v0.1.19"), None);
    assert_eq!(update_check("0.1.19", "0.1.19"), None);
}
