use editor_support::notification::{push_decimal, push_version, SemanticVersion, UpdateNotification};

#[test]
fn title_names_app_and_version() {
    let n = UpdateNotification::new(SemanticVersion { major: 0, minor: 170, patch: 4 });
    assert_eq!(n.title("Zed"), "Updated to Zed 0.170.4");
    assert_eq!(n.version(), SemanticVersion { major: 0, minor: 170, patch: 4 });
}

#[test]
fn decimal_numerals() {
    for n in [0usize, 7, 10, 99, 100, 12345, usize::MAX] {
        let mut s = String::from("x");
        push_decimal(&mut s, n);
        assert_eq!(s, format!("x{}", n));
    }
}

#[test]
fn version_text() {
    let mut s = String::new();
    push_version(&mut s, SemanticVersion { major: 10, minor: 0, patch: 1 });
    assert_eq!(s, "10.0.1");
}
