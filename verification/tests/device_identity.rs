use lockwatch::device::{device_identity_from_parts, platform_label};

#[test]
fn identity_keeps_resolved_hostname() {
    let identity = device_identity_from_parts(
        Some(String::from("workstation-07")),
        String::from("linux • x86_64"),
    );
    assert_eq!(identity.hostname, "workstation-07");
    assert_eq!(identity.platform, "linux • x86_64");
}

#[test]
fn identity_falls_back_when_hostname_unreadable() {
    let identity = device_identity_from_parts(None, String::from("macos • aarch64"));
    assert_eq!(identity.hostname, "Unknown");
    assert_eq!(identity.platform, "macos • aarch64");
}

#[test]
fn platform_label_joins_os_and_architecture() {
    assert_eq!(platform_label("linux", "x86_64"), "linux • x86_64");
    assert_eq!(platform_label("windows", "aarch64"), "windows • aarch64");
    assert_eq!(platform_label("", ""), " • ");
}
