use lumi_downloader::setup::{version_from_output, version_info};

fn s(x: &str) -> String {
    x.to_string()
}

#[test]
fn version_output_is_trimmed() {
    assert_eq!(version_from_output(b"2024.08.06\n"), "2024.08.06");
    assert_eq!(version_from_output(b""), "");
}

#[test]
fn update_offered_when_tags_differ() {
    let i = version_info(b"2024.08.06\n", Some(s("2024.10.22")));
    assert_eq!(i.current, "2024.08.06");
    assert_eq!(i.latest, "2024.10.22");
    assert!(i.update_available);
}

#[test]
fn no_update_when_same_or_unknown() {
    let i = version_info(b"2024.10.22\r\n", Some(s("2024.10.22")));
    assert!(!i.update_available);
    let i = version_info(b"2024.10.22\n", None);
    assert_eq!(i.latest, "");
    assert!(!i.update_available);
    let i = version_info(b"", Some(s("")));
    assert!(!i.update_available);
}

#[test]
fn update_offered_when_nothing_installed() {
    let i = version_info(b"", Some(s("2024.10.22")));
    assert_eq!(i.current, "");
    assert!(i.update_available);
}
