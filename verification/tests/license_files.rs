use scc_license::LicenseFile;

fn file(version: u8, payload: &str, signature: &str) -> LicenseFile {
    LicenseFile { version, payload: payload.to_string(), signature: signature.to_string() }
}

#[test]
fn license_file_is_read_from_json() {
    let text = r#"{"version": 1, "payload": "aGVsbG8=", "signature": "00ff"}"#;
    assert_eq!(LicenseFile::from_text(text), Some(file(1, "aGVsbG8=", "00ff")));
}

#[test]
fn license_file_members_come_in_any_order_and_others_are_ignored() {
    let text = r#"{"signature":"00ff","comment":[1,2],"payload":"","version":255}"#;
    assert_eq!(LicenseFile::from_text(text), Some(file(255, "", "00ff")));
}

#[test]
fn license_file_is_written_as_indented_json() {
    let text = file(1, "aGVsbG8=", "00ff").to_text().unwrap();
    assert_eq!(text, "{\n  \"payload\": \"aGVsbG8=\",\n  \"signature\": \"00ff\",\n  \"version\": 1\n}");
}

#[test]
fn written_license_file_is_read_back() {
    for sample in [
        file(1, "aGVsbG8=", "00ff"),
        file(0, "", ""),
        file(255, "with \"quotes\" and \\ and \n and \u{e9}\u{1f600}", "\t"),
    ] {
        let text = sample.to_text().unwrap();
        assert_eq!(LicenseFile::from_text(&text), Some(sample));
    }
}

#[test]
fn text_that_is_no_license_file_is_not_read() {
    assert_eq!(LicenseFile::from_text(""), None);
    assert_eq!(LicenseFile::from_text("not json"), None);
    assert_eq!(LicenseFile::from_text("[1, \"aGVsbG8=\", \"00ff\"]"), None);
    assert_eq!(LicenseFile::from_text("\"version\""), None);
    assert_eq!(LicenseFile::from_text("null"), None);
    assert_eq!(LicenseFile::from_text(r#"{"version": 1, "payload": "aGVsbG8="}"#), None);
    assert_eq!(LicenseFile::from_text(r#"{"version": 1, "signature": "00ff"}"#), None);
    assert_eq!(LicenseFile::from_text(r#"{"payload": "aGVsbG8=", "signature": "00ff"}"#), None);
    assert_eq!(LicenseFile::from_text(r#"{"version": 1, "payload": "aGVsbG8=", "signature": "00ff"} x"#), None);
}

#[test]
fn license_file_members_must_have_their_types() {
    assert_eq!(LicenseFile::from_text(r#"{"version": "1", "payload": "", "signature": ""}"#), None);
    assert_eq!(LicenseFile::from_text(r#"{"version": 1.0, "payload": "", "signature": ""}"#), None);
    assert_eq!(LicenseFile::from_text(r#"{"version": -1, "payload": "", "signature": ""}"#), None);
    assert_eq!(LicenseFile::from_text(r#"{"version": 256, "payload": "", "signature": ""}"#), None);
    assert_eq!(LicenseFile::from_text(r#"{"version": null, "payload": "", "signature": ""}"#), None);
    assert_eq!(LicenseFile::from_text(r#"{"version": 1, "payload": 7, "signature": ""}"#), None);
    assert_eq!(LicenseFile::from_text(r#"{"version": 1, "payload": "", "signature": null}"#), None);
    assert_eq!(LicenseFile::from_text(r#"{"version": 1, "payload": "", "signature": ["00"]}"#), None);
}
