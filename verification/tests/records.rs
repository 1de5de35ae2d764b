use scc_license::{LicenseInfo, LicenseType, Timestamp};

fn texts(items: &[&str]) -> Vec<String> {
    items.iter().map(|item| item.to_string()).collect()
}

fn sample() -> LicenseInfo {
    LicenseInfo {
        licensee: "Dr. Pablo".to_string(),
        email: "pablo@clinic.com".to_string(),
        license_type: LicenseType::Single,
        issued_at: Timestamp { secs: 1_735_689_600, nanos: 0 },
        expires_at: Timestamp { secs: 1_767_225_600, nanos: 0 },
        domains: texts(&["petfriendlyvet.com"]),
        features: texts(&["basic", "appointments", "ecommerce"]),
        max_users: Some(5),
    }
}

const SAMPLE_JSON: &str = r#"{"domains":["petfriendlyvet.com"],"email":"pablo@clinic.com","expires_at":"2026-01-01T00:00:00+00:00","features":["basic","appointments","ecommerce"],"issued_at":"2025-01-01T00:00:00+00:00","license_type":"single","licensee":"Dr. Pablo","max_users":5}"#;

#[test]
fn record_is_written_as_compact_json() {
    assert_eq!(sample().to_json_bytes(), Some(SAMPLE_JSON.as_bytes().to_vec()));
}

#[test]
fn record_without_ceiling_is_written_with_null() {
    let mut record = sample();
    record.license_type = LicenseType::Enterprise;
    record.features = texts(&["all"]);
    record.max_users = None;
    record.domains = Vec::new();
    let written = String::from_utf8(record.to_json_bytes().unwrap()).unwrap();
    assert_eq!(
        written,
        r#"{"domains":[],"email":"pablo@clinic.com","expires_at":"2026-01-01T00:00:00+00:00","features":["all"],"issued_at":"2025-01-01T00:00:00+00:00","license_type":"enterprise","licensee":"Dr. Pablo","max_users":null}"#
    );
}

#[test]
fn record_is_written_for_display_as_indented_json() {
    let mut record = sample();
    record.domains = Vec::new();
    record.features = texts(&["basic"]);
    let text = record.to_json_text().unwrap();
    assert_eq!(
        text,
        "{\n  \"domains\": [],\n  \"email\": \"pablo@clinic.com\",\n  \"expires_at\": \"2026-01-01T00:00:00+00:00\",\n  \"features\": [\n    \"basic\"\n  ],\n  \"issued_at\": \"2025-01-01T00:00:00+00:00\",\n  \"license_type\": \"single\",\n  \"licensee\": \"Dr. Pablo\",\n  \"max_users\": 5\n}"
    );
}

#[test]
fn record_is_read_from_json() {
    assert_eq!(LicenseInfo::from_json_bytes(SAMPLE_JSON.as_bytes()), Some(sample()));
}

#[test]
fn record_is_read_from_json_in_declaration_order() {
    let json = r#"{"licensee":"Dr. Pablo","email":"pablo@clinic.com","license_type":"single","issued_at":"2025-01-01T00:00:00+00:00","expires_at":"2026-01-01T00:00:00Z","domains":["petfriendlyvet.com"],"features":["basic","appointments","ecommerce"],"max_users":5,"note":"ignored"}"#;
    assert_eq!(LicenseInfo::from_json_bytes(json.as_bytes()), Some(sample()));
}

#[test]
fn written_record_is_read_back() {
    let mut odd = sample();
    odd.licensee = "A \"quoted\" name \\ with \u{e9} and \n".to_string();
    odd.domains = texts(&["a.com", "b.com", ""]);
    odd.features = Vec::new();
    odd.max_users = Some(u32::MAX);
    odd.issued_at = Timestamp { secs: -1, nanos: 999_999_999 };
    odd.license_type = LicenseType::Developer;
    let mut unlimited = sample();
    unlimited.max_users = None;
    for record in [sample(), odd, unlimited] {
        let bytes = record.to_json_bytes().unwrap();
        assert_eq!(LicenseInfo::from_json_bytes(&bytes), Some(record));
    }
}

#[test]
fn record_without_max_users_has_no_ceiling() {
    let json = r#"{"licensee":"L","email":"e","license_type":"enterprise","issued_at":"2025-01-01T00:00:00Z","expires_at":"2026-01-01T00:00:00Z","domains":[],"features":["all"]}"#;
    let record = LicenseInfo::from_json_bytes(json.as_bytes()).unwrap();
    assert_eq!(record.max_users, None);
    assert_eq!(record.license_type, LicenseType::Enterprise);
    let json = json.replace("}", ",\"max_users\":null}");
    assert_eq!(LicenseInfo::from_json_bytes(json.as_bytes()).unwrap().max_users, None);
    let json = json.replace("null", "0");
    assert_eq!(LicenseInfo::from_json_bytes(json.as_bytes()).unwrap().max_users, Some(0));
    let json = json.replace(":0}", ":4294967295}");
    assert_eq!(LicenseInfo::from_json_bytes(json.as_bytes()).unwrap().max_users, Some(4_294_967_295));
}

#[test]
fn record_with_a_member_of_the_wrong_form_is_not_read() {
    let good = SAMPLE_JSON.to_string();
    assert!(LicenseInfo::from_json_bytes(good.as_bytes()).is_some());
    for (from, to) in [
        ("\"max_users\":5", "\"max_users\":4294967296"),
        ("\"max_users\":5", "\"max_users\":-1"),
        ("\"max_users\":5", "\"max_users\":5.0"),
        ("\"max_users\":5", "\"max_users\":\"5\""),
        ("\"license_type\":\"single\"", "\"license_type\":\"platinum\""),
        ("\"license_type\":\"single\"", "\"license_type\":\"Single\""),
        ("\"license_type\":\"single\"", "\"license_type\":1"),
        ("\"licensee\":\"Dr. Pablo\"", "\"licensee\":null"),
        ("\"licensee\":\"Dr. Pablo\",", ""),
        ("\"email\":\"pablo@clinic.com\",", ""),
        ("\"email\":\"pablo@clinic.com\"", "\"email\":[\"pablo@clinic.com\"]"),
        ("\"issued_at\":\"2025-01-01T00:00:00+00:00\"", "\"issued_at\":\"yesterday\""),
        ("\"issued_at\":\"2025-01-01T00:00:00+00:00\"", "\"issued_at\":1735689600"),
        ("\"expires_at\":\"2026-01-01T00:00:00+00:00\",", ""),
        ("\"domains\":[\"petfriendlyvet.com\"]", "\"domains\":\"petfriendlyvet.com\""),
        ("\"domains\":[\"petfriendlyvet.com\"]", "\"domains\":[\"petfriendlyvet.com\",1]"),
        ("\"domains\":[\"petfriendlyvet.com\"],", ""),
        ("\"features\":[\"basic\",\"appointments\",\"ecommerce\"]", "\"features\":[[\"basic\"]]"),
        ("\"features\":[\"basic\",\"appointments\",\"ecommerce\"],", ""),
    ] {
        assert!(good.contains(from));
        let bad = good.replace(from, to);
        assert_eq!(LicenseInfo::from_json_bytes(bad.as_bytes()), None, "{}", bad);
    }
}

#[test]
fn bytes_that_are_no_json_object_are_not_read() {
    assert_eq!(LicenseInfo::from_json_bytes(b""), None);
    assert_eq!(LicenseInfo::from_json_bytes(b"not json"), None);
    assert_eq!(LicenseInfo::from_json_bytes(b"[]"), None);
    assert_eq!(LicenseInfo::from_json_bytes(b"{}"), None);
    assert_eq!(LicenseInfo::from_json_bytes(&[0xff, 0xfe]), None);
    let mut trailing = SAMPLE_JSON.as_bytes().to_vec();
    trailing.extend_from_slice(b"{}");
    assert_eq!(LicenseInfo::from_json_bytes(&trailing), None);
}

#[test]
fn record_with_a_date_that_cannot_be_written_is_not_written() {
    let mut record = sample();
    record.expires_at = Timestamp { secs: i64::MAX, nanos: 0 };
    assert_eq!(record.to_json_bytes(), None);
    assert_eq!(record.to_json_text(), None);
}
