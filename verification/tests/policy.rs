use scc_license::{get_features_for_type, get_max_users_for_type, LicenseType};

fn texts(items: &[&str]) -> Vec<String> {
    items.iter().map(|item| item.to_string()).collect()
}

#[test]
fn test_license_type_serialization() {
    let license_type = LicenseType::Single;
    let json = serde_json::to_string(license_type.name()).unwrap();
    assert_eq!(json, "\"single\"");
}

#[test]
fn every_tier_has_its_lower_case_name() {
    assert_eq!(LicenseType::Trial.name(), "trial");
    assert_eq!(LicenseType::Single.name(), "single");
    assert_eq!(LicenseType::Multi.name(), "multi");
    assert_eq!(LicenseType::Enterprise.name(), "enterprise");
    assert_eq!(LicenseType::Developer.name(), "developer");
}

#[test]
fn every_tier_is_read_back_from_its_name() {
    for tier in [
        LicenseType::Trial,
        LicenseType::Single,
        LicenseType::Multi,
        LicenseType::Enterprise,
        LicenseType::Developer,
    ] {
        assert_eq!(LicenseType::from_name(tier.name()), Some(tier));
        assert_eq!(LicenseType::from_name_or_trial(tier.name()), tier);
    }
}

#[test]
fn other_texts_name_no_tier() {
    assert_eq!(LicenseType::from_name("platinum"), None);
    assert_eq!(LicenseType::from_name("Single"), None);
    assert_eq!(LicenseType::from_name(""), None);
    assert_eq!(LicenseType::from_name("trial "), None);
}

#[test]
fn unknown_tier_falls_back_to_the_most_restrictive() {
    assert_eq!(LicenseType::from_name_or_trial("platinum"), LicenseType::Trial);
    assert_eq!(get_features_for_type("platinum"), texts(&["basic"]));
    assert_eq!(get_max_users_for_type("platinum"), Some(1));
    assert_eq!(get_features_for_type("ENTERPRISE"), texts(&["basic"]));
    assert_eq!(get_max_users_for_type("ENTERPRISE"), Some(1));
}

#[test]
fn features_follow_the_entitlement_table() {
    assert_eq!(get_features_for_type("trial"), texts(&["basic"]));
    assert_eq!(get_features_for_type("single"), texts(&["basic", "appointments", "ecommerce"]));
    assert_eq!(
        get_features_for_type("multi"),
        texts(&["basic", "appointments", "ecommerce", "multi_location"])
    );
    assert_eq!(get_features_for_type("enterprise"), texts(&["all"]));
    assert_eq!(get_features_for_type("developer"), texts(&["all", "dev_mode"]));
    assert_eq!(LicenseType::Developer.features(), texts(&["all", "dev_mode"]));
}

#[test]
fn user_ceilings_follow_the_entitlement_table() {
    assert_eq!(get_max_users_for_type("trial"), Some(1));
    assert_eq!(get_max_users_for_type("single"), Some(5));
    assert_eq!(get_max_users_for_type("multi"), Some(20));
    assert_eq!(get_max_users_for_type("enterprise"), None);
    assert_eq!(get_max_users_for_type("developer"), Some(2));
    assert_eq!(LicenseType::Enterprise.max_users(), None);
}
