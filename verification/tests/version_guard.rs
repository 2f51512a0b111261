use brokerapi::version::{parse_api_version, VersionGuard};

fn guard() -> VersionGuard {
    VersionGuard { min_major: 2, min_minor: 14 }
}

#[test]
fn parses_major_and_minor() {
    assert_eq!(parse_api_version("2.16"), Some((2, 16)));
    assert_eq!(parse_api_version("2.14"), Some((2, 14)));
    assert_eq!(parse_api_version("10.0"), Some((10, 0)));
    assert_eq!(parse_api_version("0.07"), Some((0, 7)));
}

#[test]
fn rejects_malformed_headers() {
    assert_eq!(parse_api_version(""), None);
    assert_eq!(parse_api_version("2"), None);
    assert_eq!(parse_api_version("2."), None);
    assert_eq!(parse_api_version(".16"), None);
    assert_eq!(parse_api_version("2.16.1"), None);
    assert_eq!(parse_api_version("two.sixteen"), None);
    assert_eq!(parse_api_version("2,16"), None);
    assert_eq!(parse_api_version(" 2.16"), None);
}

#[test]
fn rejects_values_that_do_not_fit() {
    assert_eq!(parse_api_version("99999999999999999999999999.0"), None);
    assert_eq!(parse_api_version("2.99999999999999999999999999"), None);
    assert_eq!(parse_api_version("18446744073709551615.18446744073709551615"),
        Some((u64::MAX, u64::MAX)));
}

#[test]
fn accepts_at_or_above_the_minimum() {
    assert!(guard().accepts(Some("2.14")));
    assert!(guard().accepts(Some("2.16")));
    assert!(guard().accepts(Some("3.0")));
    assert!(!guard().accepts(Some("2.13")));
    assert!(!guard().accepts(Some("1.99")));
}

#[test]
fn absent_and_malformed_headers_are_rejected_alike() {
    assert!(!guard().accepts(None));
    assert!(!guard().accepts(Some("")));
    assert!(!guard().accepts(Some("latest")));
}
