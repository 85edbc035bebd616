use vrc_osc_alarm::version::build_update_info;
use vrc_osc_alarm::version::compare_versions;
use vrc_osc_alarm::version::parse_components;

#[test]
fn newer_patch_is_detected() {
    assert!(compare_versions("1.0.0", "1.0.1"));
}

#[test]
fn equal_versions_are_not_newer() {
    assert!(!compare_versions("1.2.3", "1.2.3"));
}

#[test]
fn older_version_is_not_newer() {
    assert!(!compare_versions("1.10.0", "1.9.0"));
    assert!(!compare_versions("2.0.0", "1.9.9"));
}

#[test]
fn comparison_is_numeric_not_textual() {
    assert!(compare_versions("2.0", "10.0"));
    assert!(compare_versions("1.9", "1.10"));
}

#[test]
fn missing_pieces_count_as_zero() {
    assert!(compare_versions("1.0", "1.0.1"));
    assert!(!compare_versions("1.0.0", "1.0"));
    assert!(!compare_versions("1.0", "1.0.0"));
}

#[test]
fn parse_skips_segments_that_are_not_numbers() {
    assert_eq!(parse_components("1.x.2"), vec![1, 2]);
    assert_eq!(parse_components(""), Vec::<u32>::new());
    assert_eq!(parse_components("..3"), vec![3]);
    assert_eq!(parse_components("1."), vec![1]);
}

#[test]
fn parse_accepts_a_leading_plus_sign() {
    assert_eq!(parse_components("+1.2"), vec![1, 2]);
    assert_eq!(parse_components("+.2"), vec![2]);
    assert_eq!(parse_components("1.+"), vec![1]);
}

#[test]
fn parse_skips_values_too_large_for_the_range() {
    assert_eq!(parse_components("4294967295.1"), vec![4294967295, 1]);
    assert_eq!(parse_components("4294967296.1"), vec![1]);
    assert_eq!(parse_components("99999999999999999999.7"), vec![7]);
}

#[test]
fn parse_reads_plain_versions() {
    assert_eq!(parse_components("1.2.3"), vec![1, 2, 3]);
    assert_eq!(parse_components("0.4.0"), vec![0, 4, 0]);
    assert_eq!(parse_components("007"), vec![7]);
}

#[test]
fn update_info_carries_the_decision_and_the_texts() {
    let info = build_update_info(
        String::from("1.0.0"),
        String::from("1.1.0"),
        String::from("https://example.invalid/releases/latest"),
    );
    assert_eq!(info.current_version, "1.0.0");
    assert_eq!(info.latest_version, "1.1.0");
    assert!(info.has_update);
    assert_eq!(info.download_url, "https://example.invalid/releases/latest");

    let none = build_update_info(
        String::from("1.1.0"),
        String::from("1.1.0"),
        String::from("https://example.invalid/releases/latest"),
    );
    assert!(!none.has_update);
}
