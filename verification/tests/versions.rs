use proto::update::{compare_versions, parse_last_check, update_check_due, version_file, version_numbers};

#[test]
fn newer_release_is_detected() {
    assert_eq!(compare_versions("0.1.0", "0.2.0"), Some(true));
    assert_eq!(compare_versions("1.2.3", "v1.2.4"), Some(true));
    assert_eq!(compare_versions("1.2.3", "2.0.0"), Some(true));
    assert_eq!(compare_versions("1.2.3", "1.2.3"), Some(false));
    assert_eq!(compare_versions("1.3.0", "1.2.9"), Some(false));
}

#[test]
fn short_or_unparsable_versions_are_not_compared() {
    assert_eq!(compare_versions("1.2", "1.2.3"), None);
    assert_eq!(compare_versions("1.2.3", "1.2.3-beta"), None);
    assert_eq!(compare_versions("1.2.3", ""), None);
    assert_eq!(compare_versions("1.x.2.3", "1.2.4"), Some(true));
}

#[test]
fn version_numbers_skip_unparsable_parts() {
    assert_eq!(version_numbers("vv1.x.3"), vec![1, 3]);
    assert_eq!(version_numbers("10.20.30.40"), vec![10, 20, 30, 40]);
}

#[test]
fn comparison_laws_on_samples() {
    let vs = ["0.0.1", "0.1.0", "1.0.0", "1.0.1", "v1.2.3", "2.0.0", "1.2"];
    for a in vs {
        assert_ne!(compare_versions(a, a), Some(true));
        for b in vs {
            if compare_versions(a, b) == Some(true) {
                assert_eq!(compare_versions(b, a), Some(false));
            }
            for c in vs {
                if compare_versions(a, b) == Some(true) && compare_versions(b, c) == Some(true) {
                    assert_eq!(compare_versions(a, c), Some(true));
                }
            }
        }
    }
}

#[test]
fn update_checks_once_a_day() {
    assert!(update_check_due(None, 100));
    assert!(!update_check_due(Some(1000), 1000 + 86399));
    assert!(update_check_due(Some(1000), 1000 + 86400));
    assert!(update_check_due(Some(2000), 1000));
    assert_eq!(parse_last_check(" 1700000000\n"), Some(1700000000));
    assert_eq!(parse_last_check("garbage"), None);
    assert_eq!(version_file("/home/u/.config/proto"), "/home/u/.config/proto/last_update_check");
}
