use shuidui::alerts::{alert_level_from_lowercase, alert_level_from_str, AlertLevel};

#[test]
fn alert_level_labels() {
    assert_eq!(AlertLevel::Info.as_str(), "info");
    assert_eq!(AlertLevel::Warning.as_str(), "warning");
    assert_eq!(AlertLevel::Critical.as_str(), "critical");
}

#[test]
fn alert_level_reading_ignores_case() {
    assert_eq!(alert_level_from_str("critical"), AlertLevel::Critical);
    assert_eq!(alert_level_from_str("CRITICAL"), AlertLevel::Critical);
    assert_eq!(alert_level_from_str("Warning"), AlertLevel::Warning);
    assert_eq!(alert_level_from_str("wArNiNg"), AlertLevel::Warning);
    assert_eq!(alert_level_from_str("info"), AlertLevel::Info);
}

#[test]
fn alert_level_unknown_labels_read_as_info() {
    assert_eq!(alert_level_from_str(""), AlertLevel::Info);
    assert_eq!(alert_level_from_str("severe"), AlertLevel::Info);
    assert_eq!(alert_level_from_str("critical "), AlertLevel::Info);
    assert_eq!(alert_level_from_str("告警"), AlertLevel::Info);
}

#[test]
fn alert_level_round_trip() {
    for level in [AlertLevel::Info, AlertLevel::Warning, AlertLevel::Critical] {
        assert_eq!(alert_level_from_str(level.as_str()), level);
        assert_eq!(alert_level_from_str(&level.as_str().to_uppercase()), level);
    }
}

#[test]
fn alert_level_from_lowercase_is_exact() {
    assert_eq!(alert_level_from_lowercase("critical"), AlertLevel::Critical);
    assert_eq!(alert_level_from_lowercase("warning"), AlertLevel::Warning);
    assert_eq!(alert_level_from_lowercase("CRITICAL"), AlertLevel::Info);
}
