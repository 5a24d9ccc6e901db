use resource_manager::severity::{classify, color_of, color_severity, Severity, TierColor};

#[test]
fn classify_at_fifty_percent_is_normal() {
    assert_eq!(classify(5000), Severity::Normal);
}

#[test]
fn classify_just_above_fifty_percent_is_elevated() {
    assert_eq!(classify(5001), Severity::Elevated);
}

#[test]
fn classify_at_seventy_five_percent_is_elevated() {
    assert_eq!(classify(7500), Severity::Elevated);
}

#[test]
fn classify_just_above_seventy_five_percent_is_critical() {
    assert_eq!(classify(7501), Severity::Critical);
}

#[test]
fn classify_zero_is_normal() {
    assert_eq!(classify(0), Severity::Normal);
}

#[test]
fn classify_full_scale_is_critical() {
    assert_eq!(classify(10000), Severity::Critical);
}

#[test]
fn tier_colors_are_fixed() {
    assert_eq!(color_of(Severity::Normal), TierColor::Green);
    assert_eq!(color_of(Severity::Elevated), TierColor::Yellow);
    assert_eq!(color_of(Severity::Critical), TierColor::Red);
}

#[test]
fn color_severity_follows_classification() {
    assert_eq!(color_severity(1234), TierColor::Green);
    assert_eq!(color_severity(6000), TierColor::Yellow);
    assert_eq!(color_severity(8000), TierColor::Red);
}
