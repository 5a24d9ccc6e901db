//! Severity classification of percentage values.
//!
//! All percentages in this crate carry two decimal places and are stored as
//! integers counting hundredths of a percent: `5000` stands for `50.00 %`.
//! This module is the single source of truth for the urgency bands; every
//! section of the dashboard colors its figures through it.

use vstd::prelude::*;

verus! {

/// Visual urgency tier of a percentage value.
#[derive(Clone, Copy, Debug, PartialEq, Eq, Structural)]
pub enum Severity {
    Normal,
    Elevated,
    Critical,
}

/// Fixed color assigned to each tier.
#[derive(Clone, Copy, Debug, PartialEq, Eq, Structural)]
pub enum TierColor {
    Green,
    Yellow,
    Red,
}

/// Band of a percentage given in hundredths: above 75.00 % is critical,
/// above 50.00 % elevated, the rest normal.
pub open spec fn spec_classify(centi_percent: int) -> Severity {
    if centi_percent > 7500 {
        Severity::Critical
    } else if centi_percent > 5000 {
        Severity::Elevated
    } else {
        Severity::Normal
    }
}

/// Color of a tier: normal is green, elevated yellow, critical red.
pub open spec fn spec_color_of(s: Severity) -> TierColor {
    match s {
        Severity::Normal => TierColor::Green,
        Severity::Elevated => TierColor::Yellow,
        Severity::Critical => TierColor::Red,
    }
}

/// Classify a percentage, given in hundredths of a percent.
pub fn classify(centi_percent: u64) -> (s: Severity)
    ensures
        s == spec_classify(centi_percent as int),
{
    if centi_percent > 7500 {
        Severity::Critical
    } else if centi_percent > 5000 {
        Severity::Elevated
    } else {
        Severity::Normal
    }
}

/// Color of a tier.
pub fn color_of(s: Severity) -> (c: TierColor)
    ensures
        c == spec_color_of(s),
{
    match s {
        Severity::Normal => TierColor::Green,
        Severity::Elevated => TierColor::Yellow,
        Severity::Critical => TierColor::Red,
    }
}

/// Color for a raw percentage value, in hundredths of a percent.
pub fn color_severity(centi_percent: u64) -> (c: TierColor)
    ensures
        c == spec_color_of(spec_classify(centi_percent as int)),
{
    color_of(classify(centi_percent))
}

/// The bands partition the percentages exactly at the two thresholds:
/// a value is critical if and only if it is above 75.00 %, elevated if and
/// only if it lies strictly between 50.00 % and 75.00 % inclusive, and
/// normal if and only if it is at most 50.00 %.
pub proof fn lemma_classify_bands(p: int)
    ensures
        spec_classify(p) == Severity::Critical <==> p > 7500,
        spec_classify(p) == Severity::Elevated <==> (5000 < p <= 7500),
        spec_classify(p) == Severity::Normal <==> p <= 5000,
{
}

} // verus!
