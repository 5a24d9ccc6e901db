use resource_manager::format::{
    format_centi, format_gb, format_ids, format_mb, format_percent, id_presence, opt_text,
    percent_centi, round_to_centi, u64_to_string, IdPresence,
};

#[test]
fn decimal_text_of_zero() {
    assert_eq!(u64_to_string(0), "0");
}

#[test]
fn decimal_text_of_a_large_number() {
    assert_eq!(u64_to_string(9_876_543_210), "9876543210");
}

#[test]
fn percent_with_two_decimals() {
    assert_eq!(format_percent(5000), "50.00%");
    assert_eq!(format_percent(7), "0.07%");
    assert_eq!(format_percent(12345), "123.45%");
}

#[test]
fn sixteen_billion_bytes_are_sixteen_gigabytes() {
    assert_eq!(format_gb(16_000_000_000), "16.00 GB");
}

#[test]
fn gigabytes_round_half_up() {
    assert_eq!(format_gb(15_995_000_000), "16.00 GB");
    assert_eq!(format_gb(15_994_999_999), "15.99 GB");
}

#[test]
fn megabytes_with_two_decimals() {
    assert_eq!(format_mb(123_450_000), "123.45 MB");
    assert_eq!(format_mb(0), "0.00 MB");
}

#[test]
fn process_memory_centi_value_has_no_unit() {
    assert_eq!(format_centi(round_to_centi(123_450_000, 10_000)), "123.45");
}

#[test]
fn half_of_sixteen_billion_is_fifty_percent() {
    assert_eq!(percent_centi(8_000_000_000, 16_000_000_000), 5000);
}

#[test]
fn percent_of_zero_total_is_zero() {
    assert_eq!(percent_centi(0, 0), 0);
}

#[test]
fn percent_of_full_usage_is_one_hundred() {
    assert_eq!(percent_centi(7, 7), 10000);
}

#[test]
fn ids_both_present() {
    assert_eq!(format_ids(Some(1000), Some(100)), "1000/100");
}

#[test]
fn ids_user_only() {
    assert_eq!(format_ids(Some(1000), None), "1000 / N/A");
}

#[test]
fn ids_group_only() {
    assert_eq!(format_ids(None, Some(100)), "N/A / 100");
}

#[test]
fn ids_neither_present() {
    assert_eq!(format_ids(None, None), "N/A");
}

#[test]
fn id_presence_cases() {
    assert_eq!(id_presence(Some(3), Some(4)), IdPresence::Both(3, 4));
    assert_eq!(id_presence(Some(3), None), IdPresence::UserOnly(3));
    assert_eq!(id_presence(None, Some(4)), IdPresence::GroupOnly(4));
    assert_eq!(id_presence(None, None), IdPresence::Neither);
}

#[test]
fn missing_field_shows_unavailable_marker() {
    assert_eq!(opt_text(&None), "unavailable");
    assert_eq!(opt_text(&Some(String::from("venus"))), "venus");
}

#[test]
fn percent_centi_rounds_half_up() {
    assert_eq!(percent_centi(1, 3), 3333);
    assert_eq!(percent_centi(2, 3), 6667);
}

#[test]
fn full_scale_percent_formats() {
    assert_eq!(format_percent(10000), "100.00%");
}
