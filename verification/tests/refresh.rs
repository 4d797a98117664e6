use herdr::refresh::{
    client_refresh_interval_from_value, effective_presentation_interval,
    CLIENT_REFRESH_RATE_ENV_VAR,
};

#[test]
fn accepted_rates_give_one_second_divided_by_rate() {
    assert_eq!(client_refresh_interval_from_value("1"), Some(1_000_000_000));
    assert_eq!(client_refresh_interval_from_value("60"), Some(16_666_666));
    assert_eq!(client_refresh_interval_from_value("30"), Some(33_333_333));
    assert_eq!(client_refresh_interval_from_value("030"), Some(33_333_333));
    assert_eq!(client_refresh_interval_from_value("7"), Some(142_857_142));
}

#[test]
fn rejected_rates_give_none() {
    for value in ["", "0", "61", "100", "-5", "+5", " 5", "5 ", "5.0", "abc", "99999999999999999999999", "٣"] {
        assert_eq!(client_refresh_interval_from_value(value), None, "value {value:?}");
    }
}

#[test]
fn variable_name_is_the_documented_one() {
    assert_eq!(CLIENT_REFRESH_RATE_ENV_VAR, "HERDR_CLIENT_REFRESH_RATE_HZ");
}

#[test]
fn effective_interval_is_the_slower_cap() {
    assert_eq!(effective_presentation_interval(10, None), 10);
    assert_eq!(effective_presentation_interval(10, Some(20)), 20);
    assert_eq!(effective_presentation_interval(30, Some(20)), 30);
    assert_eq!(effective_presentation_interval(7, Some(7)), 7);
}
