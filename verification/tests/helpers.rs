use gadacz::helpers::{format_position, try_into_seconds};

#[test]
fn string_into_seconds() {
    let data = "11h11m11s".to_string();
    let actual = try_into_seconds(&data);
    let expected = Some(11 * 3600 + 11 * 60 + 11);
    assert_eq!(actual, expected);
}

#[test]
fn helpers_formatted_display0() {
    let data = 1;
    let actual = format_position(data, None);
    let expected = "1s";
    assert_eq!(actual, expected);
}

#[test]
fn helpers_formatted_display1() {
    let data = 61;
    let actual = format_position(data, None);
    let expected = "1m1s";

    assert_eq!(actual, expected);
}

#[test]
fn helpers_formatted_display2() {
    let data = 3600;
    let actual = format_position(data, None);
    let expected = "1h0m0s";

    assert_eq!(actual, expected);
}

#[test]
fn helpers_formatted_display3() {
    let data = 3661;
    let actual = format_position(data, None);
    let expected = "1h1m1s";
    assert_eq!(actual, expected);
}

#[test]
fn helpers_formatted_display4() {
    let data = 8217;
    let actual = format_position(data, None);
    let expected = "2h16m57s";
    assert_eq!(actual, expected);
}

#[test]
fn helpers_formatted_display5() {
    let data = 8217;
    let actual = format_position(data, Some(0));
    let expected = "2h16m57s(2h16m57s)";
    assert_eq!(actual, expected);
}

#[test]
fn helpers_formatted_display6() {
    let data = 0;
    let actual = format_position(data, None);
    let expected = "0s";
    assert_eq!(actual, expected);
}

#[test]
fn offset_is_as_terse_as_it_can_be() {
    assert_eq!(format_position(65, Some(60)), "5s(1m5s)");
    assert_eq!(format_position(3700, Some(3600)), "1m40s(1h1m40s)");
    assert_eq!(format_position(3605, Some(3600)), "5s(1h0m5s)");
    assert_eq!(format_position(7300, Some(100)), "2h0m0s(2h1m40s)");
    assert_eq!(format_position(59, Some(59)), "0s(59s)");
}

#[test]
fn format_of_the_largest_position() {
    assert_eq!(format_position(u64::MAX, None), "5124095576030431h0m15s");
}

#[test]
fn parse_undoes_format() {
    let samples = [1u64, 9, 10, 59, 60, 61, 600, 3599, 3600, 3601, 3661, 8217, 86_400, 359_999, u64::MAX];
    for x in samples {
        assert_eq!(try_into_seconds(&format_position(x, None)), Some(x));
    }
}

#[test]
fn parse_of_zero_is_none() {
    assert_eq!(try_into_seconds("0s"), None);
    assert_eq!(try_into_seconds("0h0m0s"), None);
    assert_eq!(try_into_seconds(""), None);
}

#[test]
fn parse_rejects_other_characters() {
    assert_eq!(try_into_seconds("1h 2m"), None);
    assert_eq!(try_into_seconds("12x"), None);
    assert_eq!(try_into_seconds("1h2m3s!"), None);
    assert_eq!(try_into_seconds("-5s"), None);
    assert_eq!(try_into_seconds("٣s"), None);
    assert_eq!(try_into_seconds("5é"), None);
}

#[test]
fn parse_takes_the_fields_in_descending_order_only() {
    assert_eq!(try_into_seconds("2h"), Some(7200));
    assert_eq!(try_into_seconds("3m"), Some(180));
    assert_eq!(try_into_seconds("1h5s"), Some(3605));
    assert_eq!(try_into_seconds("90m"), Some(5400));
    assert_eq!(try_into_seconds("007s"), Some(7));
    assert_eq!(try_into_seconds("5s1h"), None);
    assert_eq!(try_into_seconds("1m1h"), None);
    assert_eq!(try_into_seconds("1s2s"), None);
    assert_eq!(try_into_seconds("h"), None);
    assert_eq!(try_into_seconds("12"), None);
    assert_eq!(try_into_seconds("1hm"), None);
}

#[test]
fn parse_gives_none_beyond_64_bits() {
    assert_eq!(try_into_seconds("18446744073709551615s"), Some(u64::MAX));
    assert_eq!(try_into_seconds("18446744073709551616s"), None);
    assert_eq!(try_into_seconds("99999999999999999999999999999999999999999999s"), None);
    assert_eq!(try_into_seconds("5124095576030431h0m15s"), Some(u64::MAX));
    assert_eq!(try_into_seconds("5124095576030431h0m16s"), None);
}
