use mpvy::duration::duration_to_seconds;

#[test]
fn hours_minutes_seconds() {
    assert_eq!(duration_to_seconds("01:02:03"), 3723);
    assert_eq!(duration_to_seconds("00:00:00"), 0);
    assert_eq!(duration_to_seconds("10:00:00"), 36000);
    assert_eq!(duration_to_seconds("00:03:25"), 205);
}

#[test]
fn minutes_seconds() {
    assert_eq!(duration_to_seconds("02:03"), 123);
    assert_eq!(duration_to_seconds("0:07"), 7);
    assert_eq!(duration_to_seconds("90:00"), 5400);
}

#[test]
fn parts_are_not_limited_to_two_digits() {
    assert_eq!(duration_to_seconds("1:2:3"), 3723);
    assert_eq!(duration_to_seconds("100:00:00"), 360000);
    assert_eq!(duration_to_seconds("0005:0000"), 300);
}

#[test]
fn empty_text_is_zero() {
    assert_eq!(duration_to_seconds(""), 0);
}

#[test]
fn wrong_number_of_separators_is_zero() {
    assert_eq!(duration_to_seconds("12"), 0);
    assert_eq!(duration_to_seconds("1:2:3:4"), 0);
    assert_eq!(duration_to_seconds(":::"), 0);
}

#[test]
fn non_numeric_parts_are_zero() {
    assert_eq!(duration_to_seconds("abc"), 0);
    assert_eq!(duration_to_seconds("a:b"), 0);
    assert_eq!(duration_to_seconds("1:xx"), 0);
    assert_eq!(duration_to_seconds("xx:10"), 0);
    assert_eq!(duration_to_seconds("01:0a:03"), 0);
    assert_eq!(duration_to_seconds("+1:00"), 0);
    assert_eq!(duration_to_seconds("-1:00"), 0);
    assert_eq!(duration_to_seconds(" 1:00"), 0);
    assert_eq!(duration_to_seconds("1:00\n"), 0);
    assert_eq!(duration_to_seconds("١:٠٠"), 0);
}

#[test]
fn empty_parts_are_zero() {
    assert_eq!(duration_to_seconds(":"), 0);
    assert_eq!(duration_to_seconds("1:"), 0);
    assert_eq!(duration_to_seconds(":30"), 0);
    assert_eq!(duration_to_seconds("1::2"), 0);
}

#[test]
fn totals_that_do_not_fit_are_zero() {
    assert_eq!(duration_to_seconds("99999999999999999999:00"), 0);
    assert_eq!(duration_to_seconds("18446744073709551615:00"), 0);
    assert_eq!(duration_to_seconds("18446744073709551615:00:00"), 0);
    assert_eq!(duration_to_seconds("0:18446744073709551615"), u64::MAX);
    assert_eq!(duration_to_seconds("0:18446744073709551616"), 0);
    assert_eq!(duration_to_seconds("1:18446744073709551600"), 0);
    assert_eq!(duration_to_seconds("307445734561825860:15"), u64::MAX);
    assert_eq!(duration_to_seconds("307445734561825860:16"), 0);
}
