use anilistarr_rs::text::{
    i64_to_decimal, join_text, parse_i64, parse_u32, parse_u64, split_text, u32_to_decimal,
    u64_to_decimal, IntErrorKind,
};

fn strings(items: &[&str]) -> Vec<String> {
    items.iter().map(|s| s.to_string()).collect()
}

#[test]
fn decimal_of_unsigned_numbers() {
    assert_eq!(u64_to_decimal(0), "0");
    assert_eq!(u64_to_decimal(7), "7");
    assert_eq!(u64_to_decimal(1234), "1234");
    assert_eq!(u64_to_decimal(u64::MAX), "18446744073709551615");
    assert_eq!(u32_to_decimal(4294967295), "4294967295");
}

#[test]
fn decimal_of_signed_numbers() {
    assert_eq!(i64_to_decimal(0), "0");
    assert_eq!(i64_to_decimal(-42), "-42");
    assert_eq!(i64_to_decimal(i64::MIN), "-9223372036854775808");
    assert_eq!(i64_to_decimal(i64::MAX), "9223372036854775807");
}

#[test]
fn parse_unsigned_accepts_what_std_accepts() {
    assert_eq!(parse_u64("0").unwrap(), 0);
    assert_eq!(parse_u64("+5").unwrap(), 5);
    assert_eq!(parse_u64("007").unwrap(), 7);
    assert_eq!(parse_u64("18446744073709551615").unwrap(), u64::MAX);
    assert_eq!(parse_u32("4294967295").unwrap(), u32::MAX);
}

#[test]
fn parse_unsigned_errors_match_std() {
    let kind = |s: &str| parse_u64(s).unwrap_err().kind;
    assert_eq!(kind(""), IntErrorKind::Empty);
    assert_eq!(kind("+"), IntErrorKind::InvalidDigit);
    assert_eq!(kind("-"), IntErrorKind::InvalidDigit);
    assert_eq!(kind("-5"), IntErrorKind::InvalidDigit);
    assert_eq!(kind("12a"), IntErrorKind::InvalidDigit);
    assert_eq!(kind(" 1"), IntErrorKind::InvalidDigit);
    assert_eq!(kind("18446744073709551616"), IntErrorKind::PosOverflow);
    assert_eq!(kind("184467440737095516160x"), IntErrorKind::PosOverflow);
    assert_eq!(parse_u32("4294967296").unwrap_err().kind, IntErrorKind::PosOverflow);
    for s in ["", "+", "-", "-5", "12a", " 1", "18446744073709551616", "184467440737095516160x", "٣"] {
        assert_eq!(
            parse_u64(s).unwrap_err().message(),
            s.parse::<u64>().unwrap_err().to_string()
        );
    }
}

#[test]
fn parse_signed_matches_std() {
    assert_eq!(parse_i64("-9223372036854775808").unwrap(), i64::MIN);
    assert_eq!(parse_i64("9223372036854775807").unwrap(), i64::MAX);
    assert_eq!(parse_i64("+12").unwrap(), 12);
    assert_eq!(parse_i64("-12").unwrap(), -12);
    assert_eq!(parse_i64("-9223372036854775809").unwrap_err().kind, IntErrorKind::NegOverflow);
    assert_eq!(parse_i64("9223372036854775808").unwrap_err().kind, IntErrorKind::PosOverflow);
    assert_eq!(parse_i64("-").unwrap_err().kind, IntErrorKind::InvalidDigit);
    assert_eq!(parse_i64("").unwrap_err().kind, IntErrorKind::Empty);
    for s in ["-9223372036854775809", "9223372036854775808", "-", "+", "", "--1", "1-"] {
        assert_eq!(
            parse_i64(s).unwrap_err().message(),
            s.parse::<i64>().unwrap_err().to_string()
        );
    }
}

#[test]
fn decimal_reads_back() {
    for n in [0u64, 1, 9, 10, 99, 100, 123456789, u64::MAX] {
        assert_eq!(parse_u64(&u64_to_decimal(n)).unwrap(), n);
    }
    for n in [i64::MIN, -1, 0, 1, i64::MAX] {
        assert_eq!(parse_i64(&i64_to_decimal(n)).unwrap(), n);
    }
}

#[test]
fn split_cuts_as_std_does() {
    assert_eq!(split_text("a|b||c", '|'), strings(&["a", "b", "", "c"]));
    assert_eq!(split_text("", '|'), strings(&[""]));
    assert_eq!(split_text("|", '|'), strings(&["", ""]));
    assert_eq!(split_text("21|22", '|'), strings(&["21", "22"]));
    for s in ["a|b||c", "", "|", "x", "é|ü"] {
        let expected: Vec<String> = s.split('|').map(|p| p.to_owned()).collect();
        assert_eq!(split_text(s, '|'), expected);
    }
}

#[test]
fn join_writes_as_std_does() {
    assert_eq!(join_text(&strings(&["1", "2", "3"]), '|'), "1|2|3");
    assert_eq!(join_text(&strings(&[]), '|'), "");
    assert_eq!(join_text(&strings(&["only"]), '|'), "only");
    assert_eq!(join_text(&strings(&["", ""]), '|'), "|");
}

#[test]
fn split_and_join_round_trip() {
    let list = strings(&["101", "202", "303"]);
    assert_eq!(split_text(&join_text(&list, '|'), '|'), list);
    assert_eq!(join_text(&split_text("a||b|", '|'), '|'), "a||b|");
    // An empty list does not come back: it is written as "" and read as [""].
    assert_eq!(split_text(&join_text(&strings(&[]), '|'), '|'), strings(&[""]));
}
