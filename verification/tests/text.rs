use serde_lite::text::{parse_u64, u64_to_decimal, ParseFailure};

#[test]
fn numbers_are_written_in_decimal() {
    assert_eq!(u64_to_decimal(0), "0");
    assert_eq!(u64_to_decimal(7), "7");
    assert_eq!(u64_to_decimal(10), "10");
    assert_eq!(u64_to_decimal(1234567890), "1234567890");
    assert_eq!(u64_to_decimal(u64::MAX), "18446744073709551615");
}

#[test]
fn parsing_reads_what_the_standard_library_reads() {
    let inputs = [
        "0", "7", "007", "+7", "+", "-7", "", " 7", "7 ", "x", "1x", "18446744073709551615",
        "18446744073709551616", "99999999999999999999999", "+18446744073709551615", "++1", "١",
    ];
    for input in inputs {
        assert_eq!(parse_u64(input).ok(), input.parse::<u64>().ok(), "input {:?}", input);
    }
}

#[test]
fn parsing_says_why_it_fails() {
    assert_eq!(parse_u64(""), Err(ParseFailure::Empty));
    assert_eq!(parse_u64("+"), Err(ParseFailure::InvalidDigit));
    assert_eq!(parse_u64("12a"), Err(ParseFailure::InvalidDigit));
    assert_eq!(parse_u64("18446744073709551616"), Err(ParseFailure::Overflow));
    assert_eq!(parse_u64("184467440737095516150"), Err(ParseFailure::Overflow));
    assert_eq!(parse_u64("18446744073709551616x"), Err(ParseFailure::InvalidDigit));
    assert_eq!(parse_u64("18446744073709551615"), Ok(u64::MAX));
}

#[test]
fn what_is_written_is_read_back() {
    for n in [0u64, 1, 9, 10, 99, 100, 12345, u64::MAX - 1, u64::MAX] {
        assert_eq!(parse_u64(&u64_to_decimal(n)), Ok(n));
    }
}
