use libsystemd::decimal::{
    parse_i64, parse_u64, push_decimal, push_signed_decimal, to_decimal, ParseIntError,
};

#[test]
fn decimal_of_numbers() {
    for n in [0u64, 1, 9, 10, 11, 99, 100, 101, 12345, 1 << 32, u64::MAX - 1, u64::MAX] {
        assert_eq!(to_decimal(n), n.to_string());
    }
}

#[test]
fn decimal_is_appended() {
    let mut s = String::from("n=");
    push_decimal(&mut s, 42);
    push_signed_decimal(&mut s, -42);
    push_signed_decimal(&mut s, 0);
    assert_eq!(s, "n=42-420");
}

#[test]
fn signed_decimal_of_numbers() {
    for n in [0i64, 1, -1, 10, -10, i32::MIN as i64, i64::MAX, i64::MIN, i64::MIN + 1] {
        let mut s = String::new();
        push_signed_decimal(&mut s, n);
        assert_eq!(s, n.to_string());
    }
}

const TEXTS: [&str; 36] = [
    "", "0", "1", "9", "10", "007", "+0", "+9", "+", "-", "-0", "-1", "+-1", "-+1", "++1", " 1",
    "1 ", "1_000", "1e3", "0x10", "٣", "½", "a", "12a", "255", "256", "65535", "65536",
    "4294967295", "4294967296", "18446744073709551615", "18446744073709551616",
    "99999999999999999999999999", "99999999999999999999999999x", "x99999999999999999999999999",
    "-99999999999999999999999999",
];

fn kind(e: &std::num::ParseIntError) -> ParseIntError {
    match e.kind() {
        std::num::IntErrorKind::Empty => ParseIntError::Empty,
        std::num::IntErrorKind::InvalidDigit => ParseIntError::InvalidDigit,
        std::num::IntErrorKind::PosOverflow => ParseIntError::PosOverflow,
        std::num::IntErrorKind::NegOverflow => ParseIntError::NegOverflow,
        _ => unreachable!(),
    }
}

#[test]
fn unsigned_numbers_are_parsed_as_std_parses_them() {
    for text in TEXTS {
        assert_eq!(
            parse_u64(text, u64::MAX),
            text.parse::<u64>().map_err(|e| kind(&e)),
            "u64 {:?}",
            text
        );
        assert_eq!(
            parse_u64(text, u32::MAX as u64),
            text.parse::<u32>().map(u64::from).map_err(|e| kind(&e)),
            "u32 {:?}",
            text
        );
        assert_eq!(
            parse_u64(text, u8::MAX as u64),
            text.parse::<u8>().map(u64::from).map_err(|e| kind(&e)),
            "u8 {:?}",
            text
        );
    }
}

#[test]
fn signed_numbers_are_parsed_as_std_parses_them() {
    let more = ["-2147483648", "-2147483649", "2147483647", "2147483648", "-128", "-129", "127", "128", "-12a", "-a", "--1"];
    for text in TEXTS.iter().chain(more.iter()) {
        assert_eq!(
            parse_i64(text, i32::MAX as u32),
            text.parse::<i32>().map(i64::from).map_err(|e| kind(&e)),
            "i32 {:?}",
            text
        );
        assert_eq!(
            parse_i64(text, i8::MAX as u32),
            text.parse::<i8>().map(i64::from).map_err(|e| kind(&e)),
            "i8 {:?}",
            text
        );
    }
}

#[test]
fn errors_have_the_words_of_std() {
    assert_eq!(ParseIntError::Empty.describe(), "".parse::<u8>().unwrap_err().to_string());
    assert_eq!(ParseIntError::InvalidDigit.describe(), "x".parse::<u8>().unwrap_err().to_string());
    assert_eq!(ParseIntError::PosOverflow.describe(), "256".parse::<u8>().unwrap_err().to_string());
    assert_eq!(ParseIntError::NegOverflow.describe(), "-129".parse::<i8>().unwrap_err().to_string());
}

#[test]
fn what_is_written_is_read_back() {
    for n in [0u64, 5, 10, 4711, u32::MAX as u64, u64::MAX] {
        assert_eq!(parse_u64(&to_decimal(n), u64::MAX), Ok(n));
    }
}
