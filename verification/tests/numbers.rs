use backend::utils::numbers::{parse_i32, parse_u32, read_magnitude, NumberError};

const TEXTS: [&str; 40] = [
    "",
    "0",
    "7",
    "007",
    "+7",
    "-7",
    "+",
    "-",
    "++7",
    "--7",
    "+-7",
    " 7",
    "7 ",
    "7a",
    "a7",
    "1.5",
    "1e3",
    "0x10",
    "2147483647",
    "2147483648",
    "-2147483648",
    "-2147483649",
    "+2147483647",
    "4294967295",
    "4294967296",
    "+4294967295",
    "-0",
    "+0",
    "00000000000000000000000000000000000000001",
    "99999999999999999999999999999999999999999",
    "-99999999999999999999999999999999999999999",
    "99999999999x",
    "-99999999999x",
    "9999x999999999999",
    "\u{0661}\u{0662}",
    "1\u{e9}",
    "12_000",
    "1,000",
    "\u{ff11}",
    "4294967295999",
];

#[test]
fn u32_reading_agrees_with_the_standard_library() {
    for text in TEXTS {
        let expected = text.parse::<u32>().map_err(|e| e.to_string());
        let got = parse_u32(text).map_err(|e| e.message().to_string());
        assert_eq!(got, expected, "{:?}", text);
    }
}

#[test]
fn i32_reading_agrees_with_the_standard_library() {
    for text in TEXTS {
        let expected = text.parse::<i32>().map_err(|e| e.to_string());
        let got = parse_i32(text).map_err(|e| e.message().to_string());
        assert_eq!(got, expected, "{:?}", text);
    }
}

#[test]
fn numbers_near_the_edges_agree_with_the_standard_library() {
    for n in [0i64, 1, 9, 10, 11, 99, 100, 2147483646, 2147483647, 2147483648, 4294967294, 4294967295, 4294967296] {
        for text in [n.to_string(), format!("-{}", n), format!("+{}", n), format!("0{}", n)] {
            assert_eq!(parse_u32(&text).ok(), text.parse::<u32>().ok(), "{:?}", text);
            assert_eq!(parse_i32(&text).ok(), text.parse::<i32>().ok(), "{:?}", text);
        }
    }
}

#[test]
fn u32_numbers() {
    assert_eq!(parse_u32("25"), Ok(25));
    assert_eq!(parse_u32("+25"), Ok(25));
    assert_eq!(parse_u32("4294967295"), Ok(u32::MAX));
    assert_eq!(parse_u32(""), Err(NumberError::Empty));
    assert_eq!(parse_u32("+"), Err(NumberError::InvalidDigit));
    assert_eq!(parse_u32("-1"), Err(NumberError::InvalidDigit));
    assert_eq!(parse_u32("4294967296"), Err(NumberError::TooLarge));
    assert_eq!(parse_u32("99999999999x"), Err(NumberError::TooLarge));
    assert_eq!(parse_u32("9x99999999999"), Err(NumberError::InvalidDigit));
}

#[test]
fn i32_numbers() {
    assert_eq!(parse_i32("25"), Ok(25));
    assert_eq!(parse_i32("-25"), Ok(-25));
    assert_eq!(parse_i32("-2147483648"), Ok(i32::MIN));
    assert_eq!(parse_i32("2147483647"), Ok(i32::MAX));
    assert_eq!(parse_i32("2147483648"), Err(NumberError::TooLarge));
    assert_eq!(parse_i32("-2147483649"), Err(NumberError::TooSmall));
    assert_eq!(parse_i32("-"), Err(NumberError::InvalidDigit));
    assert_eq!(parse_i32(""), Err(NumberError::Empty));
    assert_eq!(parse_i32("-99999999999x"), Err(NumberError::TooSmall));
}

#[test]
fn digits_from_a_position() {
    let text: Vec<char> = "ab123".chars().collect();
    assert_eq!(read_magnitude(&text, 2, 1000), Ok(123));
    assert_eq!(read_magnitude(&text, 5, 1000), Ok(0));
    assert_eq!(read_magnitude(&text, 2, 122), Err(NumberError::TooLarge));
    assert_eq!(read_magnitude(&text, 1, 1000), Err(NumberError::InvalidDigit));
    assert_eq!(read_magnitude(&vec!['\u{e9}', '9'], 1, 9), Ok(9));
}

#[test]
fn error_words() {
    assert_eq!(NumberError::Empty.message(), "cannot parse integer from empty string");
    assert_eq!(NumberError::InvalidDigit.message(), "invalid digit found in string");
    assert_eq!(NumberError::TooLarge.message(), "number too large to fit in target type");
    assert_eq!(NumberError::TooSmall.message(), "number too small to fit in target type");
}

#[test]
fn long_numbers_are_read_in_one_pass() {
    let mut text = "0".repeat(500_000);
    text.push('7');
    assert_eq!(parse_u32(&text), Ok(7));
    assert_eq!(parse_i32(&text), Ok(7));
    text.push('\u{e9}');
    assert_eq!(parse_u32(&text), Err(NumberError::InvalidDigit));
}
