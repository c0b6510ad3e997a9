use gtfs_loader::number::{parse_i32, parse_u8};

#[test]
fn decimal_numbers_are_read() {
    assert_eq!(parse_i32("0"), Some(0));
    assert_eq!(parse_i32("20240131"), Some(20240131));
    assert_eq!(parse_i32("-17"), Some(-17));
    assert_eq!(parse_i32("+17"), Some(17));
    assert_eq!(parse_i32("007"), Some(7));
    assert_eq!(parse_i32("2147483647"), Some(i32::MAX));
    assert_eq!(parse_i32("-2147483648"), Some(i32::MIN));
    assert_eq!(parse_i32("000000000000000000000000000012"), Some(12));
}

#[test]
fn numbers_out_of_range_are_rejected() {
    assert_eq!(parse_i32("2147483648"), None);
    assert_eq!(parse_i32("-2147483649"), None);
    assert_eq!(parse_i32("99999999999999999999999999"), None);
    assert_eq!(parse_u8("256"), None);
    assert_eq!(parse_u8("-1"), None);
    assert_eq!(parse_u8("-0"), None);
}

#[test]
fn text_that_is_no_number_is_rejected() {
    assert_eq!(parse_i32(""), None);
    assert_eq!(parse_i32("+"), None);
    assert_eq!(parse_i32("-"), None);
    assert_eq!(parse_i32(" 5"), None);
    assert_eq!(parse_i32("5 "), None);
    assert_eq!(parse_i32("1.0"), None);
    assert_eq!(parse_i32("x"), None);
    assert_eq!(parse_i32("+-1"), None);
    assert_eq!(parse_i32("1f"), None);
    assert_eq!(parse_i32("\u{661}"), None);
    assert_eq!(parse_u8(""), None);
}

#[test]
fn hexadecimal_follows_the_prefix() {
    assert_eq!(parse_i32("0x1F"), Some(31));
    assert_eq!(parse_i32("0x1f"), Some(31));
    assert_eq!(parse_i32("0x-1f"), Some(-31));
    assert_eq!(parse_i32("0x7fffffff"), Some(i32::MAX));
    assert_eq!(parse_i32("0x80000000"), None);
    assert_eq!(parse_i32("0x"), None);
    assert_eq!(parse_i32("0X1F"), None);
    assert_eq!(parse_u8("0xff"), Some(255));
    assert_eq!(parse_u8("0x100"), None);
}

#[test]
fn day_flags_are_small_numbers() {
    assert_eq!(parse_u8("0"), Some(0));
    assert_eq!(parse_u8("1"), Some(1));
    assert_eq!(parse_u8("+1"), Some(1));
    assert_eq!(parse_u8("255"), Some(255));
}

fn std_i32(text: &str) -> Option<i32> {
    match text.strip_prefix("0x") {
        Some(digits) => i32::from_str_radix(digits, 16).ok(),
        None => text.parse().ok(),
    }
}

fn std_u8(text: &str) -> Option<u8> {
    match text.strip_prefix("0x") {
        Some(digits) => u8::from_str_radix(digits, 16).ok(),
        None => text.parse().ok(),
    }
}

#[test]
fn numbers_are_read_as_the_standard_library_reads_them() {
    let letters = ['+', '-', '0', 'x', '1', '9', 'a', 'F', 'g', ' ', '2', '5'];
    let mut texts: Vec<String> = vec![String::new()];
    let mut last: Vec<String> = vec![String::new()];
    for _ in 0..5 {
        let mut longer: Vec<String> = Vec::new();
        for text in &last {
            for letter in letters {
                let mut grown = text.clone();
                grown.push(letter);
                longer.push(grown);
            }
        }
        texts.extend(longer.iter().cloned());
        last = longer;
    }
    assert_eq!(texts.len(), 1 + 12 + 144 + 1728 + 20736 + 248832);
    for text in &texts {
        assert_eq!(parse_i32(text), std_i32(text), "{:?}", text);
        assert_eq!(parse_u8(text), std_u8(text), "{:?}", text);
    }
}

#[test]
fn numbers_at_the_edges_are_read_as_the_standard_library_reads_them() {
    let texts = [
        "2147483646",
        "2147483647",
        "2147483648",
        "2147483649",
        "-2147483647",
        "-2147483648",
        "-2147483649",
        "+2147483647",
        "+2147483648",
        "4294967295",
        "4294967296",
        "42949672950",
        "0x7ffffffe",
        "0x7fffffff",
        "0x80000000",
        "0x-80000000",
        "0x-80000001",
        "0xFFFFFFFF",
        "0x100000000",
        "0x0000000000000000000001",
        "254",
        "255",
        "256",
        "0xfe",
        "0xff",
        "0x100",
        "+255",
        "+256",
        "00000000000000000255",
        "18446744073709551615",
        "18446744073709551616",
        "340282366920938463463374607431768211456",
    ];
    for text in texts {
        assert_eq!(parse_i32(text), std_i32(text), "{:?}", text);
        assert_eq!(parse_u8(text), std_u8(text), "{:?}", text);
    }
}
