use sompcoc::bignum::BigNat;
use sompcoc::display::{indexed_colour, random_colour, show_members, show_multiplier};
use sompcoc::numfmt::decimal_string;
use sompcoc::text::{contains_text, parse_usize};

fn value(b: &BigNat) -> u128 {
    let digits = b.to_digits();
    let mut v: u128 = 0;
    for d in digits.iter().rev() {
        v = (v << 32) + (*d as u128);
    }
    v
}

#[test]
fn bignat_arithmetic_gives_exact_values() {
    let a = BigNat::from_u64(8_000_000_000);
    let b = BigNat::from_u64(23);
    assert_eq!(value(&a.add(&b)), 8_000_000_023);
    assert_eq!(value(&a.sub(&b)), 7_999_999_977);
    assert_eq!(value(&a.mul(&b)), 184_000_000_000);
    assert_eq!(value(&a.div(&b)), 347_826_086);
    assert_eq!(value(&b.pow(3)), 12_167);
    assert_eq!(value(&b.pow(0)), 1);
    let big = a.mul(&a);
    assert_eq!(value(&big), 64_000_000_000_000_000_000u128);
    assert!(b.le(&a));
    assert!(!a.le(&b));
    assert!(a.le(&a));
    assert!(a.equals(&BigNat::from_u64(8_000_000_000)));
    assert!(!a.equals(&b));
    assert_eq!(value(&BigNat::zero()), 0);
    assert_eq!(value(&BigNat::from_digits(vec![0, 1])), 1u128 << 32);
    assert_eq!(value(&a.copy()), 8_000_000_000);
}

#[test]
fn bignat_formats_with_english_separators() {
    assert_eq!(BigNat::from_u64(0).formatted_en(), "0");
    assert_eq!(BigNat::from_u64(999).formatted_en(), "999");
    assert_eq!(BigNat::from_u64(1000).formatted_en(), "1,000");
    assert_eq!(BigNat::from_u64(1_234_567).formatted_en(), "1,234,567");
    let big = BigNat::from_u64(8_000_000_000).mul(&BigNat::from_u64(8_000_000_000));
    assert_eq!(big.formatted_en(), "64,000,000,000,000,000,000");
}

#[test]
fn decimal_string_is_plain() {
    assert_eq!(decimal_string(0), "0");
    assert_eq!(decimal_string(7), "7");
    assert_eq!(decimal_string(1234), "1234");
    assert_eq!(decimal_string(u64::MAX), "18446744073709551615");
}

#[test]
fn members_read_naturally() {
    assert_eq!(show_members(&BigNat::from_u64(1)), "1 member");
    assert_eq!(show_members(&BigNat::from_u64(0)), "0 members");
    assert_eq!(show_members(&BigNat::from_u64(2)), "2 members");
    assert_eq!(show_members(&BigNat::from_u64(1_234_567)), "1,234,567 members");
    assert_eq!(show_multiplier(&BigNat::from_u64(25_000)), "×25,000");
    assert_eq!(show_multiplier(&BigNat::from_u64(1)), "×1");
}

#[test]
fn colours_cycle_every_three_pages() {
    assert_eq!(indexed_colour(0), 0xff4a8e);
    assert_eq!(indexed_colour(1), 0x8a6fd5);
    assert_eq!(indexed_colour(2), 0x00c5ba);
    assert_eq!(indexed_colour(3), 0xff4a8e);
    assert_eq!(indexed_colour(7), indexed_colour(4));
    for _ in 0..50 {
        let c = random_colour();
        assert!(c == 0xff4a8e || c == 0x8a6fd5 || c == 0x00c5ba);
    }
}

#[test]
fn contains_text_finds_substrings() {
    assert!(contains_text("poster", "ost"));
    assert!(contains_text("poster", ""));
    assert!(contains_text("", ""));
    assert!(contains_text("poster", "poster"));
    assert!(!contains_text("poster", "posters"));
    assert!(!contains_text("poster", "tp"));
    assert!(contains_text("switch pizzeria", "pizz"));
    assert!(contains_text("×× é", "× é"));
}

#[test]
fn parse_usize_follows_str_parse() {
    assert_eq!(parse_usize("0"), Some(0));
    assert_eq!(parse_usize("42"), Some(42));
    assert_eq!(parse_usize("+5"), Some(5));
    assert_eq!(parse_usize("007"), Some(7));
    assert_eq!(parse_usize(""), None);
    assert_eq!(parse_usize("+"), None);
    assert_eq!(parse_usize("-1"), None);
    assert_eq!(parse_usize("-0"), None);
    assert_eq!(parse_usize("12a"), None);
    assert_eq!(parse_usize(" 1"), None);
    assert_eq!(parse_usize("++1"), None);
    let max = usize::MAX.to_string();
    assert_eq!(parse_usize(&max), Some(usize::MAX));
    let over = format!("{}0", usize::MAX);
    assert_eq!(parse_usize(&over), None);
    for s in ["", "+", "-3", "1_0", "99999999999999999999999", "15", "+0"] {
        assert_eq!(parse_usize(s), s.parse::<usize>().ok());
    }
}

#[test]
fn decimal_parses_back() {
    for n in [0usize, 1, 9, 10, 15, 999, 123456, usize::MAX] {
        assert_eq!(parse_usize(&decimal_string(n as u64)), Some(n));
    }
}
