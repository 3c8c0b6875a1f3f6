use druid::decimal::parse_u64;

#[test]
fn digits_spell_a_number() {
    assert_eq!(parse_u64("0"), Some(0));
    assert_eq!(parse_u64("7"), Some(7));
    assert_eq!(parse_u64("42"), Some(42));
    assert_eq!(parse_u64("1234567890"), Some(1_234_567_890));
}

#[test]
fn leading_zeros_are_digits() {
    assert_eq!(parse_u64("007"), Some(7));
    assert_eq!(parse_u64("0000000000000000000000000000001"), Some(1));
    assert_eq!(parse_u64("00"), Some(0));
}

#[test]
fn the_largest_number_fits_and_the_next_does_not() {
    assert_eq!(parse_u64("18446744073709551615"), Some(u64::MAX));
    assert_eq!(parse_u64("18446744073709551616"), None);
    assert_eq!(parse_u64("18446744073709551620"), None);
    assert_eq!(parse_u64("99999999999999999999"), None);
    assert_eq!(parse_u64("184467440737095516150"), None);
    assert_eq!(parse_u64("340282366920938463463374607431768211456"), None);
}

#[test]
fn empty_text_spells_nothing() {
    assert_eq!(parse_u64(""), None);
}

#[test]
fn anything_but_digits_spells_nothing() {
    assert_eq!(parse_u64("+5"), None);
    assert_eq!(parse_u64("-5"), None);
    assert_eq!(parse_u64(" 5"), None);
    assert_eq!(parse_u64("5 "), None);
    assert_eq!(parse_u64("5a"), None);
    assert_eq!(parse_u64("a5"), None);
    assert_eq!(parse_u64("1.0"), None);
    assert_eq!(parse_u64("1_000"), None);
    assert_eq!(parse_u64("/"), None);
    assert_eq!(parse_u64(":"), None);
    assert_eq!(parse_u64("0x10"), None);
}

#[test]
fn digits_of_other_scripts_spell_nothing() {
    assert_eq!(parse_u64("\u{ff15}"), None);
    assert_eq!(parse_u64("1\u{e9}"), None);
    assert_eq!(parse_u64("\u{661}\u{662}"), None);
}
