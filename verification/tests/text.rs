use palette_table::text::{append_decimal, chars_of, str_eq};

fn decimal(n: u64) -> String {
    let mut out = String::new();
    append_decimal(&mut out, n);
    out
}

#[test]
fn decimal_numerals() {
    assert_eq!(decimal(0), "0");
    assert_eq!(decimal(7), "7");
    assert_eq!(decimal(10), "10");
    assert_eq!(decimal(255), "255");
    assert_eq!(decimal(1009), "1009");
    assert_eq!(decimal(u64::MAX), "18446744073709551615");
}

#[test]
fn decimal_is_appended() {
    let mut out = String::from("swatch #");
    append_decimal(&mut out, 12);
    assert_eq!(out, "swatch #12");
}

#[test]
fn chars_of_gives_every_character() {
    assert_eq!(chars_of(""), Vec::<char>::new());
    assert_eq!(chars_of("a(b"), vec!['a', '(', 'b']);
    assert_eq!(chars_of("caf\u{e9} \u{20ac}\u{1f600}"), vec!['c', 'a', 'f', '\u{e9}', ' ', '\u{20ac}', '\u{1f600}']);
}

#[test]
fn str_eq_compares_characters() {
    assert!(str_eq("palette", "palette"));
    assert!(str_eq("", ""));
    assert!(!str_eq("palette", "Palette"));
    assert!(!str_eq("palette", "palettes"));
}
