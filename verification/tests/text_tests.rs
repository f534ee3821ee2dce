use modu_tool::comport::{ReadLoop, ReadOutcome};
use modu_tool::text::{push_decimal_i32, push_digits, push_upper_hex_i32, second_word, white_space};

fn lossy(bytes: &[u8]) -> String {
    let mut r = ReadLoop::new();
    r.step(ReadOutcome::Read(bytes.to_vec()));
    r.output
}

fn decimal(v: i32) -> String {
    let mut s = String::new();
    push_decimal_i32(&mut s, v);
    s
}

fn hex(v: i32) -> String {
    let mut s = String::new();
    push_upper_hex_i32(&mut s, v);
    s
}

#[test]
fn second_word_of_timestamp() {
    assert_eq!(second_word("2024-05-01 12:34:56"), Some("12:34:56".to_string()));
}

#[test]
fn second_word_skips_runs_of_white_space() {
    assert_eq!(second_word("  a \t\n bb   ccc "), Some("bb".to_string()));
    assert_eq!(second_word("x\u{3000}y"), Some("y".to_string()));
}

#[test]
fn second_word_missing() {
    assert_eq!(second_word("single"), None);
    assert_eq!(second_word("   "), None);
    assert_eq!(second_word(""), None);
    assert_eq!(second_word("  lone  "), None);
}

#[test]
fn second_word_agrees_with_split_whitespace() {
    for s in ["a b", " a  b c", "\u{a0}x\u{2003}yz\u{2029}w", "no_space", "tab\tsep", "é ü"] {
        assert_eq!(second_word(s), s.split_whitespace().nth(1).map(|w| w.to_string()));
    }
}

#[test]
fn white_space_matches_std() {
    for c in ['\t', '\n', ' ', '\u{85}', '\u{a0}', '\u{1680}', '\u{2000}', '\u{200a}', '\u{2028}',
        '\u{2029}', '\u{202f}', '\u{205f}', '\u{3000}', 'a', '0', '\u{200b}', '\u{180e}', '\u{feff}']
    {
        assert_eq!(white_space(c), c.is_whitespace(), "{:?}", c);
    }
}

#[test]
fn decimal_rendering() {
    assert_eq!(decimal(0), "0");
    assert_eq!(decimal(42), "42");
    assert_eq!(decimal(-7), "-7");
    assert_eq!(decimal(1000), "1000");
    assert_eq!(decimal(i32::MAX), "2147483647");
    assert_eq!(decimal(i32::MIN), "-2147483648");
}

#[test]
fn decimal_rendering_agrees_with_format() {
    for v in [-1000000, -10, -9, -1, 0, 1, 9, 10, 99, 100, 123456789] {
        assert_eq!(decimal(v), format!("{}", v));
    }
}

#[test]
fn hex_rendering() {
    assert_eq!(hex(0), "0");
    assert_eq!(hex(10), "A");
    assert_eq!(hex(255), "FF");
    assert_eq!(hex(4096), "1000");
    assert_eq!(hex(-1), "FFFFFFFF");
    assert_eq!(hex(i32::MIN), "80000000");
}

#[test]
fn hex_rendering_agrees_with_format() {
    for v in [-256, -16, -2, 1, 15, 16, 171, 48879, i32::MAX] {
        assert_eq!(hex(v), format!("{:X}", v));
    }
}

#[test]
fn digits_in_other_bases() {
    let mut s = String::from("b:");
    push_digits(&mut s, 5, 2);
    assert_eq!(s, "b:101");
    let mut s = String::new();
    push_digits(&mut s, 64, 8);
    assert_eq!(s, "100");
}

#[test]
fn lossy_decoding() {
    assert_eq!(lossy(b"hello"), "hello");
    assert_eq!(lossy("grüß".as_bytes()), "grüß");
    assert_eq!(lossy(&[b'a', 0xff, b'b']), "a\u{FFFD}b");
}
