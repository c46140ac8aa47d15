//! Text: white space, lines, numbers.

use android_emulator::text::{
    decimal_of, lines_of, parse_u16_of, same, split_once_at, strip_prefix_of, trim_of,
    trim_start_of,
};

#[test]
fn trims_what_std_trims() {
    for s in [
        "", " ", "a", " a", "a ", "\t a b \r\n", "\u{a0}x\u{3000}", "\u{200b}x", "\u{85}", "é  ",
        "\u{2028}y\u{2029}",
    ] {
        assert_eq!(trim_of(s), s.trim());
        assert_eq!(trim_start_of(s), s.trim_start());
    }
}

#[test]
fn white_space_is_that_of_std() {
    for n in 0..0x11_0000u32 {
        if let Some(c) = char::from_u32(n) {
            if n < 0x3100 || c.is_whitespace() {
                let s = format!("{c}x");
                assert_eq!(trim_start_of(&s), s.trim_start());
            }
        }
    }
}

#[test]
fn lines_are_those_of_std() {
    for s in ["", "\n", "a", "a\n", "a\nb", "a\r\nb\r\n", "\r", "a\r", "\n\n", "a\rb\n", "x\r\r\n"] {
        let expected: Vec<String> = s.lines().map(|l| l.to_string()).collect();
        assert_eq!(lines_of(s), expected);
    }
}

#[test]
fn ports_are_read_as_by_std() {
    for s in [
        "", "0", "8554", "65535", "65536", "+1", "-1", "+", " 1", "1 ", "00080", "99999999999999999999",
        "1e3", "٣", "++1",
    ] {
        assert_eq!(parse_u16_of(s), s.parse::<u16>().ok());
    }
}

#[test]
fn ports_come_back() {
    for n in [0u16, 1, 9, 10, 99, 8554, 65535] {
        let text = decimal_of(n as u64);
        assert_eq!(text, n.to_string());
        assert_eq!(parse_u16_of(&text), Some(n));
    }
    assert_eq!(decimal_of(u64::MAX), u64::MAX.to_string());
}

#[test]
fn splits_at_the_first() {
    assert_eq!(split_once_at("a=b=c", '='), Some(("a", "b=c")));
    assert_eq!(split_once_at("=", '='), Some(("", "")));
    assert_eq!(split_once_at("abc", '='), None);
    assert_eq!(split_once_at("ü=ß", '='), Some(("ü", "ß")));
}

#[test]
fn strips_a_prefix() {
    assert_eq!(strip_prefix_of("emulator-5554", "emulator-"), Some("5554"));
    assert_eq!(strip_prefix_of("emulator", "emulator-"), None);
    assert_eq!(strip_prefix_of("", ""), Some(""));
    assert!(same("a", "a"));
    assert!(!same("a", "A"));
}
