//! Descriptions of emulators and the lines that they print.

use android_emulator::ini::parse_ini;
use android_emulator::log::{log_emulator_line, LogLevel};

#[test]
fn entries_are_trimmed() {
    let m = parse_ini("  grpc.port = 8554 \r\navd.id=Pixel_7\n");
    assert_eq!(m.get("grpc.port").map(|s| s.as_str()), Some("8554"));
    assert_eq!(m.get("avd.id").map(|s| s.as_str()), Some("Pixel_7"));
    assert!(m.get("avd.name").is_none());
}

#[test]
fn comments_and_blank_lines_are_passed_over() {
    let m = parse_ini("# a=b\n\n   \n  #c=d\nno equals sign\n=empty key\nk=\n");
    assert!(m.get("# a").is_none());
    assert!(m.get("#c").is_none());
    assert!(m.get("no equals sign").is_none());
    assert_eq!(m.get("").map(|s| s.as_str()), Some("empty key"));
    assert_eq!(m.get("k").map(|s| s.as_str()), Some(""));
}

#[test]
fn the_last_line_wins() {
    let m = parse_ini("a=1\nb=2\na=3");
    assert_eq!(m.get("a").map(|s| s.as_str()), Some("3"));
    assert_eq!(m.get("b").map(|s| s.as_str()), Some("2"));
}

#[test]
fn the_value_starts_after_the_first_equals_sign() {
    let m = parse_ini("cmdline=emulator -prop x=y");
    assert_eq!(m.get("cmdline").map(|s| s.as_str()), Some("emulator -prop x=y"));
}

#[test]
fn an_entry_is_read_back() {
    let (k, v) = ("avd.dir", "/home/ü/.android/avd");
    let m = parse_ini(&format!("{k}={v}"));
    assert_eq!(m.get(k).map(|s| s.as_str()), Some(v));
}

#[test]
fn an_empty_key_is_read_back() {
    let m = parse_ini("=v");
    assert_eq!(m.get("").map(|s| s.as_str()), Some("v"));
}

#[test]
fn the_first_word_gives_the_level() {
    assert_eq!(log_emulator_line("ERROR   | boom"), (LogLevel::Error, "| boom"));
    assert_eq!(log_emulator_line("  WARNING | careful"), (LogLevel::Warn, "| careful"));
    assert_eq!(log_emulator_line("WARN careful"), (LogLevel::Warn, "careful"));
    assert_eq!(log_emulator_line("INFO    | hello "), (LogLevel::Info, "| hello "));
    assert_eq!(log_emulator_line("DEBUG x"), (LogLevel::Debug, "x"));
    assert_eq!(log_emulator_line("TRACE x"), (LogLevel::Trace, "x"));
}

#[test]
fn other_lines_are_logged_whole() {
    assert_eq!(log_emulator_line("  hello"), (LogLevel::Debug, "  hello"));
    assert_eq!(log_emulator_line("ERROR"), (LogLevel::Debug, "ERROR"));
    assert_eq!(log_emulator_line("error x"), (LogLevel::Debug, "error x"));
    assert_eq!(log_emulator_line(""), (LogLevel::Debug, ""));
}
