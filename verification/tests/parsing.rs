use guessing_game::number::{read_u32, write_u32};
use guessing_game::parser::{input_parser, say_invalid, ParseOutcome};
use guessing_game::text::{is_whitespace, same_text, trim};
use guessing_game::transcript::Transcript;

fn parse(line: &str) -> (ParseOutcome, Vec<String>) {
    let mut out = Transcript::new();
    let outcome = input_parser(line, &mut out);
    (outcome, out.into_lines())
}

#[test]
fn quit_word_is_the_quit_signal() {
    assert_eq!(parse("quit"), (ParseOutcome::Quit, vec![]));
    assert_eq!(parse("quit\n"), (ParseOutcome::Quit, vec![]));
    assert_eq!(parse("  \tquit \r\n"), (ParseOutcome::Quit, vec![]));
}

#[test]
fn quit_word_is_case_sensitive() {
    assert_eq!(parse("Quit\n"), (ParseOutcome::Invalid, vec!["Invalid number: Quit".to_string()]));
    assert_eq!(parse("QUIT\n"), (ParseOutcome::Invalid, vec!["Invalid number: QUIT".to_string()]));
    assert_eq!(parse("quit now\n").0, ParseOutcome::Invalid);
}

#[test]
fn numbers_are_read_without_a_message() {
    assert_eq!(parse("42\n"), (ParseOutcome::Number(42), vec![]));
    assert_eq!(parse("0\n"), (ParseOutcome::Number(0), vec![]));
    assert_eq!(parse("  17  \n"), (ParseOutcome::Number(17), vec![]));
    assert_eq!(parse("+7\n"), (ParseOutcome::Number(7), vec![]));
    assert_eq!(parse("007\n"), (ParseOutcome::Number(7), vec![]));
    assert_eq!(parse("4294967295\n"), (ParseOutcome::Number(u32::MAX), vec![]));
}

#[test]
fn other_text_gets_exactly_one_complaint() {
    assert_eq!(parse("abc\n"), (ParseOutcome::Invalid, vec!["Invalid number: abc".to_string()]));
    assert_eq!(parse("  12a \n"), (ParseOutcome::Invalid, vec!["Invalid number: 12a".to_string()]));
    assert_eq!(parse("-1\n"), (ParseOutcome::Invalid, vec!["Invalid number: -1".to_string()]));
    assert_eq!(parse("1 2\n"), (ParseOutcome::Invalid, vec!["Invalid number: 1 2".to_string()]));
    assert_eq!(parse("+\n"), (ParseOutcome::Invalid, vec!["Invalid number: +".to_string()]));
    assert_eq!(parse("++1\n"), (ParseOutcome::Invalid, vec!["Invalid number: ++1".to_string()]));
    assert_eq!(parse("1.5\n"), (ParseOutcome::Invalid, vec!["Invalid number: 1.5".to_string()]));
}

#[test]
fn empty_and_blank_lines_are_invalid() {
    assert_eq!(parse(""), (ParseOutcome::Invalid, vec!["Invalid number: ".to_string()]));
    assert_eq!(parse("   \n"), (ParseOutcome::Invalid, vec!["Invalid number: ".to_string()]));
}

#[test]
fn numbers_above_the_largest_are_invalid() {
    assert_eq!(
        parse("4294967296\n"),
        (ParseOutcome::Invalid, vec!["Invalid number: 4294967296".to_string()])
    );
    assert_eq!(parse("99999999999999999999999999\n").0, ParseOutcome::Invalid);
}

#[test]
fn complaints_are_appended_to_earlier_lines() {
    let mut out = Transcript::new();
    out.say("first");
    assert_eq!(input_parser("x\n", &mut out), ParseOutcome::Invalid);
    assert_eq!(input_parser("3\n", &mut out), ParseOutcome::Number(3));
    say_invalid("9", &mut out);
    out.say_string(String::from("last"));
    assert_eq!(
        out.into_lines(),
        vec!["first", "Invalid number: x", "Invalid number: 9", "last"]
    );
}

#[test]
fn read_u32_agrees_with_std() {
    let samples = [
        "", "0", "1", "9", "10", "+0", "+", "-", "-0", "12345", "0000000000000012", "4294967295",
        "4294967296", "4294967300", "42949672950", "1e3", " 1", "1 ", "٣", "１２", "+-1", "1+",
    ];
    for s in samples {
        assert_eq!(read_u32(s), s.parse::<u32>().ok(), "text {:?}", s);
    }
}

#[test]
fn write_u32_gives_decimal_text() {
    assert_eq!(write_u32(0), "0");
    assert_eq!(write_u32(7), "7");
    assert_eq!(write_u32(10), "10");
    assert_eq!(write_u32(1905), "1905");
    assert_eq!(write_u32(u32::MAX), "4294967295");
}

#[test]
fn written_numbers_read_back() {
    for n in [0u32, 1, 9, 10, 99, 100, 65535, 65536, 1_000_000_007, u32::MAX - 1, u32::MAX] {
        assert_eq!(read_u32(&write_u32(n)), Some(n));
    }
}

#[test]
fn trim_cuts_whitespace_at_both_ends_only() {
    assert_eq!(trim("  a b  "), "a b");
    assert_eq!(trim("abc"), "abc");
    assert_eq!(trim("\t\r\n"), "");
    assert_eq!(trim(""), "");
    assert_eq!(trim("\u{3000}12\u{a0}\u{2003}"), "12");
    assert_eq!(trim("\u{200b}x"), "\u{200b}x");
}

#[test]
fn trim_agrees_with_std() {
    let samples = [
        " x ", "\u{85}y\u{1680}", "\u{2028}\u{2029}z\u{202f}\u{205f}", "\u{feff}w", "é  ",
        "\u{0b}\u{0c}v", "\u{1c}u", "  ", "a\u{2000}b\u{200a}",
    ];
    for s in samples {
        assert_eq!(trim(s), s.trim(), "text {:?}", s);
    }
}

#[test]
fn is_whitespace_agrees_with_std() {
    let mut code: u32 = 0;
    while code < 0x11000 {
        if let Some(c) = char::from_u32(code) {
            assert_eq!(is_whitespace(c), c.is_whitespace(), "character {:x}", code);
        }
        code += 1;
    }
}

#[test]
fn same_text_compares_characters() {
    assert!(same_text("quit", "quit"));
    assert!(same_text("", ""));
    assert!(!same_text("quit", "quiT"));
    assert!(!same_text("quit", "qui"));
    assert!(!same_text("é", "e"));
}
