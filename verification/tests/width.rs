use zfetch::ansi::{strip, width};
use zfetch::display::Display;

#[test]
fn width_of_plain_text_is_its_length() {
    assert_eq!(width(""), 0);
    assert_eq!(width("hello"), 5);
    assert_eq!(width("  /\\  "), 6);
}

#[test]
fn width_counts_characters_not_bytes() {
    assert_eq!(width("`-------Â´"), 10);
    assert_eq!(width("\x1b[36m日本語\x1b[0m"), 3);
}

#[test]
fn width_skips_one_escape_sequence() {
    assert_eq!(width("\x1b[31mred"), 3);
    assert_eq!(width("red\x1b[0m"), 3);
    assert_eq!(width("\x1b[0m"), 0);
}

#[test]
fn width_skips_back_to_back_sequences() {
    assert_eq!(width("\x1b[0m\x1b[37mvalue\x1b[0m"), 5);
    assert_eq!(width("a\x1b[1;31mb\x1b[0m\x1b[0mc"), 3);
}

#[test]
fn strip_keeps_only_visible_characters() {
    assert_eq!(strip("\x1b[36m  User: \x1b[0m\x1b[37malice\x1b[0m"), "  User: alice");
    assert_eq!(strip("no escapes"), "no escapes");
}

#[test]
fn strip_does_not_change_the_measured_text() {
    let text = String::from("\x1b[32mgreen\x1b[0m");
    let before = text.clone();
    let _ = strip(&text);
    assert_eq!(text, before);
}

#[test]
fn escape_without_bracket_hides_only_itself() {
    assert_eq!(strip("a\x1bbc"), "abc");
    assert_eq!(width("\x1b\x1b[31mx"), 1);
    assert_eq!(strip("\x1b"), "");
}

#[test]
fn sequence_runs_to_the_next_letter() {
    assert_eq!(strip("\x1b[12;34;56Hafter"), "after");
    assert_eq!(strip("\x1b[123"), "");
    assert_eq!(strip("\x1b[1\x1b[2mx"), "x");
    assert_eq!(strip("\x1b[Zz"), "z");
}

#[test]
fn display_strips_like_the_calculator() {
    let display = Display::new();
    assert_eq!(display.strip_ansi_codes("\x1b[96m   a8888b.\x1b[0m"), "   a8888b.");
    assert_eq!(display.strip_ansi_codes(""), "");
}
