use jest_companion::ansi::strip_ansi;

#[test]
fn strips_ansi_color_codes() {
    let colored = "\u{1B}[31mFAIL\u{1B}[39m \u{1B}[1msuite\u{1B}[22m";
    assert_eq!(strip_ansi(colored), "FAIL suite");
}

#[test]
fn strips_256_color_codes_and_keeps_unicode() {
    let colored = "\u{1B}[38;5;123m✓ passed — ok\u{1B}[39m";
    assert_eq!(strip_ansi(colored), "✓ passed — ok");
}

#[test]
fn leaves_plain_text_untouched() {
    assert_eq!(strip_ansi("no escapes here"), "no escapes here");
}

#[test]
fn nothing_comes_of_nothing() {
    assert_eq!(strip_ansi(""), "");
}

#[test]
fn other_escapes_take_one_character_with_them() {
    assert_eq!(strip_ansi("a\u{1B}7b"), "ab");
    assert_eq!(strip_ansi("a\u{1B}\u{1B}[31mb"), "a[31mb");
}

#[test]
fn escape_at_the_end_is_dropped() {
    assert_eq!(strip_ansi("end\u{1B}"), "end");
}

#[test]
fn unfinished_control_sequence_swallows_the_rest() {
    assert_eq!(strip_ansi("keep\u{1B}[12;3"), "keep");
    assert_eq!(strip_ansi("keep\u{1B}["), "keep");
}

#[test]
fn control_sequences_end_at_both_ends_of_the_range() {
    assert_eq!(strip_ansi("\u{1B}[1@x"), "x");
    assert_eq!(strip_ansi("\u{1B}[1~x"), "x");
    assert_eq!(strip_ansi("\u{1B}[?25lx"), "x");
}

#[test]
fn stripping_twice_changes_nothing_more() {
    let once = strip_ansi("\u{1B}[31m[1m\u{1B}\u{1B}x\u{1B}[0m");
    assert_eq!(once, "[1mx");
    assert_eq!(strip_ansi(&once), once);
}
