use pixi_gui::utils::{strip_ansi_escapes, Scan, BELL, ESCAPE};

#[test]
fn plain_text_is_unchanged() {
    assert_eq!(strip_ansi_escapes(""), "");
    assert_eq!(strip_ansi_escapes("hello, world"), "hello, world");
    assert_eq!(strip_ansi_escapes("line 1\nline 2\r\n\ttabbed"), "line 1\nline 2\r\n\ttabbed");
    assert_eq!(strip_ansi_escapes("[31m is no escape"), "[31m is no escape");
    assert_eq!(strip_ansi_escapes("naïve 日本語 \u{1f600}"), "naïve 日本語 \u{1f600}");
}

#[test]
fn colours_are_stripped() {
    assert_eq!(strip_ansi_escapes("\u{1b}[31mred\u{1b}[0m"), "red");
    assert_eq!(strip_ansi_escapes("\u{1b}[1;38;5;208mbold orange\u{1b}[m!"), "bold orange!");
    assert_eq!(strip_ansi_escapes("a\u{1b}[1mb"), "ab");
}

#[test]
fn cursor_movements_are_stripped() {
    assert_eq!(strip_ansi_escapes("\u{1b}[2K\u{1b}[1Gprogress"), "progress");
    assert_eq!(strip_ansi_escapes("x\u{1b}[?25ly\u{1b}[?25hz"), "xyz");
    assert_eq!(strip_ansi_escapes("a\u{1b}[1 qb"), "ab");
}

#[test]
fn command_strings_are_stripped() {
    assert_eq!(
        strip_ansi_escapes("\u{1b}]8;;https://pixi.sh\u{7}docs\u{1b}]8;;\u{7}"),
        "docs"
    );
    assert_eq!(
        strip_ansi_escapes("\u{1b}]8;;https://pixi.sh\u{1b}\\docs\u{1b}]8;;\u{1b}\\"),
        "docs"
    );
    assert_eq!(strip_ansi_escapes("\u{1b}]0;window title\u{7}text"), "text");
    assert_eq!(strip_ansi_escapes("a\u{1b}Ppayload\u{1b}\\b"), "ab");
    assert_eq!(strip_ansi_escapes("a\u{1b}_é日\nx\u{7}b"), "ab");
}

#[test]
fn short_escape_sequences_are_stripped() {
    assert_eq!(strip_ansi_escapes("a\u{1b}cb"), "ab");
    assert_eq!(strip_ansi_escapes("a\u{1b}(Bb"), "ab");
    assert_eq!(strip_ansi_escapes("a\u{1b}7b\u{1b}8c"), "abc");
}

#[test]
fn unfinished_sequences_are_stripped() {
    assert_eq!(strip_ansi_escapes("abc\u{1b}"), "abc");
    assert_eq!(strip_ansi_escapes("abc\u{1b}["), "abc");
    assert_eq!(strip_ansi_escapes("abc\u{1b}[12;3"), "abc");
    assert_eq!(strip_ansi_escapes("abc\u{1b}]0;title"), "abc");
    assert_eq!(strip_ansi_escapes("\u{1b}\u{1b}\u{1b}"), "");
}

#[test]
fn a_sequence_broken_off_keeps_what_broke_it() {
    assert_eq!(strip_ansi_escapes("a\u{1b}[12\nb"), "a\nb");
    assert_eq!(strip_ansi_escapes("a\u{1b}\nb"), "a\nb");
    assert_eq!(strip_ansi_escapes("a\u{1b}[é"), "aé");
    assert_eq!(strip_ansi_escapes("a\u{1b}[3\u{1b}[1mb"), "ab");
}

#[test]
fn bell_outside_a_command_string_is_text() {
    assert_eq!(strip_ansi_escapes("a\u{7}b"), "a\u{7}b");
}

#[test]
fn stripping_twice_is_stripping_once() {
    for text in [
        "",
        "plain",
        "\u{1b}[31mred\u{1b}[0m",
        "\u{1b}]8;;x\u{7}link\u{1b}]8;;\u{7}",
        "a\u{1b}[12\nb\u{1b}",
        "\u{1b}[\u{1b}[[m",
    ] {
        let once = strip_ansi_escapes(text);
        assert_eq!(strip_ansi_escapes(&once), once);
        assert!(!once.contains('\u{1b}'));
        assert!(once.chars().count() <= text.chars().count());
    }
}

#[test]
fn scan_constants() {
    assert_eq!(ESCAPE, '\u{1b}');
    assert_eq!(BELL, '\u{7}');
}

#[test]
fn scan_steps() {
    assert_eq!(Scan::Text.step('a'), Scan::Text);
    assert_eq!(Scan::Text.step(ESCAPE), Scan::Escape);
    assert_eq!(Scan::Escape.step('['), Scan::ControlSequence);
    assert_eq!(Scan::Escape.step(']'), Scan::CommandString);
    assert_eq!(Scan::Escape.step('P'), Scan::CommandString);
    assert_eq!(Scan::Escape.step('X'), Scan::CommandString);
    assert_eq!(Scan::Escape.step('^'), Scan::CommandString);
    assert_eq!(Scan::Escape.step('_'), Scan::CommandString);
    assert_eq!(Scan::Escape.step('('), Scan::Escape);
    assert_eq!(Scan::Escape.step('c'), Scan::Text);
    assert_eq!(Scan::Escape.step(ESCAPE), Scan::Escape);
    assert_eq!(Scan::ControlSequence.step('1'), Scan::ControlSequence);
    assert_eq!(Scan::ControlSequence.step(';'), Scan::ControlSequence);
    assert_eq!(Scan::ControlSequence.step(' '), Scan::ControlSequence);
    assert_eq!(Scan::ControlSequence.step('m'), Scan::Text);
    assert_eq!(Scan::ControlSequence.step('@'), Scan::Text);
    assert_eq!(Scan::ControlSequence.step(ESCAPE), Scan::Escape);
    assert_eq!(Scan::CommandString.step('x'), Scan::CommandString);
    assert_eq!(Scan::CommandString.step(BELL), Scan::Text);
    assert_eq!(Scan::CommandString.step(ESCAPE), Scan::Escape);
}

#[test]
fn scan_keeps() {
    assert!(Scan::Text.keeps('a'));
    assert!(Scan::Text.keeps('\n'));
    assert!(!Scan::Text.keeps(ESCAPE));
    assert!(!Scan::Escape.keeps('c'));
    assert!(!Scan::Escape.keeps('['));
    assert!(Scan::Escape.keeps('\n'));
    assert!(Scan::Escape.keeps('é'));
    assert!(!Scan::ControlSequence.keeps('m'));
    assert!(!Scan::ControlSequence.keeps('~'));
    assert!(Scan::ControlSequence.keeps('\u{7f}'));
    assert!(!Scan::ControlSequence.keeps(ESCAPE));
    assert!(!Scan::CommandString.keeps('a'));
    assert!(!Scan::CommandString.keeps(BELL));
}
