use catr::emit::{numbered_line, process_line, render_file, render_sources};
use catr::line::{is_space, line_is_blank};
use catr::num::u64_to_dec;

fn strings(lines: &[&str]) -> Vec<String> {
    lines.iter().map(|l| l.to_string()).collect()
}

#[test]
fn no_flags_is_verbatim_passthrough() {
    let lines = strings(&["hello", "", "world"]);
    let out = render_file(&lines, false, false);
    assert_eq!(out, lines);
}

#[test]
fn number_all_lines_including_blank() {
    let lines = strings(&["hello", "", "world"]);
    let out = render_file(&lines, true, false);
    assert_eq!(
        out,
        strings(&["     1\thello", "     2\t", "     3\tworld"])
    );
}

#[test]
fn number_nonblank_skips_blank_lines() {
    let lines = strings(&["hello", "", "world"]);
    let out = render_file(&lines, false, true);
    assert_eq!(out, strings(&["     1\thello", "", "     2\tworld"]));
}

#[test]
fn whitespace_only_line_counts_as_blank() {
    let lines = strings(&["a", " \t ", "b"]);
    let out = render_file(&lines, false, true);
    assert_eq!(out, strings(&["     1\ta", " \t ", "     2\tb"]));
}

#[test]
fn numbers_grow_past_one_digit() {
    let lines = strings(&["a", "b", "c", "d", "e", "f", "g", "h", "i", "j", "k"]);
    let out = render_file(&lines, true, false);
    assert_eq!(out[8], "     9\ti");
    assert_eq!(out[9], "     10\tj");
    assert_eq!(out[10], "     11\tk");
}

#[test]
fn empty_source_renders_empty() {
    let lines: Vec<String> = Vec::new();
    assert!(render_file(&lines, true, false).is_empty());
    assert!(render_file(&lines, false, true).is_empty());
    assert!(render_file(&lines, false, false).is_empty());
}

#[test]
fn counter_restarts_for_each_source() {
    let sources = vec![strings(&["a", "b"]), strings(&["c"])];
    let out = render_sources(&sources, true, false);
    assert_eq!(out[0], strings(&["     1\ta", "     2\tb"]));
    assert_eq!(out[1], strings(&["     1\tc"]));
}

#[test]
fn sources_render_independently_in_order() {
    let sources = vec![strings(&["x"]), strings(&[]), strings(&["y", ""])];
    let out = render_sources(&sources, false, true);
    assert_eq!(out.len(), 3);
    assert_eq!(out[0], strings(&["     1\tx"]));
    assert!(out[1].is_empty());
    assert_eq!(out[2], strings(&["     1\ty", ""]));
}

#[test]
fn process_line_numbers_and_advances() {
    let (text, count) = process_line("hello", 1, true, false);
    assert_eq!(text, "     1\thello");
    assert_eq!(count, 2);
}

#[test]
fn process_line_plain_keeps_count() {
    let (text, count) = process_line("hello", 7, false, false);
    assert_eq!(text, "hello");
    assert_eq!(count, 7);
}

#[test]
fn process_line_blank_in_nonblank_mode() {
    let (text, count) = process_line("", 5, false, true);
    assert_eq!(text, "");
    assert_eq!(count, 5);
}

#[test]
fn both_flags_number_every_line() {
    // when both flags are somehow set, all-lines numbering wins, blank lines included
    let (text, count) = process_line("", 3, true, true);
    assert_eq!(text, "     3\t");
    assert_eq!(count, 4);
}

#[test]
fn numbered_line_format_is_five_spaces_count_tab() {
    assert_eq!(numbered_line(1, "hello"), "     1\thello");
    assert_eq!(numbered_line(42, "abc"), "     42\tabc");
    assert_eq!(numbered_line(100, ""), "     100\t");
}

#[test]
fn decimal_rendering_exact_values() {
    assert_eq!(u64_to_dec(0), "0");
    assert_eq!(u64_to_dec(7), "7");
    assert_eq!(u64_to_dec(10), "10");
    assert_eq!(u64_to_dec(123456), "123456");
    assert_eq!(u64_to_dec(u64::MAX), "18446744073709551615");
}

#[test]
fn blankness_follows_whitespace_trimming() {
    assert!(line_is_blank(""));
    assert!(line_is_blank("   \t "));
    assert!(line_is_blank("\u{3000}\u{a0}\u{2003}"));
    assert!(!line_is_blank(" a "));
    assert!(!line_is_blank("x"));
}

#[test]
fn space_classification_matches_std() {
    for c in ['\t', '\n', ' ', '\u{85}', '\u{2028}', '\u{3000}', 'a', '-', '\u{200b}'] {
        assert_eq!(is_space(c), c.is_whitespace());
    }
}
