use crankshaft::wdl_util::calculate_leading_whitespace;
use crankshaft::wdl_util::remove_line_continuations;
use crankshaft::wdl_util::strip_leading_whitespace;

#[test]
fn test_remove_line_continuations() {
    let input = "first line \
                     still first line
second line";
    let expected = "first line still first line\nsecond line";
    assert_eq!(remove_line_continuations(input), expected);
}

#[test]
fn test_calculate_leading_whitespace() {
    let input = "    first line is indented 4 spaces
        second line is indented 8 spaces
    third line is indented 4 spaces";
    assert_eq!(calculate_leading_whitespace(input), 4);
    let input = "    first line is indented 4 spaces
 \t \t    second line is indented with a mix of 8 spaces and tabs
\t\t\t\tfourth line is indented 4 tabs";
    assert_eq!(calculate_leading_whitespace(input), 4);
}

#[test]
fn test_strip_leading_whitespace_not_in_command() {
    let input = "    first line is indented 4 spaces \
                     still first line
        second line is indented 8 spaces
    third line is indented 4 spaces";
    let expected = "first line is indented 4 spaces still first line\n    second line is indented 8 spaces\nthird line is indented 4 spaces";
    assert_eq!(strip_leading_whitespace(input, false), expected);
}

#[test]
fn test_strip_leading_whitespace_in_command() {
    let input = "    first line is indented 4 spaces and trails a backslash \\
        second line is indented 8 spaces
    third line is indented 4 spaces";
    let expected = "first line is indented 4 spaces and trails a backslash \\\n    second line is indented 8 spaces\nthird line is indented 4 spaces";
    assert_eq!(strip_leading_whitespace(input, true), expected);
}

#[test]
fn a_backslash_takes_the_next_character_away() {
    assert_eq!(remove_line_continuations("a\\bc"), "a\\c");
    assert_eq!(remove_line_continuations("tail\\"), "tail\\");
}

#[test]
fn a_continuation_puts_the_next_character_before_the_backslash() {
    assert_eq!(remove_line_continuations("one \\\n   two"), "one t\\wo");
    assert_eq!(remove_line_continuations("one \\\n  \t "), "one \\");
}

#[test]
fn leading_whitespace_of_blank_text_is_zero() {
    assert_eq!(calculate_leading_whitespace(""), 0);
    assert_eq!(calculate_leading_whitespace("   \n\t\n"), 0);
    assert_eq!(calculate_leading_whitespace("  a\n\n b"), 1);
}

#[test]
fn stripping_drops_carriage_returns_before_newlines_and_the_last_newline() {
    assert_eq!(strip_leading_whitespace("  a\r\n  b\n", true), "a\nb");
    assert_eq!(strip_leading_whitespace("  a\n \n   b", true), "a\n\n b");
    assert_eq!(strip_leading_whitespace("", true), "");
}
