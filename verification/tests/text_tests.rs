use csearch::content::content_lines;
use csearch::sanitize::sanitize_query;
use csearch::title::pretty_chapter;

#[test]
fn title_prologue_capitalized() {
    assert_eq!(pretty_chapter("prologue"), "Prologue");
}

#[test]
fn title_epilogue_upper_case() {
    assert_eq!(pretty_chapter("EPILOGUE"), "Epilogue");
}

#[test]
fn title_chapter_with_digits() {
    assert_eq!(pretty_chapter("Chapter 12"), "Chapter 12");
}

#[test]
fn title_chapter_roman_numerals_quirk() {
    // No ASCII digit in the label: the number is simply absent.
    assert_eq!(pretty_chapter("chapter IV"), "Chapter ");
}

#[test]
fn title_chapter_mixed_case_prefix() {
    assert_eq!(pretty_chapter("ChApTeR 7"), "Chapter 7");
}

#[test]
fn title_digits_collected_in_order() {
    assert_eq!(pretty_chapter("chapter 1 part 2"), "Chapter 12");
}

#[test]
fn title_other_label_unchanged() {
    assert_eq!(pretty_chapter("Interlude: The Storm"), "Interlude: The Storm");
}

#[test]
fn title_prologue_embedded_not_exact() {
    assert_eq!(pretty_chapter("prologue two"), "prologue two");
}

#[test]
fn sanitize_drops_punctuation() {
    assert_eq!(sanitize_query("dragon's fire!"), "dragons fire");
}

#[test]
fn sanitize_trims_surrounding_whitespace() {
    assert_eq!(sanitize_query("  hello  world \t"), "hello  world");
}

#[test]
fn sanitize_all_junk_becomes_empty() {
    assert_eq!(sanitize_query("!?.,;:\"'"), "");
}

#[test]
fn sanitize_whitespace_only_becomes_empty() {
    assert_eq!(sanitize_query("   \t\n"), "");
}

#[test]
fn sanitize_keeps_alphanumerics() {
    assert_eq!(sanitize_query("abc XYZ 123"), "abc XYZ 123");
}

#[test]
fn sanitize_drops_non_ascii() {
    assert_eq!(sanitize_query("caf\u{e9} au lait"), "caf au lait");
}

#[test]
fn content_drops_empty_and_bracket_lines() {
    let lines = content_lines("One\n\n[footnote]\nTwo");
    assert_eq!(lines, vec!["One".to_string(), "Two".to_string()]);
}

#[test]
fn content_chomps_carriage_returns() {
    let lines = content_lines("alpha\r\nbeta\r\n");
    assert_eq!(lines, vec!["alpha".to_string(), "beta".to_string()]);
}

#[test]
fn content_keeps_whitespace_only_lines() {
    let lines = content_lines("  \nreal");
    assert_eq!(lines, vec!["  ".to_string(), "real".to_string()]);
}

#[test]
fn content_empty_input_yields_nothing() {
    let lines = content_lines("");
    assert!(lines.is_empty());
}

#[test]
fn content_no_trailing_empty_line() {
    let lines = content_lines("only\n");
    assert_eq!(lines, vec!["only".to_string()]);
}

#[test]
fn title_bare_chapter_keeps_trailing_space() {
    assert_eq!(pretty_chapter("chapter"), "Chapter ");
}

#[test]
fn sanitize_trims_before_filtering() {
    // The dot stops the trim, so the space after it survives filtering.
    assert_eq!(sanitize_query(" . a"), " a");
}

#[test]
fn content_bracket_line_with_carriage_return() {
    let lines = content_lines("[plate]\r\nkept");
    assert_eq!(lines, vec!["kept".to_string()]);
}
