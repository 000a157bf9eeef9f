use line_processor::passes;

fn filter(s: &str) -> Option<String> {
    Some(s.to_string())
}

#[test]
fn no_filter_lets_every_line_through() {
    assert!(passes(&None, "hello"));
    assert!(passes(&None, ""));
}

#[test]
fn empty_filter_lets_every_line_through() {
    assert!(passes(&filter(""), "hello"));
    assert!(passes(&filter(""), ""));
}

#[test]
fn filter_lets_lines_with_its_text_through() {
    assert!(passes(&filter("bar"), "foo bar"));
    assert!(passes(&filter("foo"), "foo bar"));
    assert!(passes(&filter("o b"), "foo bar"));
    assert!(passes(&filter("foo bar"), "foo bar"));
}

#[test]
fn filter_holds_other_lines_back() {
    assert!(!passes(&filter("bar"), "hello"));
    assert!(!passes(&filter("bar"), ""));
    assert!(!passes(&filter("foo bar baz"), "foo bar"));
    assert!(!passes(&filter("fob"), "foo bar"));
}

#[test]
fn filter_is_case_sensitive() {
    assert!(!passes(&filter("Bar"), "foo bar"));
    assert!(passes(&filter("Bar"), "foo Bar"));
}

#[test]
fn filter_compares_whole_characters() {
    assert!(passes(&filter("ú"), "Número"));
    assert!(!passes(&filter("u"), "Número"));
    assert!(passes(&filter("本"), "日本語"));
}

#[test]
fn filter_text_must_be_contiguous() {
    assert!(!passes(&filter("fb"), "foo bar"));
    assert!(!passes(&filter("rab"), "foo bar"));
}
