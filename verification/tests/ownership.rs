use owned_text::buffer::{duplicate_then_append, TextBuf};
use owned_text::routine::{entry_lines, run, strings};

#[test]
fn run_prints_five_exact_lines() {
    let lines = run();
    let expected = vec![
        "wow",
        "howw",
        "howw",
        "hello, world",
        "s1 = hello, s2 = hello",
    ];
    assert_eq!(lines.len(), expected.len());
    for (line, want) in lines.iter().zip(expected.iter()) {
        assert_eq!(line, want);
    }
}

#[test]
fn entry_lines_follow_the_rebindings() {
    let lines = entry_lines();
    assert_eq!(lines, vec!["wow", "howw", "howw"]);
}

#[test]
fn strings_lines_show_growth_and_duplication() {
    let lines = strings();
    assert_eq!(lines, vec!["hello, world", "s1 = hello, s2 = hello"]);
}

#[test]
fn from_literal_holds_the_text() {
    let buf = TextBuf::from_literal("hello");
    assert_eq!(buf.as_str(), "hello");
}

#[test]
fn append_grows_the_buffer() {
    let mut buf = TextBuf::from_literal("hello");
    buf.append(", world");
    assert_eq!(buf.as_str(), "hello, world");
}

#[test]
fn into_string_keeps_the_text() {
    let buf = TextBuf::from_literal("wow");
    assert_eq!(buf.into_string(), "wow");
}

#[test]
fn mutating_a_duplicate_leaves_the_original() {
    let original = TextBuf::from_literal("hello");
    let mut dup = original.duplicate();
    dup.append("!");
    assert_eq!(original.as_str(), "hello");
    assert_eq!(dup.as_str(), "hello!");
}

#[test]
fn duplicate_then_append_returns_both_independently() {
    let original = TextBuf::from_literal("abc");
    let (kept, grown) = duplicate_then_append(original, "def");
    assert_eq!(kept.as_str(), "abc");
    assert_eq!(grown.as_str(), "abcdef");
}

#[test]
fn release_consumes_the_owner() {
    let first_owner = TextBuf::from_literal("hello");
    let new_owner = first_owner;
    new_owner.release();
}
