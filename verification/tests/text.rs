use protoxy::text::{same_text, starts_with, trim};

#[test]
fn trim_drops_white_space_at_both_ends() {
    assert_eq!(trim("  hello world \n"), "hello world");
    assert_eq!(trim("\t\r\n x"), "x");
    assert_eq!(trim("x \u{3000}"), "x");
    assert_eq!(trim("no-space"), "no-space");
}

#[test]
fn trim_keeps_white_space_inside() {
    assert_eq!(trim(" a  b\tc "), "a  b\tc");
}

#[test]
fn trim_of_blank_text_is_empty() {
    assert_eq!(trim(""), "");
    assert_eq!(trim("   "), "");
    assert_eq!(trim("\n\t \u{a0}\u{2003}"), "");
}

#[test]
fn trim_handles_characters_of_several_bytes() {
    assert_eq!(trim(" \u{e9}t\u{e9} "), "\u{e9}t\u{e9}");
    assert_eq!(trim("\u{2003}\u{1f600} ok \u{1f600}\u{2003}"), "\u{1f600} ok \u{1f600}");
}

#[test]
fn trim_agrees_with_the_standard_library() {
    for text in ["", " ", "a", " a", "a ", " a b ", "\u{85}x\u{85}", "\u{200b}x", "\u{feff} x"] {
        assert_eq!(trim(text), text.trim());
    }
}

#[test]
fn starts_with_compares_the_first_characters() {
    assert!(starts_with("google/protobuf/any.proto", "google"));
    assert!(starts_with("google", "google"));
    assert!(starts_with("anything", ""));
    assert!(!starts_with("goog", "google"));
    assert!(!starts_with("my/google.proto", "google"));
    assert!(!starts_with("Google/x.proto", "google"));
    assert!(!starts_with("", "google"));
}

#[test]
fn starts_with_handles_characters_of_several_bytes() {
    assert!(starts_with("\u{e9}t\u{e9}", "\u{e9}t"));
    assert!(!starts_with("\u{e9}t\u{e9}", "et"));
}

#[test]
fn same_text_is_equality() {
    assert!(same_text("", ""));
    assert!(same_text("field", "field"));
    assert!(!same_text("field", "fields"));
    assert!(!same_text("field", "fielD"));
    assert!(!same_text("a", ""));
    assert!(same_text("\u{e9}", "\u{e9}"));
}
