use zeroclaw::multimodal::parse_image_markers;
use zeroclaw::providers::openrouter::OpenRouterProvider;
use zeroclaw::providers::redact::sanitize_api_error;
use zeroclaw::text::{
    compact, is_white_space, join, same_text, split_words, trim, trim_end_matches,
};

#[test]
fn keys_are_replaced_and_the_rest_is_kept() {
    assert_eq!(sanitize_api_error("key sk-abc_1.2:3-x, bye"), "key [REDACTED], bye");
    assert_eq!(sanitize_api_error("sk-a sk-b"), "[REDACTED] [REDACTED]");
    assert_eq!(sanitize_api_error("nothing here"), "nothing here");
    assert_eq!(sanitize_api_error(""), "");
}

#[test]
fn start_of_a_key_alone_is_no_key() {
    assert_eq!(sanitize_api_error("sk- sk-"), "sk- sk-");
    assert_eq!(sanitize_api_error("ask-me"), "a[REDACTED]");
    assert_eq!(sanitize_api_error("SK-abc"), "SK-abc");
}

#[test]
fn no_key_is_left() {
    for text in ["ssk-k-a", "sk-sk-sk-a", "s\u{e9}sk-\u{e9}sk-1", "sk--", "\"sk-x\":\"sk-y\""] {
        let clean = sanitize_api_error(text);
        let chars: Vec<char> = clean.chars().collect();
        for at in 0..chars.len().saturating_sub(3) {
            let key = chars[at] == 's' && chars[at + 1] == 'k' && chars[at + 2] == '-';
            let goes_on = chars[at + 3].is_ascii_alphanumeric() || "-_.:".contains(chars[at + 3]);
            assert!(!(key && goes_on), "{clean}");
        }
    }
}

#[test]
fn snippets_are_on_one_line() {
    let quoted =
        OpenRouterProvider::compact_sanitized_body_snippet("  {\n\t\"k\":\r\n \"sk-1\" }\u{a0}");
    assert_eq!(quoted, "{ \"k\": \"[REDACTED]\" }");
    assert_eq!(OpenRouterProvider::compact_sanitized_body_snippet(" \n "), "");
}

#[test]
fn white_space_is_that_of_unicode() {
    for c in '\0'..=char::MAX {
        assert_eq!(is_white_space(c), c.is_whitespace(), "{c:?}");
    }
}

#[test]
fn trimming_splitting_and_compacting_agree_with_std() {
    for text in ["", " ", "a", " a b ", "\n\ta\u{2003}b  c\u{85}", "\u{e9} \u{1f600}x ", "/a//"] {
        assert_eq!(trim(text), text.trim());
        assert_eq!(trim_end_matches(text, '/'), text.trim_end_matches('/'));
        let words: Vec<String> = text.split_whitespace().map(String::from).collect();
        assert_eq!(split_words(text), words);
        assert_eq!(compact(text), words.join(" "));
        assert_eq!(join(&words, ", "), words.join(", "));
    }
}

#[test]
fn texts_are_the_same_by_their_characters() {
    assert!(same_text("", ""));
    assert!(same_text("\u{e9}", "\u{e9}"));
    assert!(!same_text("\u{e9}", "e\u{301}"));
    assert!(!same_text("a", "ab"));
}

#[test]
fn markers_are_taken_out_in_order() {
    let (text, references) = parse_image_markers("a[IMAGE:1]b[IMAGE:]c[IMAGE: 2 ]d[IMAGE:3");
    assert_eq!(text, "ab[IMAGE:]cd[IMAGE:3");
    assert_eq!(references, vec!["1".to_string(), "2".to_string()]);
}

#[test]
fn text_without_markers_is_left_alone() {
    let (text, references) = parse_image_markers("IMAGE:1] [IMAG");
    assert_eq!(text, "IMAGE:1] [IMAG");
    assert!(references.is_empty());
}

#[test]
fn compacting_keeps_the_words() {
    for text in ["", "  a\n b\t\tc ", "one", "\u{2003}x\u{a0}y"] {
        let once = compact(text);
        assert_eq!(split_words(&once), split_words(text));
        assert_eq!(compact(&once), once);
    }
}
