use webview_bridge::text::{
    chars_end_with, chars_of, contains_parent_segment, matches_at, replace_all, same_chars,
    same_text,
};

#[test]
fn chars_of_keeps_every_character() {
    assert_eq!(chars_of("a/ü"), vec!['a', '/', 'ü']);
    assert_eq!(chars_of(""), Vec::<char>::new());
}

#[test]
fn same_text_compares_character_by_character() {
    assert!(same_text("/", "/"));
    assert!(same_text("", ""));
    assert!(!same_text("/", "//"));
    assert!(!same_text("abc", "abd"));
}

#[test]
fn matches_at_finds_a_pattern_at_an_offset() {
    let text = chars_of("index.html");
    assert!(matches_at(&text, &chars_of(".html"), 5));
    assert!(!matches_at(&text, &chars_of(".html"), 4));
    assert!(!matches_at(&text, &chars_of(".html"), 6));
    assert!(matches_at(&text, &chars_of(""), 10));
    assert!(!matches_at(&text, &chars_of(""), 11));
}

#[test]
fn chars_end_with_tells_the_suffix() {
    assert!(chars_end_with(&chars_of("app.js"), ".js"));
    assert!(!chars_end_with(&chars_of("app.json"), ".js"));
    assert!(!chars_end_with(&chars_of("js"), ".js"));
    assert!(chars_end_with(&chars_of("anything"), ""));
    assert!(chars_end_with(&chars_of(""), ""));
}

#[test]
fn same_chars_compares_element_by_element() {
    assert!(same_chars(&chars_of("abc"), &chars_of("abc")));
    assert!(!same_chars(&chars_of("abc"), &chars_of("ab")));
    assert!(!same_chars(&chars_of("abc"), &chars_of("abd")));
    assert!(same_chars(&Vec::new(), &Vec::new()));
}

#[test]
fn replace_all_replaces_every_occurrence() {
    assert_eq!(replace_all("a-b-c", "-", "+"), "a+b+c");
    assert_eq!(replace_all("__X__ and __X__", "__X__", "1"), "1 and 1");
    assert_eq!(replace_all("nothing here", "__X__", "1"), "nothing here");
    assert_eq!(replace_all("", "x", "y"), "");
}

#[test]
fn replace_all_takes_occurrences_from_the_left_without_overlap() {
    assert_eq!(replace_all("aaa", "aa", "b"), "ba");
    assert_eq!(replace_all("aaaa", "aa", "b"), "bb");
    assert_eq!(replace_all("abab", "aba", "x"), "xb");
}

#[test]
fn replace_all_does_not_rescan_what_it_put_in() {
    assert_eq!(replace_all("ab", "a", "aa"), "aab");
    assert_eq!(replace_all("xx", "x", "xx"), "xxxx");
}

#[test]
fn replace_all_with_an_empty_pattern_puts_the_text_around_every_character() {
    assert_eq!(replace_all("ab", "", "-"), "-a-b-");
    assert_eq!(replace_all("", "", "-"), "-");
    assert_eq!(replace_all("ü", "", "."), ".ü.");
}

#[test]
fn replace_all_agrees_with_the_standard_library() {
    let texts = ["", "a", "aaa", "abcabc", "__TEMPLATE_x__ + __TEMPLATE_x__", "üxü", "a\nb\n"];
    let patterns = ["", "a", "aa", "abc", "__TEMPLATE_x__", "ü", "\n", "zz"];
    let replacements = ["", "a", "JSON.parse('\"1\"')", "üü"];
    for text in texts {
        for pattern in patterns {
            for replacement in replacements {
                assert_eq!(
                    replace_all(text, pattern, replacement),
                    text.replace(pattern, replacement),
                    "text {:?}, pattern {:?}, replacement {:?}",
                    text,
                    pattern,
                    replacement
                );
            }
        }
    }
}

#[test]
fn contains_parent_segment_finds_whole_segments_only() {
    assert!(contains_parent_segment(".."));
    assert!(contains_parent_segment("../secret"));
    assert!(contains_parent_segment("a/../b"));
    assert!(contains_parent_segment("a/.."));
    assert!(contains_parent_segment("a\\..\\b"));
    assert!(!contains_parent_segment("a..b"));
    assert!(!contains_parent_segment("..."));
    assert!(!contains_parent_segment("a/..b"));
    assert!(!contains_parent_segment("a../b"));
    assert!(!contains_parent_segment(""));
    assert!(!contains_parent_segment("."));
    assert!(!contains_parent_segment("index.html"));
}
