use jukbx::json::{array_text, strings_text};
use jukbx::text::{
    chars_of, find_first, has_prefix, has_suffix, is_text, join, same_text, split, text_of,
};

fn strings(items: &[&str]) -> Vec<String> {
    items.iter().map(|s| s.to_string()).collect()
}

#[test]
fn text_is_split_at_every_separator() {
    assert_eq!(split("a,b,c", ','), strings(&["a", "b", "c"]));
    assert_eq!(split("abc", ','), strings(&["abc"]));
    assert_eq!(split("", ','), strings(&[""]));
    assert_eq!(split(",", ','), strings(&["", ""]));
    assert_eq!(split(",a,,b,", ','), strings(&["", "a", "", "b", ""]));
    assert_eq!(split("é\u{1f}ü", '\u{1f}'), strings(&["é", "ü"]));
}

#[test]
fn split_agrees_with_the_standard_library() {
    for text in ["", "/", "/data/a.mp3", "a//b", "no separator", "/a/b/c/"] {
        let expected: Vec<String> = text.split('/').map(String::from).collect();
        assert_eq!(split(text, '/'), expected);
    }
}

#[test]
fn items_are_joined_with_the_separator() {
    assert_eq!(join(&strings(&["a", "b", "c"]), '-'), "a-b-c");
    assert_eq!(join(&strings(&["a"]), '-'), "a");
    assert_eq!(join(&strings(&[]), '-'), "");
    assert_eq!(join(&strings(&["", ""]), '-'), "-");
    assert_eq!(join(&strings(&["", "a", ""]), '-'), "-a-");
}

#[test]
fn joined_items_split_back() {
    for items in [strings(&["a"]), strings(&["a", "b"]), strings(&["", "x", ""]), strings(&[""])] {
        assert_eq!(split(&join(&items, '\u{1f}'), '\u{1f}'), items);
    }
}

#[test]
fn characters_and_text_convert_both_ways() {
    assert_eq!(chars_of("aé😀"), vec!['a', 'é', '😀']);
    assert_eq!(chars_of(""), Vec::<char>::new());
    assert_eq!(text_of(&['a', 'é', '😀']), "aé😀");
    assert_eq!(text_of(&[]), "");
}

#[test]
fn first_place_of_a_character_is_found() {
    assert_eq!(find_first(&chars_of("a=b=c"), '='), Some(1));
    assert_eq!(find_first(&chars_of("=b"), '='), Some(0));
    assert_eq!(find_first(&chars_of("abc"), '='), None);
    assert_eq!(find_first(&chars_of(""), '='), None);
    assert_eq!(find_first(&chars_of("éé=x"), '='), Some(2));
}

#[test]
fn prefixes_and_suffixes_are_told() {
    let chars = chars_of("/index.html");
    assert!(has_prefix(&chars, "/index"));
    assert!(has_prefix(&chars, ""));
    assert!(has_prefix(&chars, "/index.html"));
    assert!(!has_prefix(&chars, "/index.html/"));
    assert!(!has_prefix(&chars, "index"));
    assert!(has_suffix(&chars, ".html"));
    assert!(has_suffix(&chars, ""));
    assert!(has_suffix(&chars, "/index.html"));
    assert!(!has_suffix(&chars, "x/index.html"));
    assert!(!has_suffix(&chars, ".htm"));
    assert!(is_text(&chars, "/index.html"));
    assert!(!is_text(&chars, "/index.htm"));
    assert!(!is_text(&chars, "/index.htmlx"));
    assert!(is_text(&[], ""));
}

#[test]
fn texts_are_compared_in_full() {
    assert!(same_text("", ""));
    assert!(same_text("digest", "digest"));
    assert!(!same_text("digest", "digesT"));
    assert!(!same_text("Digest", "digest"));
    assert!(!same_text("digest", "digest "));
    assert!(!same_text("", "x"));
    assert!(same_text("é😀", "é😀"));
    assert!(!same_text("é😀", "é😁"));
}

#[test]
fn json_arrays_are_framed() {
    assert_eq!(array_text(&strings(&[])), "[]");
    assert_eq!(array_text(&strings(&["1"])), "[1]");
    assert_eq!(array_text(&strings(&["1", "{}", "null"])), "[1,{},null]");
}

#[test]
fn json_strings_are_escaped() {
    assert_eq!(strings_text(&strings(&[])), "[]");
    assert_eq!(strings_text(&strings(&["a"])), "[\"a\"]");
    assert_eq!(
        strings_text(&strings(&["a\"b", "c\\d", "e\nf", "é"])),
        "[\"a\\\"b\",\"c\\\\d\",\"e\\nf\",\"é\"]"
    );
}
