use mathimage::text::{
    chars_of, join_texts, contains_chars, copy_range, find_char, is_whitespace_char, matches_at,
    replace_chars, same_text, trim_bounds, trim_chars,
};

fn text(chars: Vec<char>) -> String {
    chars.into_iter().collect()
}

#[test]
fn patterns_are_found_where_they_stand() {
    let hay = chars_of("status 404 here");
    assert!(contains_chars(&hay, &chars_of("404")));
    assert!(contains_chars(&hay, &chars_of("")));
    assert!(contains_chars(&hay, &chars_of("here")));
    assert!(!contains_chars(&hay, &chars_of("405")));
    assert!(!contains_chars(&chars_of("40"), &chars_of("404")));
    assert!(matches_at(&hay, &chars_of("404"), 7));
    assert!(!matches_at(&hay, &chars_of("404"), 8));
    assert!(!matches_at(&hay, &chars_of("here"), 12));
    assert!(matches_at(&hay, &chars_of(""), 15));
    assert!(!matches_at(&hay, &chars_of(""), 16));
    assert_eq!(find_char(&hay, 0, '4'), 7);
    assert_eq!(find_char(&hay, 8, '4'), 9);
    assert_eq!(find_char(&hay, 10, '4'), 15);
}

#[test]
fn replacing_goes_from_left_to_right() {
    assert_eq!(text(replace_chars(&chars_of("aaa"), &chars_of("aa"), &chars_of("b"))), "ba");
    assert_eq!(text(replace_chars(&chars_of("a\"b\""), &chars_of("\""), &chars_of("\\\""))), "a\\\"b\\\"");
    assert_eq!(text(replace_chars(&chars_of("abc"), &chars_of(""), &chars_of("x"))), "abc");
    assert_eq!(text(replace_chars(&chars_of("abc"), &chars_of("abcd"), &chars_of("x"))), "abc");
    assert_eq!(text(replace_chars(&chars_of("xyxy"), &chars_of("xy"), &chars_of(""))), "");
}

#[test]
fn white_space_is_trimmed_at_both_ends() {
    assert_eq!(text(trim_chars(&chars_of(" \t a b \r\n"))), "a b");
    assert_eq!(text(trim_chars(&chars_of("\u{3000}x\u{a0}"))), "x");
    assert_eq!(text(trim_chars(&chars_of(" \n "))), "");
    assert_eq!(text(trim_chars(&chars_of(""))), "");
    assert_eq!(trim_bounds(&chars_of("  ab ")), (2, 4));
    for (i, c) in (0u32..0x3100).filter_map(char::from_u32).enumerate() {
        assert_eq!(is_whitespace_char(c), c.is_whitespace(), "{}", i);
    }
}

#[test]
fn texts_are_joined_copied_and_compared() {
    assert_eq!(join_texts("Bearer ", "k"), "Bearer k");
    assert_eq!(text(copy_range(&chars_of("公式abc"), 1, 3)), "式a");
    assert!(same_text("公式", "公式"));
    assert!(!same_text("公式", "公"));
    assert!(!same_text("a", "b"));
}
