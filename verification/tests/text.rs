use readwise_autosave::text::{
    chars_eq_ignore_ascii_case, chars_of, contains_chars, contains_string, extend_chars,
    is_whitespace_char, occurs_at_index, remove_all, same_text, slice_of, split_chars,
    starts_with_chars, string_of, to_ascii_lower, trim_chars,
};
use readwise_autosave::time::Timestamp;

fn c(s: &str) -> Vec<char> {
    s.chars().collect()
}

#[test]
fn strings_and_characters_convert_both_ways() {
    for s in ["", "abc", "h\u{00e9}llo \u{1F600}", " \n"] {
        assert_eq!(chars_of(s), c(s));
        assert_eq!(string_of(&c(s)), s);
    }
}

#[test]
fn white_space_is_what_the_standard_library_says() {
    for code in 0..=0x11_0000u32 {
        if let Some(ch) = char::from_u32(code) {
            assert_eq!(is_whitespace_char(ch), ch.is_whitespace(), "U+{:04X}", code);
        }
    }
}

#[test]
fn trimming_agrees_with_the_standard_library() {
    for s in ["", " ", "a", "  a b  ", "\t\n x \r\n", "\u{3000}x\u{00a0}", "x  ", "  x", " \u{200b} "] {
        assert_eq!(string_of(&trim_chars(&c(s))), s.trim(), "{:?}", s);
    }
}

#[test]
fn case_folding_is_ascii_only() {
    assert_eq!(to_ascii_lower('A'), 'a');
    assert_eq!(to_ascii_lower('Z'), 'z');
    assert_eq!(to_ascii_lower('a'), 'a');
    assert_eq!(to_ascii_lower('@'), '@');
    assert_eq!(to_ascii_lower('['), '[');
    assert_eq!(to_ascii_lower('\u{00c9}'), '\u{00c9}');
    for (a, b) in [("help", "HELP"), ("", ""), ("a", "b"), ("ab", "a"), ("\u{00e9}", "\u{00c9}"), ("K", "\u{212a}")] {
        assert_eq!(chars_eq_ignore_ascii_case(&c(a), &c(b)), a.eq_ignore_ascii_case(b), "{} {}", a, b);
    }
}

#[test]
fn searching_agrees_with_the_standard_library() {
    let cases = [
        ("", ""),
        ("abc", ""),
        ("", "a"),
        ("abc", "abc"),
        ("abc", "bc"),
        ("abc", "abcd"),
        ("aab", "ab"),
        ("x +links y", "+links"),
        ("+link", "+links"),
    ];
    for (s, p) in cases {
        assert_eq!(contains_chars(&c(s), &c(p)), s.contains(p), "{:?} {:?}", s, p);
        assert_eq!(starts_with_chars(&c(s), &c(p)), s.starts_with(p), "{:?} {:?}", s, p);
    }
    assert!(occurs_at_index(&c("abcabc"), &c("bc"), 4));
    assert!(!occurs_at_index(&c("abcabc"), &c("bc"), 5));
    assert!(!occurs_at_index(&c("abc"), &c("a"), 99));
    assert!(occurs_at_index(&c("abc"), &c(""), 3));
}

#[test]
fn removal_agrees_with_the_standard_library() {
    let cases = [
        ("", "+links"),
        ("+links", "+links"),
        ("a +links b +links", "+links"),
        ("+lin+linksks", "+links"),
        ("aaa", "aa"),
        ("aaaa", "aa"),
        ("abc", ""),
        ("ababab", "aba"),
    ];
    for (s, p) in cases {
        assert_eq!(string_of(&remove_all(&c(s), &c(p))), s.replace(p, ""), "{:?} {:?}", s, p);
    }
}

#[test]
fn splitting_agrees_with_the_standard_library() {
    for s in ["", "/", "a", "a/b", "/a/", "a//b", "https://bsky.app/profile/h/post/r", "///"] {
        let parts: Vec<String> = split_chars(&c(s), '/').iter().map(|p| string_of(p)).collect();
        let expected: Vec<String> = s.split('/').map(|p| p.to_string()).collect();
        assert_eq!(parts, expected, "{:?}", s);
    }
}

#[test]
fn small_helpers() {
    assert_eq!(slice_of(&c("hello"), 1, 3), c("el"));
    assert_eq!(slice_of(&c("hello"), 2, 2), c(""));
    let mut v = c("ab");
    extend_chars(&mut v, &c("cd"));
    assert_eq!(v, c("abcd"));
    assert!(same_text(&c("abc"), &c("abc")));
    assert!(!same_text(&c("abc"), &c("abd")));
    assert!(!same_text(&c("abc"), &c("ab")));
    let list = vec!["a".to_string(), "b".to_string()];
    assert!(contains_string(&list, &"b".to_string()));
    assert!(!contains_string(&list, &"c".to_string()));
}

#[test]
fn instants_are_ordered_by_seconds_then_nanoseconds() {
    let a = Timestamp::new(10, 5);
    assert!(Timestamp::new(11, 0).after(&a));
    assert!(Timestamp::new(10, 6).after(&a));
    assert!(!Timestamp::new(10, 5).after(&a));
    assert!(!Timestamp::new(9, 999).after(&a));
    assert!(Timestamp::new(9, 999).before(&a));
    assert!(!a.before(&a));
    assert!(a.after_minus(&Timestamp::new(20, 5), 11));
    assert!(!a.after_minus(&Timestamp::new(20, 5), 10));
    assert!(a.after_minus(&Timestamp::new(20, 4), 10));
    assert!(Timestamp::new(i64::MIN, 0).after_minus(&Timestamp::new(i64::MIN, 0), 1));
}
