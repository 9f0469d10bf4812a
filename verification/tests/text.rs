use ascii_term::text::{
    chars_of, contains, contains_char, matches_at, rfind, starts_with, str_eq, text_of,
    trim_bounds,
};

fn chars(text: &str) -> Vec<char> {
    text.chars().collect()
}

#[test]
fn characters_and_texts() {
    assert_eq!(chars_of("añ█"), vec!['a', 'ñ', '█']);
    assert_eq!(chars_of(""), Vec::<char>::new());
    assert_eq!(text_of(&chars("hello"), 1, 4), "ell");
    assert_eq!(text_of(&chars("hello"), 2, 2), "");
    assert_eq!(text_of(&chars("añ█"), 0, 3), "añ█");
    assert!(str_eq("abc", "abc"));
    assert!(!str_eq("abc", "abd"));
    assert!(!str_eq("abc", "ab"));
    assert!(str_eq("", ""));
}

#[test]
fn prefixes_and_infixes() {
    assert!(starts_with(&chars("https://x"), &chars("https://")));
    assert!(starts_with(&chars("abc"), &chars("")));
    assert!(starts_with(&chars("abc"), &chars("abc")));
    assert!(!starts_with(&chars("ab"), &chars("abc")));
    assert!(!starts_with(&chars("xabc"), &chars("abc")));
    assert!(contains(&chars("www.youtube.com"), &chars("youtube.com")));
    assert!(contains(&chars("abc"), &chars("")));
    assert!(contains(&chars(""), &chars("")));
    assert!(contains(&chars("aab"), &chars("ab")));
    assert!(!contains(&chars("abc"), &chars("abcd")));
    assert!(!contains(&chars("abcabd"), &chars("abe")));
    assert!(matches_at(&chars("abcabd"), &chars("abd"), 3));
    assert!(!matches_at(&chars("abcabd"), &chars("abd"), 0));
    assert!(contains_char(&chars("a.b"), '.'));
    assert!(!contains_char(&chars("ab"), '.'));
}

#[test]
fn last_places_and_trimming() {
    assert_eq!(rfind(&chars("a.b.c"), '.'), Some(3));
    assert_eq!(rfind(&chars(".abc"), '.'), Some(0));
    assert_eq!(rfind(&chars("abc"), '.'), None);
    assert_eq!(rfind(&chars(""), '.'), None);
    assert_eq!(trim_bounds(&chars("  ab c \t\n")), (2, 6));
    assert_eq!(trim_bounds(&chars("abc")), (0, 3));
    assert_eq!(trim_bounds(&chars(" \u{a0}\u{3000} ")), (4, 4));
    assert_eq!(trim_bounds(&chars("")), (0, 0));
    assert_eq!(trim_bounds(&chars("\u{2003}x")), (1, 2));
}
