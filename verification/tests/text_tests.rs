use alakit::text::{
    chars_of, remove_all, replace_char, find_str, skip_chars, split_once_char, str_equal,
    trim, trim_start_char,
};

#[test]
fn text_helpers_match_std() {
    assert_eq!(chars_of("aé⭐"), vec!['a', 'é', '⭐']);
    assert!(str_equal("abc", "abc"));
    assert!(!str_equal("abc", "abd"));
    assert_eq!(replace_char("a\\b\\c", '\\', "/"), "a/b/c");
    assert_eq!(trim_start_char("///x/y", '/'), "x/y");
    assert_eq!(split_once_char("a:b:c", ':'), Some(("a".to_string(), "b:c".to_string())));
    assert_eq!(split_once_char("abc", ':'), None);
    assert_eq!(trim("  \t x y \n"), "x y");
    assert_eq!(trim("\u{3000}z\u{A0}"), "z");
    assert_eq!(find_str("alakit://localhost/localhost", "localhost"), Some(9));
    assert_eq!(find_str("héllo wörld", "wö"), Some(6));
    assert_eq!(find_str("alakit://x", "localhost"), None);
    assert_eq!(find_str("ab", ""), Some(0));
    assert_eq!(remove_all("alakit://a/alakit://b", "alakit://"), "a/b");
    assert_eq!(skip_chars("héllo", 2), "llo");
    assert_eq!(skip_chars("abc", 3), "");
    for s in ["  a b  ", "", "   ", "x"] {
        assert_eq!(trim(s), s.trim());
    }
}
