use streamdeck_equibop::sorting::stable_sort_by_key;
use streamdeck_equibop::text::{chars_of, lex_less, lowercase_key, str_eq};

#[test]
fn lowercase_key_lowers_every_letter() {
    assert_eq!(lowercase_key(&"HeLLo Ä".to_string()), vec!['h', 'e', 'l', 'l', 'o', ' ', 'ä']);
}

#[test]
fn chars_of_keeps_every_character() {
    assert_eq!(chars_of("añb"), vec!['a', 'ñ', 'b']);
    assert_eq!(chars_of(""), Vec::<char>::new());
}

#[test]
fn lex_less_compares_by_code_point_with_prefix_first() {
    let v = |s: &str| s.chars().collect::<Vec<char>>();
    assert!(lex_less(&v("ab"), &v("abc")));
    assert!(!lex_less(&v("abc"), &v("ab")));
    assert!(lex_less(&v("abc"), &v("abd")));
    assert!(!lex_less(&v("abc"), &v("abc")));
    assert!(lex_less(&v(""), &v("a")));
    assert!(!lex_less(&v(""), &v("")));
    assert!(lex_less(&v("Z"), &v("a")));
}

#[test]
fn str_eq_compares_text() {
    assert!(str_eq("PUSH_TO_TALK", "PUSH_TO_TALK"));
    assert!(!str_eq("PUSH_TO_TALK", "PUSH_TO_TALk"));
    assert!(!str_eq("a", "ab"));
    assert!(str_eq("", ""));
}

#[test]
fn stable_sort_by_key_orders_by_given_keys_and_keeps_ties() {
    let keys = vec![vec!['b'], vec!['a'], vec!['b'], vec![], vec!['a', 'a']];
    let sorted = stable_sort_by_key(vec!["x", "y", "z", "w", "v"], keys);
    assert_eq!(sorted, vec!["w", "y", "v", "x", "z"]);
    let empty: Vec<u8> = stable_sort_by_key(vec![], vec![]);
    assert!(empty.is_empty());
}
