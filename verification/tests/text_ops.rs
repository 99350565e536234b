use bluescan::names::{clean_lowered, insert_text, sort_distinct, stem_of};
use bluescan::text::{
    append_chars, chars_of, contains, matches_at, replace_all, string_of, sub_text, text_eq,
    text_less, trim,
};

fn cs(s: &str) -> Vec<char> {
    s.chars().collect()
}

#[test]
fn chars_and_strings_round_trip() {
    assert_eq!(chars_of("héllo wörld"), cs("héllo wörld"));
    assert_eq!(string_of(&cs("héllo wörld")), "héllo wörld");
    assert_eq!(chars_of(""), Vec::<char>::new());
    assert_eq!(string_of(&Vec::new()), "");
}

#[test]
fn matches_at_tests_one_position() {
    let s = cs("node.js");
    assert!(matches_at(&s, &cs("node"), 0));
    assert!(matches_at(&s, &cs(".js"), 4));
    assert!(!matches_at(&s, &cs("node"), 1));
    assert!(!matches_at(&s, &cs(".js"), 5));
    assert!(!matches_at(&s, &cs("x"), 99));
    assert!(matches_at(&s, &cs(""), 7));
}

#[test]
fn contains_finds_a_pattern_anywhere() {
    assert!(contains(&cs("my python app"), &cs("python")));
    assert!(contains(&cs("python"), &cs("python")));
    assert!(contains(&cs("xpython"), &cs("python")));
    assert!(!contains(&cs("pytho"), &cs("python")));
    assert!(!contains(&cs(""), &cs("a")));
    assert!(contains(&cs("abc"), &cs("")));
    assert!(contains(&cs(""), &cs("")));
}

#[test]
fn replace_all_resumes_after_each_occurrence() {
    assert_eq!(replace_all(&cs("a b c"), &cs(" "), &cs("-")), cs("a-b-c"));
    assert_eq!(replace_all(&cs("a b c"), &cs(" "), &cs("")), cs("abc"));
    assert_eq!(replace_all(&cs("aaa"), &cs("aa"), &cs("b")), cs("ba"));
    assert_eq!(replace_all(&cs("abc"), &cs("x"), &cs("y")), cs("abc"));
    assert_eq!(replace_all(&cs("abc"), &cs(""), &cs("y")), cs("abc"));
    assert_eq!(replace_all(&cs(""), &cs("a"), &cs("y")), cs(""));
    assert_eq!(
        replace_all(&cs("the sdk and the sdk"), &cs(" sdk"), &cs("")),
        cs("the and the")
    );
}

#[test]
fn replace_all_agrees_with_std_on_samples() {
    for (s, pat, with) in [
        ("microsoft visual studio", "microsoft ", ""),
        ("ababab", "aba", "x"),
        ("  spaced  out  ", " ", ""),
        ("...", ".", ".."),
    ] {
        assert_eq!(string_of(&replace_all(&cs(s), &cs(pat), &cs(with))), s.replace(pat, with));
    }
}

#[test]
fn trim_drops_whitespace_at_both_ends() {
    assert_eq!(trim(&cs("  a b \t\n")), cs("a b"));
    assert_eq!(trim(&cs("a")), cs("a"));
    assert_eq!(trim(&cs("   ")), cs(""));
    assert_eq!(trim(&cs("")), cs(""));
    assert_eq!(trim(&cs("\u{a0}x\u{3000}")), cs("x"));
}

#[test]
fn sub_text_copies_a_range() {
    assert_eq!(sub_text(&cs("abcdef"), 2, 4), cs("cd"));
    assert_eq!(sub_text(&cs("abcdef"), 3, 3), cs(""));
    assert_eq!(sub_text(&cs("abcdef"), 0, 6), cs("abcdef"));
}

#[test]
fn append_chars_extends_in_place() {
    let mut v = cs("ab");
    append_chars(&mut v, &cs("cd"));
    assert_eq!(v, cs("abcd"));
    append_chars(&mut v, &cs(""));
    assert_eq!(v, cs("abcd"));
}

#[test]
fn text_order_is_the_order_of_str() {
    let samples = ["", "a", "A", "ab", "b", "B", "a b", "a-b", "é", "z", "7-zip", "7-Zip"];
    for a in samples {
        for b in samples {
            assert_eq!(text_less(&cs(a), &cs(b)), a < b, "{:?} < {:?}", a, b);
            assert_eq!(text_eq(&cs(a), &cs(b)), a == b);
        }
    }
}

#[test]
fn insert_text_keeps_order_and_skips_repeats() {
    let mut v: Vec<Vec<char>> = Vec::new();
    insert_text(&mut v, cs("m"));
    insert_text(&mut v, cs("a"));
    insert_text(&mut v, cs("z"));
    insert_text(&mut v, cs("m"));
    insert_text(&mut v, cs("b"));
    assert_eq!(v, vec![cs("a"), cs("b"), cs("m"), cs("z")]);
}

#[test]
fn sort_distinct_agrees_with_sort_and_dedup() {
    let input = ["pear", "Apple", "apple", "pear", "", "fig", "Apple"];
    let mut expected: Vec<String> = input.iter().map(|s| s.to_string()).collect();
    expected.sort();
    expected.dedup();
    let got: Vec<String> = sort_distinct(&input.iter().map(|s| cs(s)).collect())
        .iter()
        .map(|v| string_of(v))
        .collect();
    assert_eq!(got, expected);
    assert_eq!(sort_distinct(&Vec::new()), Vec::<Vec<char>>::new());
}

#[test]
fn clean_lowered_strips_vendor_words() {
    assert_eq!(clean_lowered(&cs("microsoft .net runtime")), cs(".net"));
    assert_eq!(clean_lowered(&cs("python sdk for windows")), cs("python"));
    assert_eq!(clean_lowered(&cs("some framework tools")), cs("some tools"));
    assert_eq!(clean_lowered(&cs("plain")), cs("plain"));
    assert_eq!(clean_lowered(&cs(" runtime")), cs(""));
}

#[test]
fn stem_of_stops_at_the_first_digit_or_period() {
    assert_eq!(stem_of(&cs("Python 3.11")), cs("Python"));
    assert_eq!(stem_of(&cs("Node.js")), cs("Node"));
    assert_eq!(stem_of(&cs("7-Zip")), cs(""));
    assert_eq!(stem_of(&cs("Git")), cs("Git"));
    assert_eq!(stem_of(&cs("App ٣")), cs("App"));
}
