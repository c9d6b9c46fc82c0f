use jetporch::util::text::{
    chars_of, contains_char, contains_text, ends_with, is_whitespace, join, nth_word, parse_bool,
    parse_u64, remove_char, starts_with, str_eq, trim,
};

#[test]
fn trim_agrees_with_the_standard_library() {
    let samples = [
        "",
        " ",
        "a",
        " a ",
        "\t\n a b \r\n",
        "\u{a0}x\u{3000}",
        "\u{85}\u{1680}\u{2000}\u{200a}\u{2028}\u{2029}\u{202f}\u{205f}y z\u{b}\u{c}",
        "\u{200b}zero width space is no white space\u{200b}",
        "  é ü  ",
    ];
    for s in samples {
        assert_eq!(trim(s), s.trim(), "on {:?}", s);
    }
}

#[test]
fn whitespace_agrees_with_the_standard_library() {
    for n in 0u32..0x3100 {
        if let Some(c) = char::from_u32(n) {
            assert_eq!(is_whitespace(c), c.is_whitespace(), "on U+{:04X}", n);
        }
    }
}

#[test]
fn characters_come_in_order() {
    assert_eq!(chars_of("aé€"), vec!['a', 'é', '€']);
    assert_eq!(chars_of(""), Vec::<char>::new());
}

#[test]
fn searching() {
    assert!(str_eq("abc", "abc"));
    assert!(!str_eq("abc", "abd"));
    assert!(!str_eq("abc", "ab"));
    assert!(str_eq("", ""));
    assert!(contains_char("a;b", ';'));
    assert!(!contains_char("ab", ';'));
    assert!(contains_text("say {{ x }}", "{{"));
    assert!(contains_text("abc", ""));
    assert!(contains_text("abc", "abc"));
    assert!(contains_text("abc", "bc"));
    assert!(!contains_text("abc", "abcd"));
    assert!(!contains_text("abc", "ca"));
    assert!(starts_with("Linux box", "Linux"));
    assert!(!starts_with("Lin", "Linux"));
    assert!(starts_with("x", ""));
    assert!(ends_with("/srv/app/", "/"));
    assert!(!ends_with("/srv/app", "/"));
}

#[test]
fn words_are_split_at_white_space() {
    let line = "drwxr-xr-x  2 root   wheel 4096 Jan  1 00:00 /tmp";
    let words: Vec<&str> = line.split_whitespace().collect();
    for n in 0..words.len() {
        assert_eq!(nth_word(line, n), Some(words[n].to_string()));
    }
    assert_eq!(nth_word(line, words.len()), None);
    assert_eq!(nth_word("", 0), None);
    assert_eq!(nth_word("   ", 0), None);
    assert_eq!(nth_word(" a ", 0), Some(String::from("a")));
    assert_eq!(nth_word(" a ", 1), None);
}

#[test]
fn numbers_and_truth_values() {
    assert_eq!(parse_u64("0"), Some(0));
    assert_eq!(parse_u64("007"), Some(7));
    assert_eq!(parse_u64("18446744073709551615"), Some(u64::MAX));
    assert_eq!(parse_u64("18446744073709551616"), None);
    assert_eq!(parse_u64("99999999999999999999999"), None);
    assert_eq!(parse_u64(""), None);
    assert_eq!(parse_u64("-1"), None);
    assert_eq!(parse_u64("1 "), None);
    assert_eq!(parse_u64("12a"), None);
    assert_eq!(parse_bool("true"), Some(true));
    assert_eq!(parse_bool("false"), Some(false));
    assert_eq!(parse_bool("True"), None);
    assert_eq!(parse_bool(""), None);
}

#[test]
fn removing_and_joining() {
    assert_eq!(remove_char("ab\ncd\n", '\n'), "abcd");
    assert_eq!(remove_char("", '\n'), "");
    assert_eq!(remove_char("\n\n", '\n'), "");
    let parts = vec![String::from("-o A=1"), String::from("-o B=2"), String::from("-o C=3")];
    assert_eq!(join(&parts, " "), "-o A=1 -o B=2 -o C=3");
    assert_eq!(join(&vec![String::from("x")], ", "), "x");
    assert_eq!(join(&Vec::new(), ", "), "");
}
