use aipa::text::{
    from_chars, is_blank, is_whitespace, push_decimal, push_range, replace_spaces, same_chars,
    same_text, skip_pattern, starts_at, to_chars, trim, trim_chars, trim_end_index,
    trim_start_index,
};

fn chars(s: &str) -> Vec<char> {
    s.chars().collect()
}

#[test]
fn whitespace_agrees_with_the_standard_library() {
    let mut n: u32 = 0;
    while n <= 0x10FFFF {
        if let Some(c) = char::from_u32(n) {
            assert_eq!(is_whitespace(c), c.is_whitespace(), "code point {:x}", n);
        }
        n += 1;
    }
}

#[test]
fn whitespace_examples() {
    assert!(is_whitespace(' '));
    assert!(is_whitespace('\t'));
    assert!(is_whitespace('\n'));
    assert!(is_whitespace('\r'));
    assert!(is_whitespace('\u{a0}'));
    assert!(is_whitespace('\u{3000}'));
    assert!(!is_whitespace('a'));
    assert!(!is_whitespace('_'));
    assert!(!is_whitespace('\u{200b}'));
    assert!(!is_whitespace('\0'));
}

#[test]
fn to_chars_and_back() {
    assert_eq!(to_chars("héllo"), vec!['h', 'é', 'l', 'l', 'o']);
    assert_eq!(to_chars(""), Vec::<char>::new());
    assert_eq!(from_chars(&chars("a b\n")), "a b\n");
    assert_eq!(from_chars(&to_chars("日本語")), "日本語");
}

#[test]
fn push_range_appends_the_slice() {
    let mut s = "ab".to_string();
    push_range(&mut s, &chars("012345"), 2, 5);
    assert_eq!(s, "ab234");
    push_range(&mut s, &chars("012345"), 3, 3);
    assert_eq!(s, "ab234");
    push_range(&mut s, &chars("xy"), 0, 2);
    assert_eq!(s, "ab234xy");
}

#[test]
fn trim_cuts_both_ends() {
    assert_eq!(trim("  hello  "), "hello");
    assert_eq!(trim("\t\n a b \r\n"), "a b");
    assert_eq!(trim("hello"), "hello");
    assert_eq!(trim(""), "");
    assert_eq!(trim("   "), "");
    assert_eq!(trim("\u{3000}x\u{a0}"), "x");
    assert_eq!(trim(" a"), "a");
    assert_eq!(trim("a "), "a");
}

#[test]
fn trim_agrees_with_the_standard_library() {
    for s in ["", " ", "a", " a", "a ", " a b ", "\n\n", "\u{2003}q\u{2003}", "> x", "  >  "] {
        assert_eq!(trim(s), s.trim());
        assert_eq!(from_chars(&trim_chars(&chars(s))), s.trim());
        assert_eq!(is_blank(&chars(s)), s.trim().is_empty());
    }
}

#[test]
fn trim_indices() {
    assert_eq!(trim_start_index(&chars("  ab ")), 2);
    assert_eq!(trim_end_index(&chars("  ab ")), 4);
    assert_eq!(trim_start_index(&chars("   ")), 3);
    assert_eq!(trim_end_index(&chars("   ")), 0);
    assert_eq!(trim_start_index(&chars("")), 0);
    assert_eq!(trim_end_index(&chars("")), 0);
}

#[test]
fn starts_at_checks_bounds_and_content() {
    let v = chars("hello world");
    assert!(starts_at(&v, 0, &chars("hello")));
    assert!(starts_at(&v, 6, &chars("world")));
    assert!(!starts_at(&v, 7, &chars("world")));
    assert!(!starts_at(&v, 0, &chars("world")));
    assert!(starts_at(&v, 11, &chars("")));
    assert!(!starts_at(&v, 12, &chars("")));
    assert!(starts_at(&v, 3, &chars("")));
    assert!(!starts_at(&chars("ab"), 0, &chars("abc")));
}

#[test]
fn skip_pattern_steps_over_every_copy() {
    assert_eq!(skip_pattern(&chars("> > x"), 0, &chars("> ")), 4);
    assert_eq!(skip_pattern(&chars(">>>x"), 0, &chars(">")), 3);
    assert_eq!(skip_pattern(&chars("x>"), 0, &chars(">")), 0);
    assert_eq!(skip_pattern(&chars(">>"), 0, &chars(">")), 2);
    assert_eq!(skip_pattern(&chars("abc"), 1, &chars("")), 1);
    assert_eq!(skip_pattern(&chars("ababa"), 0, &chars("ab")), 4);
    assert_eq!(skip_pattern(&chars("ab"), 2, &chars("ab")), 2);
}

#[test]
fn same_text_compares_characters() {
    assert!(same_text("", ""));
    assert!(same_text("abc", "abc"));
    assert!(!same_text("abc", "abd"));
    assert!(!same_text("abc", "ab"));
    assert!(!same_text("ab", "abc"));
    assert!(same_chars(&chars("é"), &chars("é")));
    assert!(!same_chars(&chars("a"), &chars("")));
}

#[test]
fn replace_spaces_touches_only_spaces() {
    assert_eq!(replace_spaces("print hello"), "print_hello");
    assert_eq!(replace_spaces(""), "");
    assert_eq!(replace_spaces("   "), "___");
    assert_eq!(replace_spaces("a\tb c_d"), "a\tb_c_d");
    assert_eq!(replace_spaces("a\u{a0}b"), "a\u{a0}b");
    assert_eq!(replace_spaces("no-space"), "no-space");
}

#[test]
fn decimal_digits() {
    for n in [0usize, 1, 3, 9, 10, 11, 99, 100, 101, 12345, 4294967295, usize::MAX] {
        let mut s = "n=".to_string();
        push_decimal(&mut s, n);
        assert_eq!(s, format!("n={}", n));
    }
}
