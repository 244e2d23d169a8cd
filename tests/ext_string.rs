use ext_string::{join_reversed, ExtString};

#[test]
fn test_reverse() {
    let original = String::from("123456789");
    assert_eq!(original.reverse(), "987654321");
    let chinese = String::from("汉字漢字");
    assert_eq!(chinese.reverse(), "字漢字汉");
    let mangled = String::from("גבאabc1汉字漢字");
    assert_eq!(mangled.reverse(), "字漢字汉1cbaאבג");
    let weird = String::from("नमस्ते्");
    assert_eq!(weird.reverse(), "ते्स्मन");
}

#[test]
fn test_pad_left() {
    let s = "12345";
    let space = ' ';
    assert_eq!("12345", String::from(s).pad_left(3, space));
    assert_eq!("     12345", String::from(s).pad_left(10, space));
}

#[test]
fn test_pad_right() {
    let s = "12345";
    let space = ' ';
    assert_eq!("12345", String::from(s).pad_right(3, space));
    assert_eq!("12345     ", String::from(s).pad_right(10, space));
}

#[test]
fn test_pad_left_str() {
    let s = "12345";
    let padding = "qwerty";
    assert_eq!("qwerty12345", String::from(s).pad_left_str(11, padding));
    assert_eq!("qwertyqwe12345", String::from(s).pad_left_str(14, padding));
}

#[test]
fn test_pad_right_str() {
    let s = "12345";
    let padding = "qwerty";
    assert_eq!("12345qwerty", String::from(s).pad_right_str(11, padding));
    assert_eq!("12345qwertyqwe", String::from(s).pad_right_str(14, padding));
}

#[test]
fn test_is_numeric() {
    assert!(String::from("123456").is_numeric());
    assert!(String::from("000100").is_numeric());
    assert!(!String::from("123v56").is_numeric());
    assert!(!String::from("-123v56").is_numeric());
}

#[test]
fn test_is_alphabetic() {
    assert!(String::from("abcאבג").is_alphabetic());
    assert!(String::from("literal").is_alphabetic());
    assert!(!String::from("v1234").is_alphabetic());
    assert!(!String::from("6v7777").is_alphabetic());
}

#[test]
fn test_is_alphanumeric() {
    assert!(String::from("ab123cאבג").is_alphanumeric());
    assert!(String::from("5yu32bliteral").is_alphanumeric());
    assert!(!String::from("!@567").is_alphanumeric());
    assert!(!String::from("<(*^*)>").is_alphanumeric());
}

#[test]
fn test_is_swap_case() {
    let s1 = String::from("One Two Three");
    assert_eq!("oNE tWO tHREE", s1.swap_case());

    let s2 = String::from("Y SO SERIOUS???");
    assert_eq!("y so serious???", s2.swap_case());

    let s3 = String::from("משהו בעברית");
    assert_eq!("משהו בעברית", s3.swap_case());
}

#[test]
fn reverse_keeps_combining_marks_with_their_base() {
    let s = String::from("ae\u{301}z");
    assert_eq!(s.reverse(), "ze\u{301}a");
}

#[test]
fn reverse_of_empty_is_empty() {
    assert_eq!(String::new().reverse(), "");
}

#[test]
fn reverse_twice_gives_text_back() {
    for t in ["hello", "汉字漢字", "גבאabc1汉字漢字", "नमस्ते्", "e\u{301}x", ""] {
        let s = String::from(t);
        assert_eq!(s.reverse().reverse(), t);
    }
}

#[test]
fn reverse_twice_differs_when_a_mark_leads() {
    let s = String::from("\u{301}a");
    assert_eq!(s.reverse(), "a\u{301}");
    assert_eq!(s.reverse().reverse(), "a\u{301}");
}

#[test]
fn join_reversed_puts_last_part_first() {
    let parts = vec!["ab", "c", "", "de"];
    assert_eq!(join_reversed(&parts), "decab");
    let none: Vec<&str> = Vec::new();
    assert_eq!(join_reversed(&none), "");
}

#[test]
fn padding_within_length_is_unchanged() {
    let s = String::from("héllo");
    assert_eq!(s.pad_left(5, '*'), "héllo");
    assert_eq!(s.pad_right(0, '*'), "héllo");
    assert_eq!(s.pad_left_str(4, "ab"), "héllo");
    assert_eq!(s.pad_right_str(5, "ab"), "héllo");
}

#[test]
fn padding_counts_characters_not_bytes() {
    let s = String::from("漢字");
    assert_eq!(s.pad_left(4, '-'), "--漢字");
    assert_eq!(s.pad_right(3, 'é'), "漢字é");
    assert_eq!(s.pad_left_str(5, "αβ"), "αβα漢字");
}

#[test]
fn padded_length_is_the_larger_length() {
    let s = String::from("abc");
    for n in 0..10usize {
        let want = if n <= 3 { 3 } else { n };
        assert_eq!(s.pad_left(n, 'x').chars().count(), want);
        assert_eq!(s.pad_right(n, 'x').chars().count(), want);
        assert_eq!(s.pad_left_str(n, "xyz").chars().count(), want);
        assert_eq!(s.pad_right_str(n, "xyz").chars().count(), want);
    }
}

#[test]
fn empty_pattern_leaves_text_unchanged() {
    let s = String::from("12345");
    assert_eq!(s.pad_left_str(20, ""), "12345");
    assert_eq!(s.pad_right_str(20, ""), "12345");
    assert_eq!(String::new().pad_left_str(3, ""), "");
}

#[test]
fn padding_an_empty_text() {
    assert_eq!(String::new().pad_left(3, '0'), "000");
    assert_eq!(String::new().pad_right_str(4, "ab"), "abab");
}

#[test]
fn predicates_are_false_on_empty_text() {
    assert!(!String::new().is_numeric());
    assert!(!String::new().is_alphabetic());
    assert!(!String::new().is_alphanumeric());
}

#[test]
fn predicates_are_unicode_aware() {
    assert!(String::from("٣٤٥").is_numeric());
    assert!(String::from("Ⅻ½").is_numeric());
    assert!(String::from("ΩмДж").is_alphabetic());
    assert!(!String::from("a b").is_alphabetic());
    assert!(!String::from("12 3").is_alphanumeric());
}

#[test]
fn swap_case_leaves_caseless_characters() {
    let s = String::from("123 !?-汉字");
    assert_eq!(s.swap_case(), "123 !?-汉字");
}

#[test]
fn swap_case_may_expand_a_character() {
    let s = String::from("ß");
    assert_eq!(s.swap_case(), "SS");
}

#[test]
fn swap_case_twice_with_simple_mappings() {
    for t in ["One Two Three", "ÀéÎõü", "ΑβΓδ", "ПрИвЕт"] {
        let s = String::from(t);
        assert_eq!(s.swap_case().swap_case(), t);
    }
}
