use persian_content::matcher::percentage_of;
use persian_content::script::keep_alphabetic;
use persian_content::{PersianCharMatcher, PersianStrMatcher};

#[test]
fn percentage_of_exact_values() {
    assert_eq!(percentage_of(0, 0), 100);
    assert_eq!(percentage_of(0, 1), 0);
    assert_eq!(percentage_of(1, 1), 100);
    assert_eq!(percentage_of(1, 21), 4);
    assert_eq!(percentage_of(1, 18), 5);
    assert_eq!(percentage_of(1, 3), 33);
    assert_eq!(percentage_of(2, 3), 66);
    assert_eq!(percentage_of(199, 200), 99);
    assert_eq!(percentage_of(1, 101), 0);
}

#[test]
fn percentage_of_does_not_overflow() {
    assert_eq!(percentage_of(usize::MAX, usize::MAX), 100);
    assert_eq!(percentage_of(usize::MAX - 1, usize::MAX), 99);
    assert_eq!(percentage_of(usize::MAX / 2, usize::MAX), 49);
}

#[test]
fn keep_alphabetic_drops_everything_but_letters() {
    assert_eq!(keep_alphabetic("گفت: «سلام»"), "گفتسلام");
    assert_eq!(keep_alphabetic("ok this is text with"), "okthisistextwith");
    assert_eq!(keep_alphabetic("سلام 😛"), "سلام");
    assert_eq!(keep_alphabetic("1, 2; 3! 😛"), "");
    assert_eq!(keep_alphabetic(""), "");
    assert_eq!(keep_alphabetic("阴阳 «من»"), "阴阳من");
}

#[test]
fn keep_alphabetic_preserves_order() {
    assert_eq!(keep_alphabetic("c1b2a3"), "cba");
    assert_eq!(keep_alphabetic("ن-م a_b"), "نمab");
}

#[test]
fn one_char_matcher_serves_many_calls() {
    let matcher = PersianCharMatcher::new();
    assert!(matcher.has_persian_char("ok this is text with ص"));
    assert!(!matcher.has_persian_char("ok this is text with"));
    assert!(!matcher.has_persian_char(""));
    assert_eq!(matcher.persian_percentage("me من"), 50);
    assert_eq!(matcher.persian_percentage("ok this is text with ص"), 5);
    assert_eq!(matcher.persian_percentage(""), 100);
    assert_eq!(matcher.persian_percentage("me من"), 50);
}

#[test]
fn one_str_matcher_serves_many_calls() {
    let matcher = PersianStrMatcher::new();
    assert!(matcher.is_persian_str("سلام"));
    assert!(!matcher.is_persian_str("Hello"));
    assert!(!matcher.is_persian_str(""));
    assert!(matcher.is_persian_str("گفت: «سلام»"));
    assert!(matcher.is_persian_str("سلام"));
}

#[test]
fn has_persian_char_looks_at_every_position() {
    let matcher = PersianCharMatcher::new();
    assert!(matcher.has_persian_char("صabc"));
    assert!(matcher.has_persian_char("abصc"));
    assert!(matcher.has_persian_char("abcص"));
    assert!(!matcher.has_persian_char("abc"));
}

#[test]
fn every_persian_letter_is_counted_once() {
    let matcher = PersianCharMatcher::new();
    assert_eq!(matcher.persian_percentage("صصصص abcd"), 50);
    assert_eq!(matcher.persian_percentage("صaصbصcصd"), 50);
    assert_eq!(matcher.persian_percentage("صصص a"), 75);
    assert_eq!(matcher.persian_percentage("ص abc"), 25);
}

#[test]
fn count_persian_counts_characters_of_the_block() {
    let matcher = PersianCharMatcher::new();
    assert_eq!(matcher.count_persian(""), 0);
    assert_eq!(matcher.count_persian("abc"), 0);
    assert_eq!(matcher.count_persian("سلام"), 4);
    assert_eq!(matcher.count_persian("me من"), 2);
    assert_eq!(matcher.count_persian("۱۲۳، ص"), 5);
    assert_eq!(matcher.count_persian("\u{05FF}\u{0600}\u{06FF}\u{0700}"), 2);
}

#[test]
fn is_match_takes_the_text_as_it_is() {
    let matcher = PersianStrMatcher::new();
    assert!(matcher.is_match("سلام"));
    assert!(matcher.is_match("س"));
    assert!(matcher.is_match("سلام hello"));
    assert!(!matcher.is_match("hello سلام"));
    assert!(!matcher.is_match(" سلام"));
    assert!(!matcher.is_match("Hello"));
    assert!(!matcher.is_match(""));
    assert!(matcher.is_match("Hello."));
    assert!(matcher.is_match("Hello?!"));
    assert!(matcher.is_match("!"));
    assert!(!matcher.is_match("Hello. "));
    assert!(!matcher.is_match("Hello.\n"));
    assert!(!matcher.is_match(".Hello"));
}

#[test]
fn punctuation_is_the_ascii_kind() {
    let matcher = PersianStrMatcher::new();
    for mark in ['!', '/', ':', '@', '[', '`', '{', '~', '"', '#', '$', '+', '_'] {
        let text = format!("a{}", mark);
        assert!(matcher.is_match(&text));
    }
    for other in [' ', '0', '9', 'A', 'Z', 'a', 'z', '\u{7F}', '»', '،', '。'] {
        let text = format!("a{}", other);
        assert!(!matcher.is_match(&text));
    }
}
