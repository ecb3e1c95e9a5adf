use rustible::text::{chars_of, contains_word, holds_at};

#[test]
fn chars_of_gives_the_characters_in_order() {
    assert_eq!(chars_of(""), Vec::<char>::new());
    assert_eq!(chars_of("a.b"), vec!['a', '.', 'b']);
    assert_eq!(chars_of("größe/ß"), vec!['g', 'r', 'ö', 'ß', 'e', '/', 'ß']);
}

#[test]
fn holds_at_compares_at_one_position() {
    let text = chars_of("tar.gz");
    assert!(holds_at(&text, 0, &chars_of("tar")));
    assert!(holds_at(&text, 4, &chars_of("gz")));
    assert!(holds_at(&text, 6, &chars_of("")));
    assert!(!holds_at(&text, 7, &chars_of("")));
    assert!(!holds_at(&text, 5, &chars_of("gz")));
    assert!(!holds_at(&text, 1, &chars_of("tar")));
    assert!(!holds_at(&text, usize::MAX, &chars_of("t")));
}

#[test]
fn contains_word_finds_a_word_anywhere() {
    let text = chars_of("E: lock held, are you root?");
    assert!(contains_word(&text, &chars_of("are you root?")));
    assert!(contains_word(&text, &chars_of("E:")));
    assert!(contains_word(&text, &chars_of("?")));
    assert!(contains_word(&text, &chars_of("")));
    assert!(contains_word(&chars_of(""), &chars_of("")));
    assert!(!contains_word(&text, &chars_of("are you root??")));
    assert!(!contains_word(&text, &chars_of("Are you")));
    assert!(!contains_word(&chars_of("ab"), &chars_of("abc")));
    assert!(contains_word(&chars_of("aab"), &chars_of("ab")));
}
