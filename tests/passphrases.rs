use cli_common::passphrase::{
    generate_passphrase, passphrase_from_indices, passphrase_from_input, Passphrase, Secret,
};
use cli_common::words::WordList;
use std::collections::HashSet;

fn english() -> WordList {
    WordList::english().unwrap()
}

fn all_words(l: &WordList) -> HashSet<String> {
    (0..l.len()).map(|i| l.word(i).clone()).collect()
}

#[test]
fn english_list_is_valid() {
    let l = english();
    assert_eq!(l.len(), 2048);
    assert_eq!(all_words(&l).len(), 2048);
    assert_eq!(l.word(0), "abandon");
    assert_eq!(l.word(1), "ability");
    assert_eq!(l.word(2047), "zoo");
    for i in 0..l.len() {
        assert!(!l.word(i).is_empty());
    }
}

#[test]
fn word_list_rejects_wrong_count() {
    assert!(WordList::from_words(vec!["one", "two"]).is_none());
    assert!(WordList::from_words(vec![]).is_none());
}

fn english_strs() -> Vec<String> {
    let l = english();
    (0..l.len()).map(|i| l.word(i).clone()).collect()
}

#[test]
fn word_list_rejects_duplicate() {
    let owned = english_strs();
    let mut v: Vec<&str> = owned.iter().map(|s| s.as_str()).collect();
    v[2047] = "abandon";
    assert!(WordList::from_words(v).is_none());
}

#[test]
fn word_list_rejects_empty_word() {
    let owned = english_strs();
    let mut v: Vec<&str> = owned.iter().map(|s| s.as_str()).collect();
    v[5] = "";
    assert!(WordList::from_words(v).is_none());
}

#[test]
fn word_list_rejects_non_lowercase_word() {
    let owned = english_strs();
    let mut v: Vec<&str> = owned.iter().map(|s| s.as_str()).collect();
    v[7] = "Abc";
    assert!(WordList::from_words(v.clone()).is_none());
    v[7] = "ab-c";
    assert!(WordList::from_words(v).is_none());
}

#[test]
fn word_list_accepts_valid_list() {
    let owned = english_strs();
    let v: Vec<&str> = owned.iter().map(|s| s.as_str()).collect();
    let l = WordList::from_words(v).unwrap();
    assert_eq!(l.len(), 2048);
    assert_eq!(l.word(100), owned[100].as_str());
}

#[test]
fn indices_spell_hyphenated_words() {
    let l = english();
    assert_eq!(passphrase_from_indices(&l, &vec![0, 1, 2047]), "abandon-ability-zoo");
    assert_eq!(passphrase_from_indices(&l, &vec![2047]), "zoo");
    assert_eq!(passphrase_from_indices(&l, &vec![]), "");
    assert_eq!(passphrase_from_indices(&l, &vec![3, 3]), "about-about");
}

fn check_generated(l: &WordList, text: &str) {
    let known = all_words(l);
    let parts: Vec<&str> = text.split('-').collect();
    assert_eq!(parts.len(), 10);
    for p in parts {
        assert!(known.contains(p), "{} is not in the list", p);
    }
}

#[test]
fn generated_passphrase_has_ten_listed_words() {
    let l = english();
    let a = generate_passphrase(&l);
    check_generated(&l, &a);
}

#[test]
fn generated_passphrases_differ() {
    let l = english();
    let a = generate_passphrase(&l);
    let b = generate_passphrase(&l);
    assert_ne!(a, b);
}

#[test]
fn typed_passphrase_is_kept() {
    let l = english();
    match passphrase_from_input(Secret::new("hunter2".to_string()), Some(&l)) {
        Some(Passphrase::Typed(s)) => assert_eq!(s.expose_secret(), "hunter2"),
        _ => panic!("a typed value must stay typed"),
    }
}

#[test]
fn typed_passphrase_is_not_trimmed() {
    let l = english();
    match passphrase_from_input(Secret::new(" a b ".to_string()), Some(&l)) {
        Some(Passphrase::Typed(s)) => assert_eq!(s.expose_secret(), " a b "),
        _ => panic!("a typed value must stay typed"),
    }
}

#[test]
fn empty_input_generates() {
    let l = english();
    match passphrase_from_input(Secret::new(String::new()), Some(&l)) {
        Some(Passphrase::Generated(s)) => check_generated(&l, s.expose_secret()),
        _ => panic!("empty input must generate"),
    }
}

#[test]
fn typed_passphrase_needs_no_word_list() {
    match passphrase_from_input(Secret::new("hunter2".to_string()), None) {
        Some(Passphrase::Typed(s)) => assert_eq!(s.expose_secret(), "hunter2"),
        _ => panic!("a typed value must stay typed"),
    }
}

#[test]
fn empty_input_without_word_list_gives_nothing() {
    assert!(passphrase_from_input(Secret::new(String::new()), None).is_none());
}

#[test]
fn secret_holds_its_string() {
    let s = Secret::new("abc".to_string());
    assert_eq!(s.expose_secret(), "abc");
}
