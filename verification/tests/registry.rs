use killswitch::registry::SecretRegistry;
use killswitch::token::{generate_random_word, letter_at, word_from_picks, ALPHABET_LEN, TOKEN_LEN};

fn registry_with(tokens: &[&str]) -> SecretRegistry {
    let mut registry = SecretRegistry::new();
    for token in tokens {
        registry.append(String::from(*token));
    }
    registry
}

fn strings(tokens: &[&str]) -> Vec<String> {
    tokens.iter().map(|t| String::from(*t)).collect()
}

#[test]
fn new_registry_is_empty() {
    let registry = SecretRegistry::new();
    assert_eq!(registry.len(), 0);
    assert!(registry.tokens().is_empty());
    assert!(!registry.holds("abcdefghijkl"));
    assert_eq!(registry.find("abcdefghijkl"), None);
}

#[test]
fn append_keeps_issue_order() {
    let registry = registry_with(&["b", "a", "c", "a"]);
    assert_eq!(registry.len(), 4);
    assert_eq!(registry.tokens(), &strings(&["b", "a", "c", "a"]));
    assert_eq!(registry.token_at(0), "b");
    assert_eq!(registry.token_at(3), "a");
}

#[test]
fn issue_appends_a_fresh_token_and_returns_it() {
    let mut registry = registry_with(&["abcdefghijkl"]);
    let token = registry.issue();
    assert_eq!(token.chars().count(), 12);
    assert!(token.chars().all(|c| c.is_ascii_alphabetic()));
    assert_eq!(registry.len(), 2);
    assert_eq!(registry.token_at(1), token);
    assert!(registry.holds(&token));
}

#[test]
fn holds_compares_whole_tokens() {
    let registry = registry_with(&["abcdefghijkl", "xyz"]);
    assert!(registry.holds("abcdefghijkl"));
    assert!(registry.holds("xyz"));
    assert!(!registry.holds("abcdefghijk"));
    assert!(!registry.holds("xy"));
    assert!(!registry.holds("xyzz"));
    assert!(!registry.holds(""));
}

#[test]
fn find_gives_the_first_token_contained_in_the_request() {
    let registry = registry_with(&["alpha", "beta", "gamma", "beta"]);
    assert_eq!(registry.find("GET /gamma/beta HTTP/1.1"), Some(1));
    assert_eq!(registry.find("gamma"), Some(2));
    assert_eq!(registry.find("xxalphaxx"), Some(0));
    assert_eq!(registry.find("alph"), None);
    assert_eq!(registry.find(""), None);
}

#[test]
fn find_takes_an_empty_token_to_match_anything() {
    let registry = registry_with(&["alpha", ""]);
    assert_eq!(registry.find(""), Some(1));
    assert_eq!(registry.find("zzz"), Some(1));
    assert_eq!(registry.find("alpha"), Some(0));
}

#[test]
fn remove_takes_out_the_first_equal_token() {
    let mut registry = registry_with(&["a", "b", "a", "c"]);
    assert!(registry.remove("a"));
    assert_eq!(registry.tokens(), &strings(&["b", "a", "c"]));
    assert!(registry.remove("a"));
    assert_eq!(registry.tokens(), &strings(&["b", "c"]));
    assert!(!registry.remove("a"));
    assert_eq!(registry.tokens(), &strings(&["b", "c"]));
    assert!(registry.remove("c"));
    assert!(registry.remove("b"));
    assert_eq!(registry.len(), 0);
}

#[test]
fn find_and_consume_removes_what_it_finds() {
    let mut registry = registry_with(&["alpha", "beta", "gamma"]);
    assert_eq!(registry.find_and_consume("gamma beta"), Some(String::from("beta")));
    assert_eq!(registry.tokens(), &strings(&["alpha", "gamma"]));
    assert_eq!(registry.find_and_consume("gamma beta"), Some(String::from("gamma")));
    assert_eq!(registry.tokens(), &strings(&["alpha"]));
    assert_eq!(registry.find_and_consume("gamma beta"), None);
    assert_eq!(registry.tokens(), &strings(&["alpha"]));
}

#[test]
fn token_sizes() {
    assert_eq!(TOKEN_LEN, 12);
    assert_eq!(ALPHABET_LEN, 52);
}

#[test]
fn letters_run_from_lower_a_to_upper_z() {
    assert_eq!(letter_at(0), "a");
    assert_eq!(letter_at(1), "b");
    assert_eq!(letter_at(25), "z");
    assert_eq!(letter_at(26), "A");
    assert_eq!(letter_at(51), "Z");
    let all: String = (0..ALPHABET_LEN).map(letter_at).collect();
    assert_eq!(all, "abcdefghijklmnopqrstuvwxyzABCDEFGHIJKLMNOPQRSTUVWXYZ");
}

#[test]
fn word_from_picks_spells_the_picked_letters() {
    assert_eq!(word_from_picks(&vec![]), "");
    assert_eq!(word_from_picks(&vec![0, 25, 26, 51]), "azAZ");
    assert_eq!(
        word_from_picks(&vec![7, 4, 11, 11, 14, 48, 14, 17, 11, 3, 0, 1]),
        "helloWorldab"
    );
}

#[test]
fn random_words_are_twelve_letters() {
    for _ in 0..500 {
        let word = generate_random_word();
        assert_eq!(word.len(), 12);
        assert_eq!(word.chars().count(), 12);
        assert!(word.chars().all(|c| c.is_ascii_lowercase() || c.is_ascii_uppercase()));
    }
}

#[test]
fn random_words_differ() {
    let first = generate_random_word();
    let mut differs = false;
    for _ in 0..20 {
        if generate_random_word() != first {
            differs = true;
        }
    }
    assert!(differs);
}
