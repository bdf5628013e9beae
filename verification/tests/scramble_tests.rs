use pocket_cube::cube::Cube;
use pocket_cube::moves::{apply_alg, parse_token};
use pocket_cube::scramble::{random_scramble, scramble_with_seed};

#[test]
fn same_seed_gives_identical_scrambles() {
    let a = scramble_with_seed(15, 42);
    let b = scramble_with_seed(15, 42);
    assert_eq!(a, b, "a seed determines the scramble byte for byte");
}

#[test]
fn different_seeds_give_different_scrambles() {
    let a = scramble_with_seed(15, 42);
    let b = scramble_with_seed(15, 43);
    assert_ne!(a, b);
}

#[test]
fn scramble_has_the_requested_number_of_valid_tokens() {
    let s = scramble_with_seed(15, 42);
    let tokens: Vec<&str> = s.split_whitespace().collect();
    assert_eq!(tokens.len(), 15);
    for t in tokens {
        assert!(parse_token(t).is_some(), "scramble token {t:?} must be in the alphabet");
    }
}

#[test]
fn scramble_applies_cleanly() {
    let s = scramble_with_seed(20, 7);
    let mut cube = Cube::default();
    assert!(apply_alg(&mut cube, &s).is_ok());
}

#[test]
fn zero_length_scramble_is_empty() {
    assert_eq!(scramble_with_seed(0, 42), "");
}

#[test]
fn random_scramble_yields_valid_tokens() {
    let s = random_scramble(5);
    let tokens: Vec<&str> = s.split_whitespace().collect();
    assert_eq!(tokens.len(), 5);
    for t in tokens {
        assert!(parse_token(t).is_some());
    }
}
