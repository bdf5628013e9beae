use pocket_cube::cube::{Col, Cube, FaceId};
use pocket_cube::moves::{apply_alg, apply_token, parse_token};

fn apply_token_n(cube: &mut Cube, tok: &str, n: usize) {
    for _ in 0..n {
        apply_token(cube, tok).unwrap();
    }
}

fn count_color(cube: &Cube, col: Col) -> usize {
    let faces = [FaceId::U, FaceId::D, FaceId::F, FaceId::B, FaceId::L, FaceId::R];
    let mut n = 0;
    for id in faces {
        let f = cube.face(id);
        for r in 0..2 {
            for c in 0..2 {
                if f.at(r, c) == col {
                    n += 1;
                }
            }
        }
    }
    n
}

#[test]
fn solved_cube_colors() {
    let cube = Cube::default();
    assert!(matches!(cube.face(FaceId::U).at(0, 0), Col::W));
    assert!(matches!(cube.face(FaceId::D).at(1, 1), Col::Y));
    assert!(matches!(cube.face(FaceId::F).at(0, 1), Col::G));
    assert!(matches!(cube.face(FaceId::B).at(1, 0), Col::B));
    assert!(matches!(cube.face(FaceId::L).at(0, 0), Col::O));
    assert!(matches!(cube.face(FaceId::R).at(1, 1), Col::R));
}

#[test]
fn order_four_every_face() {
    for letter in ["U", "D", "R", "L", "F", "B"] {
        let start = Cube::default();
        let mut cube = start;
        apply_token_n(&mut cube, letter, 1);
        assert_ne!(cube, start, "one quarter turn of {letter} must change the cube");
        apply_token_n(&mut cube, letter, 3);
        assert_eq!(cube, start, "{letter} four times must be the identity");
    }
}

#[test]
fn turn_then_inverse_every_face() {
    for letter in ["U", "D", "R", "L", "F", "B"] {
        let start = Cube::default();
        let mut cube = start;
        apply_token(&mut cube, letter).unwrap();
        let prime = format!("{letter}'");
        apply_token(&mut cube, &prime).unwrap();
        assert_eq!(cube, start, "{letter} then {letter}' must be the identity");
    }
}

#[test]
fn half_turn_twice_every_face() {
    for letter in ["U", "D", "R", "L", "F", "B"] {
        let start = Cube::default();
        let mut cube = start;
        let half = format!("{letter}2");
        apply_token(&mut cube, &half).unwrap();
        apply_token(&mut cube, &half).unwrap();
        assert_eq!(cube, start, "{letter}2 twice must be the identity");
    }
}

#[test]
fn half_turn_equals_two_quarters() {
    for letter in ["U", "D", "R", "L", "F", "B"] {
        let mut a = Cube::default();
        let mut b = Cube::default();
        let half = format!("{letter}2");
        apply_token(&mut a, &half).unwrap();
        apply_token(&mut b, letter).unwrap();
        apply_token(&mut b, letter).unwrap();
        assert_eq!(a, b, "{letter}2 must equal {letter} {letter}");
    }
}

#[test]
fn sticker_conservation_after_algorithm() {
    let mut cube = Cube::default();
    apply_alg(&mut cube, "R U R' U' F2 L D B' U2 L' D2 B R2 F' D'").unwrap();
    for col in [Col::W, Col::Y, Col::G, Col::B, Col::O, Col::R] {
        assert_eq!(count_color(&cube, col), 4);
    }
}

#[test]
fn all_eighteen_tokens_accepted() {
    let mut cube = Cube::default();
    for face in ["U", "D", "R", "L", "F", "B"] {
        for suffix in ["", "'", "2"] {
            let tok = format!("{face}{suffix}");
            assert!(apply_token(&mut cube, &tok).is_ok(), "token {tok} must be accepted");
            assert!(parse_token(&tok).is_some());
        }
    }
}

#[test]
fn unknown_token_rejected_and_cube_untouched() {
    let mut cube = Cube::default();
    apply_token(&mut cube, "R").unwrap();
    let before = cube;
    let err = apply_token(&mut cube, "X").unwrap_err();
    assert_eq!(err, "Unknown move: X");
    assert_eq!(cube, before);
    for bad in ["", "u", "R3", "R''", "RU", " R", "Q2"] {
        let snapshot = cube;
        assert!(apply_token(&mut cube, bad).is_err(), "token {bad:?} must be rejected");
        assert_eq!(cube, snapshot);
    }
}

#[test]
fn fail_fast_keeps_prefix_applied() {
    let mut expected = Cube::default();
    apply_token(&mut expected, "R").unwrap();

    let mut cube = Cube::default();
    let err = apply_alg(&mut cube, "R X U").unwrap_err();
    assert_eq!(err, "Unknown move: X");
    assert_eq!(cube, expected, "the R before the bad token must stay applied, the U must not run");
}

#[test]
fn apply_alg_handles_whitespace() {
    let start = Cube::default();

    let mut cube = start;
    apply_alg(&mut cube, "").unwrap();
    assert_eq!(cube, start);

    let mut cube = start;
    apply_alg(&mut cube, "   \t  \n ").unwrap();
    assert_eq!(cube, start);

    let mut a = start;
    apply_alg(&mut a, "  R   U'\tF2 ").unwrap();
    let mut b = start;
    apply_token(&mut b, "R").unwrap();
    apply_token(&mut b, "U'").unwrap();
    apply_token(&mut b, "F2").unwrap();
    assert_eq!(a, b);
}

#[test]
fn sexy_move_has_order_six() {
    let start = Cube::default();
    let mut cube = start;
    for i in 0..6 {
        apply_alg(&mut cube, "R U R' U'").unwrap();
        if i < 5 {
            assert_ne!(cube, start);
        }
    }
    assert_eq!(cube, start, "R U R' U' repeated six times is the identity");
}
