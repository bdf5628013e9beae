//! Move tokens and their application.
//!
//! A token is drawn from the fixed 18-symbol alphabet: for each face letter
//! in {U, D, R, L, F, B} the plain letter (clockwise quarter turn), the
//! letter + `'` (counter-clockwise), and the letter + `2` (half turn). An
//! algorithm is a whitespace-separated token sequence applied left to right;
//! it stops at the first invalid token, keeping the prefix applied.

use vstd::prelude::*;
use vstd::string::*;

use crate::cube::Col;
use crate::cube::Cube;
use crate::cube::FaceId;
use crate::cube::balanced;
use crate::cube::count_color;
use crate::cube::lemma_turn_preserves_count;

verus! {

/// How far a face is turned by one token.
#[derive(Debug, Clone, Copy, PartialEq, Eq, Structural)]
pub enum Twist {
    /// A clockwise quarter turn (the plain letter).
    Cw,
    /// A counter-clockwise quarter turn (the letter + `'`).
    Ccw,
    /// A half turn (the letter + `2`).
    Half,
}

/// One parsed move: which face, turned how far.
#[derive(Debug, Clone, Copy, PartialEq, Eq, Structural)]
pub struct Move {
    pub face: FaceId,
    pub twist: Twist,
}

/// The face named by a single letter, if any.
pub open spec fn face_of_char_spec(ch: char) -> Option<FaceId> {
    if ch == 'U' {
        Some(FaceId::U)
    } else if ch == 'D' {
        Some(FaceId::D)
    } else if ch == 'R' {
        Some(FaceId::R)
    } else if ch == 'L' {
        Some(FaceId::L)
    } else if ch == 'F' {
        Some(FaceId::F)
    } else if ch == 'B' {
        Some(FaceId::B)
    } else {
        None
    }
}

/// The move denoted by a token, or `None` if the string is not one of the
/// 18 symbols of the alphabet.
pub open spec fn parse_token_spec(s: Seq<char>) -> Option<Move> {
    if s.len() == 1 {
        match face_of_char_spec(s[0]) {
            Some(f) => Some(Move { face: f, twist: Twist::Cw }),
            None => None,
        }
    } else if s.len() == 2 {
        match face_of_char_spec(s[0]) {
            Some(f) => if s[1] == '\'' {
                Some(Move { face: f, twist: Twist::Ccw })
            } else if s[1] == '2' {
                Some(Move { face: f, twist: Twist::Half })
            } else {
                None
            },
            None => None,
        }
    } else {
        None
    }
}

/// The cube after one move: a quarter turn, three quarter turns, or two.
pub open spec fn apply_move_spec(k: Cube, m: Move) -> Cube {
    match m.twist {
        Twist::Cw => Cube::turn_cw_spec(k, m.face),
        Twist::Ccw => Cube::turn_ccw_spec(k, m.face),
        Twist::Half => Cube::turn_180_spec(k, m.face),
    }
}

fn face_of_char(ch: char) -> (r: Option<FaceId>)
    ensures
        r == face_of_char_spec(ch),
{
    if ch == 'U' {
        Some(FaceId::U)
    } else if ch == 'D' {
        Some(FaceId::D)
    } else if ch == 'R' {
        Some(FaceId::R)
    } else if ch == 'L' {
        Some(FaceId::L)
    } else if ch == 'F' {
        Some(FaceId::F)
    } else if ch == 'B' {
        Some(FaceId::B)
    } else {
        None
    }
}

/// Parse one token from the 18-symbol alphabet.
pub fn parse_token(tok: &str) -> (r: Option<Move>)
    ensures
        r == parse_token_spec(tok@),
{
    let n = tok.unicode_len();
    if n == 1 {
        match face_of_char(tok.get_char(0)) {
            Some(f) => Some(Move { face: f, twist: Twist::Cw }),
            None => None,
        }
    } else if n == 2 {
        match face_of_char(tok.get_char(0)) {
            Some(f) => {
                let c1 = tok.get_char(1);
                if c1 == '\'' {
                    Some(Move { face: f, twist: Twist::Ccw })
                } else if c1 == '2' {
                    Some(Move { face: f, twist: Twist::Half })
                } else {
                    None
                }
            },
            None => None,
        }
    } else {
        None
    }
}

/// Turn the cube by one parsed move.
pub fn apply_move(cube: &mut Cube, m: Move)
    ensures
        *final(cube) == apply_move_spec(*old(cube), m),
{
    match m.twist {
        Twist::Cw => match m.face {
            FaceId::U => cube.mv_u(),
            FaceId::D => cube.mv_d(),
            FaceId::F => cube.mv_f(),
            FaceId::B => cube.mv_b(),
            FaceId::L => cube.mv_l(),
            FaceId::R => cube.mv_r(),
        },
        Twist::Ccw => match m.face {
            FaceId::U => cube.mv_u_prime(),
            FaceId::D => cube.mv_d_prime(),
            FaceId::F => cube.mv_f_prime(),
            FaceId::B => cube.mv_b_prime(),
            FaceId::L => cube.mv_l_prime(),
            FaceId::R => cube.mv_r_prime(),
        },
        Twist::Half => match m.face {
            FaceId::U => cube.mv_u2(),
            FaceId::D => cube.mv_d2(),
            FaceId::F => cube.mv_f2(),
            FaceId::B => cube.mv_b2(),
            FaceId::L => cube.mv_l2(),
            FaceId::R => cube.mv_r2(),
        },
    }
}

/// The error text for a token outside the alphabet.
pub open spec fn unknown_move_msg(t: Seq<char>) -> Seq<char> {
    seq!['U', 'n', 'k', 'n', 'o', 'w', 'n', ' ', 'm', 'o', 'v', 'e', ':', ' '] + t
}

fn make_unknown_move_msg(tok: &str) -> (r: String)
    ensures
        r@ == unknown_move_msg(tok@),
{
    proof {
        reveal_strlit("Unknown move: ");
    }
    let mut msg = String::from_str("Unknown move: ");
    msg.append(tok);
    proof {
        assert(msg@ =~= unknown_move_msg(tok@));
    }
    msg
}

/// Apply a single token like `"R"`, `"R'"`, or `"R2"`.
///
/// Succeeds exactly on the 18 tokens of the alphabet; on any other string
/// the cube is left unmodified and the error names the offending token.
pub fn apply_token(cube: &mut Cube, tok: &str) -> (r: Result<(), String>)
    ensures
        r is Ok <==> parse_token_spec(tok@) is Some,
        parse_token_spec(tok@) matches Some(m) ==> *final(cube) == apply_move_spec(
            *old(cube),
            m,
        ),
        parse_token_spec(tok@) is None ==> *final(cube) == *old(cube),
        r matches Err(e) ==> e@ == unknown_move_msg(tok@),
{
    match parse_token(tok) {
        Some(m) => {
            apply_move(cube, m);
            Ok(())
        },
        None => Err(make_unknown_move_msg(tok)),
    }
}

/// A separator in an algorithm string.
pub open spec fn is_space(ch: char) -> bool {
    ch == ' ' || ch == '\t' || ch == '\n' || ch == '\r'
}

fn space_char(ch: char) -> (r: bool)
    ensures
        r == is_space(ch),
{
    ch == ' ' || ch == '\t' || ch == '\n' || ch == '\r'
}

/// The length of the maximal leading run of non-separator characters.
pub open spec fn token_len(s: Seq<char>) -> int
    decreases s.len(),
{
    if s.len() == 0 || is_space(s[0]) {
        0
    } else {
        1 + token_len(s.skip(1))
    }
}

proof fn lemma_token_len_at(s: Seq<char>, j: int)
    requires
        0 <= j <= s.len(),
        forall|i: int| 0 <= i < j ==> !is_space(s[i]),
        j == s.len() || is_space(s[j]),
    ensures
        token_len(s) == j,
    decreases j,
{
    if j == 0 {
    } else {
        assert(!is_space(s[0]));
        lemma_token_len_at(s.skip(1), j - 1);
    }
}

/// The leading token run never reaches past the end of the string.
pub proof fn lemma_token_len_bounds(s: Seq<char>)
    ensures
        0 <= token_len(s) <= s.len(),
        s.len() > 0 && !is_space(s[0]) ==> 1 <= token_len(s),
    decreases s.len(),
{
    if s.len() == 0 || is_space(s[0]) {
    } else {
        lemma_token_len_bounds(s.skip(1));
    }
}

/// Left-to-right application of a whitespace-separated algorithm: the cube
/// after the maximal valid prefix, and the first invalid token if there is
/// one.
pub open spec fn apply_alg_spec(k: Cube, s: Seq<char>) -> (Cube, Option<Seq<char>>)
    decreases s.len(),
    via apply_alg_spec_dec
{
    if s.len() == 0 {
        (k, None)
    } else if is_space(s[0]) {
        apply_alg_spec(k, s.skip(1))
    } else {
        let t = s.take(token_len(s));
        match parse_token_spec(t) {
            Some(m) => apply_alg_spec(apply_move_spec(k, m), s.skip(token_len(s))),
            None => (k, Some(t)),
        }
    }
}

#[via_fn]
proof fn apply_alg_spec_dec(k: Cube, s: Seq<char>) {
    if s.len() > 0 && !is_space(s[0]) {
        lemma_token_len_bounds(s);
    }
}

/// Apply a space-separated algorithm to the cube, e.g. `"R U R' U'"`.
///
/// Tokens are applied strictly left to right; the first invalid token stops
/// the run with an error naming it, and the tokens before it stay applied.
pub fn apply_alg(cube: &mut Cube, alg: &str) -> (r: Result<(), String>)
    ensures
        *final(cube) == apply_alg_spec(*old(cube), alg@).0,
        r is Ok <==> apply_alg_spec(*old(cube), alg@).1 is None,
        r matches Err(e) ==> apply_alg_spec(*old(cube), alg@).1 matches Some(t) && e@
            == unknown_move_msg(t),
    decreases alg@.len(),
{
    let n = alg.unicode_len();
    if n == 0 {
        return Ok(());
    }
    let c0 = alg.get_char(0);
    if space_char(c0) {
        let rest = alg.substring_char(1, n);
        proof {
            assert(rest@ =~= alg@.skip(1));
        }
        apply_alg(cube, rest)
    } else {
        let mut j: usize = 1;
        loop
            invariant
                1 <= j <= n,
                n == alg@.len(),
                forall|i: int| 0 <= i < j ==> !is_space(alg@[i]),
            ensures
                1 <= j <= n,
                forall|i: int| 0 <= i < j ==> !is_space(alg@[i]),
                j == n || is_space(alg@[j as int]),
            decreases n - j,
        {
            if j == n {
                break;
            }
            let cj = alg.get_char(j);
            if space_char(cj) {
                break;
            }
            j += 1;
        }
        proof {
            lemma_token_len_at(alg@, j as int);
        }
        let t = alg.substring_char(0, j);
        proof {
            assert(t@ =~= alg@.take(token_len(alg@)));
        }
        match apply_token(cube, t) {
            Ok(()) => {
                let rest = alg.substring_char(j, n);
                proof {
                    assert(rest@ =~= alg@.skip(token_len(alg@)));
                }
                apply_alg(cube, rest)
            },
            Err(e) => Err(e),
        }
    }
}

proof fn lemma_pow_preserves_count(k: Cube, id: FaceId, n: nat, col: Col)
    ensures
        count_color(Cube::turn_pow(k, id, n), col) == count_color(k, col),
    decreases n,
{
    if n == 0 {
    } else {
        lemma_pow_preserves_count(k, id, (n - 1) as nat, col);
        lemma_turn_preserves_count(Cube::turn_pow(k, id, (n - 1) as nat), id, col);
    }
}

/// One move permutes stickers, so each color keeps its count.
pub proof fn lemma_move_preserves_count(k: Cube, m: Move, col: Col)
    ensures
        count_color(apply_move_spec(k, m), col) == count_color(k, col),
{
    match m.twist {
        Twist::Cw => {
            lemma_turn_preserves_count(k, m.face, col);
        },
        Twist::Ccw => {
            lemma_pow_preserves_count(k, m.face, 3, col);
        },
        Twist::Half => {
            lemma_pow_preserves_count(k, m.face, 2, col);
        },
    }
}

/// Sticker conservation: however an algorithm string runs (all of it, or the
/// valid prefix before the first bad token), each color keeps its count.
pub proof fn lemma_alg_preserves_count(k: Cube, s: Seq<char>, col: Col)
    ensures
        count_color(apply_alg_spec(k, s).0, col) == count_color(k, col),
    decreases s.len(),
{
    if s.len() == 0 {
    } else if is_space(s[0]) {
        lemma_alg_preserves_count(k, s.skip(1), col);
    } else {
        lemma_token_len_bounds(s);
        let t = s.take(token_len(s));
        match parse_token_spec(t) {
            Some(m) => {
                lemma_move_preserves_count(k, m, col);
                lemma_alg_preserves_count(apply_move_spec(k, m), s.skip(token_len(s)), col);
            },
            None => {},
        }
    }
}

/// A cube holding exactly 4 stickers of each color still does after any
/// algorithm string is applied.
pub proof fn lemma_alg_preserves_balanced(k: Cube, s: Seq<char>)
    requires
        balanced(k),
    ensures
        balanced(apply_alg_spec(k, s).0),
{
    assert forall|col: Col| count_color(apply_alg_spec(k, s).0, col) == 4 by {
        lemma_alg_preserves_count(k, s, col);
    }
}

} // verus!
