//! Scramble utilities: deterministic seeded token sequences, and random ones
//! drawn from fresh entropy.
//!
//! The pseudorandom draws come from rand's `StdRng`; everything built on top
//! of them — reducing a draw to a token index, spelling the token, joining
//! with spaces — is verified here.

use vstd::prelude::*;
use vstd::string::*;

use rand::RngCore;
use rand::SeedableRng;
use rand::rngs::StdRng;

verus! {

#[verifier::external_type_specification]
#[verifier::external_body]
pub struct ExStdRng(StdRng);

/// The `i`-th 64-bit draw of rand's `StdRng` seeded from `seed`. `StdRng`
/// is a seeded ChaCha block cipher generator: its output stream depends on
/// the seed alone, so the draw is a function of `seed` and `i`.
pub uninterp spec fn stdrng_draw(seed: u64, i: int) -> u64;

/// A seeded pseudorandom stream that counts its draws. The generator is
/// built from the seed here and nowhere else, so the `i`-th draw is always
/// `stdrng_draw(seed, i)`.
pub struct SeedStream {
    rng: StdRng,
    seed: Ghost<u64>,
    drawn: Ghost<int>,
}

impl SeedStream {
    /// The seed this stream was built from.
    pub closed spec fn seed(self) -> u64 {
        self.seed@
    }

    /// How many draws were made so far.
    pub closed spec fn drawn(self) -> int {
        self.drawn@
    }

    /// Seed a fresh stream.
    pub fn new(seed: u64) -> (r: SeedStream)
        ensures
            r.seed() == seed,
            r.drawn() == 0,
    {
        SeedStream { rng: rng_from_seed(seed), seed: Ghost(seed), drawn: Ghost(0) }
    }
}

/// Relies on rand's `StdRng::seed_from_u64`: it derives the generator state
/// from the 64-bit seed alone.
#[verifier::external_body]
fn rng_from_seed(seed: u64) -> StdRng {
    StdRng::seed_from_u64(seed)
}

/// Relies on rand's `StdRng` being a deterministic pseudorandom generator:
/// `next_u64` returns a pure function of the seed and of how many draws came
/// before, identical in every process.
#[verifier::external_body]
fn stream_next(s: &mut SeedStream) -> (r: u64)
    ensures
        final(s).seed() == old(s).seed(),
        final(s).drawn() == old(s).drawn() + 1,
        r == stdrng_draw(old(s).seed(), old(s).drawn()),
{
    s.rng.next_u64()
}

/// Relies on rand's `thread_rng`: an OS-seeded generator. Nothing is
/// promised of the value drawn.
#[verifier::external_body]
fn entropy_u64() -> u64 {
    rand::thread_rng().next_u64()
}

/// The token at index `i` of the fixed 18-symbol move alphabet.
pub open spec fn token_at(i: int) -> Seq<char> {
    if i == 0 {
        seq!['U']
    } else if i == 1 {
        seq!['U', '\'']
    } else if i == 2 {
        seq!['U', '2']
    } else if i == 3 {
        seq!['D']
    } else if i == 4 {
        seq!['D', '\'']
    } else if i == 5 {
        seq!['D', '2']
    } else if i == 6 {
        seq!['R']
    } else if i == 7 {
        seq!['R', '\'']
    } else if i == 8 {
        seq!['R', '2']
    } else if i == 9 {
        seq!['L']
    } else if i == 10 {
        seq!['L', '\'']
    } else if i == 11 {
        seq!['L', '2']
    } else if i == 12 {
        seq!['F']
    } else if i == 13 {
        seq!['F', '\'']
    } else if i == 14 {
        seq!['F', '2']
    } else if i == 15 {
        seq!['B']
    } else if i == 16 {
        seq!['B', '\'']
    } else {
        seq!['B', '2']
    }
}

fn token_str(i: usize) -> (r: &'static str)
    requires
        i < 18,
    ensures
        r@ == token_at(i as int),
{
    proof {
        reveal_strlit("U");
        reveal_strlit("U'");
        reveal_strlit("U2");
        reveal_strlit("D");
        reveal_strlit("D'");
        reveal_strlit("D2");
        reveal_strlit("R");
        reveal_strlit("R'");
        reveal_strlit("R2");
        reveal_strlit("L");
        reveal_strlit("L'");
        reveal_strlit("L2");
        reveal_strlit("F");
        reveal_strlit("F'");
        reveal_strlit("F2");
        reveal_strlit("B");
        reveal_strlit("B'");
        reveal_strlit("B2");
    }
    let r = if i == 0 {
        "U"
    } else if i == 1 {
        "U'"
    } else if i == 2 {
        "U2"
    } else if i == 3 {
        "D"
    } else if i == 4 {
        "D'"
    } else if i == 5 {
        "D2"
    } else if i == 6 {
        "R"
    } else if i == 7 {
        "R'"
    } else if i == 8 {
        "R2"
    } else if i == 9 {
        "L"
    } else if i == 10 {
        "L'"
    } else if i == 11 {
        "L2"
    } else if i == 12 {
        "F"
    } else if i == 13 {
        "F'"
    } else if i == 14 {
        "F2"
    } else if i == 15 {
        "B"
    } else if i == 16 {
        "B'"
    } else {
        "B2"
    };
    proof {
        assert(r@ =~= token_at(i as int));
    }
    r
}

/// The scramble text for a seed: `len` tokens of the alphabet, each chosen
/// by the seeded stream's next draw reduced modulo 18, joined with single
/// spaces. A pure function of seed and length: the same seed always yields
/// the byte-identical sequence.
pub open spec fn scramble_spec(seed: u64, len: nat) -> Seq<char>
    decreases len,
{
    if len == 0 {
        Seq::empty()
    } else {
        let prev = scramble_spec(seed, (len - 1) as nat);
        let tok = token_at(stdrng_draw(seed, len - 1) as int % 18);
        if len == 1 {
            tok
        } else {
            prev + seq![' '] + tok
        }
    }
}

/// Generate a deterministic scramble of `len` tokens from a `seed`.
pub fn scramble_with_seed(len: usize, seed: u64) -> (r: String)
    ensures
        r@ == scramble_spec(seed, len as nat),
{
    let mut st = SeedStream::new(seed);
    let mut out = String::new();
    let mut i: usize = 0;
    while i < len
        invariant
            i <= len,
            st.seed() == seed,
            st.drawn() == i,
            out@ == scramble_spec(seed, i as nat),
        decreases len - i,
    {
        let d = stream_next(&mut st);
        let idx = (d % 18) as usize;
        if i > 0 {
            proof {
                reveal_strlit(" ");
            }
            out.append(" ");
        }
        out.append(token_str(idx));
        proof {
            assert(out@ =~= scramble_spec(seed, (i + 1) as nat));
        }
        i = i + 1;
    }
    out
}

/// Generate a random scramble of `len` tokens: a fresh entropy seed, then
/// the deterministic path.
pub fn random_scramble(len: usize) -> (r: String)
    ensures
        exists|seed: u64| r@ == #[trigger] scramble_spec(seed, len as nat),
{
    let seed = entropy_u64();
    let r = scramble_with_seed(len, seed);
    proof {
        assert(r@ == scramble_spec(seed, len as nat));
    }
    r
}

} // verus!
