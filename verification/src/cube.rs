//! In-memory 2×2 cube model with face rotations (U, D, F, B, L, R).
//!
//! A face is a 2×2 grid of colored stickers; the cube is six faces. Quarter
//! turns permute stickers: the turned face rotates in place and the four
//! boundary strips of the adjacent faces cycle one step.

use vstd::prelude::*;

verus! {

/// The six face positions, in the fixed enumeration order used everywhere.
#[derive(Debug, Clone, Copy, PartialEq, Eq, Structural)]
pub enum FaceId {
    U,
    D,
    F,
    B,
    L,
    R,
}

/// The six sticker colors: white, yellow, green, blue, orange, red.
#[derive(Debug, Clone, Copy, PartialEq, Eq, Structural)]
pub enum Col {
    W,
    Y,
    G,
    B,
    O,
    R,
}

/// One 2×2 face. Field `a` is row 0, column 0 (top-left when looking straight
/// at the face), `b` is row 0, column 1, `c` is row 1, column 0, and `d` is
/// row 1, column 1.
#[derive(Debug, Clone, Copy, PartialEq, Eq, Structural)]
pub struct Face {
    pub a: Col,
    pub b: Col,
    pub c: Col,
    pub d: Col,
}

impl Face {
    /// A face whose four stickers all have color `col`.
    pub open spec fn uniform_spec(col: Col) -> Face {
        Face { a: col, b: col, c: col, d: col }
    }

    /// Build a face whose four stickers all have color `col`.
    pub fn uniform(col: Col) -> (r: Face)
        ensures
            r == Face::uniform_spec(col),
    {
        Face { a: col, b: col, c: col, d: col }
    }

    /// The sticker at row `r`, column `c` (both in {0, 1}).
    pub open spec fn at_spec(self, r: int, c: int) -> Col {
        if r == 0 {
            if c == 0 {
                self.a
            } else {
                self.b
            }
        } else {
            if c == 0 {
                self.c
            } else {
                self.d
            }
        }
    }

    /// Read the sticker at row `r`, column `c`.
    pub fn at(&self, r: usize, c: usize) -> (col: Col)
        requires
            r < 2,
            c < 2,
        ensures
            col == self.at_spec(r as int, c as int),
    {
        if r == 0 {
            if c == 0 {
                self.a
            } else {
                self.b
            }
        } else {
            if c == 0 {
                self.c
            } else {
                self.d
            }
        }
    }
}

/// The whole puzzle: one face per [`FaceId`], no shared storage.
#[derive(Debug, Clone, Copy, PartialEq, Eq, Structural)]
pub struct Cube {
    pub u: Face,
    pub d: Face,
    pub f: Face,
    pub b: Face,
    pub l: Face,
    pub r: Face,
}

impl Cube {
    /// The solved cube under the standard color scheme:
    /// U=white, D=yellow, F=green, B=blue, L=orange, R=red.
    pub open spec fn solved_spec() -> Cube {
        Cube {
            u: Face::uniform_spec(Col::W),
            d: Face::uniform_spec(Col::Y),
            f: Face::uniform_spec(Col::G),
            b: Face::uniform_spec(Col::B),
            l: Face::uniform_spec(Col::O),
            r: Face::uniform_spec(Col::R),
        }
    }

    /// The face stored at position `id`.
    pub open spec fn face_spec(self, id: FaceId) -> Face {
        match id {
            FaceId::U => self.u,
            FaceId::D => self.d,
            FaceId::F => self.f,
            FaceId::B => self.b,
            FaceId::L => self.l,
            FaceId::R => self.r,
        }
    }

    /// Read-only snapshot of one face.
    pub fn face(&self, id: FaceId) -> (r: Face)
        ensures
            r == self.face_spec(id),
    {
        match id {
            FaceId::U => self.u,
            FaceId::D => self.d,
            FaceId::F => self.f,
            FaceId::B => self.b,
            FaceId::L => self.l,
            FaceId::R => self.r,
        }
    }
}

/// Rotate one 2×2 face 90° clockwise in place (looking straight at it):
/// `[[a,b],[c,d]]` becomes `[[c,a],[d,b]]`.
pub open spec fn rot_cw_spec(f: Face) -> Face {
    Face { a: f.c, b: f.a, c: f.d, d: f.b }
}

/// Rotate a face 90° clockwise: `[[a,b],[c,d]]` → `[[c,a],[d,b]]`.
pub fn rot_face_cw(f: &mut Face)
    ensures
        *final(f) == rot_cw_spec(*old(f)),
{
    *f = Face { a: f.c, b: f.a, c: f.d, d: f.b };
}

/// Rotate a face 90° counter-clockwise: `[[a,b],[c,d]]` → `[[b,d],[a,c]]`.
pub fn rot_face_ccw(f: &mut Face)
    ensures
        *final(f) == rot_cw_spec(rot_cw_spec(rot_cw_spec(*old(f)))),
{
    *f = Face { a: f.b, b: f.d, c: f.a, d: f.c };
}

/// Rotate a face 180°: `[[a,b],[c,d]]` → `[[d,c],[b,a]]`.
pub fn rot_face_180(f: &mut Face)
    ensures
        *final(f) == rot_cw_spec(rot_cw_spec(*old(f))),
{
    *f = Face { a: f.d, b: f.c, c: f.b, d: f.a };
}

impl Cube {
    /// Clockwise quarter turn of the up face: U rotates in place and the top
    /// rows of F, R, B, L cycle F → R → B → L → F.
    pub open spec fn u_cw_spec(k: Cube) -> Cube {
        Cube {
            u: rot_cw_spec(k.u),
            d: k.d,
            f: Face { a: k.l.a, b: k.l.b, c: k.f.c, d: k.f.d },
            b: Face { a: k.r.a, b: k.r.b, c: k.b.c, d: k.b.d },
            l: Face { a: k.b.a, b: k.b.b, c: k.l.c, d: k.l.d },
            r: Face { a: k.f.a, b: k.f.b, c: k.r.c, d: k.r.d },
        }
    }

    /// Clockwise quarter turn of the down face: D rotates in place and the
    /// bottom rows cycle F → L → B → R → F.
    pub open spec fn d_cw_spec(k: Cube) -> Cube {
        Cube {
            u: k.u,
            d: rot_cw_spec(k.d),
            f: Face { a: k.f.a, b: k.f.b, c: k.r.c, d: k.r.d },
            b: Face { a: k.b.a, b: k.b.b, c: k.l.c, d: k.l.d },
            l: Face { a: k.l.a, b: k.l.b, c: k.f.c, d: k.f.d },
            r: Face { a: k.r.a, b: k.r.b, c: k.b.c, d: k.b.d },
        }
    }

    /// Clockwise quarter turn of the right face: R rotates in place and the
    /// right columns of U, F, D and the left column of B cycle
    /// U → F → D → B → U, with the transfers through B reversed (B's column
    /// axis is mirrored relative to the others).
    pub open spec fn r_cw_spec(k: Cube) -> Cube {
        Cube {
            u: Face { a: k.u.a, b: k.b.c, c: k.u.c, d: k.b.a },
            d: Face { a: k.d.a, b: k.f.b, c: k.d.c, d: k.f.d },
            f: Face { a: k.f.a, b: k.u.b, c: k.f.c, d: k.u.d },
            b: Face { a: k.d.d, b: k.b.b, c: k.d.b, d: k.b.d },
            l: k.l,
            r: rot_cw_spec(k.r),
        }
    }

    /// Clockwise quarter turn of the left face: L rotates in place and the
    /// left columns of U, F, D and the right column of B cycle
    /// U → B → D → F → U, with the transfers through B reversed.
    pub open spec fn l_cw_spec(k: Cube) -> Cube {
        Cube {
            u: Face { a: k.f.a, b: k.u.b, c: k.f.c, d: k.u.d },
            d: Face { a: k.b.d, b: k.d.b, c: k.b.b, d: k.d.d },
            f: Face { a: k.d.a, b: k.f.b, c: k.d.c, d: k.f.d },
            b: Face { a: k.b.a, b: k.u.c, c: k.b.c, d: k.u.a },
            l: rot_cw_spec(k.l),
            r: k.r,
        }
    }

    /// Clockwise quarter turn of the front face: F rotates in place and the
    /// strips around it cycle U-bottom → R-left → D-top → L-right → U-bottom,
    /// reversing where the strip crosses onto a face with a mirrored axis.
    pub open spec fn f_cw_spec(k: Cube) -> Cube {
        Cube {
            u: Face { a: k.u.a, b: k.u.b, c: k.l.b, d: k.l.d },
            d: Face { a: k.r.a, b: k.r.c, c: k.d.c, d: k.d.d },
            f: rot_cw_spec(k.f),
            b: k.b,
            l: Face { a: k.l.a, b: k.d.b, c: k.l.c, d: k.d.a },
            r: Face { a: k.u.d, b: k.r.b, c: k.u.c, d: k.r.d },
        }
    }

    /// Clockwise quarter turn of the back face: B rotates in place and the
    /// strips around it cycle U-top → L-left → D-bottom → R-right → U-top,
    /// reversing where the strip crosses onto a face with a mirrored axis.
    pub open spec fn b_cw_spec(k: Cube) -> Cube {
        Cube {
            u: Face { a: k.r.b, b: k.r.d, c: k.u.c, d: k.u.d },
            d: Face { a: k.d.a, b: k.d.b, c: k.l.a, d: k.l.c },
            f: k.f,
            b: rot_cw_spec(k.b),
            l: Face { a: k.u.b, b: k.l.b, c: k.u.a, d: k.l.d },
            r: Face { a: k.r.a, b: k.d.d, c: k.r.c, d: k.d.c },
        }
    }

    /// The clockwise quarter turn of face `id`.
    pub open spec fn turn_cw_spec(k: Cube, id: FaceId) -> Cube {
        match id {
            FaceId::U => Cube::u_cw_spec(k),
            FaceId::D => Cube::d_cw_spec(k),
            FaceId::F => Cube::f_cw_spec(k),
            FaceId::B => Cube::b_cw_spec(k),
            FaceId::L => Cube::l_cw_spec(k),
            FaceId::R => Cube::r_cw_spec(k),
        }
    }

    /// The clockwise quarter turn of face `id`, iterated `n` times.
    pub open spec fn turn_pow(k: Cube, id: FaceId, n: nat) -> Cube
        decreases n,
    {
        if n == 0 {
            k
        } else {
            Cube::turn_cw_spec(Cube::turn_pow(k, id, (n - 1) as nat), id)
        }
    }

    /// A counter-clockwise quarter turn: three clockwise quarter turns.
    pub open spec fn turn_ccw_spec(k: Cube, id: FaceId) -> Cube {
        Cube::turn_pow(k, id, 3)
    }

    /// A half turn: two clockwise quarter turns.
    pub open spec fn turn_180_spec(k: Cube, id: FaceId) -> Cube {
        Cube::turn_pow(k, id, 2)
    }
}

impl Cube {
    fn u_cw(&mut self)
        ensures
            *final(self) == Cube::u_cw_spec(*old(self)),
    {
        let k = *self;
        rot_face_cw(&mut self.u);
        // cycle the top rows: F -> R -> B -> L -> F
        self.r = Face { a: k.f.a, b: k.f.b, c: k.r.c, d: k.r.d };
        self.b = Face { a: k.r.a, b: k.r.b, c: k.b.c, d: k.b.d };
        self.l = Face { a: k.b.a, b: k.b.b, c: k.l.c, d: k.l.d };
        self.f = Face { a: k.l.a, b: k.l.b, c: k.f.c, d: k.f.d };
    }

    fn d_cw(&mut self)
        ensures
            *final(self) == Cube::d_cw_spec(*old(self)),
    {
        let k = *self;
        rot_face_cw(&mut self.d);
        // cycle the bottom rows: F -> L -> B -> R -> F
        self.l = Face { a: k.l.a, b: k.l.b, c: k.f.c, d: k.f.d };
        self.b = Face { a: k.b.a, b: k.b.b, c: k.l.c, d: k.l.d };
        self.r = Face { a: k.r.a, b: k.r.b, c: k.b.c, d: k.b.d };
        self.f = Face { a: k.f.a, b: k.f.b, c: k.r.c, d: k.r.d };
    }

    fn r_cw(&mut self)
        ensures
            *final(self) == Cube::r_cw_spec(*old(self)),
    {
        let k = *self;
        rot_face_cw(&mut self.r);
        // cycle the right columns of U, F, D and the left column of B;
        // the transfers through B are reversed
        self.f = Face { a: k.f.a, b: k.u.b, c: k.f.c, d: k.u.d };
        self.d = Face { a: k.d.a, b: k.f.b, c: k.d.c, d: k.f.d };
        self.b = Face { a: k.d.d, b: k.b.b, c: k.d.b, d: k.b.d };
        self.u = Face { a: k.u.a, b: k.b.c, c: k.u.c, d: k.b.a };
    }

    fn l_cw(&mut self)
        ensures
            *final(self) == Cube::l_cw_spec(*old(self)),
    {
        let k = *self;
        rot_face_cw(&mut self.l);
        // cycle the left columns of U, F, D and the right column of B;
        // the transfers through B are reversed
        self.b = Face { a: k.b.a, b: k.u.c, c: k.b.c, d: k.u.a };
        self.d = Face { a: k.b.d, b: k.d.b, c: k.b.b, d: k.d.d };
        self.f = Face { a: k.d.a, b: k.f.b, c: k.d.c, d: k.f.d };
        self.u = Face { a: k.f.a, b: k.u.b, c: k.f.c, d: k.u.d };
    }

    fn f_cw(&mut self)
        ensures
            *final(self) == Cube::f_cw_spec(*old(self)),
    {
        let k = *self;
        rot_face_cw(&mut self.f);
        // cycle U-bottom -> R-left -> D-top -> L-right -> U-bottom,
        // reversing on the transfers onto R and L
        self.r = Face { a: k.u.d, b: k.r.b, c: k.u.c, d: k.r.d };
        self.d = Face { a: k.r.a, b: k.r.c, c: k.d.c, d: k.d.d };
        self.l = Face { a: k.l.a, b: k.d.b, c: k.l.c, d: k.d.a };
        self.u = Face { a: k.u.a, b: k.u.b, c: k.l.b, d: k.l.d };
    }

    fn b_cw(&mut self)
        ensures
            *final(self) == Cube::b_cw_spec(*old(self)),
    {
        let k = *self;
        rot_face_cw(&mut self.b);
        // cycle U-top -> L-left -> D-bottom -> R-right -> U-top,
        // reversing on the transfers onto L and R
        self.l = Face { a: k.u.b, b: k.l.b, c: k.u.a, d: k.l.d };
        self.d = Face { a: k.d.a, b: k.d.b, c: k.l.a, d: k.l.c };
        self.r = Face { a: k.r.a, b: k.d.d, c: k.r.c, d: k.d.c };
        self.u = Face { a: k.r.b, b: k.r.d, c: k.u.c, d: k.u.d };
    }
}

impl Cube {
    /// U: clockwise quarter turn of the up face.
    pub fn mv_u(&mut self)
        ensures
            *final(self) == Cube::turn_cw_spec(*old(self), FaceId::U),
    {
        self.u_cw();
    }

    /// U': counter-clockwise quarter turn, done as three clockwise turns.
    pub fn mv_u_prime(&mut self)
        ensures
            *final(self) == Cube::turn_ccw_spec(*old(self), FaceId::U),
    {
        proof {
            reveal_with_fuel(Cube::turn_pow, 4);
        }
        self.u_cw();
        self.u_cw();
        self.u_cw();
    }

    /// U2: half turn, done as two clockwise turns.
    pub fn mv_u2(&mut self)
        ensures
            *final(self) == Cube::turn_180_spec(*old(self), FaceId::U),
    {
        proof {
            reveal_with_fuel(Cube::turn_pow, 4);
        }
        self.u_cw();
        self.u_cw();
    }

    /// D: clockwise quarter turn of the down face.
    pub fn mv_d(&mut self)
        ensures
            *final(self) == Cube::turn_cw_spec(*old(self), FaceId::D),
    {
        self.d_cw();
    }

    /// D': counter-clockwise quarter turn, done as three clockwise turns.
    pub fn mv_d_prime(&mut self)
        ensures
            *final(self) == Cube::turn_ccw_spec(*old(self), FaceId::D),
    {
        proof {
            reveal_with_fuel(Cube::turn_pow, 4);
        }
        self.d_cw();
        self.d_cw();
        self.d_cw();
    }

    /// D2: half turn, done as two clockwise turns.
    pub fn mv_d2(&mut self)
        ensures
            *final(self) == Cube::turn_180_spec(*old(self), FaceId::D),
    {
        proof {
            reveal_with_fuel(Cube::turn_pow, 4);
        }
        self.d_cw();
        self.d_cw();
    }

    /// R: clockwise quarter turn of the right face.
    pub fn mv_r(&mut self)
        ensures
            *final(self) == Cube::turn_cw_spec(*old(self), FaceId::R),
    {
        self.r_cw();
    }

    /// R': counter-clockwise quarter turn, done as three clockwise turns.
    pub fn mv_r_prime(&mut self)
        ensures
            *final(self) == Cube::turn_ccw_spec(*old(self), FaceId::R),
    {
        proof {
            reveal_with_fuel(Cube::turn_pow, 4);
        }
        self.r_cw();
        self.r_cw();
        self.r_cw();
    }

    /// R2: half turn, done as two clockwise turns.
    pub fn mv_r2(&mut self)
        ensures
            *final(self) == Cube::turn_180_spec(*old(self), FaceId::R),
    {
        proof {
            reveal_with_fuel(Cube::turn_pow, 4);
        }
        self.r_cw();
        self.r_cw();
    }

    /// L: clockwise quarter turn of the left face.
    pub fn mv_l(&mut self)
        ensures
            *final(self) == Cube::turn_cw_spec(*old(self), FaceId::L),
    {
        self.l_cw();
    }

    /// L': counter-clockwise quarter turn, done as three clockwise turns.
    pub fn mv_l_prime(&mut self)
        ensures
            *final(self) == Cube::turn_ccw_spec(*old(self), FaceId::L),
    {
        proof {
            reveal_with_fuel(Cube::turn_pow, 4);
        }
        self.l_cw();
        self.l_cw();
        self.l_cw();
    }

    /// L2: half turn, done as two clockwise turns.
    pub fn mv_l2(&mut self)
        ensures
            *final(self) == Cube::turn_180_spec(*old(self), FaceId::L),
    {
        proof {
            reveal_with_fuel(Cube::turn_pow, 4);
        }
        self.l_cw();
        self.l_cw();
    }

    /// F: clockwise quarter turn of the front face.
    pub fn mv_f(&mut self)
        ensures
            *final(self) == Cube::turn_cw_spec(*old(self), FaceId::F),
    {
        self.f_cw();
    }

    /// F': counter-clockwise quarter turn, done as three clockwise turns.
    pub fn mv_f_prime(&mut self)
        ensures
            *final(self) == Cube::turn_ccw_spec(*old(self), FaceId::F),
    {
        proof {
            reveal_with_fuel(Cube::turn_pow, 4);
        }
        self.f_cw();
        self.f_cw();
        self.f_cw();
    }

    /// F2: half turn, done as two clockwise turns.
    pub fn mv_f2(&mut self)
        ensures
            *final(self) == Cube::turn_180_spec(*old(self), FaceId::F),
    {
        proof {
            reveal_with_fuel(Cube::turn_pow, 4);
        }
        self.f_cw();
        self.f_cw();
    }

    /// B: clockwise quarter turn of the back face.
    pub fn mv_b(&mut self)
        ensures
            *final(self) == Cube::turn_cw_spec(*old(self), FaceId::B),
    {
        self.b_cw();
    }

    /// B': counter-clockwise quarter turn, done as three clockwise turns.
    pub fn mv_b_prime(&mut self)
        ensures
            *final(self) == Cube::turn_ccw_spec(*old(self), FaceId::B),
    {
        proof {
            reveal_with_fuel(Cube::turn_pow, 4);
        }
        self.b_cw();
        self.b_cw();
        self.b_cw();
    }

    /// B2: half turn, done as two clockwise turns.
    pub fn mv_b2(&mut self)
        ensures
            *final(self) == Cube::turn_180_spec(*old(self), FaceId::B),
    {
        proof {
            reveal_with_fuel(Cube::turn_pow, 4);
        }
        self.b_cw();
        self.b_cw();
    }
}

impl Default for Cube {
    /// A freshly created cube is solved: every sticker on a face has that
    /// face's canonical color.
    fn default() -> (r: Cube)
        ensures
            r == Cube::solved_spec(),
    {
        Cube {
            u: Face::uniform(Col::W),
            d: Face::uniform(Col::Y),
            f: Face::uniform(Col::G),
            b: Face::uniform(Col::B),
            l: Face::uniform(Col::O),
            r: Face::uniform(Col::R),
        }
    }
}

/// 1 if the sticker has color `col`, else 0.
pub open spec fn sticker_ind(s: Col, col: Col) -> int {
    if s == col {
        1
    } else {
        0
    }
}

/// How many of a face's four stickers have color `col`.
pub open spec fn face_count(f: Face, col: Col) -> int {
    sticker_ind(f.a, col) + sticker_ind(f.b, col) + sticker_ind(f.c, col) + sticker_ind(
        f.d,
        col,
    )
}

/// How many of the cube's 24 stickers have color `col`.
pub open spec fn count_color(k: Cube, col: Col) -> int {
    face_count(k.u, col) + face_count(k.d, col) + face_count(k.f, col) + face_count(k.b, col)
        + face_count(k.l, col) + face_count(k.r, col)
}

/// A cube whose 24 stickers contain exactly 4 of each of the 6 colors.
pub open spec fn balanced(k: Cube) -> bool {
    forall|col: Col| count_color(k, col) == 4
}

proof fn lemma_order_four_u(k: Cube)
    ensures
        Cube::u_cw_spec(Cube::u_cw_spec(Cube::u_cw_spec(Cube::u_cw_spec(k)))) == k,
{
}

proof fn lemma_count_u(k: Cube, col: Col)
    ensures
        count_color(Cube::u_cw_spec(k), col) == count_color(k, col),
{
}

proof fn lemma_order_four_d(k: Cube)
    ensures
        Cube::d_cw_spec(Cube::d_cw_spec(Cube::d_cw_spec(Cube::d_cw_spec(k)))) == k,
{
}

proof fn lemma_count_d(k: Cube, col: Col)
    ensures
        count_color(Cube::d_cw_spec(k), col) == count_color(k, col),
{
}

proof fn lemma_order_four_f(k: Cube)
    ensures
        Cube::f_cw_spec(Cube::f_cw_spec(Cube::f_cw_spec(Cube::f_cw_spec(k)))) == k,
{
}

proof fn lemma_count_f(k: Cube, col: Col)
    ensures
        count_color(Cube::f_cw_spec(k), col) == count_color(k, col),
{
}

proof fn lemma_order_four_b(k: Cube)
    ensures
        Cube::b_cw_spec(Cube::b_cw_spec(Cube::b_cw_spec(Cube::b_cw_spec(k)))) == k,
{
}

proof fn lemma_count_b(k: Cube, col: Col)
    ensures
        count_color(Cube::b_cw_spec(k), col) == count_color(k, col),
{
}

proof fn lemma_order_four_l(k: Cube)
    ensures
        Cube::l_cw_spec(Cube::l_cw_spec(Cube::l_cw_spec(Cube::l_cw_spec(k)))) == k,
{
}

proof fn lemma_count_l(k: Cube, col: Col)
    ensures
        count_color(Cube::l_cw_spec(k), col) == count_color(k, col),
{
}

proof fn lemma_order_four_r(k: Cube)
    ensures
        Cube::r_cw_spec(Cube::r_cw_spec(Cube::r_cw_spec(Cube::r_cw_spec(k)))) == k,
{
}

proof fn lemma_count_r(k: Cube, col: Col)
    ensures
        count_color(Cube::r_cw_spec(k), col) == count_color(k, col),
{
}

proof fn lemma_pow_four_u(k: Cube)
    ensures
        Cube::turn_pow(k, FaceId::U, 4) == k,
{
    reveal_with_fuel(Cube::turn_pow, 5);
    lemma_order_four_u(k);
}

proof fn lemma_pow_four_d(k: Cube)
    ensures
        Cube::turn_pow(k, FaceId::D, 4) == k,
{
    reveal_with_fuel(Cube::turn_pow, 5);
    lemma_order_four_d(k);
}

proof fn lemma_pow_four_f(k: Cube)
    ensures
        Cube::turn_pow(k, FaceId::F, 4) == k,
{
    reveal_with_fuel(Cube::turn_pow, 5);
    lemma_order_four_f(k);
}

proof fn lemma_pow_four_b(k: Cube)
    ensures
        Cube::turn_pow(k, FaceId::B, 4) == k,
{
    reveal_with_fuel(Cube::turn_pow, 5);
    lemma_order_four_b(k);
}

proof fn lemma_pow_four_l(k: Cube)
    ensures
        Cube::turn_pow(k, FaceId::L, 4) == k,
{
    reveal_with_fuel(Cube::turn_pow, 5);
    lemma_order_four_l(k);
}

proof fn lemma_pow_four_r(k: Cube)
    ensures
        Cube::turn_pow(k, FaceId::R, 4) == k,
{
    reveal_with_fuel(Cube::turn_pow, 5);
    lemma_order_four_r(k);
}

proof fn lemma_pow_four(k: Cube, id: FaceId)
    ensures
        Cube::turn_pow(k, id, 4) == k,
{
    match id {
        FaceId::U => lemma_pow_four_u(k),
        FaceId::D => lemma_pow_four_d(k),
        FaceId::F => lemma_pow_four_f(k),
        FaceId::B => lemma_pow_four_b(k),
        FaceId::L => lemma_pow_four_l(k),
        FaceId::R => lemma_pow_four_r(k),
    }
}

/// Iterating the quarter turn `m + n` times is iterating it `m` times and
/// then `n` more.
pub proof fn lemma_turn_pow_add(k: Cube, id: FaceId, m: nat, n: nat)
    ensures
        Cube::turn_pow(Cube::turn_pow(k, id, m), id, n) == Cube::turn_pow(k, id, (m + n) as nat),
    decreases n,
{
    if n == 0 {
    } else {
        lemma_turn_pow_add(k, id, m, (n - 1) as nat);
    }
}

/// The quarter-turn map has order 4: turning any face clockwise four times is
/// the identity (`turn_pow(.., 4)`). Hence a clockwise turn followed by a
/// counter-clockwise turn (three clockwise turns) is the identity, and so is
/// a half turn done twice; a half turn is exactly two quarter turns.
pub proof fn lemma_turn_order_four(k: Cube, id: FaceId)
    ensures
        Cube::turn_pow(k, id, 4) == k,
        Cube::turn_ccw_spec(Cube::turn_cw_spec(k, id), id) == k,
        Cube::turn_cw_spec(Cube::turn_ccw_spec(k, id), id) == k,
        Cube::turn_180_spec(Cube::turn_180_spec(k, id), id) == k,
        Cube::turn_180_spec(k, id) == Cube::turn_cw_spec(Cube::turn_cw_spec(k, id), id),
{
    reveal_with_fuel(Cube::turn_pow, 2);
    lemma_pow_four(k, id);
    assert(Cube::turn_pow(k, id, 1) == Cube::turn_cw_spec(k, id));
    lemma_turn_pow_add(k, id, 1, 3);
    lemma_turn_pow_add(k, id, 3, 1);
    lemma_turn_pow_add(k, id, 2, 2);
    assert(Cube::turn_pow(Cube::turn_pow(k, id, 3), id, 1) == Cube::turn_cw_spec(
        Cube::turn_pow(k, id, 3),
        id,
    ));
    assert(Cube::turn_pow(k, id, 2) == Cube::turn_cw_spec(Cube::turn_cw_spec(k, id), id));
}

/// Sticker conservation under one quarter turn: a turn permutes the 24
/// stickers, so each color keeps its count.
pub proof fn lemma_turn_preserves_count(k: Cube, id: FaceId, col: Col)
    ensures
        count_color(Cube::turn_cw_spec(k, id), col) == count_color(k, col),
{
    match id {
        FaceId::U => {
            assert(Cube::turn_cw_spec(k, id) == Cube::u_cw_spec(k));
            lemma_count_u(k, col);
        },
        FaceId::D => {
            assert(Cube::turn_cw_spec(k, id) == Cube::d_cw_spec(k));
            lemma_count_d(k, col);
        },
        FaceId::F => {
            assert(Cube::turn_cw_spec(k, id) == Cube::f_cw_spec(k));
            lemma_count_f(k, col);
        },
        FaceId::B => {
            assert(Cube::turn_cw_spec(k, id) == Cube::b_cw_spec(k));
            lemma_count_b(k, col);
        },
        FaceId::L => {
            assert(Cube::turn_cw_spec(k, id) == Cube::l_cw_spec(k));
            lemma_count_l(k, col);
        },
        FaceId::R => {
            assert(Cube::turn_cw_spec(k, id) == Cube::r_cw_spec(k));
            lemma_count_r(k, col);
        },
    }
}

/// The solved cube holds exactly 4 stickers of each color.
pub proof fn lemma_solved_balanced()
    ensures
        balanced(Cube::solved_spec()),
{
    assert forall|col: Col| count_color(Cube::solved_spec(), col) == 4 by {
        match col {
            Col::W => {},
            Col::Y => {},
            Col::G => {},
            Col::B => {},
            Col::O => {},
            Col::R => {},
        }
    }
}

/// A balanced cube stays balanced under any clockwise quarter turn.
pub proof fn lemma_turn_preserves_balanced(k: Cube, id: FaceId)
    requires
        balanced(k),
    ensures
        balanced(Cube::turn_cw_spec(k, id)),
{
    assert forall|col: Col| count_color(Cube::turn_cw_spec(k, id), col) == 4 by {
        lemma_turn_preserves_count(k, id, col);
    }
}

} // verus!
