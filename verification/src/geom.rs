//! 3D → 2D math in fixed-point integer arithmetic: rotations about the cube
//! center, isometric projection, face visibility, depth keys, and per-cell
//! geometry.
//!
//! Every coordinate, trig value and screen position is an integer count of
//! `1/FP` units: `FP` stands for 1.0. The cube occupies object coordinates
//! `0 .. 2*FP` on each axis, so its geometric center is `(FP, FP, FP)`.
//! Rotations take precomputed fixed-point cosine/sine pairs; products are
//! rescaled by `FP` with truncation toward zero.

use vstd::prelude::*;
use crate::cube::FaceId;
use vstd::arithmetic::div_mod::lemma_div_by_multiple;
use vstd::arithmetic::div_mod::lemma_div_is_ordered;
use vstd::arithmetic::div_mod::lemma_div_pos_is_pos;

verus! {

/// Fixed-point unit: the integer standing for 1.0.
pub const FP: i64 = 10_000_000;

/// Truncating division (round toward zero): what `/` does on machine integers.
pub open spec fn tdiv(a: int, d: int) -> int
    recommends
        d > 0,
{
    if a >= 0 {
        a / d
    } else {
        -((-a) / d)
    }
}

/// Fixed-point product: `a * b / FP`, rounded toward zero.
pub open spec fn mul_fp_s(a: int, b: int) -> int {
    tdiv(a * b, FP as int)
}

/// Bounds on both factors bound the product.
pub proof fn lemma_mul_bound(a: int, b: int, aa: int, bb: int)
    by (nonlinear_arith)
    requires
        -aa <= a <= aa,
        -bb <= b <= bb,
    ensures
        -(aa * bb) <= a * b <= aa * bb,
{
}

/// A bound on the dividend bounds the truncating quotient.
pub proof fn lemma_tdiv_bound(a: int, d: int, q: int)
    requires
        d > 0,
        0 <= q,
        -(q * d) <= a <= q * d,
    ensures
        -q <= tdiv(a, d) <= q,
{
    if a >= 0 {
        lemma_div_is_ordered(a, q * d, d);
        lemma_div_by_multiple(q, d);
        lemma_div_pos_is_pos(a, d);
    } else {
        lemma_div_is_ordered(-a, q * d, d);
        lemma_div_by_multiple(q, d);
        lemma_div_pos_is_pos(-a, d);
    }
}

/// Fixed-point multiply. The bounds keep the 128-bit product and the scaled
/// result inside their machine ranges.
pub fn mul_fp(a: i64, b: i64) -> (r: i64)
    requires
        -10_000_000_000_000_000 <= a <= 10_000_000_000_000_000,
        -10_000_000_000_000_000 <= b <= 10_000_000_000_000_000,
        -90_000_000_000_000_000_000_000_000 <= a * b <= 90_000_000_000_000_000_000_000_000,
    ensures
        r == mul_fp_s(a as int, b as int),
        -9_000_000_000_000_000_000 <= r <= 9_000_000_000_000_000_000,
{
    proof {
        lemma_tdiv_bound(a as int * b as int, FP as int, 9_000_000_000_000_000_000);
    }
    (((a as i128) * (b as i128)) / (FP as i128)) as i64
}

/// `p` has each coordinate within `±b`.
pub open spec fn within3(p: (int, int, int), b: int) -> bool {
    -b <= p.0 <= b && -b <= p.1 <= b && -b <= p.2 <= b
}

/// `p` has both coordinates within `±b`.
pub open spec fn within2(p: (int, int), b: int) -> bool {
    -b <= p.0 <= b && -b <= p.1 <= b
}

/// The mathematical value of an executable 3D point.
pub open spec fn v3(p: (i64, i64, i64)) -> (int, int, int) {
    (p.0 as int, p.1 as int, p.2 as int)
}

/// The mathematical value of an executable 2D point.
pub open spec fn v2(p: (i64, i64)) -> (int, int) {
    (p.0 as int, p.1 as int)
}

/// A fixed-point cosine/sine pair is at most 1.0 in magnitude.
pub open spec fn trig_ok(c: int, s: int) -> bool {
    -(FP as int) <= c <= FP as int && -(FP as int) <= s <= FP as int
}

/// Rotation about the Z axis: fixed-point cosine and sine of the angle.
#[derive(Debug, Clone, Copy, PartialEq, Eq, Structural)]
pub struct RotZ {
    pub c: i64,
    pub s: i64,
}

/// Rotation about the X axis: fixed-point cosine and sine of the angle.
#[derive(Debug, Clone, Copy, PartialEq, Eq, Structural)]
pub struct RotX {
    pub c: i64,
    pub s: i64,
}

/// Rotation about the Y axis: fixed-point cosine and sine of the angle.
#[derive(Debug, Clone, Copy, PartialEq, Eq, Structural)]
pub struct RotY {
    pub c: i64,
    pub s: i64,
}

impl RotZ {
    pub open spec fn wf(self) -> bool {
        trig_ok(self.c as int, self.s as int)
    }
}

impl RotX {
    pub open spec fn wf(self) -> bool {
        trig_ok(self.c as int, self.s as int)
    }
}

impl RotY {
    pub open spec fn wf(self) -> bool {
        trig_ok(self.c as int, self.s as int)
    }
}

/// Rotate about the Z axis through the cube center `(FP, FP, FP)`.
pub open spec fn rot_z_s(p: (int, int, int), c: int, s: int) -> (int, int, int) {
    let x0 = p.0 - FP;
    let y0 = p.1 - FP;
    let z0 = p.2 - FP;
    (
        mul_fp_s(c, x0) - mul_fp_s(s, y0) + FP,
        mul_fp_s(s, x0) + mul_fp_s(c, y0) + FP,
        z0 + FP,
    )
}

/// Rotate about the Y axis through the cube center.
pub open spec fn rot_y_s(p: (int, int, int), c: int, s: int) -> (int, int, int) {
    let x0 = p.0 - FP;
    let y0 = p.1 - FP;
    let z0 = p.2 - FP;
    (
        mul_fp_s(c, x0) + mul_fp_s(s, z0) + FP,
        y0 + FP,
        -mul_fp_s(s, x0) + mul_fp_s(c, z0) + FP,
    )
}

/// Rotate about the X axis through the cube center.
pub open spec fn rot_x_s(p: (int, int, int), c: int, s: int) -> (int, int, int) {
    let x0 = p.0 - FP;
    let y0 = p.1 - FP;
    let z0 = p.2 - FP;
    (
        x0 + FP,
        mul_fp_s(c, y0) - mul_fp_s(s, z0) + FP,
        mul_fp_s(s, y0) + mul_fp_s(c, z0) + FP,
    )
}

/// The full orientation: Z-rotation, then Y, then X, all about the center.
pub open spec fn rotate_all_s(p: (int, int, int), rz: RotZ, ry: RotY, rx: RotX) -> (
    int,
    int,
    int,
) {
    rot_x_s(
        rot_y_s(rot_z_s(p, rz.c as int, rz.s as int), ry.c as int, ry.s as int),
        rx.c as int,
        rx.s as int,
    )
}

fn rot_z_point(p: (i64, i64, i64), c: i64, s: i64) -> (r: (i64, i64, i64))
    requires
        within3(v3(p), 3 * FP),
        trig_ok(c as int, s as int),
    ensures
        v3(r) == rot_z_s(v3(p), c as int, s as int),
        within3(v3(r), 9 * FP),
{
    let x0 = p.0 - FP;
    let y0 = p.1 - FP;
    let z0 = p.2 - FP;
    proof {
        lemma_mul_bound(c as int, x0 as int, FP as int, 4 * FP);
        lemma_mul_bound(s as int, y0 as int, FP as int, 4 * FP);
        lemma_mul_bound(s as int, x0 as int, FP as int, 4 * FP);
        lemma_mul_bound(c as int, y0 as int, FP as int, 4 * FP);
        lemma_tdiv_bound(c as int * x0 as int, FP as int, 4 * FP);
        lemma_tdiv_bound(s as int * y0 as int, FP as int, 4 * FP);
        lemma_tdiv_bound(s as int * x0 as int, FP as int, 4 * FP);
        lemma_tdiv_bound(c as int * y0 as int, FP as int, 4 * FP);
    }
    (mul_fp(c, x0) - mul_fp(s, y0) + FP, mul_fp(s, x0) + mul_fp(c, y0) + FP, z0 + FP)
}

fn rot_y_point(p: (i64, i64, i64), c: i64, s: i64) -> (r: (i64, i64, i64))
    requires
        within3(v3(p), 9 * FP),
        trig_ok(c as int, s as int),
    ensures
        v3(r) == rot_y_s(v3(p), c as int, s as int),
        within3(v3(r), 21 * FP),
{
    let x0 = p.0 - FP;
    let y0 = p.1 - FP;
    let z0 = p.2 - FP;
    proof {
        lemma_mul_bound(c as int, x0 as int, FP as int, 10 * FP);
        lemma_mul_bound(s as int, z0 as int, FP as int, 10 * FP);
        lemma_mul_bound(s as int, x0 as int, FP as int, 10 * FP);
        lemma_mul_bound(c as int, z0 as int, FP as int, 10 * FP);
        lemma_tdiv_bound(c as int * x0 as int, FP as int, 10 * FP);
        lemma_tdiv_bound(s as int * z0 as int, FP as int, 10 * FP);
        lemma_tdiv_bound(s as int * x0 as int, FP as int, 10 * FP);
        lemma_tdiv_bound(c as int * z0 as int, FP as int, 10 * FP);
    }
    (mul_fp(c, x0) + mul_fp(s, z0) + FP, y0 + FP, -mul_fp(s, x0) + mul_fp(c, z0) + FP)
}

fn rot_x_point(p: (i64, i64, i64), c: i64, s: i64) -> (r: (i64, i64, i64))
    requires
        within3(v3(p), 21 * FP),
        trig_ok(c as int, s as int),
    ensures
        v3(r) == rot_x_s(v3(p), c as int, s as int),
        within3(v3(r), 45 * FP),
{
    let x0 = p.0 - FP;
    let y0 = p.1 - FP;
    let z0 = p.2 - FP;
    proof {
        lemma_mul_bound(c as int, y0 as int, FP as int, 22 * FP);
        lemma_mul_bound(s as int, z0 as int, FP as int, 22 * FP);
        lemma_mul_bound(s as int, y0 as int, FP as int, 22 * FP);
        lemma_mul_bound(c as int, z0 as int, FP as int, 22 * FP);
        lemma_tdiv_bound(c as int * y0 as int, FP as int, 22 * FP);
        lemma_tdiv_bound(s as int * z0 as int, FP as int, 22 * FP);
        lemma_tdiv_bound(s as int * y0 as int, FP as int, 22 * FP);
        lemma_tdiv_bound(c as int * z0 as int, FP as int, 22 * FP);
    }
    (x0 + FP, mul_fp(c, y0) - mul_fp(s, z0) + FP, mul_fp(s, y0) + mul_fp(c, z0) + FP)
}

/// Rotate a point about the cube center: Z-rotation, then Y, then X.
pub fn rotate_pt_all(p: (i64, i64, i64), rz: RotZ, ry: RotY, rx: RotX) -> (r: (i64, i64, i64))
    requires
        within3(v3(p), 3 * FP),
        rz.wf(),
        ry.wf(),
        rx.wf(),
    ensures
        v3(r) == rotate_all_s(v3(p), rz, ry, rx),
        within3(v3(r), 45 * FP),
{
    let pz = rot_z_point(p, rz.c, rz.s);
    let py = rot_y_point(pz, ry.c, ry.s);
    rot_x_point(py, rx.c, rx.s)
}

/// Isometric screen basis: the screen direction of the object X axis.
pub const EX_X: i64 = 8_660_254;

pub const EX_Y: i64 = -5_000_000;

/// Isometric screen basis: the screen direction of the object Y axis.
pub const EY_X: i64 = -8_660_254;

pub const EY_Y: i64 = -5_000_000;

/// Isometric screen basis: the screen direction of the object Z axis.
pub const EZ_X: i64 = 0;

pub const EZ_Y: i64 = -10_000_000;

/// Classic isometric projection of `(x, y, z)` with a per-view size (pixels
/// per object unit, fixed-point) and screen origin.
pub open spec fn project_s(p: (int, int, int), size: int, origin: (int, int)) -> (int, int) {
    (
        origin.0 + mul_fp_s(
            size,
            mul_fp_s(p.0, EX_X as int) + mul_fp_s(p.1, EY_X as int) + mul_fp_s(p.2, EZ_X as int),
        ),
        origin.1 + mul_fp_s(
            size,
            mul_fp_s(p.0, EX_Y as int) + mul_fp_s(p.1, EY_Y as int) + mul_fp_s(p.2, EZ_Y as int),
        ),
    )
}

/// A sane screen origin: at most a hundred million pixels from zero.
pub const ORIGIN_BOUND: i64 = 1_000_000_000_000_000;

/// A sane view size: at most 100 pixels per object unit.
pub const SIZE_BOUND: i64 = 1_000_000_000;

/// Project a rotated point to the screen.
pub fn project(x: i64, y: i64, z: i64, size: i64, origin: (i64, i64)) -> (r: (i64, i64))
    requires
        within3(v3((x, y, z)), 45 * FP),
        0 <= size <= SIZE_BOUND,
        within2(v2(origin), ORIGIN_BOUND as int),
    ensures
        v2(r) == project_s(v3((x, y, z)), size as int, v2(origin)),
        within2(v2(r), ORIGIN_BOUND as int + 14_000_000_000_000),
        origin.0 - 150_000_000_000 <= r.0 <= origin.0 + 150_000_000_000,
        origin.1 - 150_000_000_000 <= r.1 <= origin.1 + 150_000_000_000,
{
    proof {
        lemma_mul_bound(x as int, EX_X as int, 45 * FP, FP as int);
        lemma_mul_bound(y as int, EY_X as int, 45 * FP, FP as int);
        lemma_mul_bound(z as int, EZ_X as int, 45 * FP, FP as int);
        lemma_mul_bound(x as int, EX_Y as int, 45 * FP, FP as int);
        lemma_mul_bound(y as int, EY_Y as int, 45 * FP, FP as int);
        lemma_mul_bound(z as int, EZ_Y as int, 45 * FP, FP as int);
        lemma_tdiv_bound(x as int * EX_X as int, FP as int, 45 * FP);
        lemma_tdiv_bound(y as int * EY_X as int, FP as int, 45 * FP);
        lemma_tdiv_bound(z as int * EZ_X as int, FP as int, 45 * FP);
        lemma_tdiv_bound(x as int * EX_Y as int, FP as int, 45 * FP);
        lemma_tdiv_bound(y as int * EY_Y as int, FP as int, 45 * FP);
        lemma_tdiv_bound(z as int * EZ_Y as int, FP as int, 45 * FP);
    }
    let sx = mul_fp(x, EX_X) + mul_fp(y, EY_X) + mul_fp(z, EZ_X);
    let sy = mul_fp(x, EX_Y) + mul_fp(y, EY_Y) + mul_fp(z, EZ_Y);
    proof {
        lemma_mul_bound(size as int, sx as int, SIZE_BOUND as int, 135 * FP);
        lemma_mul_bound(size as int, sy as int, SIZE_BOUND as int, 135 * FP);
        lemma_tdiv_bound(size as int * sx as int, FP as int, 135_000_000_000);
        lemma_tdiv_bound(size as int * sy as int, FP as int, 135_000_000_000);
    }
    let px = origin.0 + mul_fp(size, sx);
    let py = origin.1 + mul_fp(size, sy);
    (px, py)
}

/// Four corners of a quadrilateral in object space.
#[derive(Debug, Clone, Copy)]
pub struct Quad3 {
    pub p0: (i64, i64, i64),
    pub p1: (i64, i64, i64),
    pub p2: (i64, i64, i64),
    pub p3: (i64, i64, i64),
}

/// Four corners of a quadrilateral on the screen.
#[derive(Debug, Clone, Copy)]
pub struct Quad2 {
    pub p0: (i64, i64),
    pub p1: (i64, i64),
    pub p2: (i64, i64),
    pub p3: (i64, i64),
}

/// Outer polygon of each face, counter-clockwise around its outward normal.
/// Coordinates are multiples of `FP` (the cube spans `0 .. 2*FP`).
pub open spec fn face_outer_s(face: FaceId) -> (
    (int, int, int),
    (int, int, int),
    (int, int, int),
    (int, int, int),
) {
    let g = FP as int;
    match face {
        FaceId::U => ((0, 0, 2 * g), (2 * g, 0, 2 * g), (2 * g, 2 * g, 2 * g), (0, 2 * g, 2 * g)),
        FaceId::D => ((0, 2 * g, 0), (2 * g, 2 * g, 0), (2 * g, 0, 0), (0, 0, 0)),
        FaceId::F => ((0, 0, 0), (2 * g, 0, 0), (2 * g, 0, 2 * g), (0, 0, 2 * g)),
        FaceId::B => ((2 * g, 2 * g, 0), (0, 2 * g, 0), (0, 2 * g, 2 * g), (2 * g, 2 * g, 2 * g)),
        FaceId::L => ((0, 0, 2 * g), (0, 2 * g, 2 * g), (0, 2 * g, 0), (0, 0, 0)),
        FaceId::R => ((2 * g, 0, 0), (2 * g, 2 * g, 0), (2 * g, 2 * g, 2 * g), (2 * g, 0, 2 * g)),
    }
}

/// Outer polygon of each face, counter-clockwise around its outward normal.
pub fn face_outer(face: FaceId) -> (q: Quad3)
    ensures
        (v3(q.p0), v3(q.p1), v3(q.p2), v3(q.p3)) == face_outer_s(face),
        within3(v3(q.p0), 2 * FP),
        within3(v3(q.p1), 2 * FP),
        within3(v3(q.p2), 2 * FP),
        within3(v3(q.p3), 2 * FP),
{
    let g: i64 = FP;
    match face {
        FaceId::U => Quad3 {
            p0: (0, 0, 2 * g),
            p1: (2 * g, 0, 2 * g),
            p2: (2 * g, 2 * g, 2 * g),
            p3: (0, 2 * g, 2 * g),
        },
        FaceId::D => Quad3 {
            p0: (0, 2 * g, 0),
            p1: (2 * g, 2 * g, 0),
            p2: (2 * g, 0, 0),
            p3: (0, 0, 0),
        },
        FaceId::F => Quad3 {
            p0: (0, 0, 0),
            p1: (2 * g, 0, 0),
            p2: (2 * g, 0, 2 * g),
            p3: (0, 0, 2 * g),
        },
        FaceId::B => Quad3 {
            p0: (2 * g, 2 * g, 0),
            p1: (0, 2 * g, 0),
            p2: (0, 2 * g, 2 * g),
            p3: (2 * g, 2 * g, 2 * g),
        },
        FaceId::L => Quad3 {
            p0: (0, 0, 2 * g),
            p1: (0, 2 * g, 2 * g),
            p2: (0, 2 * g, 0),
            p3: (0, 0, 0),
        },
        FaceId::R => Quad3 {
            p0: (2 * g, 0, 0),
            p1: (2 * g, 2 * g, 0),
            p2: (2 * g, 2 * g, 2 * g),
            p3: (2 * g, 0, 2 * g),
        },
    }
}

/// A rotated point projected at unit size with the origin at zero:
/// visibility and depth depend on the orientation alone.
pub open spec fn proj_at_unit(p: (int, int, int), rz: RotZ, ry: RotY, rx: RotX) -> (int, int) {
    project_s(rotate_all_s(p, rz, ry, rx), FP as int, (0, 0))
}

/// Twice the signed area of the quadrilateral `a b c d` (shoelace formula).
pub open spec fn signed_area_s(a: (int, int), b: (int, int), c: (int, int), d: (int, int)) -> int {
    a.0 * b.1 - b.0 * a.1 + b.0 * c.1 - c.0 * b.1 + c.0 * d.1 - d.0 * c.1 + d.0 * a.1 - a.0 * d.1
}

/// Whether a face's outward normal points toward the viewer under the given
/// orientation: the projected outer polygon has negative signed area.
pub open spec fn face_visible_s(face: FaceId, rz: RotZ, rx: RotX, ry: RotY) -> bool {
    let q = face_outer_s(face);
    signed_area_s(
        proj_at_unit(q.0, rz, ry, rx),
        proj_at_unit(q.1, rz, ry, rx),
        proj_at_unit(q.2, rz, ry, rx),
        proj_at_unit(q.3, rz, ry, rx),
    ) < 0
}

/// A bound wide enough for every projected screen point in this module.
pub const PT2_BOUND: i64 = 1_014_000_000_000_000;

fn cross_term(a: (i64, i64), b: (i64, i64)) -> (r: i128)
    requires
        within2(v2(a), PT2_BOUND as int),
        within2(v2(b), PT2_BOUND as int),
    ensures
        r == a.0 as int * b.1 as int - b.0 as int * a.1 as int,
        -3_000_000_000_000_000_000_000_000_000_000 <= r
            <= 3_000_000_000_000_000_000_000_000_000_000,
{
    proof {
        lemma_mul_bound(a.0 as int, b.1 as int, PT2_BOUND as int, PT2_BOUND as int);
        lemma_mul_bound(b.0 as int, a.1 as int, PT2_BOUND as int, PT2_BOUND as int);
    }
    (a.0 as i128) * (b.1 as i128) - (b.0 as i128) * (a.1 as i128)
}

fn signed_area(a: (i64, i64), b: (i64, i64), c: (i64, i64), d: (i64, i64)) -> (r: i128)
    requires
        within2(v2(a), PT2_BOUND as int),
        within2(v2(b), PT2_BOUND as int),
        within2(v2(c), PT2_BOUND as int),
        within2(v2(d), PT2_BOUND as int),
    ensures
        r == signed_area_s(v2(a), v2(b), v2(c), v2(d)),
{
    cross_term(a, b) + cross_term(b, c) + cross_term(c, d) + cross_term(d, a)
}

/// Back-face test from the projected signed area.
pub fn face_visible(face: FaceId, rz: RotZ, rx: RotX, ry: RotY) -> (r: bool)
    requires
        rz.wf(),
        rx.wf(),
        ry.wf(),
    ensures
        r == face_visible_s(face, rz, rx, ry),
{
    let q = face_outer(face);
    let a3 = rotate_pt_all(q.p0, rz, ry, rx);
    let b3 = rotate_pt_all(q.p1, rz, ry, rx);
    let c3 = rotate_pt_all(q.p2, rz, ry, rx);
    let d3 = rotate_pt_all(q.p3, rz, ry, rx);
    let a = project(a3.0, a3.1, a3.2, FP, (0, 0));
    let b = project(b3.0, b3.1, b3.2, FP, (0, 0));
    let c = project(c3.0, c3.1, c3.2, FP, (0, 0));
    let d = project(d3.0, d3.1, d3.2, FP, (0, 0));
    let area = signed_area(a, b, c, d);
    area < 0
}

/// The geometric center of each face, in fixed-point object coordinates.
pub open spec fn face_center_s(face: FaceId) -> (int, int, int) {
    let g = FP as int;
    match face {
        FaceId::U => (g, g, 2 * g),
        FaceId::D => (g, g, 0),
        FaceId::F => (g, 0, g),
        FaceId::B => (g, 2 * g, g),
        FaceId::L => (0, g, g),
        FaceId::R => (2 * g, g, g),
    }
}

/// The painter's-algorithm key of a face under an orientation: the negated
/// projected Y of its rotated center. Faces are drawn in ascending key order.
/// Opaque: callers compare keys; what the key is stays behind `face_depth`.
#[verifier::opaque]
pub open spec fn face_depth_s(face: FaceId, rz: RotZ, rx: RotX, ry: RotY) -> int {
    -proj_at_unit(face_center_s(face), rz, ry, rx).1
}

/// Depth key for draw ordering (ascending = back to front).
pub fn face_depth(face: FaceId, rz: RotZ, rx: RotX, ry: RotY) -> (r: i64)
    requires
        rz.wf(),
        rx.wf(),
        ry.wf(),
    ensures
        r as int == face_depth_s(face, rz, rx, ry),
{
    let c0: (i64, i64, i64) = match face {
        FaceId::U => (FP, FP, 2 * FP),
        FaceId::D => (FP, FP, 0),
        FaceId::F => (FP, 0, FP),
        FaceId::B => (FP, 2 * FP, FP),
        FaceId::L => (0, FP, FP),
        FaceId::R => (2 * FP, FP, FP),
    };
    proof {
        reveal(face_depth_s);
    }
    let c = rotate_pt_all(c0, rz, ry, rx);
    let p = project(c.0, c.1, c.2, FP, (0, 0));
    -p.1
}

/// The raw 3D quad of the sticker cell at row `r`, column `c` of a face,
/// in the face's own reading order (row 0 = top, column 0 = left when
/// looking straight at the face).
pub open spec fn cell_quad_s(face: FaceId, r: int, c: int) -> (
    (int, int, int),
    (int, int, int),
    (int, int, int),
    (int, int, int),
) {
    let g = FP as int;
    let r0 = r * g;
    let r1 = (r + 1) * g;
    let c0 = c * g;
    let c1 = (c + 1) * g;
    let z0 = 2 * g - r0;
    let z1 = 2 * g - r1;
    match face {
        FaceId::U => ((c0, r0, 2 * g), (c1, r0, 2 * g), (c1, r1, 2 * g), (c0, r1, 2 * g)),
        FaceId::D => (
            (c0, 2 * g - r0, 0),
            (c1, 2 * g - r0, 0),
            (c1, 2 * g - r1, 0),
            (c0, 2 * g - r1, 0),
        ),
        FaceId::F => ((c0, 0, z0), (c1, 0, z0), (c1, 0, z1), (c0, 0, z1)),
        FaceId::B => (
            (2 * g - c0, 2 * g, z0),
            (2 * g - c1, 2 * g, z0),
            (2 * g - c1, 2 * g, z1),
            (2 * g - c0, 2 * g, z1),
        ),
        FaceId::L => (
            (0, 2 * g - c0, z0),
            (0, 2 * g - c1, z0),
            (0, 2 * g - c1, z1),
            (0, 2 * g - c0, z1),
        ),
        FaceId::R => ((2 * g, c0, z0), (2 * g, c1, z0), (2 * g, c1, z1), (2 * g, c0, z1)),
    }
}

/// The raw 3D quad for the sticker cell at row `r`, column `c` of a face.
pub fn cell_quad_raw(face: FaceId, r: usize, c: usize) -> (q: Quad3)
    requires
        r < 2,
        c < 2,
    ensures
        (v3(q.p0), v3(q.p1), v3(q.p2), v3(q.p3)) == cell_quad_s(face, r as int, c as int),
        within3(v3(q.p0), 2 * FP),
        within3(v3(q.p1), 2 * FP),
        within3(v3(q.p2), 2 * FP),
        within3(v3(q.p3), 2 * FP),
{
    let g: i64 = FP;
    let r0: i64 = (r as i64) * g;
    let r1: i64 = (r as i64 + 1) * g;
    let c0: i64 = (c as i64) * g;
    let c1: i64 = (c as i64 + 1) * g;
    let z0: i64 = 2 * g - r0;
    let z1: i64 = 2 * g - r1;
    match face {
        FaceId::U => Quad3 {
            p0: (c0, r0, 2 * g),
            p1: (c1, r0, 2 * g),
            p2: (c1, r1, 2 * g),
            p3: (c0, r1, 2 * g),
        },
        FaceId::D => Quad3 {
            p0: (c0, 2 * g - r0, 0),
            p1: (c1, 2 * g - r0, 0),
            p2: (c1, 2 * g - r1, 0),
            p3: (c0, 2 * g - r1, 0),
        },
        FaceId::F => Quad3 { p0: (c0, 0, z0), p1: (c1, 0, z0), p2: (c1, 0, z1), p3: (c0, 0, z1) },
        FaceId::B => Quad3 {
            p0: (2 * g - c0, 2 * g, z0),
            p1: (2 * g - c1, 2 * g, z0),
            p2: (2 * g - c1, 2 * g, z1),
            p3: (2 * g - c0, 2 * g, z1),
        },
        FaceId::L => Quad3 {
            p0: (0, 2 * g - c0, z0),
            p1: (0, 2 * g - c1, z0),
            p2: (0, 2 * g - c1, z1),
            p3: (0, 2 * g - c0, z1),
        },
        FaceId::R => Quad3 {
            p0: (2 * g, c0, z0),
            p1: (2 * g, c1, z0),
            p2: (2 * g, c1, z1),
            p3: (2 * g, c0, z1),
        },
    }
}

/// One point of a 2D quad pulled toward the centroid by fraction `k`.
pub open spec fn inset_pt_s(p: (int, int), cx: int, cy: int, k: int) -> (int, int) {
    (cx + mul_fp_s(p.0 - cx, FP as int - k), cy + mul_fp_s(p.1 - cy, FP as int - k))
}

/// A 2D quad inset toward its centroid by fraction `k` of each vertex's
/// offset (`k` in fixed-point, `0 <= k <= FP`).
pub open spec fn inset_polygon_s(q: (( int, int), (int, int), (int, int), (int, int)), k: int) -> (
    (int, int),
    (int, int),
    (int, int),
    (int, int),
) {
    let cx = tdiv(q.0.0 + q.1.0 + q.2.0 + q.3.0, 4);
    let cy = tdiv(q.0.1 + q.1.1 + q.2.1 + q.3.1, 4);
    (
        inset_pt_s(q.0, cx, cy, k),
        inset_pt_s(q.1, cx, cy, k),
        inset_pt_s(q.2, cx, cy, k),
        inset_pt_s(q.3, cx, cy, k),
    )
}

fn inset_pt(p: (i64, i64), cx: i64, cy: i64, k: i64) -> (r: (i64, i64))
    requires
        within2(v2(p), PT2_BOUND as int),
        -(PT2_BOUND as int) <= cx as int <= PT2_BOUND as int,
        -(PT2_BOUND as int) <= cy as int <= PT2_BOUND as int,
        0 <= k <= FP,
    ensures
        v2(r) == inset_pt_s(v2(p), cx as int, cy as int, k as int),
        within2(v2(r), 3 * PT2_BOUND as int),
{
    proof {
        lemma_mul_bound(p.0 as int - cx as int, FP as int - k as int, 2 * PT2_BOUND as int, FP as int);
        lemma_mul_bound(p.1 as int - cy as int, FP as int - k as int, 2 * PT2_BOUND as int, FP as int);
        lemma_tdiv_bound((p.0 as int - cx as int) * (FP as int - k as int), FP as int, 2 * PT2_BOUND as int);
        lemma_tdiv_bound((p.1 as int - cy as int) * (FP as int - k as int), FP as int, 2 * PT2_BOUND as int);
    }
    (cx + mul_fp(p.0 - cx, FP - k), cy + mul_fp(p.1 - cy, FP - k))
}

/// Inset a 2D quad toward its centroid by fraction `k` (fixed-point,
/// `0 <= k <= FP`).
pub fn inset_polygon(pts: &Quad2, k: i64) -> (r: Quad2)
    requires
        within2(v2(pts.p0), PT2_BOUND as int),
        within2(v2(pts.p1), PT2_BOUND as int),
        within2(v2(pts.p2), PT2_BOUND as int),
        within2(v2(pts.p3), PT2_BOUND as int),
        0 <= k <= FP,
    ensures
        (v2(r.p0), v2(r.p1), v2(r.p2), v2(r.p3)) == inset_polygon_s(
            (v2(pts.p0), v2(pts.p1), v2(pts.p2), v2(pts.p3)),
            k as int,
        ),
{
    proof {
        lemma_tdiv_bound(
            pts.p0.0 as int + pts.p1.0 as int + pts.p2.0 as int + pts.p3.0 as int,
            4,
            PT2_BOUND as int,
        );
        lemma_tdiv_bound(
            pts.p0.1 as int + pts.p1.1 as int + pts.p2.1 as int + pts.p3.1 as int,
            4,
            PT2_BOUND as int,
        );
    }
    let cx = (pts.p0.0 + pts.p1.0 + pts.p2.0 + pts.p3.0) / 4;
    let cy = (pts.p0.1 + pts.p1.1 + pts.p2.1 + pts.p3.1) / 4;
    Quad2 {
        p0: inset_pt(pts.p0, cx, cy, k),
        p1: inset_pt(pts.p1, cx, cy, k),
        p2: inset_pt(pts.p2, cx, cy, k),
        p3: inset_pt(pts.p3, cx, cy, k),
    }
}

/// The `i`-th of the 8 cube corners in object space.
pub open spec fn corner_s(i: int) -> (int, int, int) {
    let g = FP as int;
    if i == 0 {
        (0, 0, 0)
    } else if i == 1 {
        (2 * g, 0, 0)
    } else if i == 2 {
        (0, 2 * g, 0)
    } else if i == 3 {
        (2 * g, 2 * g, 0)
    } else if i == 4 {
        (0, 0, 2 * g)
    } else if i == 5 {
        (2 * g, 0, 2 * g)
    } else if i == 6 {
        (0, 2 * g, 2 * g)
    } else {
        (2 * g, 2 * g, 2 * g)
    }
}

/// The `i`-th of the 8 corners of the 2×2×2 cube in object space.
pub fn cube_corner(i: usize) -> (p: (i64, i64, i64))
    requires
        i < 8,
    ensures
        v3(p) == corner_s(i as int),
        within3(v3(p), 2 * FP),
{
    let g: i64 = FP;
    if i == 0 {
        (0, 0, 0)
    } else if i == 1 {
        (2 * g, 0, 0)
    } else if i == 2 {
        (0, 2 * g, 0)
    } else if i == 3 {
        (2 * g, 2 * g, 0)
    } else if i == 4 {
        (0, 0, 2 * g)
    } else if i == 5 {
        (2 * g, 0, 2 * g)
    } else if i == 6 {
        (0, 2 * g, 2 * g)
    } else {
        (2 * g, 2 * g, 2 * g)
    }
}

/// The identity rotation about Z: angle 0.
pub open spec fn rot_z_zero() -> RotZ {
    RotZ { c: FP, s: 0 }
}

/// The identity rotation about Y: angle 0.
pub open spec fn rot_y_zero() -> RotY {
    RotY { c: FP, s: 0 }
}

/// The identity rotation about X: angle 0.
pub open spec fn rot_x_zero() -> RotX {
    RotX { c: FP, s: 0 }
}

/// A half turn about X: angle 180°.
pub open spec fn rot_x_half() -> RotX {
    RotX { c: (-10_000_000) as i64, s: 0 }
}

/// Visibility sanity: with all angles at 0° the front face is visible and
/// the back face is not; with the X angle at 180° the front face is hidden
/// and the back face shows.
#[verifier::rlimit(100)]
pub proof fn lemma_front_back_visibility()
    ensures
        face_visible_s(FaceId::F, rot_z_zero(), rot_x_zero(), rot_y_zero()),
        !face_visible_s(FaceId::B, rot_z_zero(), rot_x_zero(), rot_y_zero()),
        !face_visible_s(FaceId::F, rot_z_zero(), rot_x_half(), rot_y_zero()),
        face_visible_s(FaceId::B, rot_z_zero(), rot_x_half(), rot_y_zero()),
{
    let rz = rot_z_zero();
    let ry = rot_y_zero();
    let rx = rot_x_zero();
    let rh = rot_x_half();
    let qf = face_outer_s(FaceId::F);
    assert(proj_at_unit(qf.0, rz, ry, rx) == (0int, 0int));
    assert(proj_at_unit(qf.1, rz, ry, rx) == (17320508int, -10000000int));
    assert(proj_at_unit(qf.2, rz, ry, rx) == (17320508int, -30000000int));
    assert(proj_at_unit(qf.3, rz, ry, rx) == (0int, -20000000int));
    let qb = face_outer_s(FaceId::B);
    assert(proj_at_unit(qb.0, rz, ry, rx) == (0int, -20000000int));
    assert(proj_at_unit(qb.1, rz, ry, rx) == (-17320508int, -10000000int));
    assert(proj_at_unit(qb.2, rz, ry, rx) == (-17320508int, -30000000int));
    assert(proj_at_unit(qb.3, rz, ry, rx) == (0int, -40000000int));
    assert(proj_at_unit(qf.0, rz, ry, rh) == (-17320508int, -30000000int));
    assert(proj_at_unit(qf.1, rz, ry, rh) == (0int, -40000000int));
    assert(proj_at_unit(qf.2, rz, ry, rh) == (0int, -20000000int));
    assert(proj_at_unit(qf.3, rz, ry, rh) == (-17320508int, -10000000int));
    assert(proj_at_unit(qb.0, rz, ry, rh) == (17320508int, -30000000int));
    assert(proj_at_unit(qb.1, rz, ry, rh) == (0int, -20000000int));
    assert(proj_at_unit(qb.2, rz, ry, rh) == (0int, 0int));
    assert(proj_at_unit(qb.3, rz, ry, rh) == (17320508int, -10000000int));
    assert(signed_area_s(
        (0int, 0int),
        (17320508int, -10000000int),
        (17320508int, -30000000int),
        (0int, -20000000int),
    ) < 0) by (nonlinear_arith);
    assert(signed_area_s(
        (0int, -20000000int),
        (-17320508int, -10000000int),
        (-17320508int, -30000000int),
        (0int, -40000000int),
    ) >= 0) by (nonlinear_arith);
    assert(signed_area_s(
        (-17320508int, -30000000int),
        (0int, -40000000int),
        (0int, -20000000int),
        (-17320508int, -10000000int),
    ) >= 0) by (nonlinear_arith);
    assert(signed_area_s(
        (17320508int, -30000000int),
        (0int, -20000000int),
        (0int, 0int),
        (17320508int, -10000000int),
    ) < 0) by (nonlinear_arith);
}

} // verus!
