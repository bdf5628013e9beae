//! Draw-order and per-face polygon assembly: which faces to paint, in what
//! order, and the screen quads for a face's plastic base and its four
//! stickers.

use vstd::prelude::*;

use crate::cube::Col;
use crate::cube::Face;
use crate::cube::FaceId;
use crate::geom::FP;
use crate::geom::ORIGIN_BOUND;
use crate::geom::RotX;
use crate::geom::RotY;
use crate::geom::RotZ;
use crate::geom::SIZE_BOUND;
use crate::geom::Quad2;
use crate::geom::cell_quad_raw;
use crate::geom::cell_quad_s;
use crate::geom::face_depth;
use crate::geom::face_depth_s;
use crate::geom::face_outer;
use crate::geom::face_outer_s;
use crate::geom::face_visible;
use crate::geom::face_visible_s;
use crate::geom::inset_polygon;
use crate::geom::inset_polygon_s;
use crate::geom::mul_fp;
use crate::geom::mul_fp_s;
use crate::geom::project;
use crate::geom::project_s;
use crate::geom::rotate_all_s;
use crate::geom::rotate_pt_all;
use crate::geom::v2;
use crate::geom::within2;

verus! {

/// The fixed enumeration index of a face, the draw-order tie-breaker.
pub open spec fn face_idx_s(f: FaceId) -> int {
    match f {
        FaceId::U => 0,
        FaceId::D => 1,
        FaceId::F => 2,
        FaceId::B => 3,
        FaceId::L => 4,
        FaceId::R => 5,
    }
}

/// The fixed enumeration index of a face.
pub fn face_index(f: FaceId) -> (r: usize)
    ensures
        r as int == face_idx_s(f),
        r < 6,
{
    match f {
        FaceId::U => 0,
        FaceId::D => 1,
        FaceId::F => 2,
        FaceId::B => 3,
        FaceId::L => 4,
        FaceId::R => 5,
    }
}

/// Face `a` is painted strictly before face `b`: its depth key is smaller,
/// or the keys tie and `a` comes first in the enumeration order.
pub open spec fn draw_before(a: FaceId, b: FaceId, rz: RotZ, rx: RotX, ry: RotY) -> bool {
    ||| face_depth_s(a, rz, rx, ry) < face_depth_s(b, rz, rx, ry)
    ||| (face_depth_s(a, rz, rx, ry) == face_depth_s(b, rz, rx, ry) && face_idx_s(a) < face_idx_s(
        b,
    ))
}

fn draw_before_ex(a: FaceId, b: FaceId, rz: RotZ, rx: RotX, ry: RotY) -> (r: bool)
    requires
        rz.wf(),
        rx.wf(),
        ry.wf(),
    ensures
        r == draw_before(a, b, rz, rx, ry),
{
    let da = face_depth(a, rz, rx, ry);
    let db = face_depth(b, rz, rx, ry);
    if da < db {
        true
    } else if da == db {
        face_index(a) < face_index(b)
    } else {
        false
    }
}

/// The six faces ordered back to front for the painter's algorithm:
/// ascending depth key, ties broken by the enumeration order. The strict
/// order and the presence of all six faces pin the sequence completely.
pub fn faces_by_depth(rz: RotZ, rx: RotX, ry: RotY) -> (r: Vec<FaceId>)
    requires
        rz.wf(),
        rx.wf(),
        ry.wf(),
    ensures
        r@.len() == 6,
        forall|i: int, j: int|
            0 <= i < j < 6 ==> draw_before(#[trigger] r@[i], #[trigger] r@[j], rz, rx, ry),
        forall|f: FaceId| r@.contains(f),
{
    let mut v: Vec<FaceId> = Vec::new();
    v.push(FaceId::U);
    v.push(FaceId::D);
    v.push(FaceId::F);
    v.push(FaceId::B);
    v.push(FaceId::L);
    v.push(FaceId::R);
    proof {
        assert(v@[0] == FaceId::U);
        assert(v@[1] == FaceId::D);
        assert(v@[2] == FaceId::F);
        assert(v@[3] == FaceId::B);
        assert(v@[4] == FaceId::L);
        assert(v@[5] == FaceId::R);
        assert(forall|f: FaceId| v@.contains(f)) by {
            assert forall|f: FaceId| v@.contains(f) by {
                match f {
                    FaceId::U => assert(v@[0] == f),
                    FaceId::D => assert(v@[1] == f),
                    FaceId::F => assert(v@[2] == f),
                    FaceId::B => assert(v@[3] == f),
                    FaceId::L => assert(v@[4] == f),
                    FaceId::R => assert(v@[5] == f),
                }
            }
        }
    }
    let mut i: usize = 1;
    while i < 6
        invariant
            1 <= i <= 6,
            v@.len() == 6,
            rz.wf(),
            rx.wf(),
            ry.wf(),
            forall|p: int, q: int|
                0 <= p < q < i ==> !draw_before(#[trigger] v@[q], #[trigger] v@[p], rz, rx, ry),
            forall|p: int, q: int| 0 <= p < q < 6 ==> v@[p] != v@[q],
            forall|f: FaceId| v@.contains(f),
        decreases 6 - i,
    {
        let mut j: usize = i;
        loop
            invariant
                0 <= j <= i < 6,
                v@.len() == 6,
                rz.wf(),
                rx.wf(),
                ry.wf(),
                forall|p: int, q: int|
                    0 <= p < q <= i && q != j ==> !draw_before(
                        #[trigger] v@[q],
                        #[trigger] v@[p],
                        rz,
                        rx,
                        ry,
                    ),
                forall|p: int, q: int| 0 <= p < q < 6 ==> v@[p] != v@[q],
                forall|f: FaceId| v@.contains(f),
            ensures
                0 <= j <= i,
                v@.len() == 6,
                forall|p: int, q: int|
                    0 <= p < q <= i && q != j ==> !draw_before(
                        #[trigger] v@[q],
                        #[trigger] v@[p],
                        rz,
                        rx,
                        ry,
                    ),
                j > 0 ==> !draw_before(v@[j as int], v@[j - 1], rz, rx, ry),
                forall|p: int, q: int| 0 <= p < q < 6 ==> v@[p] != v@[q],
                forall|f: FaceId| v@.contains(f),
            decreases j,
        {
            if j == 0 {
                break ;
            }
            let a = v[j];
            let b = v[j - 1];
            if draw_before_ex(a, b, rz, rx, ry) {
                let ghost oldv = v@;
                v.set(j, b);
                v.set(j - 1, a);
                proof {
                    assert(v@ == oldv.update(j as int, b).update(j as int - 1, a));
                    assert forall|f: FaceId| v@.contains(f) by {
                        assert(oldv.contains(f));
                        let p = choose|p: int| 0 <= p < oldv.len() && oldv[p] == f;
                        if p == j as int {
                            assert(v@[j as int - 1] == f);
                        } else if p == j as int - 1 {
                            assert(v@[j as int] == f);
                        } else {
                            assert(v@[p] == f);
                        }
                    }
                }
                j = j - 1;
            } else {
                break ;
            }
        }
        i = i + 1;
        proof {
            assert forall|p: int, q: int|
                0 <= p < q < i implies !draw_before(
                #[trigger] v@[q],
                #[trigger] v@[p],
                rz,
                rx,
                ry,
            ) by {
                if q == j && j > 0 && p < j - 1 {
                    assert(!draw_before(v@[j - 1], v@[p], rz, rx, ry));
                    assert(!draw_before(v@[j as int], v@[j - 1], rz, rx, ry));
                }
            }
        }
    }
    proof {
        assert forall|i2: int, j2: int|
            0 <= i2 < j2 < 6 implies draw_before(
            #[trigger] v@[i2],
            #[trigger] v@[j2],
            rz,
            rx,
            ry,
        ) by {
            assert(v@[i2] != v@[j2]);
            assert(!draw_before(v@[j2], v@[i2], rz, rx, ry));
            assert(face_idx_s(v@[i2]) != face_idx_s(v@[j2])) by {
                let a = v@[i2];
                let b = v@[j2];
                if a != b {
                    assert(face_idx_s(a) != face_idx_s(b)) by {
                        match a {
                            FaceId::U => {},
                            FaceId::D => {},
                            FaceId::F => {},
                            FaceId::B => {},
                            FaceId::L => {},
                            FaceId::R => {},
                        }
                    }
                }
            }
        }
    }
    v
}

/// The sticker inset fraction for a view size: 9% of the way to the cell's
/// centroid at size 24, growing 0.2% per size unit, kept within 9%..14%.
pub open spec fn inset_k_s(size: int) -> int {
    let raw = 900_000 + mul_fp_s(size - 24 * FP, 20_000);
    if raw < 900_000 {
        900_000
    } else if raw > 1_400_000 {
        1_400_000
    } else {
        raw
    }
}

fn inset_k(size: i64) -> (r: i64)
    requires
        0 <= size <= SIZE_BOUND,
    ensures
        r as int == inset_k_s(size as int),
        900_000 <= r <= 1_400_000,
{
    proof {
        crate::geom::lemma_mul_bound(
            size as int - 24 * FP,
            20_000,
            SIZE_BOUND as int + 24 * FP,
            20_000,
        );
        crate::geom::lemma_tdiv_bound(
            (size as int - 24 * FP) * 20_000,
            FP as int,
            SIZE_BOUND as int,
        );
    }
    let raw = 900_000 + mul_fp(size - 24 * FP, 20_000);
    if raw < 900_000 {
        900_000
    } else if raw > 1_400_000 {
        1_400_000
    } else {
        raw
    }
}

/// The mathematical value of a screen quad.
pub open spec fn quad2v(q: Quad2) -> ((int, int), (int, int), (int, int), (int, int)) {
    (v2(q.p0), v2(q.p1), v2(q.p2), v2(q.p3))
}

/// A face's outer polygon rotated and projected into screen space.
pub open spec fn outer_poly_s(
    which: FaceId,
    origin: (int, int),
    size: int,
    rz: RotZ,
    rx: RotX,
    ry: RotY,
) -> ((int, int), (int, int), (int, int), (int, int)) {
    let q = face_outer_s(which);
    (
        project_s(rotate_all_s(q.0, rz, ry, rx), size, origin),
        project_s(rotate_all_s(q.1, rz, ry, rx), size, origin),
        project_s(rotate_all_s(q.2, rz, ry, rx), size, origin),
        project_s(rotate_all_s(q.3, rz, ry, rx), size, origin),
    )
}

/// A sticker cell's quad rotated, projected, and inset toward its centroid.
pub open spec fn sticker_poly_s(
    which: FaceId,
    r: int,
    c: int,
    origin: (int, int),
    size: int,
    rz: RotZ,
    rx: RotX,
    ry: RotY,
) -> ((int, int), (int, int), (int, int), (int, int)) {
    let q = cell_quad_s(which, r, c);
    inset_polygon_s(
        (
            project_s(rotate_all_s(q.0, rz, ry, rx), size, origin),
            project_s(rotate_all_s(q.1, rz, ry, rx), size, origin),
            project_s(rotate_all_s(q.2, rz, ry, rx), size, origin),
            project_s(rotate_all_s(q.3, rz, ry, rx), size, origin),
        ),
        inset_k_s(size),
    )
}

/// One sticker ready to paint: its color and its screen quad.
#[derive(Debug, Clone, Copy)]
pub struct StickerPoly {
    pub color: Col,
    pub quad: Quad2,
}

/// Everything needed to paint one visible face: the plastic base polygon and
/// the four stickers in reading order (row 0 first).
#[derive(Debug, Clone, Copy)]
pub struct FacePolys {
    pub outer: Quad2,
    pub s00: StickerPoly,
    pub s01: StickerPoly,
    pub s10: StickerPoly,
    pub s11: StickerPoly,
}

fn project_quad(q: crate::geom::Quad3, origin: (i64, i64), size: i64, rz: RotZ, rx: RotX, ry: RotY) -> (r: Quad2)
    requires
        rz.wf(),
        rx.wf(),
        ry.wf(),
        0 <= size <= SIZE_BOUND,
        within2(v2(origin), ORIGIN_BOUND as int),
        crate::geom::within3(crate::geom::v3(q.p0), 3 * FP),
        crate::geom::within3(crate::geom::v3(q.p1), 3 * FP),
        crate::geom::within3(crate::geom::v3(q.p2), 3 * FP),
        crate::geom::within3(crate::geom::v3(q.p3), 3 * FP),
    ensures
        quad2v(r) == (
            project_s(rotate_all_s(crate::geom::v3(q.p0), rz, ry, rx), size as int, v2(origin)),
            project_s(rotate_all_s(crate::geom::v3(q.p1), rz, ry, rx), size as int, v2(origin)),
            project_s(rotate_all_s(crate::geom::v3(q.p2), rz, ry, rx), size as int, v2(origin)),
            project_s(rotate_all_s(crate::geom::v3(q.p3), rz, ry, rx), size as int, v2(origin)),
        ),
        within2(v2(r.p0), crate::geom::PT2_BOUND as int),
        within2(v2(r.p1), crate::geom::PT2_BOUND as int),
        within2(v2(r.p2), crate::geom::PT2_BOUND as int),
        within2(v2(r.p3), crate::geom::PT2_BOUND as int),
{
    let a3 = rotate_pt_all(q.p0, rz, ry, rx);
    let b3 = rotate_pt_all(q.p1, rz, ry, rx);
    let c3 = rotate_pt_all(q.p2, rz, ry, rx);
    let d3 = rotate_pt_all(q.p3, rz, ry, rx);
    Quad2 {
        p0: project(a3.0, a3.1, a3.2, size, origin),
        p1: project(b3.0, b3.1, b3.2, size, origin),
        p2: project(c3.0, c3.1, c3.2, size, origin),
        p3: project(d3.0, d3.1, d3.2, size, origin),
    }
}

/// The polygons to paint for one face of the cube under one view: `None`
/// when the face is back-facing (nothing is painted), else the plastic base
/// quad and the four inset sticker quads with their colors.
pub fn face_polygons(
    face: &Face,
    which: FaceId,
    origin: (i64, i64),
    size: i64,
    rz: RotZ,
    rx: RotX,
    ry: RotY,
) -> (r: Option<FacePolys>)
    requires
        rz.wf(),
        rx.wf(),
        ry.wf(),
        0 <= size <= SIZE_BOUND,
        within2(v2(origin), ORIGIN_BOUND as int),
    ensures
        r is Some <==> face_visible_s(which, rz, rx, ry),
        r matches Some(fp) ==> {
            &&& quad2v(fp.outer) == outer_poly_s(which, v2(origin), size as int, rz, rx, ry)
            &&& fp.s00.color == face.at_spec(0, 0)
            &&& fp.s01.color == face.at_spec(0, 1)
            &&& fp.s10.color == face.at_spec(1, 0)
            &&& fp.s11.color == face.at_spec(1, 1)
            &&& quad2v(fp.s00.quad) == sticker_poly_s(which, 0, 0, v2(origin), size as int, rz, rx, ry)
            &&& quad2v(fp.s01.quad) == sticker_poly_s(which, 0, 1, v2(origin), size as int, rz, rx, ry)
            &&& quad2v(fp.s10.quad) == sticker_poly_s(which, 1, 0, v2(origin), size as int, rz, rx, ry)
            &&& quad2v(fp.s11.quad) == sticker_poly_s(which, 1, 1, v2(origin), size as int, rz, rx, ry)
        },
{
    if !face_visible(which, rz, rx, ry) {
        return None;
    }
    let k = inset_k(size);
    let outer = project_quad(face_outer(which), origin, size, rz, rx, ry);
    let q00 = project_quad(cell_quad_raw(which, 0, 0), origin, size, rz, rx, ry);
    let q01 = project_quad(cell_quad_raw(which, 0, 1), origin, size, rz, rx, ry);
    let q10 = project_quad(cell_quad_raw(which, 1, 0), origin, size, rz, rx, ry);
    let q11 = project_quad(cell_quad_raw(which, 1, 1), origin, size, rz, rx, ry);
    Some(
        FacePolys {
            outer,
            s00: StickerPoly { color: face.at(0, 0), quad: inset_polygon(&q00, k) },
            s01: StickerPoly { color: face.at(0, 1), quad: inset_polygon(&q01, k) },
            s10: StickerPoly { color: face.at(1, 0), quad: inset_polygon(&q10, k) },
            s11: StickerPoly { color: face.at(1, 1), quad: inset_polygon(&q11, k) },
        },
    )
}

} // verus!
