//! Canvas layout for the two cube views: initial horizontal placement, and a
//! per-redraw vertical fit that keeps both projected cubes inside the
//! viewport's margins.

use vstd::prelude::*;

use crate::geom::FP;
use crate::geom::ORIGIN_BOUND;
use crate::geom::RotX;
use crate::geom::RotY;
use crate::geom::RotZ;
use crate::geom::SIZE_BOUND;
use crate::geom::corner_s;
use crate::geom::cube_corner;
use crate::geom::mul_fp;
use crate::geom::mul_fp_s;
use crate::geom::project;
use crate::geom::project_s;
use crate::geom::rotate_all_s;
use crate::geom::rotate_pt_all;
use crate::geom::tdiv;
use vstd::arithmetic::div_mod::lemma_div_by_multiple;
use vstd::arithmetic::div_mod::lemma_div_is_ordered;
use vstd::arithmetic::div_mod::lemma_div_pos_is_pos;
use crate::geom::v2;
use crate::geom::within2;

verus! {

/// A viewport rectangle in fixed-point screen coordinates.
#[derive(Debug, Clone, Copy)]
pub struct Rect {
    pub x: i64,
    pub y: i64,
    pub w: i64,
    pub h: i64,
}

/// A sane viewport dimension: at most a hundred thousand pixels.
pub const VIEWPORT_BOUND: i64 = 1_000_000_000_000;

impl Rect {
    /// A viewport within sane screen bounds.
    pub open spec fn wf(self) -> bool {
        &&& -(VIEWPORT_BOUND as int) <= self.x as int <= VIEWPORT_BOUND as int
        &&& -(VIEWPORT_BOUND as int) <= self.y as int <= VIEWPORT_BOUND as int
        &&& 0 <= self.w as int <= VIEWPORT_BOUND as int
        &&& 0 <= self.h as int <= VIEWPORT_BOUND as int
    }
}

/// Everything one view needs: the orientation (as fixed-point cosine/sine
/// pairs), the screen origin, and the scale in pixels per object unit.
#[derive(Debug, Clone, Copy)]
pub struct ViewParams {
    pub rz: RotZ,
    pub rx: RotX,
    pub ry: RotY,
    pub origin: (i64, i64),
    pub size: i64,
}

impl ViewParams {
    /// Well-formed view parameters: unit-bounded trig pairs, a sane origin
    /// and a sane size.
    pub open spec fn wf(self) -> bool {
        &&& self.rz.wf()
        &&& self.rx.wf()
        &&& self.ry.wf()
        &&& within2(v2(self.origin), ORIGIN_BOUND as int)
        &&& 0 <= self.size as int <= SIZE_BOUND as int
    }
}

/// The smaller of two integers.
pub open spec fn imin(a: int, b: int) -> int {
    if a <= b {
        a
    } else {
        b
    }
}

/// The larger of two integers.
pub open spec fn imax(a: int, b: int) -> int {
    if a >= b {
        a
    } else {
        b
    }
}

/// `x` limited to `[lo, hi]` (meaningful when `lo <= hi`).
pub open spec fn iclamp(x: int, lo: int, hi: int) -> int {
    if x < lo {
        lo
    } else if x > hi {
        hi
    } else {
        x
    }
}

/// The vertical center bias: both views sit at 48% of the viewport height,
/// a little above the true middle, to leave visual breathing room.
pub const VCENTER_BIAS: i64 = 4_800_000;

/// The gap between the two origins grows as 30% of the viewport width ...
pub const GAP_WIDTH_FRAC: i64 = 3_000_000;

/// ... plus one cube size, ...
pub const GAP_MIN_PER_SIZE: i64 = 26_000_000;

/// ... clamped between 2.6 cube sizes and 60% of the viewport width.
pub const GAP_MAX_FRAC: i64 = 6_000_000;

/// Initial placement: two origins symmetric about the horizontal center, at
/// the biased vertical center, separated by the clamped gap.
pub open spec fn layout_origins_s(bounds: Rect, size: int) -> ((int, int), (int, int)) {
    let mid_x = bounds.x + tdiv(bounds.w as int, 2);
    let center_y = bounds.y + mul_fp_s(bounds.h as int, VCENTER_BIAS as int);
    let min_gap = mul_fp_s(size, GAP_MIN_PER_SIZE as int);
    let max_gap = mul_fp_s(bounds.w as int, GAP_MAX_FRAC as int);
    let gap = iclamp(mul_fp_s(bounds.w as int, GAP_WIDTH_FRAC as int) + size, min_gap, max_gap);
    let half = tdiv(gap, 2);
    ((mid_x - half, center_y), (mid_x + half, center_y))
}

/// Initial horizontal placement + vertical center line for the two views.
pub fn layout_origins(bounds: Rect, size: i64) -> (r: ((i64, i64), (i64, i64)))
    requires
        bounds.wf(),
        0 <= size <= SIZE_BOUND,
        mul_fp_s(size as int, GAP_MIN_PER_SIZE as int) <= mul_fp_s(
            bounds.w as int,
            GAP_MAX_FRAC as int,
        ),
    ensures
        (v2(r.0), v2(r.1)) == layout_origins_s(bounds, size as int),
        within2(v2(r.0), 3 * VIEWPORT_BOUND as int),
        within2(v2(r.1), 3 * VIEWPORT_BOUND as int),
{
    proof {
        assert(size as int * GAP_MIN_PER_SIZE as int >= 0) by (nonlinear_arith)
            requires size >= 0;
        lemma_div_pos_is_pos(size as int * GAP_MIN_PER_SIZE as int, FP as int);
        crate::geom::lemma_mul_bound(bounds.h as int, VCENTER_BIAS as int, VIEWPORT_BOUND as int, VCENTER_BIAS as int);
        crate::geom::lemma_mul_bound(size as int, GAP_MIN_PER_SIZE as int, SIZE_BOUND as int, GAP_MIN_PER_SIZE as int);
        crate::geom::lemma_mul_bound(bounds.w as int, GAP_MAX_FRAC as int, VIEWPORT_BOUND as int, GAP_MAX_FRAC as int);
        crate::geom::lemma_mul_bound(bounds.w as int, GAP_WIDTH_FRAC as int, VIEWPORT_BOUND as int, GAP_WIDTH_FRAC as int);
    }
    let mid_x = bounds.x + bounds.w / 2;
    let center_y = bounds.y + mul_fp(bounds.h, VCENTER_BIAS);
    let min_gap = mul_fp(size, GAP_MIN_PER_SIZE);
    let max_gap = mul_fp(bounds.w, GAP_MAX_FRAC);
    let gap0 = mul_fp(bounds.w, GAP_WIDTH_FRAC) + size;
    let gap = if gap0 < min_gap {
        min_gap
    } else if gap0 > max_gap {
        max_gap
    } else {
        gap0
    };
    let half = gap / 2;
    ((mid_x - half, center_y), (mid_x + half, center_y))
}

/// The projected screen Y of cube corner `i` under one view.
pub open spec fn proj_corner_y_s(vp: ViewParams, i: int) -> int {
    project_s(rotate_all_s(corner_s(i), vp.rz, vp.ry, vp.rx), vp.size as int, v2(vp.origin)).1
}

fn proj_corner_y(vp: &ViewParams, i: usize) -> (r: i64)
    requires
        vp.wf(),
        i < 8,
    ensures
        r as int == proj_corner_y_s(*vp, i as int),
        vp.origin.1 - 150_000_000_000 <= r <= vp.origin.1 + 150_000_000_000,
{
    let p = cube_corner(i);
    let q = rotate_pt_all(p, vp.rz, vp.ry, vp.rx);
    let pr = project(q.0, q.1, q.2, vp.size, vp.origin);
    pr.1
}

/// The lowest projected screen Y among the 8 cube corners of one view.
pub open spec fn min_y_s(vp: ViewParams) -> int {
    imin(
        imin(
            imin(proj_corner_y_s(vp, 0), proj_corner_y_s(vp, 1)),
            imin(proj_corner_y_s(vp, 2), proj_corner_y_s(vp, 3)),
        ),
        imin(
            imin(proj_corner_y_s(vp, 4), proj_corner_y_s(vp, 5)),
            imin(proj_corner_y_s(vp, 6), proj_corner_y_s(vp, 7)),
        ),
    )
}

/// The highest projected screen Y among the 8 cube corners of one view.
pub open spec fn max_y_s(vp: ViewParams) -> int {
    imax(
        imax(
            imax(proj_corner_y_s(vp, 0), proj_corner_y_s(vp, 1)),
            imax(proj_corner_y_s(vp, 2), proj_corner_y_s(vp, 3)),
        ),
        imax(
            imax(proj_corner_y_s(vp, 4), proj_corner_y_s(vp, 5)),
            imax(proj_corner_y_s(vp, 6), proj_corner_y_s(vp, 7)),
        ),
    )
}

fn min_i64(a: i64, b: i64) -> (r: i64)
    ensures
        r as int == imin(a as int, b as int),
{
    if a <= b {
        a
    } else {
        b
    }
}

fn max_i64(a: i64, b: i64) -> (r: i64)
    ensures
        r as int == imax(a as int, b as int),
{
    if a >= b {
        a
    } else {
        b
    }
}

/// The lowest projected Y of a view's 8 cube corners.
pub fn min_projected_y(vp: &ViewParams) -> (r: i64)
    requires
        vp.wf(),
    ensures
        r as int == min_y_s(*vp),
        vp.origin.1 - 150_000_000_000 <= r <= vp.origin.1 + 150_000_000_000,
{
    let y0 = proj_corner_y(vp, 0);
    let y1 = proj_corner_y(vp, 1);
    let y2 = proj_corner_y(vp, 2);
    let y3 = proj_corner_y(vp, 3);
    let y4 = proj_corner_y(vp, 4);
    let y5 = proj_corner_y(vp, 5);
    let y6 = proj_corner_y(vp, 6);
    let y7 = proj_corner_y(vp, 7);
    min_i64(
        min_i64(min_i64(y0, y1), min_i64(y2, y3)),
        min_i64(min_i64(y4, y5), min_i64(y6, y7)),
    )
}

/// The highest projected Y of a view's 8 cube corners.
pub fn max_projected_y(vp: &ViewParams) -> (r: i64)
    requires
        vp.wf(),
    ensures
        r as int == max_y_s(*vp),
        vp.origin.1 - 150_000_000_000 <= r <= vp.origin.1 + 150_000_000_000,
{
    let y0 = proj_corner_y(vp, 0);
    let y1 = proj_corner_y(vp, 1);
    let y2 = proj_corner_y(vp, 2);
    let y3 = proj_corner_y(vp, 3);
    let y4 = proj_corner_y(vp, 4);
    let y5 = proj_corner_y(vp, 5);
    let y6 = proj_corner_y(vp, 6);
    let y7 = proj_corner_y(vp, 7);
    max_i64(
        max_i64(max_i64(y0, y1), max_i64(y2, y3)),
        max_i64(max_i64(y4, y5), max_i64(y6, y7)),
    )
}

/// The vertical margin kept between the projected cubes and the viewport's
/// top and bottom edges: 8 pixels.
pub const FIT_MARGIN: i64 = 80_000_000;

/// The vertical shift `fit_vertically` applies to both views: move the
/// combined bounding box's center to the biased viewport center, clamped so
/// the box keeps the margin at the top and bottom. When the box is taller
/// than the viewport minus margins (no shift can satisfy both), the middle
/// of the two clamp bounds splits the overflow evenly: the least-violating
/// placement.
pub open spec fn fit_dy_s(bounds: Rect, l: ViewParams, r: ViewParams) -> int {
    let min_all = imin(min_y_s(l), min_y_s(r));
    let max_all = imax(max_y_s(l), max_y_s(r));
    let center = tdiv(min_all + max_all, 2);
    let desired = bounds.y + mul_fp_s(bounds.h as int, VCENTER_BIAS as int);
    let lo = bounds.y + FIT_MARGIN - min_all;
    let hi = bounds.y + bounds.h - FIT_MARGIN - max_all;
    if lo <= hi {
        iclamp(desired - center, lo, hi)
    } else {
        tdiv(lo + hi, 2)
    }
}

/// Shift both origins vertically so the pair stays centered and, when it
/// fits, within the 8-pixel top/bottom margins. Only the Y coordinates move.
#[verifier::rlimit(100)]
pub fn fit_vertically(bounds: Rect, left: &mut ViewParams, right: &mut ViewParams)
    requires
        bounds.wf(),
        old(left).wf(),
        old(right).wf(),
        within2(v2(old(left).origin), 4 * VIEWPORT_BOUND as int),
        within2(v2(old(right).origin), 4 * VIEWPORT_BOUND as int),
    ensures
        final(left).origin.1 as int == old(left).origin.1 as int + fit_dy_s(
            bounds,
            *old(left),
            *old(right),
        ),
        final(right).origin.1 as int == old(right).origin.1 as int + fit_dy_s(
            bounds,
            *old(left),
            *old(right),
        ),
        final(left).origin.0 == old(left).origin.0,
        final(right).origin.0 == old(right).origin.0,
        final(left).rz == old(left).rz,
        final(left).rx == old(left).rx,
        final(left).ry == old(left).ry,
        final(left).size == old(left).size,
        final(right).rz == old(right).rz,
        final(right).rx == old(right).rx,
        final(right).ry == old(right).ry,
        final(right).size == old(right).size,
        final(left).wf(),
        final(right).wf(),
{
    proof {
        crate::geom::lemma_mul_bound(bounds.h as int, VCENTER_BIAS as int, VIEWPORT_BOUND as int, VCENTER_BIAS as int);
    }
    let min_l = min_projected_y(left);
    let max_l = max_projected_y(left);
    let min_r = min_projected_y(right);
    let max_r = max_projected_y(right);
    let min_all = min_i64(min_l, min_r);
    let max_all = max_i64(max_l, max_r);
    let center = (min_all + max_all) / 2;
    let desired = bounds.y + mul_fp(bounds.h, VCENTER_BIAS);
    let lo = bounds.y + FIT_MARGIN - min_all;
    let hi = bounds.y + bounds.h - FIT_MARGIN - max_all;
    let dy = if lo <= hi {
        let raw = desired - center;
        if raw < lo {
            lo
        } else if raw > hi {
            hi
        } else {
            raw
        }
    } else {
        (lo + hi) / 2
    };
    left.origin.1 = left.origin.1 + dy;
    right.origin.1 = right.origin.1 + dy;
}

/// Every corner's projected Y lies between the view's min and max.
pub proof fn lemma_min_max_bracket(vp: ViewParams)
    ensures
        forall|i: int|
            0 <= i < 8 ==> min_y_s(vp) <= #[trigger] proj_corner_y_s(vp, i) <= max_y_s(vp),
{
    assert forall|i: int|
        0 <= i < 8 implies min_y_s(vp) <= #[trigger] proj_corner_y_s(vp, i) <= max_y_s(vp) by {
        if i == 0 {
        } else if i == 1 {
        } else if i == 2 {
        } else if i == 3 {
        } else if i == 4 {
        } else if i == 5 {
        } else if i == 6 {
        } else {
        }
    }
}

proof fn lemma_tdiv2_between(a: int, b: int)
    requires
        a <= b,
    ensures
        a <= tdiv(a + b, 2) <= b,
{
    let m = a + b;
    if m >= 0 {
        if a >= 0 {
            lemma_div_is_ordered(2 * a, m, 2);
            lemma_div_by_multiple(a, 2);
        } else {
            lemma_div_pos_is_pos(m, 2);
        }
        lemma_div_is_ordered(m, 2 * b, 2);
        lemma_div_by_multiple(b, 2);
    } else {
        let n = -m;
        lemma_div_is_ordered(n, 2 * (-a), 2);
        lemma_div_by_multiple(-a, 2);
        if b >= 0 {
            lemma_div_pos_is_pos(n, 2);
        } else {
            lemma_div_is_ordered(2 * (-b), n, 2);
            lemma_div_by_multiple(-b, 2);
        }
    }
}

/// Layout containment. When the combined projected bounding box of both
/// views fits between the viewport's top and bottom margins, the shift
/// `fit_dy_s` puts every projected cube corner of both views inside those
/// margins. When the box is too tall to fit, the shift still lies between
/// the two clamp bounds, splitting the unavoidable overflow between the two
/// edges instead of running away.
pub proof fn lemma_fit_contains(bounds: Rect, l: ViewParams, r: ViewParams)
    ensures
        imax(max_y_s(l), max_y_s(r)) - imin(min_y_s(l), min_y_s(r)) <= bounds.h - 2 * FIT_MARGIN
            ==> forall|i: int|
            0 <= i < 8 ==> bounds.y + FIT_MARGIN <= #[trigger] proj_corner_y_s(l, i) + fit_dy_s(
                bounds,
                l,
                r,
            ) <= bounds.y + bounds.h - FIT_MARGIN,
        imax(max_y_s(l), max_y_s(r)) - imin(min_y_s(l), min_y_s(r)) <= bounds.h - 2 * FIT_MARGIN
            ==> forall|i: int|
            0 <= i < 8 ==> bounds.y + FIT_MARGIN <= #[trigger] proj_corner_y_s(r, i) + fit_dy_s(
                bounds,
                l,
                r,
            ) <= bounds.y + bounds.h - FIT_MARGIN,
        imax(max_y_s(l), max_y_s(r)) - imin(min_y_s(l), min_y_s(r)) > bounds.h - 2 * FIT_MARGIN
            ==> bounds.y + bounds.h - FIT_MARGIN - imax(max_y_s(l), max_y_s(r)) <= fit_dy_s(
                bounds,
                l,
                r,
            ) <= bounds.y + FIT_MARGIN - imin(min_y_s(l), min_y_s(r)),
{
    let min_all = imin(min_y_s(l), min_y_s(r));
    let max_all = imax(max_y_s(l), max_y_s(r));
    let lo = bounds.y + FIT_MARGIN - min_all;
    let hi = bounds.y + bounds.h - FIT_MARGIN - max_all;
    let dy = fit_dy_s(bounds, l, r);
    lemma_min_max_bracket(l);
    lemma_min_max_bracket(r);
    if lo <= hi {
        assert(lo <= dy <= hi);
        assert(min_all + dy >= bounds.y + FIT_MARGIN);
        assert(max_all + dy <= bounds.y + bounds.h - FIT_MARGIN);
    } else {
        lemma_tdiv2_between(hi, lo);
    }
}


} // verus!
