//! Angle normalization: wrap degrees into `[0, 360)`, optionally snapping to
//! the nearest multiple of 90° first.

use vstd::prelude::*;
use vstd::arithmetic::div_mod::lemma_fundamental_div_mod;
use vstd::arithmetic::div_mod::lemma_hoist_over_denominator;
use vstd::arithmetic::div_mod::lemma_mod_multiples_vanish;

verus! {

/// `v` wrapped into `[0, 360)` (the representative of `v` modulo 360).
pub open spec fn wrap_deg_spec(v: int) -> int {
    v % 360
}

/// `v` snapped to the nearest multiple of 90° and wrapped into `[0, 360)`.
/// An angle exactly between two multiples (±45°, ±135°, ...) rounds half
/// away from zero before the wrap: 45 snaps to 90, and −45 to −90, which
/// wraps to 270.
pub open spec fn snap_deg_spec(v: int) -> int {
    let q = if v >= 0 {
        (v + 45) / 90
    } else {
        -((-v + 45) / 90)
    };
    (q * 90) % 360
}

/// Normalize an angle in degrees into `[0, 360)`; with `snap90`, round it to
/// the nearest multiple of 90° first.
pub open spec fn set_deg_spec(v: int, snap90: bool) -> int {
    if snap90 {
        snap_deg_spec(v)
    } else {
        wrap_deg_spec(v)
    }
}

/// Normalize degrees into `[0, 360)`.
pub fn wrap_deg(v: i64) -> (r: i64)
    ensures
        r == wrap_deg_spec(v as int),
        0 <= r < 360,
{
    let w = v % 360;
    if w < 0 {
        w + 360
    } else {
        w
    }
}

/// Snapping `v` is snapping its remainder by 360 of the same sign: pulling
/// out whole turns moves the rounded quotient by a multiple of 4, which the
/// final wrap by 360 absorbs.
proof fn lemma_snap_reduce(v: int)
    ensures
        ({
            let m = if v >= 0 {
                v % 360
            } else {
                -((-v) % 360)
            };
            let q = if m >= 0 {
                (m + 45) / 90
            } else {
                -((-m + 45) / 90)
            };
            snap_deg_spec(v) == (q * 90) % 360
        }),
{
    if v >= 0 {
        let m = v % 360;
        let k = v / 360;
        lemma_fundamental_div_mod(v, 360);
        lemma_hoist_over_denominator(m + 45, 4 * k, 90);
        assert((v + 45) / 90 == (m + 45) / 90 + 4 * k);
        lemma_mod_multiples_vanish(k, ((m + 45) / 90) * 90, 360);
        assert(((m + 45) / 90 + 4 * k) * 90 == 360 * k + ((m + 45) / 90) * 90) by (nonlinear_arith);
    } else {
        let u = -v;
        let mu = u % 360;
        let k = u / 360;
        lemma_fundamental_div_mod(u, 360);
        lemma_hoist_over_denominator(mu + 45, 4 * k, 90);
        assert((u + 45) / 90 == (mu + 45) / 90 + 4 * k);
        lemma_mod_multiples_vanish(-k, -(((mu + 45) / 90) * 90), 360);
        assert(-(((mu + 45) / 90 + 4 * k)) * 90 == 360 * (-k) + -(((mu + 45) / 90) * 90))
            by (nonlinear_arith);
        if mu == 0 {
            lemma_mod_multiples_vanish(0, 0, 360);
        }
    }
}

/// Clamp/snap an angle in degrees to `[0, 360)`; optionally snap to 90°.
pub fn set_deg(v: i64, snap90: bool) -> (r: i64)
    ensures
        r == set_deg_spec(v as int, snap90),
        0 <= r < 360,
{
    if snap90 {
        let m = v % 360;
        let q = if m >= 0 {
            (m + 45) / 90
        } else {
            -((-m + 45) / 90)
        };
        proof {
            lemma_snap_reduce(v as int);
        }
        wrap_deg(q * 90)
    } else {
        wrap_deg(v)
    }
}

/// Normalization stays in `[0, 360)`; plain wrapping is idempotent; and a
/// snapped angle is always a multiple of 90°.
pub proof fn lemma_set_deg_range(v: int, snap90: bool)
    ensures
        0 <= set_deg_spec(v, snap90) < 360,
        set_deg_spec(wrap_deg_spec(v), false) == set_deg_spec(v, false),
        snap90 ==> set_deg_spec(v, snap90) % 90 == 0,
{
    assert((v % 360) % 360 == v % 360);
    if snap90 {
        let q = if v >= 0 {
            (v + 45) / 90
        } else {
            -((-v + 45) / 90)
        };
        let qq = q % 4;
        lemma_fundamental_div_mod(q, 4);
        lemma_mod_multiples_vanish(q / 4, qq * 90, 360);
        assert(q * 90 == 360 * (q / 4) + qq * 90) by (nonlinear_arith)
            requires
                q == 4 * (q / 4) + qq,
        ;
        assert(0 <= qq < 4);
        if qq == 0 {
        } else if qq == 1 {
        } else if qq == 2 {
        } else {
            assert(qq == 3);
        }
    }
}

} // verus!
