//! Laws of the wind projection.
//!
//! These public proof functions state, once and for all inputs, the
//! geometric facts that the projection is trusted for: the head- and
//! crosswind components of a fixed-direction wind recompose to the reported
//! speed up to rounding, the crosswind side follows the clockwise rotation
//! of the wind from the runway heading, opposite runway ends see mirrored
//! sides, and an arc that straddles the runway's reciprocal heading yields
//! the full reported speed as headwind.

use vstd::prelude::*;

use crate::angles::{spec_diff_angle, spec_diff_rotation};
use crate::optional_data::OptionalData;
use crate::projection::{
    arc_includes, side_of_signed, spec_arc_bounds, spec_crosswind_eval, spec_headwind_factor,
    spec_max_crosswind, spec_max_headwind, CrosswindSide,
};
use crate::projection::lemma_scale_ceil_bounds;
use crate::trig::{
    ceil_micro, cos_micro, lemma_ceil_micro_brackets, lemma_ceil_micro_exact, lemma_sin_table,
    sin_micro, sin_micro_signed,
};
use crate::wind::{spec_max_wind_speed, Track, Wind, WindDirection};

verus! {

/// A variable-direction arc that contains the queried heading yields the
/// full reported speed as that heading's headwind component. In
/// particular, an arc that straddles a runway end's exact reciprocal gives
/// full-speed headwind to the query made at that reciprocal heading, that
/// is, at the opposite runway end.
pub proof fn lemma_arc_over_heading_gives_full_headwind(track: int, w: Wind)
    requires
        0 <= track < 360,
        spec_arc_bounds(w) is Some,
        ({
            let (s, e) = spec_arc_bounds(w)->0;
            arc_includes(s, e, track)
        }),
        spec_max_wind_speed(w.speed) is Some,
    ensures
        spec_max_headwind(track, w) == Some(spec_max_wind_speed(w.speed)->0 as int),
{
    let s = spec_max_wind_speed(w.speed)->0 as int;
    assert(spec_headwind_factor(track, w) == 1000000);
    lemma_ceil_micro_exact(s);
}

/// For a fixed-direction wind, the crosswind side is `Right` exactly when
/// the wind direction is rotated clockwise from the runway heading by an
/// angle in `(0, 180)` degrees, `Left` for `(180, 360)`, and `Variable`
/// (no side) when the wind is exactly aligned with the runway axis.
pub proof fn lemma_crosswind_side(track: int, d: u16, w: Wind)
    requires
        0 <= track < 360,
        w.varying is None,
        w.dir == WindDirection::Heading(Track(OptionalData::Data(d))),
    ensures
        ({
            let rot = spec_diff_rotation((d as int) % 360, track);
            let side = spec_crosswind_eval(track, w).1;
            &&& (0 < rot < 180 ==> side == CrosswindSide::Right)
            &&& (180 < rot < 360 ==> side == CrosswindSide::Left)
            &&& ((rot == 0 || rot == 180) ==> side == CrosswindSide::Variable)
        }),
{
    let d0 = (d as int) % 360;
    let rot = spec_diff_rotation(d0, track);
    assert(0 <= d0 < 360);
    assert(0 <= rot < 360);
    lemma_sin_table(0);
    if 0 < rot && rot < 180 {
        if rot <= 90 {
            lemma_sin_table(rot);
            assert(sin_micro_signed(rot) > 0);
        } else {
            lemma_sin_table(180 - rot);
            assert(sin_micro_signed(rot) > 0);
        }
    } else if 180 < rot && rot < 360 {
        if rot <= 270 {
            lemma_sin_table(rot - 180);
            assert(sin_micro_signed(rot) < 0);
        } else {
            lemma_sin_table(360 - rot);
            assert(sin_micro_signed(rot) < 0);
        }
    }
}

/// The signed whole-degree sine negates under a half-turn.
proof fn lemma_sin_signed_flip(r: int)
    requires
        0 <= r < 360,
    ensures
        sin_micro_signed((r + 180) % 360) == -sin_micro_signed(r),
{
    lemma_sin_table(0);
    if r < 180 {
        assert((r + 180) % 360 == r + 180);
    } else {
        assert((r + 180) % 360 == r - 180);
    }
}

/// Opposite runway ends see the same crosswind magnitude with mirrored
/// sides for a fixed-direction wind.
#[verifier::rlimit(100)]
pub proof fn lemma_crosswind_opposite_ends(track: int, d: u16, w: Wind)
    requires
        0 <= track < 360,
        w.varying is None,
        w.dir == WindDirection::Heading(Track(OptionalData::Data(d))),
    ensures
        ({
            let (m1, s1) = spec_crosswind_eval(track, w);
            let (m2, s2) = spec_crosswind_eval((track + 180) % 360, w);
            &&& m1 == m2
            &&& (s1 == CrosswindSide::Right <==> s2 == CrosswindSide::Left)
            &&& (s1 == CrosswindSide::Left <==> s2 == CrosswindSide::Right)
            &&& (s1 == CrosswindSide::Variable <==> s2 == CrosswindSide::Variable)
        }),
{
    let d0 = (d as int) % 360;
    let track2 = (track + 180) % 360;
    assert(0 <= d0 < 360);
    if track < 180 {
        assert(track2 == track + 180);
    } else {
        assert(track2 == track - 180);
    }
    let rot1 = spec_diff_rotation(d0, track);
    let rot2 = spec_diff_rotation(d0, track2);
    assert(0 <= rot1 < 360);
    assert(0 <= rot2 < 360);
    if rot1 < 180 {
        assert(rot2 == rot1 + 180);
        assert((rot1 + 180) % 360 == rot1 + 180);
    } else {
        assert(rot2 == rot1 - 180);
        assert((rot1 + 180) % 360 == rot1 - 180);
    }
    lemma_sin_signed_flip(rot1);
    let f1 = sin_micro_signed(rot1);
    let f2 = sin_micro_signed(rot2);
    assert(f2 == -f1);
    assert(spec_crosswind_eval(track, w).0 == if f1 >= 0 {
        f1
    } else {
        -f1
    });
    assert(spec_crosswind_eval(track, w).1 == side_of_signed(f1));
    assert(spec_crosswind_eval(track2, w).0 == if f2 >= 0 {
        f2
    } else {
        -f2
    });
    assert(spec_crosswind_eval(track2, w).1 == side_of_signed(f2));
}

/// For a fixed-direction wind of resolvable speed `s` (at most the three
/// digits a report can carry), the rounded headwind and crosswind
/// components recompose to the reported speed: their squares sum to `s^2`
/// within a margin that covers the two ceilings and the table rounding.
pub proof fn lemma_projection_pythagoras(track: int, d: u16, w: Wind)
    requires
        0 <= track < 360,
        w.varying is None,
        w.dir == WindDirection::Heading(Track(OptionalData::Data(d))),
        spec_max_wind_speed(w.speed) is Some,
        spec_max_wind_speed(w.speed)->0 <= 999,
    ensures
        ({
            let s = spec_max_wind_speed(w.speed)->0 as int;
            let h = spec_max_headwind(track, w)->0;
            let c = (spec_max_crosswind(track, w)->0).0;
            s * s - 4 * s - 4 <= h * h + c * c <= s * s + 4 * s + 4
        }),
{
    let s = spec_max_wind_speed(w.speed)->0 as int;
    let d0 = (d as int) % 360;
    assert(0 <= d0 < 360);
    let da = spec_diff_angle(track, d0);
    let rot = spec_diff_rotation(d0, track);
    assert(0 <= da <= 180);
    assert(0 <= rot < 360);
    assert(da == if rot <= 180 {
        rot
    } else {
        360 - rot
    });

    let dq = if da <= 90 {
        da
    } else {
        180 - da
    };
    let cosfac = cos_micro(da);
    let sinfac = sin_micro_signed(rot);
    let u = if sinfac >= 0 {
        sinfac
    } else {
        -sinfac
    };
    lemma_sin_table(dq);
    lemma_sin_table(90 - dq);
    if rot <= 90 {
        assert(sinfac == sin_micro(rot));
        assert(dq == rot);
    } else if rot <= 180 {
        assert(sinfac == sin_micro(180 - rot));
        assert(dq == 180 - rot);
    } else if rot <= 270 {
        assert(sinfac == -sin_micro(rot - 180));
        assert(dq == rot - 180);
    } else {
        assert(sinfac == -sin_micro(360 - rot));
        assert(dq == 360 - rot);
    }
    assert(u == sin_micro(dq));
    assert(cosfac == sin_micro(90 - dq) || cosfac == -sin_micro(90 - dq));
    assert(cosfac * cosfac == sin_micro(90 - dq) * sin_micro(90 - dq)) by (nonlinear_arith)
        requires
            cosfac == sin_micro(90 - dq) || cosfac == -sin_micro(90 - dq),
    ;
    let t: int = 1000000000000;
    assert(t - 818300 <= u * u + cosfac * cosfac <= t + 1129488);
    assert(-1000000 <= cosfac <= 1000000);
    assert(0 <= u <= 1000000);

    let h = spec_max_headwind(track, w)->0;
    let c = (spec_max_crosswind(track, w)->0).0;
    assert(spec_headwind_factor(track, w) == cosfac);
    assert(spec_crosswind_eval(track, w).0 == u);
    assert(h == ceil_micro(s * cosfac));
    assert(c == ceil_micro(s * u));

    lemma_ceil_micro_brackets(s * cosfac);
    lemma_ceil_micro_brackets(s * u);
    lemma_scale_ceil_bounds(s, cosfac);
    lemma_scale_ceil_bounds(s, u);
    assert(-s <= h <= s);
    assert(-s <= c <= s);

    let hh = 1000000 * h;
    let cc = 1000000 * c;
    let a = s * cosfac;
    let b = s * u;
    assert(a <= hh <= a + 999999);
    assert(b <= cc <= b + 999999);
    assert(-1000000 * s <= a <= 1000000 * s && 0 <= b <= 1000000 * s) by (nonlinear_arith)
        requires
            a == s * cosfac,
            b == s * u,
            0 <= s,
            -1000000 <= cosfac <= 1000000,
            0 <= u <= 1000000,
    ;
    assert(-1000000 * s <= hh <= 1000000 * s + 999999);
    assert(0 <= cc <= 1000000 * s + 999999);

    // Each ceiling moves a squared component by at most one divisor times
    // the sum of the two scaled magnitudes.
    assert(hh * hh - a * a <= 2000000000000 * s + 1000000000000 && a * a - hh * hh <= 2000000000000
        * s + 1000000000000) by (nonlinear_arith)
        requires
            a <= hh <= a + 999999,
            -1000000 * s <= a <= 1000000 * s,
            -1000000 * s <= hh <= 1000000 * s + 999999,
            s >= 0,
    ;
    assert(cc * cc - b * b <= 2000000000000 * s + 1000000000000 && b * b - cc * cc <= 2000000000000
        * s + 1000000000000) by (nonlinear_arith)
        requires
            b <= cc <= b + 999999,
            0 <= b <= 1000000 * s,
            0 <= cc <= 1000000 * s + 999999,
            s >= 0,
    ;

    // The exact components recompose to the speed within the table band.
    assert(a * a + b * b == s * s * (cosfac * cosfac + u * u)) by (nonlinear_arith)
        requires
            a == s * cosfac,
            b == s * u,
    ;
    assert(s * s * (t - 818300) <= s * s * (cosfac * cosfac + u * u) <= s * s * (t + 1129488))
        by (nonlinear_arith)
        requires
            t - 818300 <= cosfac * cosfac + u * u <= t + 1129488,
            t == 1000000000000,
            s >= 0,
    ;
    assert(s * s * 1129488 <= 2000000000000 && s * s * 818300 <= 2000000000000) by (nonlinear_arith)
        requires
            0 <= s <= 999,
    ;
    assert(s * s * (t + 1129488) == s * s * t + s * s * 1129488) by (nonlinear_arith);
    assert(s * s * (t - 818300) == s * s * t - s * s * 818300) by (nonlinear_arith);
    assert(s * s * t == 1000000000000 * (s * s)) by (nonlinear_arith)
        requires
            t == 1000000000000,
    ;

    // Combine the three error sources, all scaled by 10^12.
    assert(hh * hh + cc * cc <= 1000000000000 * (s * s) + 4000000000000 * s + 4000000000000);
    assert(hh * hh + cc * cc >= 1000000000000 * (s * s) - 4000000000000 * s - 4000000000000);

    assert(hh * hh == 1000000000000 * (h * h)) by (nonlinear_arith)
        requires
            hh == 1000000 * h,
    ;
    assert(cc * cc == 1000000000000 * (c * c)) by (nonlinear_arith)
        requires
            cc == 1000000 * c,
    ;
    assert(1000000000000 * (h * h + c * c) <= 1000000000000 * (s * s + 4 * s + 4));
    assert(1000000000000 * (h * h + c * c) >= 1000000000000 * (s * s - 4 * s - 4));
    assert(h * h + c * c <= s * s + 4 * s + 4);
    assert(h * h + c * c >= s * s - 4 * s - 4);
}

} // verus!
