//! Wind projection onto a runway heading.
//!
//! `calculate_max_headwind` projects the reported wind onto the runway's
//! heading (negative values are tailwind); `calculate_max_crosswind`
//! projects onto the perpendicular and keeps track of which side the wind
//! comes from. A variable-direction arc is evaluated in the worst case: if
//! the relevant heading falls inside the arc the full reported speed is
//! assumed, otherwise the projection is evaluated at both arc endpoints.
//! Magnitudes are rounded up to the next whole speed unit in the report's
//! own unit. A wind whose speed cannot be resolved yields no result.

use vstd::prelude::*;

use crate::angles::{diff_angle, diff_rotation, spec_diff_angle, spec_diff_rotation};
use crate::optional_data::OptionalData;
use crate::runway::RunwayDirection;
use crate::trig::{ceil_micro, cos_micro, lemma_sin_table, sin_micro_signed, sin_micro_table};
use crate::wind::{spec_max_wind_speed, Track, Wind, WindDirection};

verus! {

/// Which side of the runway the crosswind comes from. `Variable` means the
/// wind may come from either side (or is exactly aligned, giving no side).
#[derive(Debug, Clone, Copy, PartialEq, Eq, Structural)]
pub enum CrosswindSide {
    Left,
    Right,
    Variable,
}

/// A crosswind result: magnitude in the report's speed unit, rounded up,
/// and the side it blows from.
#[derive(Debug, Clone, Copy, PartialEq, Eq, Structural)]
pub struct Crosswind {
    pub magnitude: u16,
    pub side: CrosswindSide,
}

/// Whether heading `a` lies inside the arc from `start` clockwise to `end`
/// (all normalized to `[0, 360)`); the arc may wrap through north.
pub open spec fn arc_includes(start: int, end: int, a: int) -> bool {
    if start <= end {
        start <= a && a <= end
    } else {
        a >= start || a <= end
    }
}

/// The reported variable-direction arc, normalized, when both of its
/// bounds are readable.
pub open spec fn spec_arc_bounds(w: Wind) -> Option<(int, int)> {
    match w.varying {
        Some((s, e)) => match (s.0, e.0) {
            (OptionalData::Data(sv), OptionalData::Data(ev)) => Some(
                ((sv as int) % 360, (ev as int) % 360),
            ),
            _ => None,
        },
        None => None,
    }
}

/// Headwind projection factor in millionths of the reported speed, for a
/// runway heading `track` in `[0, 360)`. Positive toward the runway,
/// negative for tailwind; a wind of unknown or fully variable direction is
/// assumed to blow straight down the runway (worst case). An arc that
/// contains the queried heading itself gives the full reported speed;
/// otherwise the projection is evaluated at the two arc bounds directly.
pub open spec fn spec_headwind_factor(track: int, w: Wind) -> int {
    match spec_arc_bounds(w) {
        Some((s, e)) => {
            if arc_includes(s, e, track) {
                1000000
            } else {
                let fs = cos_micro(spec_diff_angle(track, s));
                let fe = cos_micro(spec_diff_angle(track, e));
                if fs >= fe {
                    fs
                } else {
                    fe
                }
            }
        },
        None => match w.dir {
            WindDirection::Heading(t) => match t.0 {
                OptionalData::Data(d) => cos_micro(spec_diff_angle(track, (d as int) % 360)),
                OptionalData::Undefined => 1000000,
            },
            WindDirection::Variable => 1000000,
        },
    }
}

/// The side that a signed crosswind factor corresponds to: positive means
/// the wind is rotated clockwise from the runway heading (from the right).
pub open spec fn side_of_signed(f: int) -> CrosswindSide {
    if f > 0 {
        CrosswindSide::Right
    } else if f < 0 {
        CrosswindSide::Left
    } else {
        CrosswindSide::Variable
    }
}

/// Crosswind projection: magnitude factor in millionths (non-negative) and
/// side, for a runway heading `track` in `[0, 360)`.
pub open spec fn spec_crosswind_eval(track: int, w: Wind) -> (int, CrosswindSide) {
    match spec_arc_bounds(w) {
        Some((s, e)) => {
            let in_right = arc_includes(s, e, (track + 90) % 360);
            let in_left = arc_includes(s, e, (track + 270) % 360);
            if in_right && in_left {
                (1000000, CrosswindSide::Variable)
            } else if in_right {
                (1000000, CrosswindSide::Right)
            } else if in_left {
                (1000000, CrosswindSide::Left)
            } else {
                let fs = sin_micro_signed(spec_diff_rotation(s, track));
                let fe = sin_micro_signed(spec_diff_rotation(e, track));
                let ms = if fs >= 0 {
                    fs
                } else {
                    -fs
                };
                let me = if fe >= 0 {
                    fe
                } else {
                    -fe
                };
                if ms == me && ((fs > 0 && fe < 0) || (fs < 0 && fe > 0)) {
                    (ms, CrosswindSide::Variable)
                } else if ms >= me {
                    (ms, side_of_signed(fs))
                } else {
                    (me, side_of_signed(fe))
                }
            }
        },
        None => match w.dir {
            WindDirection::Heading(t) => match t.0 {
                OptionalData::Data(d) => {
                    let f = sin_micro_signed(spec_diff_rotation((d as int) % 360, track));
                    (
                        if f >= 0 {
                            f
                        } else {
                            -f
                        },
                        side_of_signed(f),
                    )
                },
                OptionalData::Undefined => (1000000, CrosswindSide::Variable),
            },
            WindDirection::Variable => (1000000, CrosswindSide::Variable),
        },
    }
}

/// The headwind component for runway heading `track`, rounded up, or
/// nothing when the wind speed cannot be resolved.
pub open spec fn spec_max_headwind(track: int, w: Wind) -> Option<int> {
    match spec_max_wind_speed(w.speed) {
        Some(s) => Some(ceil_micro(s * spec_headwind_factor(track, w))),
        None => None,
    }
}

/// The crosswind magnitude and side for runway heading `track`, or nothing
/// when the wind speed cannot be resolved.
pub open spec fn spec_max_crosswind(track: int, w: Wind) -> Option<(int, CrosswindSide)> {
    match spec_max_wind_speed(w.speed) {
        Some(s) => Some((ceil_micro(s * spec_crosswind_eval(track, w).0), spec_crosswind_eval(track, w).1)),
        None => None,
    }
}

fn arc_includes_exec(start: u16, end: u16, a: u16) -> (r: bool)
    ensures
        r == arc_includes(start as int, end as int, a as int),
{
    if start <= end {
        start <= a && a <= end
    } else {
        a >= start || a <= end
    }
}

/// Cosine factor for an angular distance `d` in `[0, 180]`, in millionths.
fn cos_factor(d: u16) -> (r: i32)
    requires
        d <= 180,
    ensures
        r == cos_micro(d as int),
        -1000000 <= r <= 1000000,
{
    if d <= 90 {
        proof {
            lemma_sin_table(90 - d);
        }
        sin_micro_table(90 - d) as i32
    } else {
        proof {
            lemma_sin_table(d as int - 90);
        }
        -(sin_micro_table(d - 90) as i32)
    }
}

/// Signed sine factor for a clockwise rotation `r` in `[0, 360]`, in
/// millionths.
fn sin_factor_signed(rot: u16) -> (r: i32)
    requires
        rot <= 360,
    ensures
        r == sin_micro_signed(rot as int),
        -1000000 <= r <= 1000000,
{
    if rot <= 90 {
        proof {
            lemma_sin_table(rot as int);
        }
        sin_micro_table(rot) as i32
    } else if rot <= 180 {
        proof {
            lemma_sin_table(180 - rot);
        }
        sin_micro_table(180 - rot) as i32
    } else if rot <= 270 {
        proof {
            lemma_sin_table(rot as int - 180);
        }
        -(sin_micro_table(rot - 180) as i32)
    } else {
        proof {
            lemma_sin_table(360 - rot);
        }
        -(sin_micro_table(360 - rot) as i32)
    }
}

/// Scales a speed by a projection factor in millionths, rounding the
/// quotient up (toward positive infinity).
fn scale_ceil(speed: u16, factor: i32) -> (r: i32)
    requires
        -1000000 <= factor <= 1000000,
    ensures
        r == ceil_micro(speed as int * factor as int),
        -(speed as int) <= r <= speed as int,
{
    proof {
        lemma_scale_ceil_bounds(speed as int, factor as int);
        assert(-(speed as int) * 1000000 <= (speed as int) * (factor as int) <= (speed as int)
            * 1000000) by (nonlinear_arith)
            requires
                0 <= speed <= 65536,
                -1000000 <= factor <= 1000000,
        ;
    }
    let prod: i64 = (speed as i64) * (factor as i64);
    if prod >= 0 {
        ((prod + 999999) / 1000000) as i32
    } else {
        (-((-prod) / 1000000)) as i32
    }
}

/// The ceiling of `s * f / 10^6` stays within `[-s, s]` whenever the
/// factor `f` is within one million in magnitude.
pub proof fn lemma_scale_ceil_bounds(s: int, f: int)
    requires
        0 <= s,
        -1000000 <= f <= 1000000,
    ensures
        -s <= ceil_micro(s * f) <= s,
{
    assert(-(s * 1000000) <= s * f <= s * 1000000) by (nonlinear_arith)
        requires
            0 <= s,
            -1000000 <= f <= 1000000,
    ;
    let p = s * f;
    if p >= 0 {
        assert((p + 999999) / 1000000 <= s) by (nonlinear_arith)
            requires
                0 <= p <= s * 1000000,
        ;
        assert((p + 999999) / 1000000 >= 0) by (nonlinear_arith)
            requires
                p >= 0,
        ;
    } else {
        assert((-p) / 1000000 <= s) by (nonlinear_arith)
            requires
                0 < -p <= s * 1000000,
        ;
        assert((-p) / 1000000 >= 0) by (nonlinear_arith)
            requires
                -p > 0,
        ;
    }
}

/// Maximum headwind for the runway's heading. Negative values are
/// tailwind. `None` means the wind speed could not be resolved; the caller
/// must treat that as "cannot evaluate", not as calm wind. The magnitude
/// never exceeds the resolved wind speed.
pub fn calculate_max_headwind(runway: &RunwayDirection, wind: &Wind) -> (r: Option<i32>)
    ensures
        ({
            let m = spec_max_headwind((runway.degrees as int) % 360, *wind);
            &&& (r is Some <==> m is Some)
            &&& (r is Some ==> r->0 as int == m->0)
            &&& (r is Some ==> spec_max_wind_speed(wind.speed) is Some
                && -(spec_max_wind_speed(wind.speed)->0 as int) <= r->0 as int
                    <= spec_max_wind_speed(wind.speed)->0 as int)
        }),
{
    let track: u16 = runway.degrees % 360;
    let speed: u16 = match wind.speed.get_max_wind_speed() {
        Some(s) => s,
        None => {
            return None;
        },
    };
    let factor: i32 = headwind_factor(track, wind);
    Some(scale_ceil(speed, factor))
}

fn headwind_factor(track: u16, wind: &Wind) -> (f: i32)
    requires
        track < 360,
    ensures
        f == spec_headwind_factor(track as int, *wind),
        -1000000 <= f <= 1000000,
{
    let arc: Option<(u16, u16)> = match wind.varying {
        Some((s, e)) => match (s.0, e.0) {
            (OptionalData::Data(sv), OptionalData::Data(ev)) => Some((sv % 360, ev % 360)),
            _ => None,
        },
        None => None,
    };
    match arc {
        Some((s0, e0)) => {
            if arc_includes_exec(s0, e0, track) {
                1000000
            } else {
                let fs = cos_factor(diff_angle(track, s0));
                let fe = cos_factor(diff_angle(track, e0));
                if fs >= fe {
                    fs
                } else {
                    fe
                }
            }
        },
        None => match &wind.dir {
            WindDirection::Heading(t) => match t.0 {
                OptionalData::Data(d) => cos_factor(diff_angle(track, d % 360)),
                OptionalData::Undefined => 1000000,
            },
            WindDirection::Variable => 1000000,
        },
    }
}

/// Maximum crosswind for the runway's heading, with the side it comes
/// from. `None` means the wind speed could not be resolved. The magnitude
/// never exceeds the resolved wind speed.
pub fn calculate_max_crosswind(runway: &RunwayDirection, wind: &Wind) -> (r: Option<Crosswind>)
    ensures
        ({
            let m = spec_max_crosswind((runway.degrees as int) % 360, *wind);
            &&& (r is Some <==> m is Some)
            &&& (r is Some ==> r->0.magnitude as int == (m->0).0 && r->0.side == (m->0).1)
            &&& (r is Some ==> spec_max_wind_speed(wind.speed) is Some
                && r->0.magnitude as int <= spec_max_wind_speed(wind.speed)->0 as int)
        }),
{
    let track: u16 = runway.degrees % 360;
    let speed: u16 = match wind.speed.get_max_wind_speed() {
        Some(s) => s,
        None => {
            return None;
        },
    };
    let (factor, side) = crosswind_eval(track, wind);
    let mag = scale_ceil(speed, factor);
    Some(Crosswind { magnitude: mag as u16, side })
}

fn crosswind_eval(track: u16, wind: &Wind) -> (r: (i32, CrosswindSide))
    requires
        track < 360,
    ensures
        r.0 == spec_crosswind_eval(track as int, *wind).0,
        r.1 == spec_crosswind_eval(track as int, *wind).1,
        0 <= r.0 <= 1000000,
{
    let arc: Option<(u16, u16)> = match wind.varying {
        Some((s, e)) => match (s.0, e.0) {
            (OptionalData::Data(sv), OptionalData::Data(ev)) => Some((sv % 360, ev % 360)),
            _ => None,
        },
        None => None,
    };
    match arc {
        Some((s0, e0)) => {
            let right: u16 = (track + 90) % 360;
            let left: u16 = (track + 270) % 360;
            let in_right = arc_includes_exec(s0, e0, right);
            let in_left = arc_includes_exec(s0, e0, left);
            if in_right && in_left {
                (1000000, CrosswindSide::Variable)
            } else if in_right {
                (1000000, CrosswindSide::Right)
            } else if in_left {
                (1000000, CrosswindSide::Left)
            } else {
                let fs = sin_factor_signed(diff_rotation(s0, track));
                let fe = sin_factor_signed(diff_rotation(e0, track));
                let ms = if fs >= 0 {
                    fs
                } else {
                    -fs
                };
                let me = if fe >= 0 {
                    fe
                } else {
                    -fe
                };
                if ms == me && ((fs > 0 && fe < 0) || (fs < 0 && fe > 0)) {
                    (ms, CrosswindSide::Variable)
                } else if ms >= me {
                    (ms, side_of_signed_exec(fs))
                } else {
                    (me, side_of_signed_exec(fe))
                }
            }
        },
        None => match &wind.dir {
            WindDirection::Heading(t) => match t.0 {
                OptionalData::Data(d) => {
                    let f = sin_factor_signed(diff_rotation(d % 360, track));
                    (
                        if f >= 0 {
                            f
                        } else {
                            -f
                        },
                        side_of_signed_exec(f),
                    )
                },
                OptionalData::Undefined => (1000000, CrosswindSide::Variable),
            },
            WindDirection::Variable => (1000000, CrosswindSide::Variable),
        },
    }
}

fn side_of_signed_exec(f: i32) -> (r: CrosswindSide)
    ensures
        r == side_of_signed(f as int),
{
    if f > 0 {
        CrosswindSide::Right
    } else if f < 0 {
        CrosswindSide::Left
    } else {
        CrosswindSide::Variable
    }
}

} // verus!
