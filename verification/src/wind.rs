//! Wind as reported in a METAR: direction, speed, gust, and an optional
//! variable-direction arc.

use vstd::prelude::*;

use crate::optional_data::OptionalData;
use crate::scan::{
    all_slashes, digits_value, has_tag, is_digit, lemma_digits_value_bound_three,
    scan_digits_exact, scan_number, scan_slashes, scan_tag1, scan_tag2, scan_tag3, sp_number,
};

verus! {

/// A compass heading in whole degrees as reported, possibly undefined.
#[derive(Debug, Clone, Copy, PartialEq, Eq, Structural)]
pub struct Track(pub OptionalData<u16>);

/// Where the wind blows from: a fixed heading or fully variable (`VRB`).
#[derive(Debug, Clone, Copy, PartialEq, Eq, Structural)]
pub enum WindDirection {
    Heading(Track),
    Variable,
}

/// The unit the wind speed group was reported in.
#[derive(Debug, Clone, Copy, PartialEq, Eq, Structural)]
pub enum VelocityUnit {
    Knots,
    MetersPerSecond,
}

/// Reported wind speed with an optional gust, in the report's unit.
#[derive(Debug, Clone, Copy, PartialEq, Eq, Structural)]
pub struct WindVelocity {
    pub velocity: OptionalData<u16>,
    pub gust: Option<u16>,
    pub unit: VelocityUnit,
}

/// One report's wind group, with an optional variable-direction arc.
#[derive(Debug, Clone, Copy, PartialEq, Eq)]
pub struct Wind {
    pub dir: WindDirection,
    pub speed: WindVelocity,
    pub varying: Option<(Track, Track)>,
}

/// The strongest reported speed: the gust when present, otherwise the
/// steady speed, or nothing when the speed itself is undefined.
pub open spec fn spec_max_wind_speed(v: WindVelocity) -> Option<u16> {
    match v.gust {
        Some(g) => Some(g),
        None => match v.velocity {
            OptionalData::Data(s) => Some(s),
            OptionalData::Undefined => None,
        },
    }
}

impl WindVelocity {
    /// Strongest reported speed: gust if present, else the steady speed.
    pub fn get_max_wind_speed(&self) -> (r: Option<u16>)
        ensures
            r == spec_max_wind_speed(*self),
    {
        match self.gust {
            Some(g) => Some(g),
            None => self.velocity.to_option(),
        }
    }
}

/// The wind direction part of the group: `VRB`, three slashes, or three
/// digits.
pub open spec fn sp_wind_dir(s: Seq<u8>, i: int) -> Option<(WindDirection, int)> {
    if has_tag(s, i, seq![86u8, 82u8, 66u8]) {
        Some((WindDirection::Variable, i + 3))
    } else if all_slashes(s, i, 3) {
        Some((WindDirection::Heading(Track(OptionalData::Undefined)), i + 3))
    } else if i + 3 <= s.len() && (forall|k: int| i <= k < i + 3 ==> #[trigger] is_digit(s[k])) {
        Some(
            (
                WindDirection::Heading(Track(OptionalData::Data(digits_value(s, i, i + 3) as u16))),
                i + 3,
            ),
        )
    } else {
        None
    }
}

/// The speed part: two slashes for an undefined speed, or a digit run that
/// fits the speed field.
pub open spec fn sp_wind_speed(s: Seq<u8>, i: int) -> Option<(OptionalData<u16>, int)> {
    if all_slashes(s, i, 2) {
        Some((OptionalData::Undefined, i + 2))
    } else {
        match sp_number(s, i) {
            Some((v, j)) => if v <= 65535 {
                Some((OptionalData::Data(v as u16), j))
            } else {
                None
            },
            None => None,
        }
    }
}

/// The optional gust part: `G` followed by a digit run.
pub open spec fn sp_wind_gust(s: Seq<u8>, i: int) -> (Option<u16>, int) {
    if has_tag(s, i, seq![71u8]) {
        match sp_number(s, i + 1) {
            Some((v, j)) => if v <= 65535 {
                (Some(v as u16), j)
            } else {
                (None, i)
            },
            None => (None, i),
        }
    } else {
        (None, i)
    }
}

/// The unit the speed was reported in: `KT` or `MPS`.
pub open spec fn sp_wind_unit(s: Seq<u8>, i: int) -> Option<(VelocityUnit, int)> {
    if has_tag(s, i, seq![75u8, 84u8]) {
        Some((VelocityUnit::Knots, i + 2))
    } else if has_tag(s, i, seq![77u8, 80u8, 83u8]) {
        Some((VelocityUnit::MetersPerSecond, i + 3))
    } else {
        None
    }
}

/// The optional variable-direction arc: a space, three digits, `V`, three
/// digits.
pub open spec fn sp_wind_arc(s: Seq<u8>, i: int) -> (Option<(Track, Track)>, int) {
    if i + 8 <= s.len() && s[i] == 32 && (forall|k: int|
        i + 1 <= k < i + 4 ==> #[trigger] is_digit(s[k])) && s[i + 4] == 86 && (forall|k: int|
        i + 5 <= k < i + 8 ==> #[trigger] is_digit(s[k])) {
        (
            Some(
                (
                    Track(OptionalData::Data(digits_value(s, i + 1, i + 4) as u16)),
                    Track(OptionalData::Data(digits_value(s, i + 5, i + 8) as u16)),
                ),
            ),
            i + 8,
        )
    } else {
        (None, i)
    }
}

/// The whole wind group: direction, speed, optional gust, unit, optional
/// variable-direction arc.
pub open spec fn sp_wind(s: Seq<u8>, i: int) -> Option<(Wind, int)> {
    match sp_wind_dir(s, i) {
        None => None,
        Some((dir, j1)) => match sp_wind_speed(s, j1) {
            None => None,
            Some((velocity, j2)) => {
                let (gust, j3) = sp_wind_gust(s, j2);
                match sp_wind_unit(s, j3) {
                    None => None,
                    Some((unit, j4)) => {
                        let (varying, j5) = sp_wind_arc(s, j4);
                        Some((Wind { dir, speed: WindVelocity { velocity, gust, unit }, varying }, j5))
                    },
                }
            },
        },
    }
}

/// Scans the wind group at position `i`.
pub fn scan_wind(s: &[u8], i: usize) -> (r: Option<(Wind, usize)>)
    requires
        i <= s@.len(),
    ensures
        match (r, sp_wind(s@, i as int)) {
            (Some((v, j)), Some((w, k))) => v == w && j as int == k && i <= j <= s@.len(),
            (None, None) => true,
            _ => false,
        },
{
    let slen = s.len();
    let dir: WindDirection = if let Some(j) = scan_tag3(s, i, 86, 82, 66) {
        WindDirection::Variable
    } else if scan_slashes(s, i, 3) {
        WindDirection::Heading(Track(OptionalData::Undefined))
    } else if let Some(v) = scan_digits_exact(s, i, 3) {
        proof {
            lemma_digits_value_bound_three(s@, i as int, i + 3int);
        }
        WindDirection::Heading(Track(OptionalData::Data(v as u16)))
    } else {
        return None;
    };
    let j1 = i + 3;
    let (velocity, j2): (OptionalData<u16>, usize) = if scan_slashes(s, j1, 2) {
        (OptionalData::Undefined, j1 + 2)
    } else {
        match scan_number(s, j1) {
            Some((v, j)) => {
                if v <= 65535 {
                    (OptionalData::Data(v as u16), j)
                } else {
                    return None;
                }
            },
            None => {
                return None;
            },
        }
    };
    let (gust, j3): (Option<u16>, usize) = if let Some(g1) = scan_tag1(s, j2, 71) {
        match scan_number(s, g1) {
            Some((v, j)) => {
                if v <= 65535 {
                    (Some(v as u16), j)
                } else {
                    (None, j2)
                }
            },
            None => (None, j2),
        }
    } else {
        (None, j2)
    };
    let (unit, j4): (VelocityUnit, usize) = if let Some(j) = scan_tag2(s, j3, 75, 84) {
        (VelocityUnit::Knots, j)
    } else if let Some(j) = scan_tag3(s, j3, 77, 80, 83) {
        (VelocityUnit::MetersPerSecond, j)
    } else {
        return None;
    };
    let (varying, j5): (Option<(Track, Track)>, usize) = scan_wind_arc(s, j4);
    Some((Wind { dir, speed: WindVelocity { velocity, gust, unit }, varying }, j5))
}

fn scan_wind_arc(s: &[u8], i: usize) -> (r: (Option<(Track, Track)>, usize))
    requires
        i <= s@.len(),
    ensures
        r.0 == sp_wind_arc(s@, i as int).0,
        r.1 as int == sp_wind_arc(s@, i as int).1,
        i <= r.1 <= s@.len(),
{
    let slen = s.len();
    if slen - i >= 8 && s[i] == 32u8 && s[i + 4] == 86u8 {
        let a = scan_digits_exact(s, i + 1, 3);
        let b = scan_digits_exact(s, i + 5, 3);
        proof {
            if a is Some {
                lemma_digits_value_bound_three(s@, i + 1int, i + 4int);
            }
            if b is Some {
                lemma_digits_value_bound_three(s@, i + 5int, i + 8int);
            }
        }
        match (a, b) {
            (Some(av), Some(bv)) => (
                Some(
                    (
                        Track(OptionalData::Data(av as u16)),
                        Track(OptionalData::Data(bv as u16)),
                    ),
                ),
                i + 8,
            ),
            _ => (None, i),
        }
    } else {
        (None, i)
    }
}

} // verus!
