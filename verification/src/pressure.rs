//! The pressure group of a report: QNH in hectopascals, altimeter setting
//! in hundredths of inches of mercury, or both.

use vstd::prelude::*;

use crate::optional_data::OptionalData;
use crate::scan::{
    all_slashes, digits_value, has_tag, is_digit, lemma_digits_value_bound_four,
    scan_digits_exact, scan_slashes, scan_tag1,
};

verus! {

/// One pressure reading with its unit.
#[derive(Debug, Clone, Copy, PartialEq, Eq, Structural)]
pub struct PressureSingle {
    pub value: OptionalData<u32>,
    pub unit: PressureUnit,
}

/// The unit a pressure reading was reported in.
#[derive(Debug, Clone, Copy, PartialEq, Eq, Structural)]
pub enum PressureUnit {
    Hectopascals,
    InchesOfMercury,
}

impl PressureUnit {
    /// The letter that introduces a reading in this unit.
    pub fn pressure_letter(&self) -> (r: char)
        ensures
            *self is Hectopascals ==> r == 'Q',
            *self is InchesOfMercury ==> r == 'A',
    {
        match self {
            PressureUnit::Hectopascals => 'Q',
            PressureUnit::InchesOfMercury => 'A',
        }
    }
}

/// The whole pressure group; at least one of the two readings is present.
#[derive(Debug, Clone, Copy, PartialEq, Eq, Structural)]
pub struct Pressure {
    pub qnh: Option<PressureSingle>,
    pub altimeter: Option<PressureSingle>,
}

/// One reading: the unit letter, then four digits or four slashes.
pub open spec fn sp_pressure_single(s: Seq<u8>, i: int, letter: u8, unit: PressureUnit) -> Option<
    (PressureSingle, int),
> {
    if has_tag(s, i, seq![letter]) {
        if all_slashes(s, i + 1, 4) {
            Some((PressureSingle { value: OptionalData::Undefined, unit }, i + 5))
        } else if i + 5 <= s.len() && (forall|k: int|
            i + 1 <= k < i + 5 ==> #[trigger] is_digit(s[k])) {
            Some(
                (
                    PressureSingle {
                        value: OptionalData::Data(digits_value(s, i + 1, i + 5) as u32),
                        unit,
                    },
                    i + 5,
                ),
            )
        } else {
            None
        }
    } else {
        None
    }
}

/// The pressure group: an optional QNH reading, an optional altimeter
/// reading, at least one of them present.
pub open spec fn sp_pressure(s: Seq<u8>, i: int) -> Option<(Pressure, int)> {
    let q = sp_pressure_single(s, i, 81, PressureUnit::Hectopascals);
    match q {
        Some((qv, j1)) => {
            match sp_pressure_single(s, j1, 65, PressureUnit::InchesOfMercury) {
                Some((av, j2)) => Some((Pressure { qnh: Some(qv), altimeter: Some(av) }, j2)),
                None => Some((Pressure { qnh: Some(qv), altimeter: None }, j1)),
            }
        },
        None => match sp_pressure_single(s, i, 65, PressureUnit::InchesOfMercury) {
            Some((av, j1)) => Some((Pressure { qnh: None, altimeter: Some(av) }, j1)),
            None => None,
        },
    }
}

fn scan_pressure_single(s: &[u8], i: usize, letter: u8, unit: PressureUnit) -> (r: Option<
    (PressureSingle, usize),
>)
    requires
        i <= s@.len(),
    ensures
        match (r, sp_pressure_single(s@, i as int, letter, unit)) {
            (Some((v, j)), Some((w, k))) => v == w && j as int == k && i <= j <= s@.len(),
            (None, None) => true,
            _ => false,
        },
{
    let slen = s.len();
    let i1 = match scan_tag1(s, i, letter) {
        Some(j) => j,
        None => {
            return None;
        },
    };
    if scan_slashes(s, i1, 4) {
        Some((PressureSingle { value: OptionalData::Undefined, unit }, i1 + 4))
    } else {
        match scan_digits_exact(s, i1, 4) {
            Some(v) => {
                proof {
                    lemma_digits_value_bound_four(s@, i1 as int, i1 + 4int);
                }
                Some((PressureSingle { value: OptionalData::Data(v), unit }, i1 + 4))
            },
            None => None,
        }
    }
}

/// Scans the pressure group at position `i`.
pub fn scan_pressure(s: &[u8], i: usize) -> (r: Option<(Pressure, usize)>)
    requires
        i <= s@.len(),
    ensures
        match (r, sp_pressure(s@, i as int)) {
            (Some((v, j)), Some((w, k))) => v == w && j as int == k && i <= j <= s@.len(),
            (None, None) => true,
            _ => false,
        },
{
    match scan_pressure_single(s, i, 81, PressureUnit::Hectopascals) {
        Some((qv, j1)) => {
            match scan_pressure_single(s, j1, 65, PressureUnit::InchesOfMercury) {
                Some((av, j2)) => Some((Pressure { qnh: Some(qv), altimeter: Some(av) }, j2)),
                None => Some((Pressure { qnh: Some(qv), altimeter: None }, j1)),
            }
        },
        None => match scan_pressure_single(s, i, 65, PressureUnit::InchesOfMercury) {
            Some((av, j1)) => Some((Pressure { qnh: None, altimeter: Some(av) }, j1)),
            None => None,
        },
    }
}

} // verus!
