//! The sea-surface group of a report: water temperature and either a coded
//! state of the sea or a significant wave height.

use vstd::prelude::*;

use crate::optional_data::OptionalData;
use crate::scan::{all_slashes, has_tag, scan_number, scan_slashes, scan_tag1, sp_number};
use crate::temperature::{scan_signed_temp, sp_signed_temp};

verus! {

/// Coded state of the sea.
#[derive(Debug, Clone, Copy, PartialEq, Eq, Structural)]
pub enum CodeTable3700 {
    CalmGlassLike,
    CalmRippled,
    Smooth,
    Slight,
    Moderate,
    Rough,
    VeryRough,
    High,
    VeryHigh,
    Phenomenal,
}

/// Either a coded sea state or a significant wave height in decimeters.
#[derive(Debug, Clone, Copy, PartialEq, Eq, Structural)]
pub enum StateOfSea {
    SeaSate(OptionalData<CodeTable3700>),
    SignificantWaveHeight(OptionalData<u16>),
}

/// The whole sea-surface group.
#[derive(Debug, Clone, Copy, PartialEq, Eq, Structural)]
pub struct SeaSurfaceIndicator {
    pub temperature: OptionalData<i32>,
    pub state_of_sea: OptionalData<StateOfSea>,
}

/// The sea-state digit as a code table entry.
pub open spec fn sp_sea_code(d: int) -> Option<CodeTable3700> {
    if d == 0 {
        Some(CodeTable3700::CalmGlassLike)
    } else if d == 1 {
        Some(CodeTable3700::CalmRippled)
    } else if d == 2 {
        Some(CodeTable3700::Smooth)
    } else if d == 3 {
        Some(CodeTable3700::Slight)
    } else if d == 4 {
        Some(CodeTable3700::Moderate)
    } else if d == 5 {
        Some(CodeTable3700::Rough)
    } else if d == 6 {
        Some(CodeTable3700::VeryRough)
    } else if d == 7 {
        Some(CodeTable3700::High)
    } else if d == 8 {
        Some(CodeTable3700::VeryHigh)
    } else if d == 9 {
        Some(CodeTable3700::Phenomenal)
    } else {
        None
    }
}

/// The coded sea state: `S` and one digit or one slash.
pub open spec fn sp_state_of_sea(s: Seq<u8>, i: int) -> Option<(StateOfSea, int)> {
    if has_tag(s, i, seq![83u8]) {
        if all_slashes(s, i + 1, 1) {
            Some((StateOfSea::SeaSate(OptionalData::Undefined), i + 2))
        } else {
            match sp_number(s, i + 1) {
                Some((v, j)) => match sp_sea_code(v) {
                    Some(c) => Some((StateOfSea::SeaSate(OptionalData::Data(c)), j)),
                    None => None,
                },
                None => None,
            }
        }
    } else {
        None
    }
}

/// The wave height form: `H` and a digit run or three slashes.
pub open spec fn sp_wave_height(s: Seq<u8>, i: int) -> Option<(StateOfSea, int)> {
    if has_tag(s, i, seq![72u8]) {
        if all_slashes(s, i + 1, 3) {
            Some((StateOfSea::SignificantWaveHeight(OptionalData::Undefined), i + 4))
        } else {
            match sp_number(s, i + 1) {
                Some((v, j)) => if v <= 65535 {
                    Some((StateOfSea::SignificantWaveHeight(OptionalData::Data(v as u16)), j))
                } else {
                    None
                },
                None => None,
            }
        }
    } else {
        None
    }
}

/// The whole group: `W`, the water temperature or two slashes, a slash,
/// then the sea state, the wave height, or two slashes.
pub open spec fn sp_sea_surface(s: Seq<u8>, i: int) -> Option<(SeaSurfaceIndicator, int)> {
    if has_tag(s, i, seq![87u8]) {
        let t = if all_slashes(s, i + 1, 2) {
            Some((OptionalData::Undefined, i + 3))
        } else {
            match sp_signed_temp(s, i + 1) {
                Some((v, j)) => Some((OptionalData::Data(v as i32), j)),
                None => None,
            }
        };
        match t {
            None => None,
            Some((temperature, j1)) => if has_tag(s, j1, seq![47u8]) {
                if all_slashes(s, j1 + 1, 2) {
                    Some(
                        (
                            SeaSurfaceIndicator {
                                temperature,
                                state_of_sea: OptionalData::Undefined,
                            },
                            j1 + 3,
                        ),
                    )
                } else {
                    let st = match sp_state_of_sea(s, j1 + 1) {
                        Some(r) => Some(r),
                        None => sp_wave_height(s, j1 + 1),
                    };
                    match st {
                        Some((v, j2)) => Some(
                            (
                                SeaSurfaceIndicator {
                                    temperature,
                                    state_of_sea: OptionalData::Data(v),
                                },
                                j2,
                            ),
                        ),
                        None => None,
                    }
                }
            } else {
                None
            },
        }
    } else {
        None
    }
}

fn scan_state_of_sea(s: &[u8], i: usize) -> (r: Option<(StateOfSea, usize)>)
    requires
        i <= s@.len(),
    ensures
        match (r, sp_state_of_sea(s@, i as int)) {
            (Some((v, j)), Some((w, k))) => v == w && j as int == k && i <= j <= s@.len(),
            (None, None) => true,
            _ => false,
        },
{
    let slen = s.len();
    let i1 = match scan_tag1(s, i, 83) {
        Some(j) => j,
        None => {
            return None;
        },
    };
    if scan_slashes(s, i1, 1) {
        Some((StateOfSea::SeaSate(OptionalData::Undefined), i1 + 1))
    } else {
        match scan_number(s, i1) {
            Some((v, j)) => {
                let code = if v == 0 {
                    Some(CodeTable3700::CalmGlassLike)
                } else if v == 1 {
                    Some(CodeTable3700::CalmRippled)
                } else if v == 2 {
                    Some(CodeTable3700::Smooth)
                } else if v == 3 {
                    Some(CodeTable3700::Slight)
                } else if v == 4 {
                    Some(CodeTable3700::Moderate)
                } else if v == 5 {
                    Some(CodeTable3700::Rough)
                } else if v == 6 {
                    Some(CodeTable3700::VeryRough)
                } else if v == 7 {
                    Some(CodeTable3700::High)
                } else if v == 8 {
                    Some(CodeTable3700::VeryHigh)
                } else if v == 9 {
                    Some(CodeTable3700::Phenomenal)
                } else {
                    None
                };
                match code {
                    Some(c) => Some((StateOfSea::SeaSate(OptionalData::Data(c)), j)),
                    None => None,
                }
            },
            None => None,
        }
    }
}

fn scan_wave_height(s: &[u8], i: usize) -> (r: Option<(StateOfSea, usize)>)
    requires
        i <= s@.len(),
    ensures
        match (r, sp_wave_height(s@, i as int)) {
            (Some((v, j)), Some((w, k))) => v == w && j as int == k && i <= j <= s@.len(),
            (None, None) => true,
            _ => false,
        },
{
    let slen = s.len();
    let i1 = match scan_tag1(s, i, 72) {
        Some(j) => j,
        None => {
            return None;
        },
    };
    if scan_slashes(s, i1, 3) {
        Some((StateOfSea::SignificantWaveHeight(OptionalData::Undefined), i1 + 3))
    } else {
        match scan_number(s, i1) {
            Some((v, j)) => {
                if v <= 65535 {
                    Some((StateOfSea::SignificantWaveHeight(OptionalData::Data(v as u16)), j))
                } else {
                    None
                }
            },
            None => None,
        }
    }
}

/// Scans the sea-surface group at position `i`.
pub fn scan_sea_surface(s: &[u8], i: usize) -> (r: Option<(SeaSurfaceIndicator, usize)>)
    requires
        i <= s@.len(),
    ensures
        match (r, sp_sea_surface(s@, i as int)) {
            (Some((v, j)), Some((w, k))) => v == w && j as int == k && i <= j <= s@.len(),
            (None, None) => true,
            _ => false,
        },
{
    let slen = s.len();
    let i1 = match scan_tag1(s, i, 87) {
        Some(j) => j,
        None => {
            return None;
        },
    };
    let (temperature, j1): (OptionalData<i32>, usize) = if scan_slashes(s, i1, 2) {
        (OptionalData::Undefined, i1 + 2)
    } else {
        match scan_signed_temp(s, i1) {
            Some((v, j)) => (OptionalData::Data(v), j),
            None => {
                return None;
            },
        }
    };
    let j2 = match scan_tag1(s, j1, 47) {
        Some(j) => j,
        None => {
            return None;
        },
    };
    if scan_slashes(s, j2, 2) {
        Some(
            (
                SeaSurfaceIndicator { temperature, state_of_sea: OptionalData::Undefined },
                j2 + 2,
            ),
        )
    } else {
        let st = match scan_state_of_sea(s, j2) {
            Some(r) => Some(r),
            None => scan_wave_height(s, j2),
        };
        match st {
            Some((v, j3)) => Some(
                (SeaSurfaceIndicator { temperature, state_of_sea: OptionalData::Data(v) }, j3),
            ),
            None => None,
        }
    }
}

} // verus!
