//! The temperature and dew-point group of a report.

use vstd::prelude::*;

use crate::optional_data::OptionalData;
use crate::scan::{all_slashes, has_tag, scan_number, scan_slashes, scan_tag1, sp_number};

verus! {

/// Reported temperature and dew point in whole degrees Celsius; either may
/// be reported as undefined.
#[derive(Debug, Clone, Copy, PartialEq, Eq, Structural)]
pub struct TemperatureInfo {
    pub temp: OptionalData<i32>,
    pub dew_point: OptionalData<i32>,
}

/// A possibly negative temperature: an optional `M` sign and a digit run.
/// The result fits an `i32`.
pub open spec fn sp_signed_temp(s: Seq<u8>, i: int) -> Option<(int, int)> {
    if has_tag(s, i, seq![77u8]) {
        match sp_number(s, i + 1) {
            Some((v, j)) => Some((-v, j)),
            None => None,
        }
    } else {
        match sp_number(s, i) {
            Some((v, j)) => Some((v, j)),
            None => None,
        }
    }
}

/// A temperature field: two slashes for undefined, or a signed value.
pub open spec fn sp_temp_field(s: Seq<u8>, i: int) -> Option<(OptionalData<i32>, int)> {
    if all_slashes(s, i, 2) {
        Some((OptionalData::Undefined, i + 2))
    } else {
        match sp_signed_temp(s, i) {
            Some((v, j)) => Some((OptionalData::Data(v as i32), j)),
            None => None,
        }
    }
}

/// The temperature group: temperature, a slash, dew point.
pub open spec fn sp_temperature(s: Seq<u8>, i: int) -> Option<(TemperatureInfo, int)> {
    match sp_temp_field(s, i) {
        None => None,
        Some((temp, j1)) => if has_tag(s, j1, seq![47u8]) {
            match sp_temp_field(s, j1 + 1) {
                Some((dew_point, j2)) => Some((TemperatureInfo { temp, dew_point }, j2)),
                None => None,
            }
        } else {
            None
        },
    }
}

pub fn scan_signed_temp(s: &[u8], i: usize) -> (r: Option<(i32, usize)>)
    requires
        i <= s@.len(),
    ensures
        match (r, sp_signed_temp(s@, i as int)) {
            (Some((v, j)), Some((w, k))) => v as int == w && j as int == k && i <= j <= s@.len(),
            (None, None) => true,
            _ => false,
        },
{
    let slen = s.len();
    if let Some(i1) = scan_tag1(s, i, 77) {
        match scan_number(s, i1) {
            Some((v, j)) => Some((-(v as i32), j)),
            None => None,
        }
    } else {
        match scan_number(s, i) {
            Some((v, j)) => Some((v as i32, j)),
            None => None,
        }
    }
}

fn scan_temp_field(s: &[u8], i: usize) -> (r: Option<(OptionalData<i32>, usize)>)
    requires
        i <= s@.len(),
    ensures
        match (r, sp_temp_field(s@, i as int)) {
            (Some((v, j)), Some((w, k))) => v == w && j as int == k && i <= j <= s@.len(),
            (None, None) => true,
            _ => false,
        },
{
    let slen = s.len();
    if scan_slashes(s, i, 2) {
        Some((OptionalData::Undefined, i + 2))
    } else {
        match scan_signed_temp(s, i) {
            Some((v, j)) => Some((OptionalData::Data(v), j)),
            None => None,
        }
    }
}

/// Scans the temperature and dew-point group at position `i`.
pub fn scan_temperature(s: &[u8], i: usize) -> (r: Option<(TemperatureInfo, usize)>)
    requires
        i <= s@.len(),
    ensures
        match (r, sp_temperature(s@, i as int)) {
            (Some((v, j)), Some((w, k))) => v == w && j as int == k && i <= j <= s@.len(),
            (None, None) => true,
            _ => false,
        },
{
    let slen = s.len();
    let temp = match scan_temp_field(s, i) {
        Some(t) => t,
        None => {
            return None;
        },
    };
    let (temp, j1) = temp;
    if let Some(j) = scan_tag1(s, j1, 47) {
        match scan_temp_field(s, j) {
            Some((dew_point, j2)) => Some((TemperatureInfo { temp, dew_point }, j2)),
            None => None,
        }
    } else {
        None
    }
}

} // verus!
