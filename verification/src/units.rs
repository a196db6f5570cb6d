//! The observation timestamp of a report.

use vstd::prelude::*;

use crate::scan::{
    digits_value, is_digit, lemma_digits_value_bound_two, scan_digits_exact,
};

verus! {

/// Day of month plus time of day in UTC, as reported (`DDHHMMZ`).
#[derive(Debug, Clone, Copy, PartialEq, Eq, Structural)]
pub struct Timestamp {
    pub day: u8,
    pub hour: u8,
    pub minute: u8,
}

/// The timestamp group: six digits followed by `Z`.
pub open spec fn sp_timestamp(s: Seq<u8>, i: int) -> Option<(Timestamp, int)> {
    if i + 7 <= s.len() && (forall|k: int| i <= k < i + 6 ==> #[trigger] is_digit(s[k])) && s[i
        + 6] == 90 {
        Some(
            (
                Timestamp {
                    day: digits_value(s, i, i + 2) as u8,
                    hour: digits_value(s, i + 2, i + 4) as u8,
                    minute: digits_value(s, i + 4, i + 6) as u8,
                },
                i + 7,
            ),
        )
    } else {
        None
    }
}

/// Scans the timestamp group at position `i`.
pub fn scan_timestamp(s: &[u8], i: usize) -> (r: Option<(Timestamp, usize)>)
    requires
        i <= s@.len(),
    ensures
        match (r, sp_timestamp(s@, i as int)) {
            (Some((v, j)), Some((w, k))) => v == w && j as int == k && i <= j <= s@.len(),
            (None, None) => true,
            _ => false,
        },
{
    let slen = s.len();
    if slen - i < 7 {
        return None;
    }
    let day = scan_digits_exact(s, i, 2);
    let hour = scan_digits_exact(s, i + 2, 2);
    let minute = scan_digits_exact(s, i + 4, 2);
    match (day, hour, minute) {
        (Some(d), Some(h), Some(m)) => {
            if s[i + 6] == 90u8 {
                proof {
                    lemma_digits_value_bound_two(s@, i as int, i + 2int);
                    lemma_digits_value_bound_two(s@, i + 2int, i + 4int);
                    lemma_digits_value_bound_two(s@, i + 4int, i + 6int);
                }
                Some(
                    (
                        Timestamp { day: d as u8, hour: h as u8, minute: m as u8 },
                        i + 7,
                    ),
                )
            } else {
                None
            }
        },
        _ => {
            assert(sp_timestamp(s@, i as int) is None);
            None
        },
    }
}

} // verus!
