//! Extraction of runway-in-use statements from operational-bulletin free
//! text.
//!
//! The bulletin is an already-decided fact: this scan only recognizes the
//! phrasings in which it states runways and does no weather evaluation.
//! All occurrences of every phrasing are collected, in a fixed pass order,
//! and repeated mentions of one runway combine under the merge rule. A
//! standalone "runway .. in use" statement is read through the bulletin's
//! arrival- or departure-information context, and is skipped when the few
//! characters before it show it to be the tail of an approach or departure
//! statement.

use vstd::prelude::*;

use crate::runway::{spec_merged, RunwayUse};
use crate::scan::{digit_run_end, has_tag, is_digit};
use crate::usage_map::{
    new_usage_map, spec_find_key, usage_entries, usage_get, usage_insert, usage_upsert, UsageMap,
};

verus! {

/// A letter, digit or underscore: the characters that extend a word.
pub open spec fn is_word_byte(b: u8) -> bool {
    (48 <= b <= 57) || (65 <= b <= 90) || (97 <= b <= 122) || b == 95
}

/// Whether a word may start at `i`: the start of the text or a position
/// right after a non-word character.
pub open spec fn sp_word_start(s: Seq<u8>, i: int) -> bool {
    i == 0 || (0 < i <= s.len() && !is_word_byte(s[i - 1]))
}

/// First position at or after `i` that does not hold one of the side
/// letters `L`, `R`, `C`.
pub open spec fn lrc_run_end(s: Seq<u8>, i: int) -> int
    decreases s.len() - i when 0 <= i <= s.len()
{
    if i < s.len() && (s[i] == 76 || s[i] == 82 || s[i] == 67) {
        lrc_run_end(s, i + 1)
    } else {
        i
    }
}

/// A runway designator at `i`: exactly two digits, the run of side
/// letters, and a word boundary after it.
pub open spec fn sp_atis_ident(s: Seq<u8>, i: int) -> Option<(Seq<u8>, int)>
    recommends
        0 <= i <= s.len(),
{
    if i + 2 <= s.len() && is_digit(s[i]) && is_digit(s[i + 1]) && digit_run_end(s, i) == i + 2 {
        let e = lrc_run_end(s, i + 2);
        if e == s.len() || !is_word_byte(s[e]) {
            Some((s.subrange(i, e), e))
        } else {
            None
        }
    } else {
        None
    }
}

/// The views of a list of designators.
pub open spec fn deep_ids(vs: Seq<Vec<u8>>) -> Seq<Seq<u8>> {
    vs.map_values(|v: Vec<u8>| v@)
}

/// The views of a list of designator pairs.
pub open spec fn deep_id_pairs(vs: Seq<(Vec<u8>, Vec<u8>)>) -> Seq<(Seq<u8>, Seq<u8>)> {
    vs.map_values(|p: (Vec<u8>, Vec<u8>)| (p.0@, p.1@))
}

/// Whether the "runway in use .." phrasing matches at `i`, and the
/// designator it names.
pub open spec fn sp_pre_at(s: Seq<u8>, i: int) -> Option<Seq<u8>>
    recommends
        0 <= i <= s.len(),
{
    if sp_word_start(s, i) && has_tag(s, i, seq![82u8, 85u8, 78u8, 87u8, 65u8, 89u8, 32u8, 73u8, 78u8, 32u8, 85u8, 83u8, 69u8, 32u8]) {
        match sp_atis_ident(s, i + 14) {
            Some((id, e)) => Some(id),
            None => None,
        }
    } else {
        None
    }
}

/// Whether an approach statement matches at `i`, in either spelling of the
/// runway word, and the designator it names.
pub open spec fn sp_arr_at(s: Seq<u8>, i: int) -> Option<Seq<u8>>
    recommends
        0 <= i <= s.len(),
{
    if sp_word_start(s, i) && has_tag(s, i, seq![65u8, 80u8, 80u8, 82u8, 79u8, 65u8, 67u8, 72u8, 32u8, 82u8, 87u8, 89u8, 32u8]) {
        match sp_atis_ident(s, i + 13) {
            Some((id, e)) => Some(id),
            None => None,
        }
    } else if sp_word_start(s, i) && has_tag(s, i, seq![65u8, 80u8, 80u8, 82u8, 79u8, 65u8, 67u8, 72u8, 32u8, 82u8, 85u8, 78u8, 87u8, 65u8, 89u8, 32u8]) {
        match sp_atis_ident(s, i + 16) {
            Some((id, e)) => Some(id),
            None => None,
        }
    } else {
        None
    }
}

/// Whether a departure statement matches at `i`, and the designator it
/// names.
pub open spec fn sp_dep_at(s: Seq<u8>, i: int) -> Option<Seq<u8>>
    recommends
        0 <= i <= s.len(),
{
    if sp_word_start(s, i) && has_tag(s, i, seq![68u8, 69u8, 80u8, 65u8, 82u8, 84u8, 85u8, 82u8, 69u8, 32u8, 82u8, 85u8, 78u8, 87u8, 65u8, 89u8, 32u8]) {
        match sp_atis_ident(s, i + 17) {
            Some((id, e)) => Some(id),
            None => None,
        }
    } else {
        None
    }
}

/// Whether the two-runway phrasing matches at `i`, and the two designators
/// it names.
pub open spec fn sp_multi_at(s: Seq<u8>, i: int) -> Option<(Seq<u8>, Seq<u8>)>
    recommends
        0 <= i <= s.len(),
{
    if sp_word_start(s, i) && has_tag(s, i, seq![82u8, 85u8, 78u8, 87u8, 65u8, 89u8, 83u8, 32u8]) {
        match sp_atis_ident(s, i + 8) {
            Some((id1, e1)) => if has_tag(s, e1, seq![32u8, 65u8, 78u8, 68u8, 32u8]) {
                match sp_atis_ident(s, e1 + 5) {
                    Some((id2, e2)) => if has_tag(s, e2, seq![32u8, 73u8, 78u8, 32u8, 85u8, 83u8, 69u8]) && (e2 + 7
                        == s.len() || (0 <= e2 + 7 < s.len() && !is_word_byte(
                        s[e2 + 7],
                    ))) {
                        Some((id1, id2))
                    } else {
                        None
                    },
                    None => None,
                }
            } else {
                None
            },
            None => None,
        }
    } else {
        None
    }
}

/// The literal that opens a departure statement.
pub open spec fn sp_departure_word() -> Seq<u8> {
    seq![68u8, 69u8, 80u8, 65u8, 82u8, 84u8, 85u8, 82u8, 69u8, 32u8]
}

/// The literal that opens an approach statement.
pub open spec fn sp_approach_word() -> Seq<u8> {
    seq![65u8, 80u8, 80u8, 82u8, 79u8, 65u8, 67u8, 72u8, 32u8]
}

/// Whether a standalone "runway .. in use" occurrence at `i` is really the
/// tail of an approach or departure statement: one of those opening words
/// occurs wholly within the twenty characters before `i`.
pub open spec fn sp_window_blocked(s: Seq<u8>, i: int) -> bool {
    ||| exists|j: int|
        i - 20 <= j && j + 10 <= i && #[trigger] has_tag(s, j, sp_departure_word())
    ||| exists|j: int|
        i - 20 <= j && j + 9 <= i && #[trigger] has_tag(s, j, sp_approach_word())
}

/// Whether a standalone "runway .. in use" statement matches at `i`, and
/// the designator it names.
pub open spec fn sp_post_at(s: Seq<u8>, i: int) -> Option<Seq<u8>>
    recommends
        0 <= i <= s.len(),
{
    if sp_word_start(s, i) && has_tag(s, i, seq![82u8, 85u8, 78u8, 87u8, 65u8, 89u8, 32u8]) && !sp_window_blocked(s, i) {
        match sp_atis_ident(s, i + 7) {
            Some((id, e)) => if has_tag(s, e, seq![32u8, 73u8, 78u8, 32u8, 85u8, 83u8, 69u8]) && (e + 7 == s.len() || (0
                <= e + 7 < s.len() && !is_word_byte(s[e + 7]))) {
                Some(id)
            } else {
                None
            },
            None => None,
        }
    } else {
        None
    }
}

/// The phrase that declares an arrival bulletin.
pub open spec fn sp_arrival_info() -> Seq<u8> {
    seq![32u8, 65u8, 82u8, 82u8, 73u8, 86u8, 65u8, 76u8, 32u8, 73u8, 78u8, 70u8, 79u8, 82u8, 77u8, 65u8, 84u8, 73u8, 79u8, 78u8, 32u8]
}

/// The phrase that declares a departure bulletin.
pub open spec fn sp_departure_info() -> Seq<u8> {
    seq![32u8, 68u8, 69u8, 80u8, 65u8, 82u8, 84u8, 85u8, 82u8, 69u8, 32u8, 73u8, 78u8, 70u8, 79u8, 82u8, 77u8, 65u8, 84u8, 73u8, 79u8, 78u8, 32u8]
}

/// Whether the bulletin declares itself an arrival bulletin.
pub open spec fn sp_arrival_context(s: Seq<u8>) -> bool {
    exists|i: int| 0 <= i && #[trigger] has_tag(s, i, sp_arrival_info())
}

/// Whether the bulletin declares itself a departure bulletin.
pub open spec fn sp_departure_context(s: Seq<u8>) -> bool {
    exists|i: int| 0 <= i && #[trigger] has_tag(s, i, sp_departure_info())
}

/// All designators named by runway-in-use statements at or after `i`, in text
/// order.
pub open spec fn sp_pre_list(s: Seq<u8>, i: int) -> Seq<Seq<u8>>
    decreases s.len() - i when 0 <= i <= s.len()
{
    let rest = if i < s.len() {
        sp_pre_list(s, i + 1)
    } else {
        Seq::empty()
    };
    match sp_pre_at(s, i) {
        Some(id) => seq![id] + rest,
        None => rest,
    }
}

/// All designators named by approach statements at or after `i`, in text
/// order.
pub open spec fn sp_arr_list(s: Seq<u8>, i: int) -> Seq<Seq<u8>>
    decreases s.len() - i when 0 <= i <= s.len()
{
    let rest = if i < s.len() {
        sp_arr_list(s, i + 1)
    } else {
        Seq::empty()
    };
    match sp_arr_at(s, i) {
        Some(id) => seq![id] + rest,
        None => rest,
    }
}

/// All designators named by departure statements at or after `i`, in text
/// order.
pub open spec fn sp_dep_list(s: Seq<u8>, i: int) -> Seq<Seq<u8>>
    decreases s.len() - i when 0 <= i <= s.len()
{
    let rest = if i < s.len() {
        sp_dep_list(s, i + 1)
    } else {
        Seq::empty()
    };
    match sp_dep_at(s, i) {
        Some(id) => seq![id] + rest,
        None => rest,
    }
}

/// All designators named by standalone statements at or after `i`, in text
/// order.
pub open spec fn sp_post_list(s: Seq<u8>, i: int) -> Seq<Seq<u8>>
    decreases s.len() - i when 0 <= i <= s.len()
{
    let rest = if i < s.len() {
        sp_post_list(s, i + 1)
    } else {
        Seq::empty()
    };
    match sp_post_at(s, i) {
        Some(id) => seq![id] + rest,
        None => rest,
    }
}

/// All designator pairs named by two-runway statements at or after `i`.
pub open spec fn sp_multi_list(s: Seq<u8>, i: int) -> Seq<(Seq<u8>, Seq<u8>)>
    decreases s.len() - i when 0 <= i <= s.len()
{
    let rest = if i < s.len() {
        sp_multi_list(s, i + 1)
    } else {
        Seq::empty()
    };
    match sp_multi_at(s, i) {
        Some(ids) => seq![ids] + rest,
        None => rest,
    }
}

/// One designator folded into the selection entries under the merge rule:
/// a present runway keeps its place and gets the merged usage, a new one
/// is appended.
pub open spec fn sp_upsert(
    es: Seq<(Seq<u8>, RunwayUse)>,
    id: Seq<u8>,
    u: RunwayUse,
) -> Seq<(Seq<u8>, RunwayUse)> {
    let i = spec_find_key(es, id);
    if i >= 0 {
        es.update(i, (id, spec_merged(es[i].1, u)))
    } else {
        es.push((id, u))
    }
}

/// A list of designators folded in order, all with one usage.
pub open spec fn sp_upsert_all(
    es: Seq<(Seq<u8>, RunwayUse)>,
    ids: Seq<Seq<u8>>,
    u: RunwayUse,
) -> Seq<(Seq<u8>, RunwayUse)>
    decreases ids.len(),
{
    if ids.len() == 0 {
        es
    } else {
        sp_upsert_all(sp_upsert(es, ids[0], u), ids.skip(1), u)
    }
}

/// Designator pairs folded in order, both sides used both ways.
pub open spec fn sp_upsert_pairs(
    es: Seq<(Seq<u8>, RunwayUse)>,
    ps: Seq<(Seq<u8>, Seq<u8>)>,
) -> Seq<(Seq<u8>, RunwayUse)>
    decreases ps.len(),
{
    if ps.len() == 0 {
        es
    } else {
        sp_upsert_pairs(
            sp_upsert(sp_upsert(es, ps[0].0, RunwayUse::Both), ps[0].1, RunwayUse::Both),
            ps.skip(1),
        )
    }
}

/// Standalone statements applied through the bulletin context: arrivals in
/// an arrival bulletin, departures in a departure bulletin; in a combined
/// or unknown bulletin the statement only fills in a runway not already
/// known, used both ways, and never overrides specific information.
pub open spec fn sp_post_apply(
    es: Seq<(Seq<u8>, RunwayUse)>,
    ids: Seq<Seq<u8>>,
    arrival: bool,
    departure: bool,
) -> Seq<(Seq<u8>, RunwayUse)>
    decreases ids.len(),
{
    if ids.len() == 0 {
        es
    } else {
        let es2 = if arrival {
            sp_upsert(es, ids[0], RunwayUse::Arriving)
        } else if departure {
            sp_upsert(es, ids[0], RunwayUse::Departing)
        } else if spec_find_key(es, ids[0]) < 0 {
            es.push((ids[0], RunwayUse::Both))
        } else {
            es
        };
        sp_post_apply(es2, ids.skip(1), arrival, departure)
    }
}

/// What the bulletin text selects: every statement of every phrasing, in
/// the pass order two-runway, runway-in-use, approach, departure,
/// standalone, with repeated mentions merged.
pub open spec fn spec_atis_selection(s: Seq<u8>) -> Seq<(Seq<u8>, RunwayUse)> {
    let m1 = sp_upsert_pairs(Seq::empty(), sp_multi_list(s, 0));
    let m2 = sp_upsert_all(m1, sp_pre_list(s, 0), RunwayUse::Both);
    let m3 = sp_upsert_all(m2, sp_arr_list(s, 0), RunwayUse::Arriving);
    let m4 = sp_upsert_all(m3, sp_dep_list(s, 0), RunwayUse::Departing);
    sp_post_apply(m4, sp_post_list(s, 0), sp_arrival_context(s), sp_departure_context(s))
}

fn tag_at5(s: &[u8], i: usize, b0: u8, b1: u8, b2: u8, b3: u8, b4: u8) -> (r: bool)
    requires
        i <= s@.len(),
    ensures
        r == has_tag(s@, i as int, seq![b0, b1, b2, b3, b4]),
{
    let slen = s.len();
    proof {
            assert(seq![b0, b1, b2, b3, b4][0] == b0);
            assert(seq![b0, b1, b2, b3, b4][1] == b1);
            assert(seq![b0, b1, b2, b3, b4][2] == b2);
            assert(seq![b0, b1, b2, b3, b4][3] == b3);
            assert(seq![b0, b1, b2, b3, b4][4] == b4);
    }
    if slen - i >= 5 && s[i + 0] == b0 && s[i + 1] == b1 && s[i + 2] == b2 && s[i + 3] == b3 && s[i + 4] == b4 {
        assert(has_tag(s@, i as int, seq![b0, b1, b2, b3, b4]));
        true
    } else {
        assert(!has_tag(s@, i as int, seq![b0, b1, b2, b3, b4]));
        false
    }
}


fn tag_at7(s: &[u8], i: usize, b0: u8, b1: u8, b2: u8, b3: u8, b4: u8, b5: u8, b6: u8) -> (r: bool)
    requires
        i <= s@.len(),
    ensures
        r == has_tag(s@, i as int, seq![b0, b1, b2, b3, b4, b5, b6]),
{
    let slen = s.len();
    proof {
            assert(seq![b0, b1, b2, b3, b4, b5, b6][0] == b0);
            assert(seq![b0, b1, b2, b3, b4, b5, b6][1] == b1);
            assert(seq![b0, b1, b2, b3, b4, b5, b6][2] == b2);
            assert(seq![b0, b1, b2, b3, b4, b5, b6][3] == b3);
            assert(seq![b0, b1, b2, b3, b4, b5, b6][4] == b4);
            assert(seq![b0, b1, b2, b3, b4, b5, b6][5] == b5);
            assert(seq![b0, b1, b2, b3, b4, b5, b6][6] == b6);
    }
    if slen - i >= 7 && s[i + 0] == b0 && s[i + 1] == b1 && s[i + 2] == b2 && s[i + 3] == b3 && s[i + 4] == b4 && s[i + 5] == b5 && s[i + 6] == b6 {
        assert(has_tag(s@, i as int, seq![b0, b1, b2, b3, b4, b5, b6]));
        true
    } else {
        assert(!has_tag(s@, i as int, seq![b0, b1, b2, b3, b4, b5, b6]));
        false
    }
}


fn tag_at8(s: &[u8], i: usize, b0: u8, b1: u8, b2: u8, b3: u8, b4: u8, b5: u8, b6: u8, b7: u8) -> (r: bool)
    requires
        i <= s@.len(),
    ensures
        r == has_tag(s@, i as int, seq![b0, b1, b2, b3, b4, b5, b6, b7]),
{
    let slen = s.len();
    proof {
            assert(seq![b0, b1, b2, b3, b4, b5, b6, b7][0] == b0);
            assert(seq![b0, b1, b2, b3, b4, b5, b6, b7][1] == b1);
            assert(seq![b0, b1, b2, b3, b4, b5, b6, b7][2] == b2);
            assert(seq![b0, b1, b2, b3, b4, b5, b6, b7][3] == b3);
            assert(seq![b0, b1, b2, b3, b4, b5, b6, b7][4] == b4);
            assert(seq![b0, b1, b2, b3, b4, b5, b6, b7][5] == b5);
            assert(seq![b0, b1, b2, b3, b4, b5, b6, b7][6] == b6);
            assert(seq![b0, b1, b2, b3, b4, b5, b6, b7][7] == b7);
    }
    if slen - i >= 8 && s[i + 0] == b0 && s[i + 1] == b1 && s[i + 2] == b2 && s[i + 3] == b3 && s[i + 4] == b4 && s[i + 5] == b5 && s[i + 6] == b6 && s[i + 7] == b7 {
        assert(has_tag(s@, i as int, seq![b0, b1, b2, b3, b4, b5, b6, b7]));
        true
    } else {
        assert(!has_tag(s@, i as int, seq![b0, b1, b2, b3, b4, b5, b6, b7]));
        false
    }
}


fn tag_at9(s: &[u8], i: usize, b0: u8, b1: u8, b2: u8, b3: u8, b4: u8, b5: u8, b6: u8, b7: u8, b8: u8) -> (r: bool)
    requires
        i <= s@.len(),
    ensures
        r == has_tag(s@, i as int, seq![b0, b1, b2, b3, b4, b5, b6, b7, b8]),
{
    let slen = s.len();
    proof {
            assert(seq![b0, b1, b2, b3, b4, b5, b6, b7, b8][0] == b0);
            assert(seq![b0, b1, b2, b3, b4, b5, b6, b7, b8][1] == b1);
            assert(seq![b0, b1, b2, b3, b4, b5, b6, b7, b8][2] == b2);
            assert(seq![b0, b1, b2, b3, b4, b5, b6, b7, b8][3] == b3);
            assert(seq![b0, b1, b2, b3, b4, b5, b6, b7, b8][4] == b4);
            assert(seq![b0, b1, b2, b3, b4, b5, b6, b7, b8][5] == b5);
            assert(seq![b0, b1, b2, b3, b4, b5, b6, b7, b8][6] == b6);
            assert(seq![b0, b1, b2, b3, b4, b5, b6, b7, b8][7] == b7);
            assert(seq![b0, b1, b2, b3, b4, b5, b6, b7, b8][8] == b8);
    }
    if slen - i >= 9 && s[i + 0] == b0 && s[i + 1] == b1 && s[i + 2] == b2 && s[i + 3] == b3 && s[i + 4] == b4 && s[i + 5] == b5 && s[i + 6] == b6 && s[i + 7] == b7 && s[i + 8] == b8 {
        assert(has_tag(s@, i as int, seq![b0, b1, b2, b3, b4, b5, b6, b7, b8]));
        true
    } else {
        assert(!has_tag(s@, i as int, seq![b0, b1, b2, b3, b4, b5, b6, b7, b8]));
        false
    }
}


fn tag_at10(s: &[u8], i: usize, b0: u8, b1: u8, b2: u8, b3: u8, b4: u8, b5: u8, b6: u8, b7: u8, b8: u8, b9: u8) -> (r: bool)
    requires
        i <= s@.len(),
    ensures
        r == has_tag(s@, i as int, seq![b0, b1, b2, b3, b4, b5, b6, b7, b8, b9]),
{
    let slen = s.len();
    proof {
            assert(seq![b0, b1, b2, b3, b4, b5, b6, b7, b8, b9][0] == b0);
            assert(seq![b0, b1, b2, b3, b4, b5, b6, b7, b8, b9][1] == b1);
            assert(seq![b0, b1, b2, b3, b4, b5, b6, b7, b8, b9][2] == b2);
            assert(seq![b0, b1, b2, b3, b4, b5, b6, b7, b8, b9][3] == b3);
            assert(seq![b0, b1, b2, b3, b4, b5, b6, b7, b8, b9][4] == b4);
            assert(seq![b0, b1, b2, b3, b4, b5, b6, b7, b8, b9][5] == b5);
            assert(seq![b0, b1, b2, b3, b4, b5, b6, b7, b8, b9][6] == b6);
            assert(seq![b0, b1, b2, b3, b4, b5, b6, b7, b8, b9][7] == b7);
            assert(seq![b0, b1, b2, b3, b4, b5, b6, b7, b8, b9][8] == b8);
            assert(seq![b0, b1, b2, b3, b4, b5, b6, b7, b8, b9][9] == b9);
    }
    if slen - i >= 10 && s[i + 0] == b0 && s[i + 1] == b1 && s[i + 2] == b2 && s[i + 3] == b3 && s[i + 4] == b4 && s[i + 5] == b5 && s[i + 6] == b6 && s[i + 7] == b7 && s[i + 8] == b8 && s[i + 9] == b9 {
        assert(has_tag(s@, i as int, seq![b0, b1, b2, b3, b4, b5, b6, b7, b8, b9]));
        true
    } else {
        assert(!has_tag(s@, i as int, seq![b0, b1, b2, b3, b4, b5, b6, b7, b8, b9]));
        false
    }
}


fn tag_at13(s: &[u8], i: usize, b0: u8, b1: u8, b2: u8, b3: u8, b4: u8, b5: u8, b6: u8, b7: u8, b8: u8, b9: u8, b10: u8, b11: u8, b12: u8) -> (r: bool)
    requires
        i <= s@.len(),
    ensures
        r == has_tag(s@, i as int, seq![b0, b1, b2, b3, b4, b5, b6, b7, b8, b9, b10, b11, b12]),
{
    let slen = s.len();
    proof {
            assert(seq![b0, b1, b2, b3, b4, b5, b6, b7, b8, b9, b10, b11, b12][0] == b0);
            assert(seq![b0, b1, b2, b3, b4, b5, b6, b7, b8, b9, b10, b11, b12][1] == b1);
            assert(seq![b0, b1, b2, b3, b4, b5, b6, b7, b8, b9, b10, b11, b12][2] == b2);
            assert(seq![b0, b1, b2, b3, b4, b5, b6, b7, b8, b9, b10, b11, b12][3] == b3);
            assert(seq![b0, b1, b2, b3, b4, b5, b6, b7, b8, b9, b10, b11, b12][4] == b4);
            assert(seq![b0, b1, b2, b3, b4, b5, b6, b7, b8, b9, b10, b11, b12][5] == b5);
            assert(seq![b0, b1, b2, b3, b4, b5, b6, b7, b8, b9, b10, b11, b12][6] == b6);
            assert(seq![b0, b1, b2, b3, b4, b5, b6, b7, b8, b9, b10, b11, b12][7] == b7);
            assert(seq![b0, b1, b2, b3, b4, b5, b6, b7, b8, b9, b10, b11, b12][8] == b8);
            assert(seq![b0, b1, b2, b3, b4, b5, b6, b7, b8, b9, b10, b11, b12][9] == b9);
            assert(seq![b0, b1, b2, b3, b4, b5, b6, b7, b8, b9, b10, b11, b12][10] == b10);
            assert(seq![b0, b1, b2, b3, b4, b5, b6, b7, b8, b9, b10, b11, b12][11] == b11);
            assert(seq![b0, b1, b2, b3, b4, b5, b6, b7, b8, b9, b10, b11, b12][12] == b12);
    }
    if slen - i >= 13 && s[i + 0] == b0 && s[i + 1] == b1 && s[i + 2] == b2 && s[i + 3] == b3 && s[i + 4] == b4 && s[i + 5] == b5 && s[i + 6] == b6 && s[i + 7] == b7 && s[i + 8] == b8 && s[i + 9] == b9 && s[i + 10] == b10 && s[i + 11] == b11 && s[i + 12] == b12 {
        assert(has_tag(s@, i as int, seq![b0, b1, b2, b3, b4, b5, b6, b7, b8, b9, b10, b11, b12]));
        true
    } else {
        assert(!has_tag(s@, i as int, seq![b0, b1, b2, b3, b4, b5, b6, b7, b8, b9, b10, b11, b12]));
        false
    }
}


fn tag_at14(s: &[u8], i: usize, b0: u8, b1: u8, b2: u8, b3: u8, b4: u8, b5: u8, b6: u8, b7: u8, b8: u8, b9: u8, b10: u8, b11: u8, b12: u8, b13: u8) -> (r: bool)
    requires
        i <= s@.len(),
    ensures
        r == has_tag(s@, i as int, seq![b0, b1, b2, b3, b4, b5, b6, b7, b8, b9, b10, b11, b12, b13]),
{
    let slen = s.len();
    proof {
            assert(seq![b0, b1, b2, b3, b4, b5, b6, b7, b8, b9, b10, b11, b12, b13][0] == b0);
            assert(seq![b0, b1, b2, b3, b4, b5, b6, b7, b8, b9, b10, b11, b12, b13][1] == b1);
            assert(seq![b0, b1, b2, b3, b4, b5, b6, b7, b8, b9, b10, b11, b12, b13][2] == b2);
            assert(seq![b0, b1, b2, b3, b4, b5, b6, b7, b8, b9, b10, b11, b12, b13][3] == b3);
            assert(seq![b0, b1, b2, b3, b4, b5, b6, b7, b8, b9, b10, b11, b12, b13][4] == b4);
            assert(seq![b0, b1, b2, b3, b4, b5, b6, b7, b8, b9, b10, b11, b12, b13][5] == b5);
            assert(seq![b0, b1, b2, b3, b4, b5, b6, b7, b8, b9, b10, b11, b12, b13][6] == b6);
            assert(seq![b0, b1, b2, b3, b4, b5, b6, b7, b8, b9, b10, b11, b12, b13][7] == b7);
            assert(seq![b0, b1, b2, b3, b4, b5, b6, b7, b8, b9, b10, b11, b12, b13][8] == b8);
            assert(seq![b0, b1, b2, b3, b4, b5, b6, b7, b8, b9, b10, b11, b12, b13][9] == b9);
            assert(seq![b0, b1, b2, b3, b4, b5, b6, b7, b8, b9, b10, b11, b12, b13][10] == b10);
            assert(seq![b0, b1, b2, b3, b4, b5, b6, b7, b8, b9, b10, b11, b12, b13][11] == b11);
            assert(seq![b0, b1, b2, b3, b4, b5, b6, b7, b8, b9, b10, b11, b12, b13][12] == b12);
            assert(seq![b0, b1, b2, b3, b4, b5, b6, b7, b8, b9, b10, b11, b12, b13][13] == b13);
    }
    if slen - i >= 14 && s[i + 0] == b0 && s[i + 1] == b1 && s[i + 2] == b2 && s[i + 3] == b3 && s[i + 4] == b4 && s[i + 5] == b5 && s[i + 6] == b6 && s[i + 7] == b7 && s[i + 8] == b8 && s[i + 9] == b9 && s[i + 10] == b10 && s[i + 11] == b11 && s[i + 12] == b12 && s[i + 13] == b13 {
        assert(has_tag(s@, i as int, seq![b0, b1, b2, b3, b4, b5, b6, b7, b8, b9, b10, b11, b12, b13]));
        true
    } else {
        assert(!has_tag(s@, i as int, seq![b0, b1, b2, b3, b4, b5, b6, b7, b8, b9, b10, b11, b12, b13]));
        false
    }
}


fn tag_at16(s: &[u8], i: usize, b0: u8, b1: u8, b2: u8, b3: u8, b4: u8, b5: u8, b6: u8, b7: u8, b8: u8, b9: u8, b10: u8, b11: u8, b12: u8, b13: u8, b14: u8, b15: u8) -> (r: bool)
    requires
        i <= s@.len(),
    ensures
        r == has_tag(s@, i as int, seq![b0, b1, b2, b3, b4, b5, b6, b7, b8, b9, b10, b11, b12, b13, b14, b15]),
{
    let slen = s.len();
    proof {
            assert(seq![b0, b1, b2, b3, b4, b5, b6, b7, b8, b9, b10, b11, b12, b13, b14, b15][0] == b0);
            assert(seq![b0, b1, b2, b3, b4, b5, b6, b7, b8, b9, b10, b11, b12, b13, b14, b15][1] == b1);
            assert(seq![b0, b1, b2, b3, b4, b5, b6, b7, b8, b9, b10, b11, b12, b13, b14, b15][2] == b2);
            assert(seq![b0, b1, b2, b3, b4, b5, b6, b7, b8, b9, b10, b11, b12, b13, b14, b15][3] == b3);
            assert(seq![b0, b1, b2, b3, b4, b5, b6, b7, b8, b9, b10, b11, b12, b13, b14, b15][4] == b4);
            assert(seq![b0, b1, b2, b3, b4, b5, b6, b7, b8, b9, b10, b11, b12, b13, b14, b15][5] == b5);
            assert(seq![b0, b1, b2, b3, b4, b5, b6, b7, b8, b9, b10, b11, b12, b13, b14, b15][6] == b6);
            assert(seq![b0, b1, b2, b3, b4, b5, b6, b7, b8, b9, b10, b11, b12, b13, b14, b15][7] == b7);
            assert(seq![b0, b1, b2, b3, b4, b5, b6, b7, b8, b9, b10, b11, b12, b13, b14, b15][8] == b8);
            assert(seq![b0, b1, b2, b3, b4, b5, b6, b7, b8, b9, b10, b11, b12, b13, b14, b15][9] == b9);
            assert(seq![b0, b1, b2, b3, b4, b5, b6, b7, b8, b9, b10, b11, b12, b13, b14, b15][10] == b10);
            assert(seq![b0, b1, b2, b3, b4, b5, b6, b7, b8, b9, b10, b11, b12, b13, b14, b15][11] == b11);
            assert(seq![b0, b1, b2, b3, b4, b5, b6, b7, b8, b9, b10, b11, b12, b13, b14, b15][12] == b12);
            assert(seq![b0, b1, b2, b3, b4, b5, b6, b7, b8, b9, b10, b11, b12, b13, b14, b15][13] == b13);
            assert(seq![b0, b1, b2, b3, b4, b5, b6, b7, b8, b9, b10, b11, b12, b13, b14, b15][14] == b14);
            assert(seq![b0, b1, b2, b3, b4, b5, b6, b7, b8, b9, b10, b11, b12, b13, b14, b15][15] == b15);
    }
    if slen - i >= 16 && s[i + 0] == b0 && s[i + 1] == b1 && s[i + 2] == b2 && s[i + 3] == b3 && s[i + 4] == b4 && s[i + 5] == b5 && s[i + 6] == b6 && s[i + 7] == b7 && s[i + 8] == b8 && s[i + 9] == b9 && s[i + 10] == b10 && s[i + 11] == b11 && s[i + 12] == b12 && s[i + 13] == b13 && s[i + 14] == b14 && s[i + 15] == b15 {
        assert(has_tag(s@, i as int, seq![b0, b1, b2, b3, b4, b5, b6, b7, b8, b9, b10, b11, b12, b13, b14, b15]));
        true
    } else {
        assert(!has_tag(s@, i as int, seq![b0, b1, b2, b3, b4, b5, b6, b7, b8, b9, b10, b11, b12, b13, b14, b15]));
        false
    }
}


fn tag_at17(s: &[u8], i: usize, b0: u8, b1: u8, b2: u8, b3: u8, b4: u8, b5: u8, b6: u8, b7: u8, b8: u8, b9: u8, b10: u8, b11: u8, b12: u8, b13: u8, b14: u8, b15: u8, b16: u8) -> (r: bool)
    requires
        i <= s@.len(),
    ensures
        r == has_tag(s@, i as int, seq![b0, b1, b2, b3, b4, b5, b6, b7, b8, b9, b10, b11, b12, b13, b14, b15, b16]),
{
    let slen = s.len();
    proof {
            assert(seq![b0, b1, b2, b3, b4, b5, b6, b7, b8, b9, b10, b11, b12, b13, b14, b15, b16][0] == b0);
            assert(seq![b0, b1, b2, b3, b4, b5, b6, b7, b8, b9, b10, b11, b12, b13, b14, b15, b16][1] == b1);
            assert(seq![b0, b1, b2, b3, b4, b5, b6, b7, b8, b9, b10, b11, b12, b13, b14, b15, b16][2] == b2);
            assert(seq![b0, b1, b2, b3, b4, b5, b6, b7, b8, b9, b10, b11, b12, b13, b14, b15, b16][3] == b3);
            assert(seq![b0, b1, b2, b3, b4, b5, b6, b7, b8, b9, b10, b11, b12, b13, b14, b15, b16][4] == b4);
            assert(seq![b0, b1, b2, b3, b4, b5, b6, b7, b8, b9, b10, b11, b12, b13, b14, b15, b16][5] == b5);
            assert(seq![b0, b1, b2, b3, b4, b5, b6, b7, b8, b9, b10, b11, b12, b13, b14, b15, b16][6] == b6);
            assert(seq![b0, b1, b2, b3, b4, b5, b6, b7, b8, b9, b10, b11, b12, b13, b14, b15, b16][7] == b7);
            assert(seq![b0, b1, b2, b3, b4, b5, b6, b7, b8, b9, b10, b11, b12, b13, b14, b15, b16][8] == b8);
            assert(seq![b0, b1, b2, b3, b4, b5, b6, b7, b8, b9, b10, b11, b12, b13, b14, b15, b16][9] == b9);
            assert(seq![b0, b1, b2, b3, b4, b5, b6, b7, b8, b9, b10, b11, b12, b13, b14, b15, b16][10] == b10);
            assert(seq![b0, b1, b2, b3, b4, b5, b6, b7, b8, b9, b10, b11, b12, b13, b14, b15, b16][11] == b11);
            assert(seq![b0, b1, b2, b3, b4, b5, b6, b7, b8, b9, b10, b11, b12, b13, b14, b15, b16][12] == b12);
            assert(seq![b0, b1, b2, b3, b4, b5, b6, b7, b8, b9, b10, b11, b12, b13, b14, b15, b16][13] == b13);
            assert(seq![b0, b1, b2, b3, b4, b5, b6, b7, b8, b9, b10, b11, b12, b13, b14, b15, b16][14] == b14);
            assert(seq![b0, b1, b2, b3, b4, b5, b6, b7, b8, b9, b10, b11, b12, b13, b14, b15, b16][15] == b15);
            assert(seq![b0, b1, b2, b3, b4, b5, b6, b7, b8, b9, b10, b11, b12, b13, b14, b15, b16][16] == b16);
    }
    if slen - i >= 17 && s[i + 0] == b0 && s[i + 1] == b1 && s[i + 2] == b2 && s[i + 3] == b3 && s[i + 4] == b4 && s[i + 5] == b5 && s[i + 6] == b6 && s[i + 7] == b7 && s[i + 8] == b8 && s[i + 9] == b9 && s[i + 10] == b10 && s[i + 11] == b11 && s[i + 12] == b12 && s[i + 13] == b13 && s[i + 14] == b14 && s[i + 15] == b15 && s[i + 16] == b16 {
        assert(has_tag(s@, i as int, seq![b0, b1, b2, b3, b4, b5, b6, b7, b8, b9, b10, b11, b12, b13, b14, b15, b16]));
        true
    } else {
        assert(!has_tag(s@, i as int, seq![b0, b1, b2, b3, b4, b5, b6, b7, b8, b9, b10, b11, b12, b13, b14, b15, b16]));
        false
    }
}


fn tag_at21(s: &[u8], i: usize, b0: u8, b1: u8, b2: u8, b3: u8, b4: u8, b5: u8, b6: u8, b7: u8, b8: u8, b9: u8, b10: u8, b11: u8, b12: u8, b13: u8, b14: u8, b15: u8, b16: u8, b17: u8, b18: u8, b19: u8, b20: u8) -> (r: bool)
    requires
        i <= s@.len(),
    ensures
        r == has_tag(s@, i as int, seq![b0, b1, b2, b3, b4, b5, b6, b7, b8, b9, b10, b11, b12, b13, b14, b15, b16, b17, b18, b19, b20]),
{
    let slen = s.len();
    proof {
            assert(seq![b0, b1, b2, b3, b4, b5, b6, b7, b8, b9, b10, b11, b12, b13, b14, b15, b16, b17, b18, b19, b20][0] == b0);
            assert(seq![b0, b1, b2, b3, b4, b5, b6, b7, b8, b9, b10, b11, b12, b13, b14, b15, b16, b17, b18, b19, b20][1] == b1);
            assert(seq![b0, b1, b2, b3, b4, b5, b6, b7, b8, b9, b10, b11, b12, b13, b14, b15, b16, b17, b18, b19, b20][2] == b2);
            assert(seq![b0, b1, b2, b3, b4, b5, b6, b7, b8, b9, b10, b11, b12, b13, b14, b15, b16, b17, b18, b19, b20][3] == b3);
            assert(seq![b0, b1, b2, b3, b4, b5, b6, b7, b8, b9, b10, b11, b12, b13, b14, b15, b16, b17, b18, b19, b20][4] == b4);
            assert(seq![b0, b1, b2, b3, b4, b5, b6, b7, b8, b9, b10, b11, b12, b13, b14, b15, b16, b17, b18, b19, b20][5] == b5);
            assert(seq![b0, b1, b2, b3, b4, b5, b6, b7, b8, b9, b10, b11, b12, b13, b14, b15, b16, b17, b18, b19, b20][6] == b6);
            assert(seq![b0, b1, b2, b3, b4, b5, b6, b7, b8, b9, b10, b11, b12, b13, b14, b15, b16, b17, b18, b19, b20][7] == b7);
            assert(seq![b0, b1, b2, b3, b4, b5, b6, b7, b8, b9, b10, b11, b12, b13, b14, b15, b16, b17, b18, b19, b20][8] == b8);
            assert(seq![b0, b1, b2, b3, b4, b5, b6, b7, b8, b9, b10, b11, b12, b13, b14, b15, b16, b17, b18, b19, b20][9] == b9);
            assert(seq![b0, b1, b2, b3, b4, b5, b6, b7, b8, b9, b10, b11, b12, b13, b14, b15, b16, b17, b18, b19, b20][10] == b10);
            assert(seq![b0, b1, b2, b3, b4, b5, b6, b7, b8, b9, b10, b11, b12, b13, b14, b15, b16, b17, b18, b19, b20][11] == b11);
            assert(seq![b0, b1, b2, b3, b4, b5, b6, b7, b8, b9, b10, b11, b12, b13, b14, b15, b16, b17, b18, b19, b20][12] == b12);
            assert(seq![b0, b1, b2, b3, b4, b5, b6, b7, b8, b9, b10, b11, b12, b13, b14, b15, b16, b17, b18, b19, b20][13] == b13);
            assert(seq![b0, b1, b2, b3, b4, b5, b6, b7, b8, b9, b10, b11, b12, b13, b14, b15, b16, b17, b18, b19, b20][14] == b14);
            assert(seq![b0, b1, b2, b3, b4, b5, b6, b7, b8, b9, b10, b11, b12, b13, b14, b15, b16, b17, b18, b19, b20][15] == b15);
            assert(seq![b0, b1, b2, b3, b4, b5, b6, b7, b8, b9, b10, b11, b12, b13, b14, b15, b16, b17, b18, b19, b20][16] == b16);
            assert(seq![b0, b1, b2, b3, b4, b5, b6, b7, b8, b9, b10, b11, b12, b13, b14, b15, b16, b17, b18, b19, b20][17] == b17);
            assert(seq![b0, b1, b2, b3, b4, b5, b6, b7, b8, b9, b10, b11, b12, b13, b14, b15, b16, b17, b18, b19, b20][18] == b18);
            assert(seq![b0, b1, b2, b3, b4, b5, b6, b7, b8, b9, b10, b11, b12, b13, b14, b15, b16, b17, b18, b19, b20][19] == b19);
            assert(seq![b0, b1, b2, b3, b4, b5, b6, b7, b8, b9, b10, b11, b12, b13, b14, b15, b16, b17, b18, b19, b20][20] == b20);
    }
    if slen - i >= 21 && s[i + 0] == b0 && s[i + 1] == b1 && s[i + 2] == b2 && s[i + 3] == b3 && s[i + 4] == b4 && s[i + 5] == b5 && s[i + 6] == b6 && s[i + 7] == b7 && s[i + 8] == b8 && s[i + 9] == b9 && s[i + 10] == b10 && s[i + 11] == b11 && s[i + 12] == b12 && s[i + 13] == b13 && s[i + 14] == b14 && s[i + 15] == b15 && s[i + 16] == b16 && s[i + 17] == b17 && s[i + 18] == b18 && s[i + 19] == b19 && s[i + 20] == b20 {
        assert(has_tag(s@, i as int, seq![b0, b1, b2, b3, b4, b5, b6, b7, b8, b9, b10, b11, b12, b13, b14, b15, b16, b17, b18, b19, b20]));
        true
    } else {
        assert(!has_tag(s@, i as int, seq![b0, b1, b2, b3, b4, b5, b6, b7, b8, b9, b10, b11, b12, b13, b14, b15, b16, b17, b18, b19, b20]));
        false
    }
}


fn tag_at23(s: &[u8], i: usize, b0: u8, b1: u8, b2: u8, b3: u8, b4: u8, b5: u8, b6: u8, b7: u8, b8: u8, b9: u8, b10: u8, b11: u8, b12: u8, b13: u8, b14: u8, b15: u8, b16: u8, b17: u8, b18: u8, b19: u8, b20: u8, b21: u8, b22: u8) -> (r: bool)
    requires
        i <= s@.len(),
    ensures
        r == has_tag(s@, i as int, seq![b0, b1, b2, b3, b4, b5, b6, b7, b8, b9, b10, b11, b12, b13, b14, b15, b16, b17, b18, b19, b20, b21, b22]),
{
    let slen = s.len();
    proof {
            assert(seq![b0, b1, b2, b3, b4, b5, b6, b7, b8, b9, b10, b11, b12, b13, b14, b15, b16, b17, b18, b19, b20, b21, b22][0] == b0);
            assert(seq![b0, b1, b2, b3, b4, b5, b6, b7, b8, b9, b10, b11, b12, b13, b14, b15, b16, b17, b18, b19, b20, b21, b22][1] == b1);
            assert(seq![b0, b1, b2, b3, b4, b5, b6, b7, b8, b9, b10, b11, b12, b13, b14, b15, b16, b17, b18, b19, b20, b21, b22][2] == b2);
            assert(seq![b0, b1, b2, b3, b4, b5, b6, b7, b8, b9, b10, b11, b12, b13, b14, b15, b16, b17, b18, b19, b20, b21, b22][3] == b3);
            assert(seq![b0, b1, b2, b3, b4, b5, b6, b7, b8, b9, b10, b11, b12, b13, b14, b15, b16, b17, b18, b19, b20, b21, b22][4] == b4);
            assert(seq![b0, b1, b2, b3, b4, b5, b6, b7, b8, b9, b10, b11, b12, b13, b14, b15, b16, b17, b18, b19, b20, b21, b22][5] == b5);
            assert(seq![b0, b1, b2, b3, b4, b5, b6, b7, b8, b9, b10, b11, b12, b13, b14, b15, b16, b17, b18, b19, b20, b21, b22][6] == b6);
            assert(seq![b0, b1, b2, b3, b4, b5, b6, b7, b8, b9, b10, b11, b12, b13, b14, b15, b16, b17, b18, b19, b20, b21, b22][7] == b7);
            assert(seq![b0, b1, b2, b3, b4, b5, b6, b7, b8, b9, b10, b11, b12, b13, b14, b15, b16, b17, b18, b19, b20, b21, b22][8] == b8);
            assert(seq![b0, b1, b2, b3, b4, b5, b6, b7, b8, b9, b10, b11, b12, b13, b14, b15, b16, b17, b18, b19, b20, b21, b22][9] == b9);
            assert(seq![b0, b1, b2, b3, b4, b5, b6, b7, b8, b9, b10, b11, b12, b13, b14, b15, b16, b17, b18, b19, b20, b21, b22][10] == b10);
            assert(seq![b0, b1, b2, b3, b4, b5, b6, b7, b8, b9, b10, b11, b12, b13, b14, b15, b16, b17, b18, b19, b20, b21, b22][11] == b11);
            assert(seq![b0, b1, b2, b3, b4, b5, b6, b7, b8, b9, b10, b11, b12, b13, b14, b15, b16, b17, b18, b19, b20, b21, b22][12] == b12);
            assert(seq![b0, b1, b2, b3, b4, b5, b6, b7, b8, b9, b10, b11, b12, b13, b14, b15, b16, b17, b18, b19, b20, b21, b22][13] == b13);
            assert(seq![b0, b1, b2, b3, b4, b5, b6, b7, b8, b9, b10, b11, b12, b13, b14, b15, b16, b17, b18, b19, b20, b21, b22][14] == b14);
            assert(seq![b0, b1, b2, b3, b4, b5, b6, b7, b8, b9, b10, b11, b12, b13, b14, b15, b16, b17, b18, b19, b20, b21, b22][15] == b15);
            assert(seq![b0, b1, b2, b3, b4, b5, b6, b7, b8, b9, b10, b11, b12, b13, b14, b15, b16, b17, b18, b19, b20, b21, b22][16] == b16);
            assert(seq![b0, b1, b2, b3, b4, b5, b6, b7, b8, b9, b10, b11, b12, b13, b14, b15, b16, b17, b18, b19, b20, b21, b22][17] == b17);
            assert(seq![b0, b1, b2, b3, b4, b5, b6, b7, b8, b9, b10, b11, b12, b13, b14, b15, b16, b17, b18, b19, b20, b21, b22][18] == b18);
            assert(seq![b0, b1, b2, b3, b4, b5, b6, b7, b8, b9, b10, b11, b12, b13, b14, b15, b16, b17, b18, b19, b20, b21, b22][19] == b19);
            assert(seq![b0, b1, b2, b3, b4, b5, b6, b7, b8, b9, b10, b11, b12, b13, b14, b15, b16, b17, b18, b19, b20, b21, b22][20] == b20);
            assert(seq![b0, b1, b2, b3, b4, b5, b6, b7, b8, b9, b10, b11, b12, b13, b14, b15, b16, b17, b18, b19, b20, b21, b22][21] == b21);
            assert(seq![b0, b1, b2, b3, b4, b5, b6, b7, b8, b9, b10, b11, b12, b13, b14, b15, b16, b17, b18, b19, b20, b21, b22][22] == b22);
    }
    if slen - i >= 23 && s[i + 0] == b0 && s[i + 1] == b1 && s[i + 2] == b2 && s[i + 3] == b3 && s[i + 4] == b4 && s[i + 5] == b5 && s[i + 6] == b6 && s[i + 7] == b7 && s[i + 8] == b8 && s[i + 9] == b9 && s[i + 10] == b10 && s[i + 11] == b11 && s[i + 12] == b12 && s[i + 13] == b13 && s[i + 14] == b14 && s[i + 15] == b15 && s[i + 16] == b16 && s[i + 17] == b17 && s[i + 18] == b18 && s[i + 19] == b19 && s[i + 20] == b20 && s[i + 21] == b21 && s[i + 22] == b22 {
        assert(has_tag(s@, i as int, seq![b0, b1, b2, b3, b4, b5, b6, b7, b8, b9, b10, b11, b12, b13, b14, b15, b16, b17, b18, b19, b20, b21, b22]));
        true
    } else {
        assert(!has_tag(s@, i as int, seq![b0, b1, b2, b3, b4, b5, b6, b7, b8, b9, b10, b11, b12, b13, b14, b15, b16, b17, b18, b19, b20, b21, b22]));
        false
    }
}


fn word_start_at(s: &[u8], i: usize) -> (r: bool)
    requires
        i <= s@.len(),
    ensures
        r == sp_word_start(s@, i as int),
{
    if i == 0 {
        return true;
    }
    let b = s[i - 1];
    let word = (48u8 <= b && b <= 57u8) || (65u8 <= b && b <= 90u8) || (97u8 <= b && b <= 122u8)
        || b == 95u8;
    !word
}

fn scan_atis_ident(s: &[u8], i: usize) -> (r: Option<(Vec<u8>, usize)>)
    requires
        i <= s@.len(),
    ensures
        match (r, sp_atis_ident(s@, i as int)) {
            (Some((v, j)), Some((w, k))) => v@ =~= w && j as int == k && i <= j <= s@.len(),
            (None, None) => true,
            _ => false,
        },
{
    let slen = s.len();
    if !(slen - i >= 2 && 48u8 <= s[i] && s[i] <= 57u8 && 48u8 <= s[i + 1] && s[i + 1] <= 57u8) {
        assert(sp_atis_ident(s@, i as int) is None);
        return None;
    }
    if i + 2 < slen && 48u8 <= s[i + 2] && s[i + 2] <= 57u8 {
        // a third digit: not a two-digit runway number
        proof {
            crate::scan::lemma_digit_run_end_bounds(s@, i + 3int);
            assert(digit_run_end(s@, i + 2int) == digit_run_end(s@, i + 3int));
            assert(digit_run_end(s@, i + 1int) == digit_run_end(s@, i + 2int));
            assert(digit_run_end(s@, i as int) == digit_run_end(s@, i + 1int));
        }
        assert(digit_run_end(s@, i as int) != i + 2);
        assert(sp_atis_ident(s@, i as int) is None);
        return None;
    }
    proof {
        assert(digit_run_end(s@, i + 2int) == i + 2);
        assert(digit_run_end(s@, i + 1int) == digit_run_end(s@, i + 2int));
        assert(digit_run_end(s@, i as int) == digit_run_end(s@, i + 1int));
    }
    assert(digit_run_end(s@, i as int) == i + 2);
    let mut e: usize = i + 2;
    proof {
        lemma_lrc_run_end_bounds(s@, i + 2int);
    }
    while e < slen && (s[e] == 76u8 || s[e] == 82u8 || s[e] == 67u8)
        invariant
            i + 2 <= e <= s@.len(),
            s@.len() == slen,
            lrc_run_end(s@, i + 2int) == lrc_run_end(s@, e as int),
            lrc_run_end(s@, i + 2int) <= s@.len(),
        decreases s@.len() - e,
    {
        e = e + 1;
    }
    if e < slen {
        let b = s[e];
        let word = (48u8 <= b && b <= 57u8) || (65u8 <= b && b <= 90u8) || (97u8 <= b && b
            <= 122u8) || b == 95u8;
        if word {
            assert(sp_atis_ident(s@, i as int) is None);
            return None;
        }
    }
    let id = crate::scan::copy_range(s, i, e);
    Some((id, e))
}

proof fn lemma_lrc_run_end_bounds(s: Seq<u8>, i: int)
    requires
        0 <= i <= s.len(),
    ensures
        i <= lrc_run_end(s, i) <= s.len(),
    decreases s.len() - i,
{
    if i < s.len() && (s[i] == 76 || s[i] == 82 || s[i] == 67) {
        lemma_lrc_run_end_bounds(s, i + 1);
    }
}

fn scan_pre_at(s: &[u8], i: usize) -> (r: Option<Vec<u8>>)
    requires
        i <= s@.len(),
    ensures
        match (r, sp_pre_at(s@, i as int)) {
            (Some(v), Some(w)) => v@ =~= w,
            (None, None) => true,
            _ => false,
        },
{
    let slen = s.len();
    if !word_start_at(s, i) {
        return None;
    }
    if !tag_at14(s, i, 82, 85, 78, 87, 65, 89, 32, 73, 78, 32, 85, 83, 69, 32) {
        return None;
    }
    match scan_atis_ident(s, i + 14) {
        Some((id, _e)) => Some(id),
        None => None,
    }
}

fn scan_arr_at(s: &[u8], i: usize) -> (r: Option<Vec<u8>>)
    requires
        i <= s@.len(),
    ensures
        match (r, sp_arr_at(s@, i as int)) {
            (Some(v), Some(w)) => v@ =~= w,
            (None, None) => true,
            _ => false,
        },
{
    let slen = s.len();
    if !word_start_at(s, i) {
        return None;
    }
    if tag_at13(s, i, 65, 80, 80, 82, 79, 65, 67, 72, 32, 82, 87, 89, 32) {
        return match scan_atis_ident(s, i + 13) {
            Some((id, _e)) => Some(id),
            None => None,
        };
    }
    if tag_at16(s, i, 65, 80, 80, 82, 79, 65, 67, 72, 32, 82, 85, 78, 87, 65, 89, 32) {
        return match scan_atis_ident(s, i + 16) {
            Some((id, _e)) => Some(id),
            None => None,
        };
    }
    None
}

fn scan_dep_at(s: &[u8], i: usize) -> (r: Option<Vec<u8>>)
    requires
        i <= s@.len(),
    ensures
        match (r, sp_dep_at(s@, i as int)) {
            (Some(v), Some(w)) => v@ =~= w,
            (None, None) => true,
            _ => false,
        },
{
    let slen = s.len();
    if !word_start_at(s, i) {
        return None;
    }
    if !tag_at17(s, i, 68, 69, 80, 65, 82, 84, 85, 82, 69, 32, 82, 85, 78, 87, 65, 89, 32) {
        return None;
    }
    match scan_atis_ident(s, i + 17) {
        Some((id, _e)) => Some(id),
        None => None,
    }
}

fn scan_multi_at(s: &[u8], i: usize) -> (r: Option<(Vec<u8>, Vec<u8>)>)
    requires
        i <= s@.len(),
    ensures
        match (r, sp_multi_at(s@, i as int)) {
            (Some((v1, v2)), Some((w1, w2))) => v1@ =~= w1 && v2@ =~= w2,
            (None, None) => true,
            _ => false,
        },
{
    let slen = s.len();
    if !word_start_at(s, i) {
        return None;
    }
    if !tag_at8(s, i, 82, 85, 78, 87, 65, 89, 83, 32) {
        return None;
    }
    let (id1, e1) = match scan_atis_ident(s, i + 8) {
        Some(r) => r,
        None => {
            return None;
        },
    };
    if !tag_at5(s, e1, 32, 65, 78, 68, 32) {
        return None;
    }
    let (id2, e2) = match scan_atis_ident(s, e1 + 5) {
        Some(r) => r,
        None => {
            return None;
        },
    };
    if !tag_at7(s, e2, 32, 73, 78, 32, 85, 83, 69) {
        return None;
    }
    if e2 + 7 < slen {
        let b = s[e2 + 7];
        let word = (48u8 <= b && b <= 57u8) || (65u8 <= b && b <= 90u8) || (97u8 <= b && b
            <= 122u8) || b == 95u8;
        if word {
            return None;
        }
    }
    Some((id1, id2))
}

fn window_blocked_at(s: &[u8], i: usize) -> (r: bool)
    requires
        i <= s@.len(),
    ensures
        r == sp_window_blocked(s@, i as int),
{
    let slen = s.len();
    let lo: usize = if i >= 20 {
        i - 20
    } else {
        0
    };
    let mut j = lo;
    while j < i
        invariant
            lo <= j <= i <= s@.len(),
            s@.len() == slen,
            i - 20 <= lo,
            lo == if i >= 20 {
                i - 20
            } else {
                0
            },
            forall|m: int|
                lo <= m < j ==> !(m + 10 <= i && #[trigger] has_tag(
                    s@,
                    m,
                    sp_departure_word(),
                )),
            forall|m: int|
                lo <= m < j ==> !(m + 9 <= i && #[trigger] has_tag(
                    s@,
                    m,
                    sp_approach_word(),
                )),
        decreases i - j,
    {
        if i - j >= 10 && tag_at10(s, j, 68, 69, 80, 65, 82, 84, 85, 82, 69, 32) {
            assert(has_tag(s@, j as int, sp_departure_word()));
            return true;
        }
        if i - j >= 9 && tag_at9(s, j, 65, 80, 80, 82, 79, 65, 67, 72, 32) {
            assert(has_tag(s@, j as int, sp_approach_word()));
            return true;
        }
        j = j + 1;
    }
    proof {
        assert forall|m: int|
            i - 20 <= m && m + 10 <= i implies !has_tag(s@, m, sp_departure_word()) by {
            if m < lo {
                assert(lo == 0);
                assert(m < 0);
            }
        }
        assert forall|m: int|
            i - 20 <= m && m + 9 <= i implies !has_tag(s@, m, sp_approach_word()) by {
            if m < lo {
                assert(lo == 0);
                assert(m < 0);
            }
        }
    }
    false
}

fn scan_post_at(s: &[u8], i: usize) -> (r: Option<Vec<u8>>)
    requires
        i <= s@.len(),
    ensures
        match (r, sp_post_at(s@, i as int)) {
            (Some(v), Some(w)) => v@ =~= w,
            (None, None) => true,
            _ => false,
        },
{
    let slen = s.len();
    if !word_start_at(s, i) {
        return None;
    }
    if !tag_at7(s, i, 82, 85, 78, 87, 65, 89, 32) {
        return None;
    }
    if window_blocked_at(s, i) {
        return None;
    }
    let (id, e) = match scan_atis_ident(s, i + 7) {
        Some(r) => r,
        None => {
            return None;
        },
    };
    if !tag_at7(s, e, 32, 73, 78, 32, 85, 83, 69) {
        return None;
    }
    if e + 7 < slen {
        let b = s[e + 7];
        let word = (48u8 <= b && b <= 57u8) || (65u8 <= b && b <= 90u8) || (97u8 <= b && b
            <= 122u8) || b == 95u8;
        if word {
            return None;
        }
    }
    Some(id)
}

fn scan_arrival_context(s: &[u8]) -> (r: bool)
    ensures
        r == sp_arrival_context(s@),
{
    let slen = s.len();
    let mut i: usize = 0;
    loop
        invariant
            0 <= i <= slen,
            s@.len() == slen,
            forall|m: int| 0 <= m < i ==> !(#[trigger] has_tag(s@, m, sp_arrival_info())),
        decreases slen - i,
    {
        if tag_at21(s, i, 32, 65, 82, 82, 73, 86, 65, 76, 32, 73, 78, 70, 79, 82, 77, 65, 84, 73, 79, 78, 32) {
            assert(has_tag(s@, i as int, sp_arrival_info()));
            return true;
        }
        assert(!has_tag(s@, i as int, sp_arrival_info()));
        if i == slen {
            proof {
                assert forall|m: int| 0 <= m implies !has_tag(s@, m, sp_arrival_info()) by {
                    if m > slen {
                        assert(m + 21 > s@.len());
                    }
                }
            }
            return false;
        }
        i = i + 1;
    }
}

fn scan_departure_context(s: &[u8]) -> (r: bool)
    ensures
        r == sp_departure_context(s@),
{
    let slen = s.len();
    let mut i: usize = 0;
    loop
        invariant
            0 <= i <= slen,
            s@.len() == slen,
            forall|m: int| 0 <= m < i ==> !(#[trigger] has_tag(s@, m, sp_departure_info())),
        decreases slen - i,
    {
        if tag_at23(s, i, 32, 68, 69, 80, 65, 82, 84, 85, 82, 69, 32, 73, 78, 70, 79, 82, 77, 65, 84, 73, 79, 78, 32) {
            assert(has_tag(s@, i as int, sp_departure_info()));
            return true;
        }
        assert(!has_tag(s@, i as int, sp_departure_info()));
        if i == slen {
            proof {
                assert forall|m: int| 0 <= m implies !has_tag(s@, m, sp_departure_info()) by {
                    if m > slen {
                        assert(m + 23 > s@.len());
                    }
                }
            }
            return false;
        }
        i = i + 1;
    }
}


fn scan_pre_list(s: &[u8]) -> (r: Vec<Vec<u8>>)
    ensures
        deep_ids(r@) =~= sp_pre_list(s@, 0),
{
    let slen = s.len();
    let mut acc: Vec<Vec<u8>> = Vec::new();
    let mut i: usize = 0;
    loop
        invariant
            0 <= i <= slen,
            s@.len() == slen,
            sp_pre_list(s@, 0) =~= deep_ids(acc@) + sp_pre_list(s@, i as int),
        decreases slen - i,
    {
        let ghost pre_acc = acc@;
        match scan_pre_at(s, i) {
            Some(id) => {
                let ghost idv = id@;
                acc.push(id);
                proof {
                    assert(deep_ids(acc@) =~= deep_ids(pre_acc).push(idv));
                }
            },
            None => {},
        }
        if i == slen {
            proof {
                assert(sp_pre_list(s@, slen as int) =~= match sp_pre_at(s@, slen as int) {
                    Some(id) => seq![id],
                    None => Seq::empty(),
                });
                assert(sp_pre_list(s@, 0) =~= deep_ids(acc@));
            }
            return acc;
        }
        proof {
            assert(sp_pre_list(s@, 0) =~= deep_ids(acc@) + sp_pre_list(s@, i + 1int));
        }
        i = i + 1;
    }
}

fn scan_arr_list(s: &[u8]) -> (r: Vec<Vec<u8>>)
    ensures
        deep_ids(r@) =~= sp_arr_list(s@, 0),
{
    let slen = s.len();
    let mut acc: Vec<Vec<u8>> = Vec::new();
    let mut i: usize = 0;
    loop
        invariant
            0 <= i <= slen,
            s@.len() == slen,
            sp_arr_list(s@, 0) =~= deep_ids(acc@) + sp_arr_list(s@, i as int),
        decreases slen - i,
    {
        let ghost pre_acc = acc@;
        match scan_arr_at(s, i) {
            Some(id) => {
                let ghost idv = id@;
                acc.push(id);
                proof {
                    assert(deep_ids(acc@) =~= deep_ids(pre_acc).push(idv));
                }
            },
            None => {},
        }
        if i == slen {
            proof {
                assert(sp_arr_list(s@, slen as int) =~= match sp_arr_at(s@, slen as int) {
                    Some(id) => seq![id],
                    None => Seq::empty(),
                });
                assert(sp_arr_list(s@, 0) =~= deep_ids(acc@));
            }
            return acc;
        }
        proof {
            assert(sp_arr_list(s@, 0) =~= deep_ids(acc@) + sp_arr_list(s@, i + 1int));
        }
        i = i + 1;
    }
}

fn scan_dep_list(s: &[u8]) -> (r: Vec<Vec<u8>>)
    ensures
        deep_ids(r@) =~= sp_dep_list(s@, 0),
{
    let slen = s.len();
    let mut acc: Vec<Vec<u8>> = Vec::new();
    let mut i: usize = 0;
    loop
        invariant
            0 <= i <= slen,
            s@.len() == slen,
            sp_dep_list(s@, 0) =~= deep_ids(acc@) + sp_dep_list(s@, i as int),
        decreases slen - i,
    {
        let ghost pre_acc = acc@;
        match scan_dep_at(s, i) {
            Some(id) => {
                let ghost idv = id@;
                acc.push(id);
                proof {
                    assert(deep_ids(acc@) =~= deep_ids(pre_acc).push(idv));
                }
            },
            None => {},
        }
        if i == slen {
            proof {
                assert(sp_dep_list(s@, slen as int) =~= match sp_dep_at(s@, slen as int) {
                    Some(id) => seq![id],
                    None => Seq::empty(),
                });
                assert(sp_dep_list(s@, 0) =~= deep_ids(acc@));
            }
            return acc;
        }
        proof {
            assert(sp_dep_list(s@, 0) =~= deep_ids(acc@) + sp_dep_list(s@, i + 1int));
        }
        i = i + 1;
    }
}

fn scan_post_list(s: &[u8]) -> (r: Vec<Vec<u8>>)
    ensures
        deep_ids(r@) =~= sp_post_list(s@, 0),
{
    let slen = s.len();
    let mut acc: Vec<Vec<u8>> = Vec::new();
    let mut i: usize = 0;
    loop
        invariant
            0 <= i <= slen,
            s@.len() == slen,
            sp_post_list(s@, 0) =~= deep_ids(acc@) + sp_post_list(s@, i as int),
        decreases slen - i,
    {
        let ghost pre_acc = acc@;
        match scan_post_at(s, i) {
            Some(id) => {
                let ghost idv = id@;
                acc.push(id);
                proof {
                    assert(deep_ids(acc@) =~= deep_ids(pre_acc).push(idv));
                }
            },
            None => {},
        }
        if i == slen {
            proof {
                assert(sp_post_list(s@, slen as int) =~= match sp_post_at(s@, slen as int) {
                    Some(id) => seq![id],
                    None => Seq::empty(),
                });
                assert(sp_post_list(s@, 0) =~= deep_ids(acc@));
            }
            return acc;
        }
        proof {
            assert(sp_post_list(s@, 0) =~= deep_ids(acc@) + sp_post_list(s@, i + 1int));
        }
        i = i + 1;
    }
}

fn scan_multi_list(s: &[u8]) -> (r: Vec<(Vec<u8>, Vec<u8>)>)
    ensures
        deep_id_pairs(r@) =~= sp_multi_list(s@, 0),
{
    let slen = s.len();
    let mut acc: Vec<(Vec<u8>, Vec<u8>)> = Vec::new();
    let mut i: usize = 0;
    loop
        invariant
            0 <= i <= slen,
            s@.len() == slen,
            sp_multi_list(s@, 0) =~= deep_id_pairs(acc@) + sp_multi_list(s@, i as int),
        decreases slen - i,
    {
        let ghost pre_acc = acc@;
        match scan_multi_at(s, i) {
            Some(p) => {
                let ghost pv = (p.0@, p.1@);
                acc.push(p);
                proof {
                    assert(deep_id_pairs(acc@) =~= deep_id_pairs(pre_acc).push(pv));
                }
            },
            None => {},
        }
        if i == slen {
            proof {
                assert(sp_multi_list(s@, slen as int) =~= match sp_multi_at(s@, slen as int) {
                    Some(p) => seq![p],
                    None => Seq::empty(),
                });
                assert(sp_multi_list(s@, 0) =~= deep_id_pairs(acc@));
            }
            return acc;
        }
        proof {
            assert(sp_multi_list(s@, 0) =~= deep_id_pairs(acc@) + sp_multi_list(s@, i + 1int));
        }
        i = i + 1;
    }
}

/// Folds a list of designators into the selection, all with one usage.
fn apply_upserts(m: &mut UsageMap, ids: &Vec<Vec<u8>>, u: RunwayUse)
    ensures
        usage_entries(*final(m)) =~= sp_upsert_all(usage_entries(*old(m)), deep_ids(ids@), u),
{
    let ghost ids_s = deep_ids(ids@);
    let ghost base = usage_entries(*m);
    proof {
        assert(ids_s.skip(0) =~= ids_s);
    }
    let mut k: usize = 0;
    while k < ids.len()
        invariant
            0 <= k <= ids@.len(),
            deep_ids(ids@) == ids_s,
            sp_upsert_all(base, ids_s, u) =~= sp_upsert_all(
                usage_entries(*m),
                ids_s.skip(k as int),
                u,
            ),
            base == usage_entries(*old(m)),
        decreases ids@.len() - k,
    {
        proof {
            assert(ids_s.skip(k as int)[0] == ids_s[k as int]);
            assert(ids_s[k as int] == ids@[k as int]@);
        }
        let id = crate::airport::clone_bytes(&ids[k]);
        usage_upsert(m, id, u);
        proof {
            assert(ids_s.skip(k as int).skip(1) =~= ids_s.skip(k as int + 1));
        }
        k = k + 1;
    }
    proof {
        assert(ids_s.skip(ids_s.len() as int).len() == 0);
    }
}

/// Extracts the runway-in-use selection stated in bulletin free text. An
/// empty result means the text states none.
pub fn find_runway_in_use_from_atis(atis: &[u8]) -> (r: UsageMap)
    ensures
        usage_entries(r) =~= spec_atis_selection(atis@),
{
    let mut m = new_usage_map();
    let multi = scan_multi_list(atis);
    let pre = scan_pre_list(atis);
    let arr = scan_arr_list(atis);
    let dep = scan_dep_list(atis);
    let post = scan_post_list(atis);
    let arrival = scan_arrival_context(atis);
    let departure = scan_departure_context(atis);

    let ghost multi_s = sp_multi_list(atis@, 0);
    proof {
        assert(multi_s.skip(0) =~= multi_s);
    }
    let mut k: usize = 0;
    while k < multi.len()
        invariant
            0 <= k <= multi@.len(),
            deep_id_pairs(multi@) =~= multi_s,
            sp_upsert_pairs(Seq::empty(), multi_s) =~= sp_upsert_pairs(
                usage_entries(m),
                multi_s.skip(k as int),
            ),
        decreases multi@.len() - k,
    {
        proof {
            assert(multi_s.skip(k as int)[0] == multi_s[k as int]);
            assert(multi_s[k as int] == (multi@[k as int].0@, multi@[k as int].1@));
        }
        let id1 = crate::airport::clone_bytes(&multi[k].0);
        let id2 = crate::airport::clone_bytes(&multi[k].1);
        usage_upsert(&mut m, id1, RunwayUse::Both);
        usage_upsert(&mut m, id2, RunwayUse::Both);
        proof {
            assert(multi_s.skip(k as int).skip(1) =~= multi_s.skip(k as int + 1));
        }
        k = k + 1;
    }
    proof {
        assert(multi_s.skip(multi_s.len() as int).len() == 0);
    }

    apply_upserts(&mut m, &pre, RunwayUse::Both);
    apply_upserts(&mut m, &arr, RunwayUse::Arriving);
    apply_upserts(&mut m, &dep, RunwayUse::Departing);

    let ghost post_s = sp_post_list(atis@, 0);
    let ghost base4 = usage_entries(m);
    proof {
        assert(post_s.skip(0) =~= post_s);
    }
    let mut k2: usize = 0;
    while k2 < post.len()
        invariant
            0 <= k2 <= post@.len(),
            deep_ids(post@) =~= post_s,
            sp_post_apply(base4, post_s, arrival, departure) =~= sp_post_apply(
                usage_entries(m),
                post_s.skip(k2 as int),
                arrival,
                departure,
            ),
        decreases post@.len() - k2,
    {
        proof {
            assert(post_s.skip(k2 as int)[0] == post_s[k2 as int]);
            assert(post_s[k2 as int] == post@[k2 as int]@);
        }
        let id = crate::airport::clone_bytes(&post[k2]);
        if arrival {
            usage_upsert(&mut m, id, RunwayUse::Arriving);
        } else if departure {
            usage_upsert(&mut m, id, RunwayUse::Departing);
        } else {
            match usage_get(&m, id.as_slice()) {
                None => {
                    usage_insert(&mut m, id, RunwayUse::Both);
                },
                Some(_) => {},
            }
        }
        proof {
            assert(post_s.skip(k2 as int).skip(1) =~= post_s.skip(k2 as int + 1));
        }
        k2 = k2 + 1;
    }
    proof {
        assert(post_s.skip(post_s.len() as int).len() == 0);
    }
    m
}

} // verus!
