//! The military colour-code group of a report.

use vstd::prelude::*;

use crate::scan::{has_tag, scan_tag3, scan_tag5};

verus! {

/// One colour code.
#[derive(Debug, Clone, Copy, PartialEq, Eq, Structural)]
pub enum NatoMilCodeType {
    Blue,
    White,
    Green,
    Yellow,
    Amber,
    Red,
    Black,
}

/// The whole group: one or more colour codes, each with an optional plus or
/// minus mark.
#[derive(Debug, Clone, PartialEq, Eq)]
pub struct NatoMilCode {
    pub codes: Vec<(NatoMilCodeType, Option<char>)>,
}

/// Mathematical image of `NatoMilCode`.
pub struct SpecNatoMilCode {
    pub codes: Seq<(NatoMilCodeType, Option<char>)>,
}

impl View for NatoMilCode {
    type V = SpecNatoMilCode;

    open spec fn view(&self) -> SpecNatoMilCode {
        SpecNatoMilCode { codes: self.codes@ }
    }
}

/// One colour word.
pub open spec fn sp_nato_word(s: Seq<u8>, i: int) -> Option<(NatoMilCodeType, int)> {
    if has_tag(s, i, seq![66u8, 76u8, 65u8, 67u8, 75u8]) {
        Some((NatoMilCodeType::Black, i + 5))
    } else if has_tag(s, i, seq![66u8, 76u8, 85u8]) {
        Some((NatoMilCodeType::Blue, i + 3))
    } else if has_tag(s, i, seq![87u8, 72u8, 84u8]) {
        Some((NatoMilCodeType::White, i + 3))
    } else if has_tag(s, i, seq![71u8, 82u8, 78u8]) {
        Some((NatoMilCodeType::Green, i + 3))
    } else if has_tag(s, i, seq![89u8, 76u8, 79u8]) {
        Some((NatoMilCodeType::Yellow, i + 3))
    } else if has_tag(s, i, seq![65u8, 77u8, 66u8]) {
        Some((NatoMilCodeType::Amber, i + 3))
    } else if has_tag(s, i, seq![82u8, 69u8, 68u8]) {
        Some((NatoMilCodeType::Red, i + 3))
    } else {
        None
    }
}

/// One code with an optional `+` or `-` mark.
pub open spec fn sp_nato_item(s: Seq<u8>, i: int) -> Option<((NatoMilCodeType, Option<char>), int)> {
    match sp_nato_word(s, i) {
        None => None,
        Some((w, j)) => if has_tag(s, j, seq![43u8]) {
            Some(((w, Some('+')), j + 1))
        } else if has_tag(s, j, seq![45u8]) {
            Some(((w, Some('-')), j + 1))
        } else {
            Some(((w, None), j))
        },
    }
}

/// A position one space further when a space stands at `i`.
pub open spec fn sp_nato_opt_space(s: Seq<u8>, i: int) -> int {
    if has_tag(s, i, seq![32u8]) {
        i + 1
    } else {
        i
    }
}

/// The colour codes after the first, each preceded by at most one space.
pub open spec fn sp_nato_rest(s: Seq<u8>, i: int) -> (Seq<(NatoMilCodeType, Option<char>)>, int)
    decreases s.len() - i when 0 <= i <= s.len()
{
    let p = sp_nato_opt_space(s, i);
    match sp_nato_item(s, p) {
        Some((v, j)) => if p < j <= s.len() {
            let (rest, k) = sp_nato_rest(s, j);
            (seq![v] + rest, k)
        } else {
            (seq![v], j)
        },
        None => (Seq::empty(), i),
    }
}

/// The whole group: at least one colour code.
pub open spec fn sp_nato_mil_code(s: Seq<u8>, i: int) -> Option<(SpecNatoMilCode, int)>
    recommends
        0 <= i <= s.len(),
{
    match sp_nato_item(s, i) {
        None => None,
        Some((first, j)) => if i < j <= s.len() {
            let (rest, k) = sp_nato_rest(s, j);
            Some((SpecNatoMilCode { codes: seq![first] + rest }, k))
        } else {
            Some((SpecNatoMilCode { codes: seq![first] }, j))
        },
    }
}

fn scan_nato_item(s: &[u8], i: usize) -> (r: Option<((NatoMilCodeType, Option<char>), usize)>)
    requires
        i <= s@.len(),
    ensures
        match (r, sp_nato_item(s@, i as int)) {
            (Some((v, j)), Some((w, k))) => v == w && j as int == k && i < j <= s@.len(),
            (None, None) => true,
            _ => false,
        },
{
    let slen = s.len();
    let word: (NatoMilCodeType, usize) = if let Some(j) = scan_tag5(s, i, 66, 76, 65, 67, 75) {
        (NatoMilCodeType::Black, j)
    } else if let Some(j) = scan_tag3(s, i, 66, 76, 85) {
        (NatoMilCodeType::Blue, j)
    } else if let Some(j) = scan_tag3(s, i, 87, 72, 84) {
        (NatoMilCodeType::White, j)
    } else if let Some(j) = scan_tag3(s, i, 71, 82, 78) {
        (NatoMilCodeType::Green, j)
    } else if let Some(j) = scan_tag3(s, i, 89, 76, 79) {
        (NatoMilCodeType::Yellow, j)
    } else if let Some(j) = scan_tag3(s, i, 65, 77, 66) {
        (NatoMilCodeType::Amber, j)
    } else if let Some(j) = scan_tag3(s, i, 82, 69, 68) {
        (NatoMilCodeType::Red, j)
    } else {
        return None;
    };
    let (w, j) = word;
    if s.len() - j >= 1 && s[j] == 43u8 {
        proof {
            assert(seq![43u8][0] == 43u8);
            assert(has_tag(s@, j as int, seq![43u8]));
        }
        Some(((w, Some('+')), j + 1))
    } else if s.len() - j >= 1 && s[j] == 45u8 {
        proof {
            assert(seq![43u8][0] == 43u8);
            assert(seq![45u8][0] == 45u8);
            assert(!has_tag(s@, j as int, seq![43u8]));
            assert(has_tag(s@, j as int, seq![45u8]));
        }
        Some(((w, Some('-')), j + 1))
    } else {
        proof {
            assert(seq![43u8][0] == 43u8);
            assert(seq![45u8][0] == 45u8);
            assert(!has_tag(s@, j as int, seq![43u8]));
            assert(!has_tag(s@, j as int, seq![45u8]));
        }
        Some(((w, None), j))
    }
}

/// Scans the whole colour-code group at position `i`.
pub fn scan_nato_mil_code(s: &[u8], i: usize) -> (r: Option<(NatoMilCode, usize)>)
    requires
        i <= s@.len(),
    ensures
        match (r, sp_nato_mil_code(s@, i as int)) {
            (Some((v, j)), Some((w, k))) => v@ == w && j as int == k && i <= j <= s@.len(),
            (None, None) => true,
            _ => false,
        },
{
    let slen = s.len();
    let (first, j0) = match scan_nato_item(s, i) {
        Some(r) => r,
        None => {
            return None;
        },
    };
    let mut acc: Vec<(NatoMilCodeType, Option<char>)> = Vec::new();
    acc.push(first);
    let mut cur = j0;
    loop
        invariant
            i < j0 <= cur <= s@.len(),
            acc@.len() >= 1,
            seq![acc@[0]] + acc@.skip(1) =~= acc@,
            sp_nato_mil_code(s@, i as int) matches Some((w, k)) && w.codes =~= acc@ + sp_nato_rest(
                s@,
                cur as int,
            ).0 && k == sp_nato_rest(s@, cur as int).1,
        decreases s@.len() - cur,
    {
        let p = opt_space_nato(s, cur);
        match scan_nato_item(s, p) {
            Some((v, j)) => {
                acc.push(v);
                assert((sp_nato_mil_code(s@, i as int)->0).0.codes =~= acc@ + sp_nato_rest(
                    s@,
                    j as int,
                ).0);
                cur = j;
            },
            None => {
                assert(sp_nato_rest(s@, cur as int).0 =~= Seq::<
                    (NatoMilCodeType, Option<char>),
                >::empty());
                let code = NatoMilCode { codes: acc };
                assert(code@.codes =~= (sp_nato_mil_code(s@, i as int)->0).0.codes);
                return Some((code, cur));
            },
        }
    }
}

fn opt_space_nato(s: &[u8], i: usize) -> (p: usize)
    requires
        i <= s@.len(),
    ensures
        p as int == sp_nato_opt_space(s@, i as int),
        i <= p <= s@.len(),
{
    let slen = s.len();
    proof {
        assert(seq![32u8][0] == 32u8);
    }
    if i < slen && s[i] == 32u8 {
        assert(has_tag(s@, i as int, seq![32u8]));
        i + 1
    } else {
        assert(!has_tag(s@, i as int, seq![32u8]));
        i
    }
}

} // verus!
