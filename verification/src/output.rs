//! The runway-file records: one `ACTIVE_RUNWAY:<station>:<runway>:<flag>`
//! line per airport, runway and directional flag, where departures carry
//! flag `1`, arrivals flag `0`, and a runway used both ways carries both.

use vstd::prelude::*;

use crate::airport::Airport;
use crate::airports::{spec_byte_views, spec_effective_entries, Airports};
use crate::runway::RunwayUse;
use crate::usage_map::{usage_entries, usage_get_index, usage_len};

verus! {

/// The record prefix `ACTIVE_RUNWAY:`.
pub open spec fn spec_record_prefix() -> Seq<u8> {
    seq![65u8, 67u8, 84u8, 73u8, 86u8, 69u8, 95u8, 82u8, 85u8, 78u8, 87u8, 65u8, 89u8, 58u8]
}

/// One record line.
pub open spec fn spec_record_line(icao: Seq<u8>, ident: Seq<u8>, flag: u8) -> Seq<u8> {
    spec_record_prefix() + icao + seq![58u8] + ident + seq![58u8] + seq![(48 + flag) as u8]
}

/// The record lines one usage produces: flag `1` for departures, flag `0`
/// for arrivals, both for a runway used both ways.
pub open spec fn spec_flag_lines(icao: Seq<u8>, ident: Seq<u8>, u: RunwayUse) -> Seq<Seq<u8>> {
    match u {
        RunwayUse::Departing => seq![spec_record_line(icao, ident, 1)],
        RunwayUse::Arriving => seq![spec_record_line(icao, ident, 0)],
        RunwayUse::Both => seq![spec_record_line(icao, ident, 1), spec_record_line(icao, ident, 0)],
    }
}

/// The record lines for the selection entries from position `k` on.
pub open spec fn spec_entries_records_from(
    icao: Seq<u8>,
    es: Seq<(Seq<u8>, RunwayUse)>,
    k: int,
) -> Seq<Seq<u8>>
    decreases es.len() - k when 0 <= k <= es.len()
{
    if k >= es.len() {
        Seq::empty()
    } else {
        spec_flag_lines(icao, es[k].0, es[k].1) + spec_entries_records_from(icao, es, k + 1)
    }
}

/// The record lines one airport produces: nothing without runway geometry
/// or without an effective selection, otherwise one group of lines per
/// selected runway.
pub open spec fn spec_airport_records(a: Airport) -> Seq<Seq<u8>> {
    if a.runways@.len() == 0 {
        Seq::empty()
    } else {
        match spec_effective_entries(a.runways_in_use) {
            None => Seq::empty(),
            Some(es) => spec_entries_records_from(a.icao@, es, 0),
        }
    }
}

/// The record lines of all airports from position `k` on, in order.
pub open spec fn spec_all_records_from(aps: Seq<Airport>, k: int) -> Seq<Seq<u8>>
    decreases aps.len() - k when 0 <= k <= aps.len()
{
    if k >= aps.len() {
        Seq::empty()
    } else {
        spec_airport_records(aps[k]) + spec_all_records_from(aps, k + 1)
    }
}

/// Builds one record line.
pub fn record_line(icao: &[u8], ident: &[u8], flag: u8) -> (r: Vec<u8>)
    requires
        flag <= 9,
    ensures
        r@ =~= spec_record_line(icao@, ident@, flag),
{
    let mut line: Vec<u8> = Vec::new();
    line.push(65);
    line.push(67);
    line.push(84);
    line.push(73);
    line.push(86);
    line.push(69);
    line.push(95);
    line.push(82);
    line.push(85);
    line.push(78);
    line.push(87);
    line.push(65);
    line.push(89);
    line.push(58);
    assert(line@ =~= spec_record_prefix());
    let ghost p0 = line@;
    let mut k: usize = 0;
    while k < icao.len()
        invariant
            0 <= k <= icao@.len(),
            line@ =~= p0 + icao@.subrange(0, k as int),
        decreases icao@.len() - k,
    {
        line.push(icao[k]);
        assert(line@ =~= p0 + icao@.subrange(0, k as int + 1));
        k = k + 1;
    }
    assert(icao@.subrange(0, icao@.len() as int) =~= icao@);
    line.push(58);
    let ghost p1 = line@;
    assert(p1 =~= spec_record_prefix() + icao@ + seq![58u8]);
    let mut k2: usize = 0;
    while k2 < ident.len()
        invariant
            0 <= k2 <= ident@.len(),
            line@ =~= p1 + ident@.subrange(0, k2 as int),
        decreases ident@.len() - k2,
    {
        line.push(ident[k2]);
        assert(line@ =~= p1 + ident@.subrange(0, k2 as int + 1));
        k2 = k2 + 1;
    }
    assert(ident@.subrange(0, ident@.len() as int) =~= ident@);
    line.push(58);
    line.push(48 + flag);
    assert(line@ =~= spec_record_line(icao@, ident@, flag));
    line
}

/// Builds the record lines of one airport's effective selection.
pub fn airport_records(a: &Airport) -> (r: Vec<Vec<u8>>)
    ensures
        spec_byte_views(r@) =~= spec_airport_records(*a),
{
    let mut r: Vec<Vec<u8>> = Vec::new();
    if a.runways.len() == 0 {
        assert(spec_byte_views(r@) =~= Seq::<Seq<u8>>::empty());
        return r;
    }
    let m = match a.runways_in_use.effective() {
        Some(m) => m,
        None => {
            assert(spec_byte_views(r@) =~= Seq::<Seq<u8>>::empty());
            return r;
        },
    };
    let ghost es = usage_entries(*m);
    let n = usage_len(m);
    let mut k: usize = 0;
    while k < n
        invariant
            0 <= k <= n,
            n == es.len(),
            es == usage_entries(*m),
            spec_entries_records_from(a.icao@, es, 0) =~= spec_byte_views(r@)
                + spec_entries_records_from(a.icao@, es, k as int),
        decreases n - k,
    {
        let entry = match usage_get_index(m, k) {
            Some(e) => e,
            None => {
                assert(false);
                (Vec::new(), RunwayUse::Both)
            },
        };
        let (ident, u) = entry;
        let ghost pre = r@;
        match u {
            RunwayUse::Departing => {
                let line = record_line(a.icao.as_slice(), ident.as_slice(), 1);
                r.push(line);
            },
            RunwayUse::Arriving => {
                let line = record_line(a.icao.as_slice(), ident.as_slice(), 0);
                r.push(line);
            },
            RunwayUse::Both => {
                let line = record_line(a.icao.as_slice(), ident.as_slice(), 1);
                r.push(line);
                let line0 = record_line(a.icao.as_slice(), ident.as_slice(), 0);
                r.push(line0);
            },
        }
        proof {
            assert(spec_byte_views(r@) =~= spec_byte_views(pre) + spec_flag_lines(
                a.icao@,
                es[k as int].0,
                es[k as int].1,
            ));
            assert(spec_entries_records_from(a.icao@, es, 0) =~= spec_byte_views(r@)
                + spec_entries_records_from(a.icao@, es, k as int + 1));
        }
        k = k + 1;
    }
    r
}

impl Airports {
    /// Builds the record lines of every airport's effective selection, in
    /// collection order. Airports without runway geometry or without any
    /// selection produce no lines.
    pub fn active_runway_records(&self) -> (r: Vec<Vec<u8>>)
        ensures
            spec_byte_views(r@) =~= spec_all_records_from(self.airports@, 0),
    {
        let mut r: Vec<Vec<u8>> = Vec::new();
        let mut k: usize = 0;
        while k < self.airports.len()
            invariant
                0 <= k <= self.airports@.len(),
                spec_all_records_from(self.airports@, 0) =~= spec_byte_views(r@)
                    + spec_all_records_from(self.airports@, k as int),
            decreases self.airports@.len() - k,
        {
            let lines = airport_records(&self.airports[k]);
            let ghost pre = r@;
            let ghost added = lines@;
            let nl = lines.len();
            let mut j: usize = 0;
            proof {
                assert(added.subrange(0, 0) =~= Seq::<Vec<u8>>::empty());
                assert(spec_byte_views(Seq::<Vec<u8>>::empty()) =~= Seq::<Seq<u8>>::empty());
            }
            while j < nl
                invariant
                    0 <= j <= nl,
                    nl == added.len(),
                    added == lines@,
                    spec_byte_views(r@) =~= spec_byte_views(pre) + spec_byte_views(
                        added.subrange(0, j as int),
                    ),
                decreases nl - j,
            {
                let ghost rpre = r@;
                let line = crate::airport::clone_bytes(&lines[j]);
                r.push(line);
                proof {
                    assert(spec_byte_views(r@) =~= spec_byte_views(rpre).push(line@));
                    assert(spec_byte_views(added.subrange(0, j as int + 1)) =~= spec_byte_views(
                        added.subrange(0, j as int),
                    ).push(added[j as int]@));
                }
                j = j + 1;
            }
            proof {
                assert(added.subrange(0, added.len() as int) =~= added);
                assert(spec_byte_views(r@) =~= spec_byte_views(pre) + spec_byte_views(added));
                assert(spec_all_records_from(self.airports@, 0) =~= spec_byte_views(r@)
                    + spec_all_records_from(self.airports@, k as int + 1));
            }
            k = k + 1;
        }
        r
    }
}

} // verus!
