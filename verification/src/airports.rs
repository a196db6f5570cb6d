//! The per-cycle collection of airports and the decode-then-decide
//! pipeline steps over it.

use vstd::prelude::*;

use crate::airport::{spec_policy_selection, Airport, LocalTime, RunwaysInUse};
use crate::atis::{find_runway_in_use_from_atis, spec_atis_selection};
use crate::config::{spec_default_runway, RunwayConfig};
use crate::metar::Metar;
use crate::runway::{spec_merged, RunwayUse};
use crate::usage_map::{
    new_usage_map, spec_find_key, usage_entries, usage_len, usage_upsert, UsageMap,
};

verus! {

/// All airports of one refresh cycle, in insertion order.
pub struct Airports {
    pub airports: Vec<Airport>,
}

/// The position of the airport with the given station identifier, or `-1`.
pub open spec fn spec_find_airport(aps: Seq<Airport>, icao: Seq<u8>) -> int
    decreases aps.len(),
{
    if aps.len() == 0 {
        -1
    } else if aps[0].icao@ == icao {
        0
    } else {
        let r = spec_find_airport(aps.skip(1), icao);
        if r < 0 {
            -1
        } else {
            r + 1
        }
    }
}

/// A find hit names an airport with the searched identifier.
pub proof fn lemma_find_airport_entry(aps: Seq<Airport>, icao: Seq<u8>)
    ensures
        spec_find_airport(aps, icao) >= 0 ==> {
            let i = spec_find_airport(aps, icao);
            0 <= i < aps.len() && aps[i].icao@ == icao
        },
    decreases aps.len(),
{
    if aps.len() > 0 && aps[0].icao@ != icao {
        lemma_find_airport_entry(aps.skip(1), icao);
    }
}

/// One report attached: the airport named by the report, if registered,
/// carries it as its latest report.
pub open spec fn spec_attach(aps: Seq<Airport>, m: Metar) -> Seq<Airport> {
    let i = spec_find_airport(aps, m.icao@);
    if i >= 0 {
        aps.update(i, Airport { metar: Some(m), ..aps[i] })
    } else {
        aps
    }
}

/// A batch of reports attached in order.
pub open spec fn spec_attach_all(aps: Seq<Airport>, ms: Seq<Metar>) -> Seq<Airport>
    decreases ms.len(),
{
    if ms.len() == 0 {
        aps
    } else {
        spec_attach_all(spec_attach(aps, ms[0]), ms.skip(1))
    }
}

/// Whether any source holds a selection for this airport.
pub open spec fn spec_has_selection(ru: RunwaysInUse) -> bool {
    ru.atis is Some || ru.metar is Some || ru.fallback is Some
}

/// The entries of the effective selection: the first present source in
/// precedence order, bulletin over computed over fallback.
pub open spec fn spec_effective_entries(ru: RunwaysInUse) -> Option<Seq<(Seq<u8>, RunwayUse)>> {
    if ru.atis is Some {
        Some(usage_entries(ru.atis->0))
    } else if ru.metar is Some {
        Some(usage_entries(ru.metar->0))
    } else if ru.fallback is Some {
        Some(usage_entries(ru.fallback->0))
    } else {
        None
    }
}

/// When all three sources are present, the effective selection is the
/// bulletin-sourced one, whatever the other two contain.
pub proof fn lemma_selection_precedence(ru: RunwaysInUse)
    requires
        ru.atis is Some,
        ru.metar is Some,
        ru.fallback is Some,
    ensures
        spec_effective_entries(ru) == Some(usage_entries(ru.atis->0)),
{
}

impl RunwaysInUse {
    /// No source has produced a selection yet.
    pub fn none() -> (r: RunwaysInUse)
        ensures
            r.atis is None && r.metar is None && r.fallback is None,
    {
        RunwaysInUse { atis: None, metar: None, fallback: None }
    }

    /// The effective selection: the first present source in precedence
    /// order.
    pub fn effective(&self) -> (r: Option<&UsageMap>)
        ensures
            match (r, spec_effective_entries(*self)) {
                (Some(m), Some(es)) => usage_entries(*m) == es,
                (None, None) => true,
                _ => false,
            },
    {
        match &self.atis {
            Some(m) => Some(m),
            None => match &self.metar {
                Some(m) => Some(m),
                None => match &self.fallback {
                    Some(m) => Some(m),
                    None => None,
                },
            },
        }
    }

    /// Whether any source holds a selection.
    pub fn has_selection(&self) -> (r: bool)
        ensures
            r == spec_has_selection(*self),
    {
        self.atis.is_some() || self.metar.is_some() || self.fallback.is_some()
    }
}

/// The entries of `add` folded into `base` one by one under the merge
/// rule: an already-present runway keeps its place and gets the merged
/// usage, a new runway is appended.
pub open spec fn spec_fold_merge(
    base: Seq<(Seq<u8>, RunwayUse)>,
    add: Seq<(Seq<u8>, RunwayUse)>,
) -> Seq<(Seq<u8>, RunwayUse)>
    decreases add.len(),
{
    if add.len() == 0 {
        base
    } else {
        let e = add[0];
        let i = spec_find_key(base, e.0);
        let base2 = if i >= 0 {
            base.update(i, (e.0, spec_merged(base[i].1, e.1)))
        } else {
            base.push(e)
        };
        spec_fold_merge(base2, add.skip(1))
    }
}

impl Airports {
    /// An empty collection.
    pub fn new() -> (r: Airports)
        ensures
            r.airports@.len() == 0,
    {
        Airports { airports: Vec::new() }
    }

    /// Adds an airport, replacing any airport already registered under the
    /// same station identifier.
    pub fn add_airport(&mut self, airport: Airport)
        ensures
            ({
                let i = spec_find_airport(old(self).airports@, airport.icao@);
                if i >= 0 {
                    final(self).airports@ =~= old(self).airports@.update(i, airport)
                } else {
                    final(self).airports@ =~= old(self).airports@.push(airport)
                }
            }),
    {
        let idx = self.find_index(airport.icao.as_slice());
        match idx {
            Some(i) => {
                let _old = self.airports.remove(i);
                self.airports.insert(i, airport);
                assert(final(self).airports@ =~= old(self).airports@.update(i as int, airport));
            },
            None => {
                self.airports.push(airport);
            },
        }
    }

    /// The position of an airport by station identifier.
    pub fn find_index(&self, icao: &[u8]) -> (r: Option<usize>)
        ensures
            ({
                let i = spec_find_airport(self.airports@, icao@);
                match r {
                    Some(k) => k as int == i && k < self.airports@.len(),
                    None => i < 0,
                }
            }),
    {
        let ghost aps = self.airports@;
        proof {
            assert(aps.skip(0) =~= aps);
        }
        let mut k: usize = 0;
        while k < self.airports.len()
            invariant
                0 <= k <= aps.len(),
                aps == self.airports@,
                spec_find_airport(aps, icao@) == if spec_find_airport(aps.skip(k as int), icao@)
                    < 0 {
                    -1int
                } else {
                    spec_find_airport(aps.skip(k as int), icao@) + k
                },
            decreases aps.len() - k,
        {
            proof {
                assert(aps.skip(k as int)[0] == aps[k as int]);
            }
            if crate::airport::bytes_eq(self.airports[k].icao.as_slice(), icao) {
                return Some(k);
            }
            proof {
                assert(aps.skip(k as int).skip(1) =~= aps.skip(k as int + 1));
            }
            k = k + 1;
        }
        proof {
            assert(aps.skip(k as int).len() == 0);
        }
        None
    }

    /// A borrowed airport by station identifier.
    pub fn get(&self, icao: &[u8]) -> (r: Option<&Airport>)
        ensures
            ({
                let i = spec_find_airport(self.airports@, icao@);
                match r {
                    Some(a) => i >= 0 && *a == self.airports@[i],
                    None => i < 0,
                }
            }),
    {
        match self.find_index(icao) {
            Some(i) => Some(&self.airports[i]),
            None => None,
        }
    }

    /// Attaches a decoded report to the airport it names; a report naming
    /// no registered airport is dropped.
    pub fn attach_metar(&mut self, metar: Metar)
        ensures
            ({
                let i = spec_find_airport(old(self).airports@, metar.icao@);
                if i >= 0 {
                    final(self).airports@ =~= old(self).airports@.update(
                        i,
                        Airport {
                            metar: Some(metar),
                            ..old(self).airports@[i]
                        },
                    )
                } else {
                    final(self).airports@ =~= old(self).airports@
                }
            }),
    {
        let idx = self.find_index(metar.icao.as_slice());
        match idx {
            Some(i) => {
                let mut a = self.airports.remove(i);
                a.metar = Some(metar);
                self.airports.insert(i, a);
                assert(final(self).airports@ =~= old(self).airports@.update(
                    i as int,
                    Airport {
                        metar: Some(metar),
                        ..old(self).airports@[i as int]
                    },
                ));
            },
            None => {},
        }
    }

    /// Attaches a batch of decoded reports in order; a later report for
    /// the same station replaces an earlier one.
    pub fn add_metars(&mut self, metars: Vec<Metar>)
        ensures
            final(self).airports@ =~= spec_attach_all(old(self).airports@, metars@),
    {
        let ghost all = metars@;
        let mut ms = metars;
        proof {
            assert(all.skip(0) =~= all);
        }
        while ms.len() > 0
            invariant
                ms@.len() <= all.len(),
                spec_attach_all(old(self).airports@, all) =~= spec_attach_all(
                    self.airports@,
                    all.skip(all.len() - ms@.len()),
                ),
                ms@ =~= all.skip(all.len() - ms@.len()),
            decreases ms@.len(),
        {
            let ghost off = all.len() - ms@.len();
            let ghost rest = all.skip(off);
            let ghost pre_aps = self.airports@;
            let m = ms.remove(0);
            proof {
                assert(rest[0] == m);
                assert(all.len() - ms@.len() == off + 1);
                assert(rest.skip(1) =~= all.skip(off + 1));
            }
            self.attach_metar(m);
            proof {
                assert(self.airports@ =~= spec_attach(pre_aps, m));
                assert(spec_attach_all(pre_aps, rest) == spec_attach_all(
                    spec_attach(pre_aps, m),
                    rest.skip(1),
                ));
            }
        }
        proof {
            assert(all.skip(all.len() as int).len() == 0);
        }
    }

    /// Applies the runway selection stated in one bulletin text to the
    /// airport it addresses: each stated runway is merged into the
    /// bulletin-sourced selection under the merge rule. A text stating no
    /// runways changes nothing.
    pub fn apply_atis_text(&mut self, icao: &[u8], text: &[u8])
        ensures
            ({
                let i = spec_find_airport(old(self).airports@, icao@);
                let sel = spec_atis_selection(text@);
                if i >= 0 && sel.len() > 0 {
                    let a = old(self).airports@[i];
                    let base = if a.runways_in_use.atis is Some {
                        usage_entries(a.runways_in_use.atis->0)
                    } else {
                        Seq::empty()
                    };
                    &&& final(self).airports@.len() == old(self).airports@.len()
                    &&& final(self).airports@[i].runways_in_use.atis is Some
                    &&& usage_entries(final(self).airports@[i].runways_in_use.atis->0)
                        =~= spec_fold_merge(base, sel)
                    &&& final(self).airports@[i].icao == a.icao
                    &&& final(self).airports@[i].metar == a.metar
                    &&& final(self).airports@[i].runways == a.runways
                    &&& final(self).airports@[i].runways_in_use.metar == a.runways_in_use.metar
                    &&& final(self).airports@[i].runways_in_use.fallback
                        == a.runways_in_use.fallback
                    &&& forall|k: int|
                        0 <= k < old(self).airports@.len() && k != i
                            ==> final(self).airports@[k] == old(self).airports@[k]
                } else {
                    final(self).airports@ =~= old(self).airports@
                }
            }),
    {
        let idx = match self.find_index(icao) {
            Some(i) => i,
            None => {
                return;
            },
        };
        let sel = find_runway_in_use_from_atis(text);
        let n = usage_len(&sel);
        if n == 0 {
            assert(final(self).airports@ =~= old(self).airports@);
            return;
        }
        let mut a = self.airports.remove(idx);
        let mut base: UsageMap = match a.runways_in_use.atis {
            Some(m) => m,
            None => new_usage_map(),
        };
        let ghost base0 = usage_entries(base);
        let ghost add = usage_entries(sel);
        proof {
            assert(add.skip(0) =~= add);
        }
        let mut k: usize = 0;
        while k < n
            invariant
                0 <= k <= n,
                n == add.len(),
                add == usage_entries(sel),
                spec_fold_merge(base0, add) == spec_fold_merge(
                    usage_entries(base),
                    add.skip(k as int),
                ),
            decreases n - k,
        {
            proof {
                assert(add.skip(k as int)[0] == add[k as int]);
            }
            let entry = match crate::usage_map::usage_get_index(&sel, k) {
                Some(e) => e,
                None => {
                    assert(false);
                    (Vec::new(), RunwayUse::Both)
                },
            };
            let (key, value) = entry;
            usage_upsert(&mut base, key, value);
            proof {
                assert(add.skip(k as int).skip(1) =~= add.skip(k as int + 1));
            }
            k = k + 1;
        }
        proof {
            assert(add.skip(n as int).len() == 0);
        }
        a.runways_in_use.atis = Some(base);
        self.airports.insert(idx, a);
    }
}

/// Lexicographic order on byte strings, starting the comparison at `i`.
pub open spec fn spec_bytes_le_from(a: Seq<u8>, b: Seq<u8>, i: int) -> bool
    decreases a.len() - i when 0 <= i <= a.len()
{
    if i >= a.len() {
        true
    } else if i >= b.len() {
        false
    } else if a[i] < b[i] {
        true
    } else if a[i] > b[i] {
        false
    } else {
        spec_bytes_le_from(a, b, i + 1)
    }
}

/// Lexicographic order on byte strings.
pub open spec fn spec_bytes_le(a: Seq<u8>, b: Seq<u8>) -> bool {
    spec_bytes_le_from(a, b, 0)
}

/// The lexicographic order is total.
pub proof fn lemma_bytes_le_total_from(a: Seq<u8>, b: Seq<u8>, i: int)
    requires
        0 <= i <= a.len(),
        0 <= i <= b.len(),
        forall|k: int| 0 <= k < i ==> a[k] == b[k],
    ensures
        spec_bytes_le_from(a, b, i) || spec_bytes_le_from(b, a, i),
    decreases a.len() - i,
{
    if i < a.len() && i < b.len() && a[i] == b[i] {
        lemma_bytes_le_total_from(a, b, i + 1);
    }
}

/// The lexicographic order is reflexive.
pub proof fn lemma_bytes_le_refl_from(a: Seq<u8>, i: int)
    requires
        0 <= i <= a.len(),
    ensures
        spec_bytes_le_from(a, a, i),
    decreases a.len() - i,
{
    if i < a.len() {
        lemma_bytes_le_refl_from(a, i + 1);
    }
}

/// The lexicographic order is transitive.
pub proof fn lemma_bytes_le_trans_from(a: Seq<u8>, b: Seq<u8>, c: Seq<u8>, i: int)
    requires
        0 <= i,
        spec_bytes_le_from(a, b, i),
        spec_bytes_le_from(b, c, i),
        i <= a.len() && i <= b.len() && i <= c.len(),
    ensures
        spec_bytes_le_from(a, c, i),
    decreases a.len() - i,
{
    if i < a.len() {
        if i < b.len() && i < c.len() && a[i] == b[i] && b[i] == c[i] {
            lemma_bytes_le_trans_from(a, b, c, i + 1);
        }
    }
}

/// Compares two byte strings lexicographically.
pub fn bytes_le(a: &[u8], b: &[u8]) -> (r: bool)
    ensures
        r == spec_bytes_le(a@, b@),
{
    let alen = a.len();
    let blen = b.len();
    let mut k: usize = 0;
    proof {
        assert(spec_bytes_le_from(a@, b@, 0) == spec_bytes_le(a@, b@));
    }
    loop
        invariant
            0 <= k <= a@.len(),
            k <= b@.len(),
            a@.len() == alen,
            b@.len() == blen,
            spec_bytes_le(a@, b@) == spec_bytes_le_from(a@, b@, k as int),
        decreases a@.len() - k,
    {
        if k >= alen {
            return true;
        }
        if k >= blen {
            return false;
        }
        if a[k] < b[k] {
            return true;
        }
        if a[k] > b[k] {
            return false;
        }
        k = k + 1;
    }
}

/// The views of a sequence of byte strings.
pub open spec fn spec_byte_views(vs: Seq<Vec<u8>>) -> Seq<Seq<u8>> {
    vs.map_values(|v: Vec<u8>| v@)
}

/// The station identifiers of a sequence of airports.
pub open spec fn spec_icaos(aps: Seq<Airport>) -> Seq<Seq<u8>> {
    aps.map_values(|a: Airport| a.icao@)
}

/// Whether a sequence of airports is sorted by station identifier.
pub open spec fn spec_sorted_by_icao(aps: Seq<Airport>) -> bool {
    forall|i: int, j: int|
        0 <= i < j < aps.len() ==> spec_bytes_le(
            (#[trigger] aps[i]).icao@,
            (#[trigger] aps[j]).icao@,
        )
}

/// The computed-selection step applied to one airport: the wind policy's
/// selection becomes the computed source when it decided something, and
/// everything else about the airport is untouched.
pub open spec fn spec_policy_applied(
    a: Airport,
    b: Airport,
    cfg: Seq<(Seq<u8>, u8)>,
    now: LocalTime,
) -> bool {
    let dflt = spec_default_runway(cfg, a.icao@);
    let pol = spec_policy_selection(a, dflt, now);
    &&& b.icao == a.icao
    &&& b.metar == a.metar
    &&& b.runways == a.runways
    &&& b.runways_in_use.atis == a.runways_in_use.atis
    &&& b.runways_in_use.fallback == a.runways_in_use.fallback
    &&& match pol {
        Ok(es) => if es.len() > 0 {
            b.runways_in_use.metar is Some && usage_entries(b.runways_in_use.metar->0) =~= es
        } else {
            b.runways_in_use.metar == a.runways_in_use.metar
        },
        Err(e) => b.runways_in_use.metar == a.runways_in_use.metar,
    }
}

/// The fallback step applied to one airport: an airport with no selection
/// from any source and a configured default number gets that runway as the
/// fallback selection, used both ways.
pub open spec fn spec_default_applied(a: Airport, b: Airport, cfg: Seq<(Seq<u8>, u8)>) -> bool {
    let dflt = spec_default_runway(cfg, a.icao@);
    &&& b.icao == a.icao
    &&& b.metar == a.metar
    &&& b.runways == a.runways
    &&& b.runways_in_use.atis == a.runways_in_use.atis
    &&& b.runways_in_use.metar == a.runways_in_use.metar
    &&& if !spec_has_selection(a.runways_in_use) && dflt is Some {
        b.runways_in_use.fallback is Some && usage_entries(b.runways_in_use.fallback->0) =~= seq![
            (crate::airport::spec_two_digit_bytes(dflt->0 as int), RunwayUse::Both),
        ]
    } else {
        b.runways_in_use.fallback == a.runways_in_use.fallback
    }
}

impl Airports {
    /// Runs the wind policy on every airport and records each decided
    /// selection under the computed source.
    pub fn runway_in_use_based_on_metar(&mut self, config: &RunwayConfig, now: LocalTime)
        ensures
            final(self).airports@.len() == old(self).airports@.len(),
            forall|i: int|
                0 <= i < old(self).airports@.len() ==> spec_policy_applied(
                    old(self).airports@[i],
                    #[trigger] final(self).airports@[i],
                    config.default_runways@.map_values(|e: (Vec<u8>, u8)| (e.0@, e.1)),
                    now,
                ),
    {
        let ghost cfg = config.default_runways@.map_values(|e: (Vec<u8>, u8)| (e.0@, e.1));
        let mut work: Vec<Airport> = Vec::new();
        std::mem::swap(&mut self.airports, &mut work);
        let ghost orig = work@;
        let mut done: Vec<Airport> = Vec::new();
        while work.len() > 0
            invariant
                done@.len() + work@.len() == orig.len(),
                work@ =~= orig.skip(done@.len() as int),
                forall|i: int|
                    0 <= i < done@.len() ==> spec_policy_applied(
                        orig[i],
                        #[trigger] done@[i],
                        cfg,
                        now,
                    ),
                cfg == config.default_runways@.map_values(|e: (Vec<u8>, u8)| (e.0@, e.1)),
            decreases work@.len(),
        {
            let mut a = work.remove(0);
            let ghost pre = a;
            let dflt = config.get_default_runway(a.icao.as_slice());
            match a.set_runway_based_on_metar_wind(dflt, now) {
                Ok(m) => {
                    if usage_len(&m) > 0 {
                        a.runways_in_use.metar = Some(m);
                    }
                },
                Err(e) => {},
            }
            assert(spec_policy_applied(pre, a, cfg, now));
            done.push(a);
            proof {
                assert(work@ =~= orig.skip(done@.len() as int));
            }
        }
        std::mem::swap(&mut self.airports, &mut done);
    }

    /// Gives every airport that is still without any selection its
    /// configured fallback runway, when one is configured.
    pub fn apply_default_runways(&mut self, config: &RunwayConfig)
        ensures
            final(self).airports@.len() == old(self).airports@.len(),
            forall|i: int|
                0 <= i < old(self).airports@.len() ==> spec_default_applied(
                    old(self).airports@[i],
                    #[trigger] final(self).airports@[i],
                    config.default_runways@.map_values(|e: (Vec<u8>, u8)| (e.0@, e.1)),
                ),
    {
        let ghost cfg = config.default_runways@.map_values(|e: (Vec<u8>, u8)| (e.0@, e.1));
        let mut work: Vec<Airport> = Vec::new();
        std::mem::swap(&mut self.airports, &mut work);
        let ghost orig = work@;
        let mut done: Vec<Airport> = Vec::new();
        while work.len() > 0
            invariant
                done@.len() + work@.len() == orig.len(),
                work@ =~= orig.skip(done@.len() as int),
                forall|i: int|
                    0 <= i < done@.len() ==> spec_default_applied(
                        orig[i],
                        #[trigger] done@[i],
                        cfg,
                    ),
                cfg == config.default_runways@.map_values(|e: (Vec<u8>, u8)| (e.0@, e.1)),
            decreases work@.len(),
        {
            let mut a = work.remove(0);
            let ghost pre = a;
            if !a.runways_in_use.has_selection() {
                match config.get_default_runway(a.icao.as_slice()) {
                    Some(n) => {
                        let ident = crate::airport::two_digit_bytes(n);
                        let mut m = new_usage_map();
                        crate::usage_map::usage_insert(&mut m, ident, RunwayUse::Both);
                        a.runways_in_use.fallback = Some(m);
                    },
                    None => {},
                }
            }
            assert(spec_default_applied(pre, a, cfg));
            done.push(a);
            proof {
                assert(work@ =~= orig.skip(done@.len() as int));
            }
        }
        std::mem::swap(&mut self.airports, &mut done);
    }

    /// The positions of airports that ended the cycle with no selection
    /// from any source, in collection order and without repetition; these
    /// must be surfaced, never silently dropped.
    pub fn airports_without_runway_config(&self) -> (r: Vec<usize>)
        ensures
            forall|k: int|
                0 <= k < r@.len() ==> #[trigger] r@[k] < self.airports@.len()
                    && !spec_has_selection(self.airports@[r@[k] as int].runways_in_use),
            forall|i: int|
                0 <= i < self.airports@.len() && !spec_has_selection(
                    (#[trigger] self.airports@[i]).runways_in_use,
                ) ==> r@.contains(i as usize),
            forall|k1: int, k2: int| 0 <= k1 < k2 < r@.len() ==> r@[k1] < r@[k2],
    {
        let mut r: Vec<usize> = Vec::new();
        let mut k: usize = 0;
        while k < self.airports.len()
            invariant
                0 <= k <= self.airports@.len(),
                forall|m: int|
                    0 <= m < r@.len() ==> #[trigger] r@[m] < self.airports@.len()
                        && !spec_has_selection(self.airports@[r@[m] as int].runways_in_use),
                forall|i: int|
                    0 <= i < k && !spec_has_selection(
                        (#[trigger] self.airports@[i]).runways_in_use,
                    ) ==> r@.contains(i as usize),
                forall|m: int| 0 <= m < r@.len() ==> #[trigger] r@[m] < k,
                forall|k1: int, k2: int| 0 <= k1 < k2 < r@.len() ==> r@[k1] < r@[k2],
            decreases self.airports@.len() - k,
        {
            let ghost old_r = r@;
            if !self.airports[k].runways_in_use.has_selection() {
                r.push(k);
                assert(r@[r@.len() - 1] == k);
                assert(r@.contains(k));
            }
            proof {
                assert(forall|m: int| 0 <= m < old_r.len() ==> r@[m] == old_r[m]);
                assert forall|i: int|
                    0 <= i < k + 1 && !spec_has_selection(
                        (#[trigger] self.airports@[i]).runways_in_use,
                    ) implies r@.contains(i as usize) by {
                    if i < k {
                        let m = choose|m: int| 0 <= m < old_r.len() && old_r[m] == i as usize;
                        assert(r@[m] == i as usize);
                    }
                }
            }
            k = k + 1;
        }
        r
    }

    /// The station identifiers of all airports, in order.
    pub fn identifiers(&self) -> (r: Vec<Vec<u8>>)
        ensures
            spec_byte_views(r@) =~= spec_icaos(self.airports@),
    {
        let mut r: Vec<Vec<u8>> = Vec::new();
        let mut k: usize = 0;
        while k < self.airports.len()
            invariant
                0 <= k <= self.airports@.len(),
                spec_byte_views(r@) =~= spec_icaos(self.airports@.subrange(0, k as int)),
            decreases self.airports@.len() - k,
        {
            let ghost old_r = r@;
            let id = crate::airport::clone_bytes(&self.airports[k].icao);
            r.push(id);
            proof {
                assert(spec_byte_views(old_r).len() == old_r.len());
                assert(spec_icaos(self.airports@.subrange(0, k as int)).len() == k);
                assert(old_r.len() == k as int);
                assert(r@ =~= old_r.push(id));
                assert(spec_byte_views(r@).len() == k + 1);
                assert forall|m: int| 0 <= m < k + 1 implies spec_byte_views(r@)[m] == spec_icaos(
                    self.airports@.subrange(0, k as int + 1),
                )[m] by {
                    if m < k {
                        assert(spec_byte_views(old_r)[m] == spec_icaos(
                            self.airports@.subrange(0, k as int),
                        )[m]);
                        assert(r@[m] == old_r[m]);
                    }
                }
                assert(spec_byte_views(r@) =~= spec_icaos(
                    self.airports@.subrange(0, k as int + 1),
                ));
            }
            k = k + 1;
        }
        proof {
            assert(self.airports@.subrange(0, self.airports@.len() as int) =~= self.airports@);
        }
        r
    }

    /// Sorts the airports by station identifier; the collection keeps
    /// exactly the same airports.
    pub fn sort(&mut self)
        ensures
            spec_sorted_by_icao(final(self).airports@),
            final(self).airports@.to_multiset() =~= old(self).airports@.to_multiset(),
    {
        broadcast use vstd::seq_lib::group_to_multiset_ensures;

        let mut work: Vec<Airport> = Vec::new();
        std::mem::swap(&mut self.airports, &mut work);
        let ghost orig = work@;
        let mut done: Vec<Airport> = Vec::new();
        while work.len() > 0
            invariant
                done@.to_multiset().add(work@.to_multiset()) =~= orig.to_multiset(),
                spec_sorted_by_icao(done@),
                forall|i: int, j: int|
                    0 <= i < done@.len() && 0 <= j < work@.len() ==> spec_bytes_le(
                        (#[trigger] done@[i]).icao@,
                        (#[trigger] work@[j]).icao@,
                    ),
            decreases work@.len(),
        {
            // select the least remaining identifier
            proof {
                lemma_bytes_le_refl_from(work@[0].icao@, 0);
            }
            let mut best: usize = 0;
            let mut k: usize = 1;
            while k < work.len()
                invariant
                    0 <= best < k <= work@.len(),
                    work@.len() >= 1,
                    forall|j: int|
                        0 <= j < k ==> spec_bytes_le(
                            work@[best as int].icao@,
                            (#[trigger] work@[j]).icao@,
                        ),
                decreases work@.len() - k,
            {
                if !bytes_le(work[best].icao.as_slice(), work[k].icao.as_slice()) {
                    proof {
                        lemma_bytes_le_total_from(work@[best as int].icao@, work@[k as int].icao@, 0);
                        assert forall|j: int| 0 <= j < k implies spec_bytes_le(
                            work@[k as int].icao@,
                            (#[trigger] work@[j]).icao@,
                        ) by {
                            lemma_bytes_le_trans_from(
                                work@[k as int].icao@,
                                work@[best as int].icao@,
                                work@[j].icao@,
                                0,
                            );
                        }
                    }
                    best = k;
                }
                proof {
                    lemma_bytes_le_refl_from(work@[best as int].icao@, 0);
                    if best != k {
                        assert(spec_bytes_le(work@[best as int].icao@, work@[k as int].icao@));
                    }
                }
                k = k + 1;
            }
            let ghost pre_work = work@;
            let ghost pre_done = done@;
            let a = work.remove(best);
            done.push(a);
            proof {
                pre_work.to_multiset_ensures();
                pre_done.to_multiset_ensures();
                assert(pre_work.contains(a)) by {
                    assert(pre_work[best as int] == a);
                }
                assert(pre_work.to_multiset().count(a) > 0);
                assert(work@ =~= pre_work.remove(best as int));
                assert(pre_work.remove(best as int).to_multiset() =~= pre_work.to_multiset().remove(
                    a,
                ));
                assert(work@.to_multiset() =~= pre_work.to_multiset().remove(a));
                assert(done@ =~= pre_done.push(a));
                assert(pre_done.push(a).to_multiset() =~= pre_done.to_multiset().insert(a));
                assert(done@.to_multiset() =~= pre_done.to_multiset().insert(a));
                assert(done@.to_multiset().add(work@.to_multiset()) =~= pre_done.to_multiset().add(
                    pre_work.to_multiset(),
                ));
                assert forall|i: int, j: int|
                    0 <= i < done@.len() && 0 <= j < work@.len() implies spec_bytes_le(
                    (#[trigger] done@[i]).icao@,
                    (#[trigger] work@[j]).icao@,
                ) by {
                    let wj = if j < best {
                        j
                    } else {
                        j + 1
                    };
                    assert(work@[j] == pre_work[wj]);
                    if i < done@.len() - 1 {
                        assert(spec_bytes_le(done@[i].icao@, pre_work[wj].icao@));
                    } else {
                        assert(done@[i] == a);
                        assert(spec_bytes_le(a.icao@, pre_work[wj].icao@));
                    }
                }
            }
        }
        std::mem::swap(&mut self.airports, &mut done);
    }

    /// How many airports took their effective selection from each source,
    /// and how many have none: bulletin, computed, fallback, none.
    pub fn selection_counts(&self) -> (r: (usize, usize, usize, usize))
        ensures
            r.0 == spec_count_source(self.airports@, 0),
            r.1 == spec_count_source(self.airports@, 1),
            r.2 == spec_count_source(self.airports@, 2),
            r.3 == spec_count_source(self.airports@, 3),
            r.0 + r.1 + r.2 + r.3 == self.airports@.len(),
    {
        let mut atis: usize = 0;
        let mut metar: usize = 0;
        let mut fallback: usize = 0;
        let mut none: usize = 0;
        let mut k: usize = 0;
        while k < self.airports.len()
            invariant
                0 <= k <= self.airports@.len(),
                atis + metar + fallback + none == k,
                atis == spec_count_source(self.airports@.subrange(0, k as int), 0),
                metar == spec_count_source(self.airports@.subrange(0, k as int), 1),
                fallback == spec_count_source(self.airports@.subrange(0, k as int), 2),
                none == spec_count_source(self.airports@.subrange(0, k as int), 3),
            decreases self.airports@.len() - k,
        {
            proof {
                let pre = self.airports@.subrange(0, k as int);
                let post = self.airports@.subrange(0, k as int + 1);
                assert(post.drop_last() =~= pre);
                assert(post.last() == self.airports@[k as int]);
                lemma_count_source_step(post, 0);
                lemma_count_source_step(post, 1);
                lemma_count_source_step(post, 2);
                lemma_count_source_step(post, 3);
            }
            let ru = &self.airports[k].runways_in_use;
            if ru.atis.is_some() {
                atis = atis + 1;
            } else if ru.metar.is_some() {
                metar = metar + 1;
            } else if ru.fallback.is_some() {
                fallback = fallback + 1;
            } else {
                none = none + 1;
            }
            k = k + 1;
        }
        proof {
            assert(self.airports@.subrange(0, self.airports@.len() as int) =~= self.airports@);
        }
        (atis, metar, fallback, none)
    }
}

/// Which source an airport's effective selection comes from: `0` for the
/// bulletin, `1` for the computed source, `2` for the fallback, `3` for
/// none.
pub open spec fn spec_source_index(ru: RunwaysInUse) -> int {
    if ru.atis is Some {
        0
    } else if ru.metar is Some {
        1
    } else if ru.fallback is Some {
        2
    } else {
        3
    }
}

/// How many airports of a sequence take their selection from a source.
pub open spec fn spec_count_source(aps: Seq<Airport>, which: int) -> int
    decreases aps.len(),
{
    if aps.len() == 0 {
        0
    } else {
        spec_count_source(aps.drop_last(), which) + if spec_source_index(
            aps.last().runways_in_use,
        ) == which {
            1int
        } else {
            0int
        }
    }
}

proof fn lemma_count_source_step(aps: Seq<Airport>, which: int)
    requires
        aps.len() > 0,
    ensures
        spec_count_source(aps, which) == spec_count_source(aps.drop_last(), which) + if
        spec_source_index(aps.last().runways_in_use) == which {
            1int
        } else {
            0int
        },
{
}

} // verus!
