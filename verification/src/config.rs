//! Plain configuration values the selection policy consumes: the ignore
//! list and the per-station default runway numbers. The surrounding
//! application fills this in from its configuration file.

use vstd::prelude::*;

verus! {

/// Configuration the policy reads, as plain values.
pub struct RunwayConfig {
    pub ignore_airports: Vec<Vec<u8>>,
    pub default_runways: Vec<(Vec<u8>, u8)>,
}

/// The first default runway number recorded for a station.
pub open spec fn spec_default_runway(es: Seq<(Seq<u8>, u8)>, icao: Seq<u8>) -> Option<u8>
    decreases es.len(),
{
    if es.len() == 0 {
        None
    } else if es[0].0 == icao {
        Some(es[0].1)
    } else {
        spec_default_runway(es.skip(1), icao)
    }
}

/// Whether a station is on the ignore list.
pub open spec fn spec_is_ignored(es: Seq<Seq<u8>>, icao: Seq<u8>) -> bool {
    exists|i: int| 0 <= i < es.len() && #[trigger] es[i] == icao
}

impl RunwayConfig {
    /// An empty configuration: nothing ignored, no defaults.
    pub fn new() -> (r: RunwayConfig)
        ensures
            r.ignore_airports@.len() == 0,
            r.default_runways@.len() == 0,
    {
        RunwayConfig { ignore_airports: Vec::new(), default_runways: Vec::new() }
    }

    /// The configured default runway number for a station, if any.
    pub fn get_default_runway(&self, icao: &[u8]) -> (r: Option<u8>)
        ensures
            r == spec_default_runway(
                self.default_runways@.map_values(|e: (Vec<u8>, u8)| (e.0@, e.1)),
                icao@,
            ),
    {
        let ghost es = self.default_runways@.map_values(|e: (Vec<u8>, u8)| (e.0@, e.1));
        proof {
            assert(es.skip(0) =~= es);
        }
        let mut k: usize = 0;
        while k < self.default_runways.len()
            invariant
                0 <= k <= self.default_runways@.len(),
                es == self.default_runways@.map_values(|e: (Vec<u8>, u8)| (e.0@, e.1)),
                spec_default_runway(es, icao@) == spec_default_runway(es.skip(k as int), icao@),
            decreases self.default_runways@.len() - k,
        {
            let hit = crate::airport::bytes_eq(self.default_runways[k].0.as_slice(), icao);
            proof {
                assert(es.skip(k as int)[0] == (self.default_runways@[k as int].0@,
                self.default_runways@[k as int].1));
            }
            if hit {
                return Some(self.default_runways[k].1);
            }
            proof {
                assert(es.skip(k as int).skip(1) =~= es.skip(k as int + 1));
            }
            k = k + 1;
        }
        proof {
            assert(es.skip(k as int).len() == 0);
        }
        None
    }

    /// Whether a station is on the ignore list.
    pub fn get_ignore_airports(&self, icao: &[u8]) -> (r: bool)
        ensures
            r == spec_is_ignored(
                self.ignore_airports@.map_values(|e: Vec<u8>| e@),
                icao@,
            ),
    {
        let ghost es = self.ignore_airports@.map_values(|e: Vec<u8>| e@);
        let mut k: usize = 0;
        while k < self.ignore_airports.len()
            invariant
                0 <= k <= self.ignore_airports@.len(),
                es == self.ignore_airports@.map_values(|e: Vec<u8>| e@),
                forall|i: int| 0 <= i < k ==> #[trigger] es[i] != icao@,
            decreases self.ignore_airports@.len() - k,
        {
            if crate::airport::bytes_eq(self.ignore_airports[k].as_slice(), icao) {
                assert(es[k as int] == icao@);
                return true;
            }
            assert(es[k as int] != icao@);
            k = k + 1;
        }
        false
    }
}

/// The leading lines of a runway file that carry active-airport records:
/// everything up to the first line that does not start with the
/// `ACTIVE_AIRPORT:` prefix.
pub open spec fn spec_active_airport_prefix(lines: Seq<Seq<u8>>) -> Seq<Seq<u8>>
    decreases lines.len(),
{
    if lines.len() == 0 {
        Seq::empty()
    } else if is_active_airport_line(lines[0]) {
        seq![lines[0]] + spec_active_airport_prefix(lines.skip(1))
    } else {
        Seq::empty()
    }
}

/// Whether a line starts with `ACTIVE_AIRPORT:`.
pub open spec fn is_active_airport_line(line: Seq<u8>) -> bool {
    crate::scan::has_tag(
        line,
        0,
        seq![
            65u8,
            67u8,
            84u8,
            73u8,
            86u8,
            69u8,
            95u8,
            65u8,
            73u8,
            82u8,
            80u8,
            79u8,
            82u8,
            84u8,
            58u8,
        ],
    )
}

/// Keeps the leading active-airport records of a runway file: each given
/// line is kept as long as every line before it was kept and it starts
/// with the record prefix.
pub fn read_active_airport(lines: &Vec<Vec<u8>>) -> (r: Vec<Vec<u8>>)
    ensures
        r@.map_values(|l: Vec<u8>| l@) =~= spec_active_airport_prefix(
            lines@.map_values(|l: Vec<u8>| l@),
        ),
{
    let ghost ls = lines@.map_values(|l: Vec<u8>| l@);
    let mut r: Vec<Vec<u8>> = Vec::new();
    proof {
        assert(ls.skip(0) =~= ls);
    }
    let mut k: usize = 0;
    while k < lines.len()
        invariant
            0 <= k <= lines@.len(),
            ls == lines@.map_values(|l: Vec<u8>| l@),
            spec_active_airport_prefix(ls) =~= r@.map_values(|l: Vec<u8>| l@)
                + spec_active_airport_prefix(ls.skip(k as int)),
            forall|i: int| 0 <= i < k ==> is_active_airport_line(#[trigger] ls[i]),
        decreases lines@.len() - k,
    {
        let line = &lines[k];
        let mut is_rec = false;
        if line.len() >= 15 {
            is_rec = line[0] == 65u8 && line[1] == 67u8 && line[2] == 84u8 && line[3] == 73u8
                && line[4] == 86u8 && line[5] == 69u8 && line[6] == 95u8 && line[7] == 65u8
                && line[8] == 73u8 && line[9] == 82u8 && line[10] == 80u8 && line[11] == 79u8
                && line[12] == 82u8 && line[13] == 84u8 && line[14] == 58u8;
        }
        proof {
            let t = seq![
                65u8,
                67u8,
                84u8,
                73u8,
                86u8,
                69u8,
                95u8,
                65u8,
                73u8,
                82u8,
                80u8,
                79u8,
                82u8,
                84u8,
                58u8,
            ];
            assert(t[0] == 65u8 && t[1] == 67u8 && t[2] == 84u8 && t[3] == 73u8 && t[4] == 86u8
                && t[5] == 69u8 && t[6] == 95u8 && t[7] == 65u8 && t[8] == 73u8 && t[9] == 82u8
                && t[10] == 80u8 && t[11] == 79u8 && t[12] == 82u8 && t[13] == 84u8 && t[14]
                == 58u8);
            assert(ls[k as int] == line@);
            if is_rec {
                assert(is_active_airport_line(ls[k as int]));
            } else {
                assert(!is_active_airport_line(ls[k as int]));
            }
        }
        if !is_rec {
            assert(spec_active_airport_prefix(ls.skip(k as int)) =~= Seq::<Seq<u8>>::empty());
            return r;
        }
        let copied = crate::airport::clone_bytes(line);
        r.push(copied);
        proof {
            assert(ls.skip(k as int).skip(1) =~= ls.skip(k as int + 1));
            assert(r@.map_values(|l: Vec<u8>| l@) =~= r@.map_values(|l: Vec<u8>| l@));
        }
        assert(spec_active_airport_prefix(ls) =~= r@.map_values(|l: Vec<u8>| l@)
            + spec_active_airport_prefix(ls.skip(k as int + 1)));
        k = k + 1;
    }
    r
}

} // verus!
