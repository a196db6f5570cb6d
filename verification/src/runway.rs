//! Runway geometry and per-runway usage assignments.

use vstd::prelude::*;

verus! {

/// One end of a physical runway: its identifier (for example `01L`) and its
/// true heading in whole degrees, where `360` means north.
#[derive(Debug, Clone)]
pub struct RunwayDirection {
    pub degrees: u16,
    pub identifier: Vec<u8>,
}

/// A physical strip: two opposite runway ends.
#[derive(Debug, Clone)]
pub struct Runway {
    pub runways: [RunwayDirection; 2],
}

/// How a runway is used in a selection.
#[derive(Debug, Clone, Copy, PartialEq, Eq, Structural)]
pub enum RunwayUse {
    Departing,
    Arriving,
    Both,
}

/// The merge rule for two usages of the same runway: `Both` absorbs
/// anything, arriving plus departing gives `Both`, equal usages keep.
pub open spec fn spec_merged(a: RunwayUse, b: RunwayUse) -> RunwayUse {
    match (a, b) {
        (RunwayUse::Both, _) => RunwayUse::Both,
        (_, RunwayUse::Both) => RunwayUse::Both,
        (RunwayUse::Arriving, RunwayUse::Departing) => RunwayUse::Both,
        (RunwayUse::Departing, RunwayUse::Arriving) => RunwayUse::Both,
        (existing, _) => existing,
    }
}

impl RunwayUse {
    /// Merges this usage with another one for the same runway.
    pub fn merged_with(self, other: Self) -> (r: Self)
        ensures
            r == spec_merged(self, other),
    {
        match (self, other) {
            (Self::Both, _) | (_, Self::Both) => Self::Both,
            (Self::Arriving, Self::Departing) | (Self::Departing, Self::Arriving) => Self::Both,
            (existing, _) => existing,
        }
    }

    /// Human-readable suffix used in reports.
    pub fn report_suffix(self) -> (r: &'static str)
        ensures
            self is Arriving ==> r@ == " Arr"@,
            self is Departing ==> r@ == " Dep"@,
            self is Both ==> r@ == ""@,
    {
        match self {
            Self::Arriving => " Arr",
            Self::Departing => " Dep",
            Self::Both => "",
        }
    }

    /// Directional flags for the runway file: `1` for departures, `0` for
    /// arrivals, both for a runway used both ways.
    pub fn active_runway_flags(self) -> (r: Vec<u8>)
        ensures
            self is Departing ==> r@ =~= seq![1u8],
            self is Arriving ==> r@ =~= seq![0u8],
            self is Both ==> r@ =~= seq![1u8, 0u8],
    {
        match self {
            Self::Departing => vec![1],
            Self::Arriving => vec![0],
            Self::Both => vec![1, 0],
        }
    }
}

/// Merging a usage is commutative, idempotent, and `Arriving` merged with
/// `Departing` always gives `Both`.
pub proof fn lemma_merge_laws(a: RunwayUse, b: RunwayUse)
    ensures
        spec_merged(a, b) == spec_merged(b, a),
        spec_merged(a, a) == a,
        spec_merged(RunwayUse::Arriving, RunwayUse::Departing) == RunwayUse::Both,
        spec_merged(RunwayUse::Both, b) == RunwayUse::Both,
{
}

} // verus!
