use vstd::prelude::*;
use crate::textfmt::str_eq;

verus! {

/// Whether a song's charts carry touch-sensor notes besides the standard
/// note kinds. Decides downstream whether a touch column is shaped.
#[derive(Clone, Copy, Debug, PartialEq, Eq, Structural)]
pub enum ChartFamily {
    Standard,
    DeluxeTouch,
}

/// The tag a chart family is spelled with on the wire and in title prefixes.
pub open spec fn spec_family_wire(f: ChartFamily) -> Seq<char> {
    match f {
        ChartFamily::Standard => "SD"@,
        ChartFamily::DeluxeTouch => "DX"@,
    }
}

/// The chart family a wire tag decodes to; an unrecognized tag decodes to
/// nothing.
pub open spec fn spec_family_from_wire(s: Seq<char>) -> Option<ChartFamily> {
    if s == "SD"@ {
        Some(ChartFamily::Standard)
    } else if s == "DX"@ {
        Some(ChartFamily::DeluxeTouch)
    } else {
        None
    }
}

impl ChartFamily {
    pub fn wire_str(&self) -> (r: &'static str)
        ensures
            r@ == spec_family_wire(*self),
    {
        match self {
            ChartFamily::Standard => "SD",
            ChartFamily::DeluxeTouch => "DX",
        }
    }

    pub fn from_wire(s: &str) -> (r: Option<ChartFamily>)
        ensures
            r == spec_family_from_wire(s@),
    {
        if str_eq(s, "SD") {
            Some(ChartFamily::Standard)
        } else if str_eq(s, "DX") {
            Some(ChartFamily::DeluxeTouch)
        } else {
            None
        }
    }
}

/// One chart of a song in the catalog: its note counts, ordered as
/// tap, hold, slide, (touch when the family is DeluxeTouch), break,
/// and the charter's name.
pub struct ChartDetail {
    pub notes: Vec<u32>,
    pub charter: String,
}

/// The sum of all note-type counts of a chart.
pub open spec fn spec_note_sum(notes: Seq<u32>) -> int
    decreases notes.len(),
{
    if notes.len() == 0 {
        0
    } else {
        spec_note_sum(notes.drop_last()) + notes.last()
    }
}

/// One catalog entry: a song with its per-tier chart constants (kept as the
/// decimal text they are written with), display level labels, and chart
/// details. The `ds` and `level` sequences are index-aligned by difficulty
/// tier and hold at most the five tiers.
pub struct Song {
    pub id: u32,
    pub title: String,
    pub song_type: ChartFamily,
    pub genre: String,
    pub bpm: u32,
    pub artist: String,
    pub ds: Vec<String>,
    pub level: Vec<String>,
    pub charts: Vec<ChartDetail>,
}

impl Song {
    /// Catalog invariant: no more than five difficulty tiers, and each
    /// chart's total note count fits the machine word it is summed in.
    pub open spec fn wf(self) -> bool {
        &&& self.ds@.len() <= 5
        &&& self.level@.len() <= 5
        &&& self.charts@.len() <= 5
        &&& forall|i: int|
            0 <= i < self.charts@.len() ==> spec_note_sum(#[trigger] self.charts@[i].notes@)
                <= u64::MAX
    }
}

} // verus!
