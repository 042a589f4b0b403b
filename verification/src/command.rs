use vstd::prelude::*;

verus! {

/// A difficulty tier chosen on the command line, used to filter a song's
/// charts down to one tier before shaping.
#[derive(Clone, Copy, Debug, PartialEq, Eq, Structural)]
pub enum ChartLevel {
    BSC,
    ADV,
    EXP,
    MST,
    REM,
}

impl ChartLevel {
    /// The position of this tier inside a song's `ds`/`level` sequences.
    pub open spec fn spec_index(self) -> int {
        match self {
            ChartLevel::BSC => 0,
            ChartLevel::ADV => 1,
            ChartLevel::EXP => 2,
            ChartLevel::MST => 3,
            ChartLevel::REM => 4,
        }
    }

    pub fn get_index(&self) -> (i: usize)
        ensures
            i == self.spec_index(),
            i < 5,
    {
        match self {
            ChartLevel::BSC => 0,
            ChartLevel::ADV => 1,
            ChartLevel::EXP => 2,
            ChartLevel::MST => 3,
            ChartLevel::REM => 4,
        }
    }
}

} // verus!
