use vstd::prelude::*;

verus! {

/// Terminal result of one simulated game, seen from the side on roll at the
/// start of the simulation.
#[derive(Clone, Copy, Debug, PartialEq, Eq, Structural)]
pub enum GameResult {
    WinNormal,
    WinGammon,
    LoseNormal,
    LoseGammon,
}

impl GameResult {
    /// The slot of this outcome in a four-slot table.
    pub open spec fn spec_index(self) -> int {
        match self {
            GameResult::WinNormal => 0,
            GameResult::WinGammon => 1,
            GameResult::LoseNormal => 2,
            GameResult::LoseGammon => 3,
        }
    }

    /// The slot of this outcome in a four-slot table, by an exhaustive match.
    pub fn index(self) -> (r: usize)
        ensures
            r as int == self.spec_index(),
            r < 4,
    {
        match self {
            GameResult::WinNormal => 0,
            GameResult::WinGammon => 1,
            GameResult::LoseNormal => 2,
            GameResult::LoseGammon => 3,
        }
    }
}

} // verus!
