use vstd::prelude::*;

verus! {

/// The identifier of an episode: its number in thousandths, so that a special
/// episode numbered between two integers (100.5 is 100_500) is held exactly.
///
/// Two numbers are the same episode exactly when their thousandths are equal, and
/// they are ordered as their thousandths are.
#[derive(Debug, Clone, Copy, PartialEq, Eq, Structural)]
pub struct EpisodeNumber {
    pub thousandths: i64,
}

impl View for EpisodeNumber {
    type V = int;

    open spec fn view(&self) -> int {
        self.thousandths as int
    }
}

impl EpisodeNumber {
    /// The number that is `thousandths` thousandths of an episode.
    pub fn from_thousandths(thousandths: i64) -> (number: EpisodeNumber)
        ensures
            number@ == thousandths,
    {
        EpisodeNumber { thousandths }
    }

    /// The number zero, which is what a random draw from an empty catalog gives.
    pub fn zero() -> (number: EpisodeNumber)
        ensures
            number@ == 0,
    {
        EpisodeNumber { thousandths: 0 }
    }
}

} // verus!
