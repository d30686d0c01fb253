//! The typed failures the scoring engine can report.

use vstd::prelude::*;

verus! {

/// Every way a scoring request can fail: malformed tile notation, a
/// group partition with the wrong shape, a hand with no scoring value,
/// manual payment resolution with a missing input, or a round context
/// that claims a replacement-tile win without any kan in the hand.
#[derive(Debug, Clone, Copy, PartialEq, Eq, Structural)]
pub enum HandErr {
    InvalidGroup,
    InvalidSuit,
    InvalidShape,
    NoYaku,
    NoHan,
    NoFu,
    RinshanKanWithoutKan,
}

impl HandErr {
    /// A short human-readable description of the failure.
    pub fn to_string(&self) -> (r: String)
        ensures
            r@ == spec_hand_err_string(*self),
    {
        match self {
            HandErr::InvalidGroup => "Invalid group found!".to_owned(),
            HandErr::InvalidSuit => "Invalid suit found!".to_owned(),
            HandErr::InvalidShape => "Invalid hand shape!".to_owned(),
            HandErr::NoYaku => "No Yaku!".to_owned(),
            HandErr::NoHan => "No han provided!".to_owned(),
            HandErr::NoFu => "No fu provided!".to_owned(),
            HandErr::RinshanKanWithoutKan => "Rinshan kaihou without a kan!".to_owned(),
        }
    }
}

/// The description each failure prints with.
pub open spec fn spec_hand_err_string(e: HandErr) -> Seq<char> {
    match e {
        HandErr::InvalidGroup => "Invalid group found!"@,
        HandErr::InvalidSuit => "Invalid suit found!"@,
        HandErr::InvalidShape => "Invalid hand shape!"@,
        HandErr::NoYaku => "No Yaku!"@,
        HandErr::NoHan => "No han provided!"@,
        HandErr::NoFu => "No fu provided!"@,
        HandErr::RinshanKanWithoutKan => "Rinshan kaihou without a kan!"@,
    }
}

} // verus!
