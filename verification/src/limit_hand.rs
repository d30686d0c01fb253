//! The limit-hand tiers: hands whose score is capped by a fixed table
//! instead of the exponential han/fu formula.

use vstd::prelude::*;

use crate::score::{
    round_up_to_hundred, FuValue, HanValue, Payment, DEALER_RON_MULTIPLIER,
    DEALER_TSUMO_MULTIPLIER, NON_DEALER_RON_MULTIPLIER, NON_DEALER_TSUMO_TO_DEALER_MULTIPLIER,
    NON_DEALER_TSUMO_TO_NON_DEALER_MULTIPLIER,
};

verus! {

/// The ascending fixed-payment tiers.
#[derive(Debug, Clone, Copy, PartialEq, Eq, Structural)]
pub enum LimitHands {
    Mangan,
    Haneman,
    Baiman,
    Sanbaiman,
    KazoeYakuman,
}

/// Whether a (han, fu) pair reaches a limit tier: five han always, four
/// han from forty fu, three han from seventy fu.
pub open spec fn spec_is_limit_hand(han: int, fu: int) -> bool {
    ||| han >= 5
    ||| (han == 4 && fu >= 40)
    ||| (han == 3 && fu >= 70)
}

/// The tier a limit hand falls into, keyed by han alone.
pub open spec fn spec_get_limit_hand(han: int, fu: int) -> Option<LimitHands> {
    if !spec_is_limit_hand(han, fu) {
        Option::None
    } else if han <= 5 {
        Some(LimitHands::Mangan)
    } else if han <= 7 {
        Some(LimitHands::Haneman)
    } else if han <= 10 {
        Some(LimitHands::Baiman)
    } else if han <= 12 {
        Some(LimitHands::Sanbaiman)
    } else {
        Some(LimitHands::KazoeYakuman)
    }
}

/// Each tier's fixed base points: mangan 2000, scaled by 1.5, 2, 3 and
/// 4 for the higher tiers.
pub open spec fn spec_limit_base(l: LimitHands) -> int {
    match l {
        LimitHands::Mangan => 2000,
        LimitHands::Haneman => 3000,
        LimitHands::Baiman => 4000,
        LimitHands::Sanbaiman => 6000,
        LimitHands::KazoeYakuman => 8000,
    }
}

/// Whether the score of the hand is capped by a limit tier.
pub fn is_limit_hand(han: HanValue, fu: FuValue) -> (r: bool)
    ensures
        r == spec_is_limit_hand(han as int, fu as int),
{
    if han >= 5 {
        return true;
    }
    if han == 4 && fu >= 40 {
        return true;
    }
    if han == 3 && fu >= 70 {
        return true;
    }
    false
}

impl LimitHands {
    /// Calculate the limit hand type from the han and fu scores.
    pub fn get_limit_hand(han: HanValue, fu: FuValue) -> (r: Option<LimitHands>)
        ensures
            r == spec_get_limit_hand(han as int, fu as int),
    {
        if !is_limit_hand(han, fu) {
            return None;
        }
        if han <= 5 {
            Some(LimitHands::Mangan)
        } else if han <= 7 {
            Some(LimitHands::Haneman)
        } else if han <= 10 {
            Some(LimitHands::Baiman)
        } else if han <= 12 {
            Some(LimitHands::Sanbaiman)
        } else {
            Some(LimitHands::KazoeYakuman)
        }
    }

    /// Get the payment amounts: the tier's fixed base points expanded
    /// by the standard multipliers.  The figures are already multiples
    /// of one hundred, so no rounding applies.
    pub fn get_score(&self) -> (r: Payment)
        ensures
            r.dealer_ron == 6 * spec_limit_base(*self),
            r.dealer_tsumo == 2 * spec_limit_base(*self),
            r.non_dealer_ron == 4 * spec_limit_base(*self),
            r.non_dealer_tsumo_to_non_dealer == spec_limit_base(*self),
            r.non_dealer_tsumo_to_dealer == 2 * spec_limit_base(*self),
            r.dealer_ron == round_up_to_hundred(6 * spec_limit_base(*self)),
            r.dealer_tsumo == round_up_to_hundred(2 * spec_limit_base(*self)),
            r.non_dealer_ron == round_up_to_hundred(4 * spec_limit_base(*self)),
            r.non_dealer_tsumo_to_non_dealer == round_up_to_hundred(spec_limit_base(*self)),
            r.non_dealer_tsumo_to_dealer == round_up_to_hundred(2 * spec_limit_base(*self)),
            r.wf(),
    {
        let base_points: u64 = match self {
            LimitHands::Mangan => 2000,
            LimitHands::Haneman => 3000,
            LimitHands::Baiman => 4000,
            LimitHands::Sanbaiman => 6000,
            LimitHands::KazoeYakuman => 8000,
        };
        Payment::new(
            base_points * DEALER_RON_MULTIPLIER,
            base_points * DEALER_TSUMO_MULTIPLIER,
            base_points * NON_DEALER_RON_MULTIPLIER,
            base_points * NON_DEALER_TSUMO_TO_NON_DEALER_MULTIPLIER,
            base_points * NON_DEALER_TSUMO_TO_DEALER_MULTIPLIER,
        )
    }
}

} // verus!
