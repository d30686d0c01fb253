//! The payment table and the final score result.

use vstd::prelude::*;

use crate::fu::Fu;
use crate::yaku::Yaku;

verus! {

/// The han multiplier unit.
pub type HanValue = u64;

/// The fu point-base unit.
pub type FuValue = u32;

/// The repeat-round counter.
pub type HonbaCounter = u32;

pub const DEALER_RON_MULTIPLIER: u64 = 6;

pub const DEALER_TSUMO_MULTIPLIER: u64 = 2;

pub const NON_DEALER_RON_MULTIPLIER: u64 = 4;

pub const NON_DEALER_TSUMO_TO_NON_DEALER_MULTIPLIER: u64 = 1;

pub const NON_DEALER_TSUMO_TO_DEALER_MULTIPLIER: u64 = 2;

/// Every payment figure stays below this bound, which keeps the honba
/// surcharge free of overflow.
pub const PAYMENT_BOUND: u64 = 0x8_0000_0000_0000;

/// Rounding up to the next multiple of one hundred.
pub open spec fn round_up_to_hundred(x: int) -> int {
    ((x + 99) / 100) * 100
}

/// The four-way payment table: what each loser owes, depending on who
/// won and how.  Honba surcharges are not part of a `Payment`; they are
/// added at the presentation boundary through [`Payment::apply_honba`].
#[derive(Debug, Clone, Copy, PartialEq, Eq, Structural)]
pub struct Payment {
    pub dealer_ron: u64,
    pub dealer_tsumo: u64,
    pub non_dealer_ron: u64,
    pub non_dealer_tsumo_to_non_dealer: u64,
    pub non_dealer_tsumo_to_dealer: u64,
}

impl Payment {
    /// All five figures stay below the payment bound.
    pub open spec fn wf(self) -> bool {
        &&& self.dealer_ron <= PAYMENT_BOUND
        &&& self.dealer_tsumo <= PAYMENT_BOUND
        &&& self.non_dealer_ron <= PAYMENT_BOUND
        &&& self.non_dealer_tsumo_to_non_dealer <= PAYMENT_BOUND
        &&& self.non_dealer_tsumo_to_dealer <= PAYMENT_BOUND
    }

    /// Assemble a payment table from its five figures.
    pub fn new(
        dealer_ron: u64,
        dealer_tsumo: u64,
        non_dealer_ron: u64,
        non_dealer_tsumo_to_non_dealer: u64,
        non_dealer_tsumo_to_dealer: u64,
    ) -> (r: Payment)
        requires
            dealer_ron <= PAYMENT_BOUND,
            dealer_tsumo <= PAYMENT_BOUND,
            non_dealer_ron <= PAYMENT_BOUND,
            non_dealer_tsumo_to_non_dealer <= PAYMENT_BOUND,
            non_dealer_tsumo_to_dealer <= PAYMENT_BOUND,
        ensures
            r == (Payment {
                dealer_ron,
                dealer_tsumo,
                non_dealer_ron,
                non_dealer_tsumo_to_non_dealer,
                non_dealer_tsumo_to_dealer,
            }),
            r.wf(),
    {
        Payment {
            dealer_ron,
            dealer_tsumo,
            non_dealer_ron,
            non_dealer_tsumo_to_non_dealer,
            non_dealer_tsumo_to_dealer,
        }
    }

    /// Expand base points into the five payment figures with the fixed
    /// multipliers, each figure rounded up to the nearest hundred.
    pub fn from_base_points(base: u64) -> (r: Payment)
        requires
            base <= 0x1_0000_0000_0000,
        ensures
            r.dealer_ron == round_up_to_hundred(6 * base),
            r.dealer_tsumo == round_up_to_hundred(2 * base),
            r.non_dealer_ron == round_up_to_hundred(4 * base),
            r.non_dealer_tsumo_to_non_dealer == round_up_to_hundred(1 * base),
            r.non_dealer_tsumo_to_dealer == round_up_to_hundred(2 * base),
            r.wf(),
    {
        let dealer_ron = round_hundred(base * DEALER_RON_MULTIPLIER);
        let dealer_tsumo = round_hundred(base * DEALER_TSUMO_MULTIPLIER);
        let non_dealer_ron = round_hundred(base * NON_DEALER_RON_MULTIPLIER);
        let non_dealer_tsumo_to_non_dealer = round_hundred(
            base * NON_DEALER_TSUMO_TO_NON_DEALER_MULTIPLIER,
        );
        let non_dealer_tsumo_to_dealer = round_hundred(base * NON_DEALER_TSUMO_TO_DEALER_MULTIPLIER);
        Payment {
            dealer_ron,
            dealer_tsumo,
            non_dealer_ron,
            non_dealer_tsumo_to_non_dealer,
            non_dealer_tsumo_to_dealer,
        }
    }

    /// Compute base points from the canonical below-limit formula
    /// `fu x 2^(2 + han)` and expand them into the payment table.
    pub fn from_han_and_fu(han: HanValue, fu: FuValue) -> (r: Payment)
        requires
            1 <= han <= 4,
        ensures
            r.dealer_ron == round_up_to_hundred(6 * formula_base_points(han as int, fu as int)),
            r.dealer_tsumo == round_up_to_hundred(2 * formula_base_points(han as int, fu as int)),
            r.non_dealer_ron == round_up_to_hundred(4 * formula_base_points(han as int, fu as int)),
            r.non_dealer_tsumo_to_non_dealer == round_up_to_hundred(
                formula_base_points(han as int, fu as int),
            ),
            r.non_dealer_tsumo_to_dealer == round_up_to_hundred(
                2 * formula_base_points(han as int, fu as int),
            ),
            r.wf(),
    {
        let mult: u64 = if han == 1 {
            8
        } else if han == 2 {
            16
        } else if han == 3 {
            32
        } else {
            64
        };
        let base = (fu as u64) * mult;
        Payment::from_base_points(base)
    }

    /// Add the honba surcharge: 300 per honba to each ron figure and
    /// 100 per honba to each per-player tsumo figure.
    pub fn apply_honba(&self, honba: HonbaCounter) -> (r: Payment)
        requires
            self.wf(),
        ensures
            r.dealer_ron == self.dealer_ron + 300 * honba,
            r.dealer_tsumo == self.dealer_tsumo + 100 * honba,
            r.non_dealer_ron == self.non_dealer_ron + 300 * honba,
            r.non_dealer_tsumo_to_non_dealer == self.non_dealer_tsumo_to_non_dealer + 100 * honba,
            r.non_dealer_tsumo_to_dealer == self.non_dealer_tsumo_to_dealer + 100 * honba,
    {
        let ron_extra = 300 * (honba as u64);
        let tsumo_extra = 100 * (honba as u64);
        Payment {
            dealer_ron: self.dealer_ron + ron_extra,
            dealer_tsumo: self.dealer_tsumo + tsumo_extra,
            non_dealer_ron: self.non_dealer_ron + ron_extra,
            non_dealer_tsumo_to_non_dealer: self.non_dealer_tsumo_to_non_dealer + tsumo_extra,
            non_dealer_tsumo_to_dealer: self.non_dealer_tsumo_to_dealer + tsumo_extra,
        }
    }

    /// What a dealer collects winning by discard.
    pub fn dealer_ron(&self) -> (r: u64)
        ensures
            r == self.dealer_ron,
    {
        self.dealer_ron
    }

    /// What each opponent pays a dealer winning by self-draw.
    pub fn dealer_tsumo(&self) -> (r: u64)
        ensures
            r == self.dealer_tsumo,
    {
        self.dealer_tsumo
    }

    /// What a non-dealer collects winning by discard.
    pub fn non_dealer_ron(&self) -> (r: u64)
        ensures
            r == self.non_dealer_ron,
    {
        self.non_dealer_ron
    }

    /// What each non-dealer pays a non-dealer winning by self-draw.
    pub fn non_dealer_tsumo_to_non_dealer(&self) -> (r: u64)
        ensures
            r == self.non_dealer_tsumo_to_non_dealer,
    {
        self.non_dealer_tsumo_to_non_dealer
    }

    /// What the dealer pays a non-dealer winning by self-draw.
    pub fn non_dealer_tsumo_to_dealer(&self) -> (r: u64)
        ensures
            r == self.non_dealer_tsumo_to_dealer,
    {
        self.non_dealer_tsumo_to_dealer
    }
}

/// The below-limit base points: `fu x 2^(2 + han)`.
pub open spec fn formula_base_points(han: int, fu: int) -> int {
    fu * (if han <= 1 {
        8int
    } else if han == 2 {
        16int
    } else if han == 3 {
        32int
    } else {
        64int
    })
}

/// Round a figure up to the nearest hundred.
fn round_hundred(x: u64) -> (r: u64)
    requires
        x <= 0x7000_0000_0000_0000,
    ensures
        r == round_up_to_hundred(x as int),
        r <= x + 99,
{
    ((x + 99) / 100) * 100
}

/// The terminal, immutable result of a scoring request: the payment
/// table, the resolved yaku and fu lists, the totals, the honba count,
/// and the openness flag.
#[derive(Debug)]
pub struct Score {
    pub payment: Payment,
    pub yaku: Vec<Yaku>,
    pub fu: Vec<Fu>,
    pub han: HanValue,
    pub fu_score: FuValue,
    pub honba: HonbaCounter,
    pub is_open: bool,
}

impl Score {
    /// Assemble a score result.
    pub fn new(
        payment: Payment,
        yaku: Vec<Yaku>,
        fu: Vec<Fu>,
        han: HanValue,
        fu_score: FuValue,
        honba: HonbaCounter,
        is_open: bool,
    ) -> (r: Score)
        ensures
            r.payment == payment,
            r.yaku@ == yaku@,
            r.fu@ == fu@,
            r.han == han,
            r.fu_score == fu_score,
            r.honba == honba,
            r.is_open == is_open,
    {
        Score { payment, yaku, fu, han, fu_score, honba, is_open }
    }

    /// The payment table, free of honba.
    pub fn payment(&self) -> (r: Payment)
        ensures
            r == self.payment,
    {
        self.payment
    }

    /// The resolved yaku, in detection order.
    pub fn yaku(&self) -> (r: &Vec<Yaku>)
        ensures
            r@ == self.yaku@,
    {
        &self.yaku
    }

    /// The contributing fu reasons, in detection order.
    pub fn fu(&self) -> (r: &Vec<Fu>)
        ensures
            r@ == self.fu@,
    {
        &self.fu
    }

    /// The total han, dora included.
    pub fn han(&self) -> (r: HanValue)
        ensures
            r == self.han,
    {
        self.han
    }

    /// The total fu.
    pub fn fu_score(&self) -> (r: FuValue)
        ensures
            r == self.fu_score,
    {
        self.fu_score
    }

    /// The repeat-round counter the request carried.
    pub fn honba(&self) -> (r: HonbaCounter)
        ensures
            r == self.honba,
    {
        self.honba
    }

    /// Whether the hand was open.
    pub fn is_open(&self) -> (r: bool)
        ensures
            r == self.is_open,
    {
        self.is_open
    }
}

} // verus!
