//! The closed enumeration of named scoring patterns and their han
//! values.

use vstd::prelude::*;

verus! {

/// Every named scoring pattern: the situational and structural yaku,
/// followed by the yakuman-class patterns.  The two thirteen-orphans
/// patterns are part of the enumeration, though a hand built from the
/// four-sets-and-a-pair or seven-pairs partitions can never exhibit
/// them.
#[derive(Debug, Clone, Copy, PartialEq, Eq, Structural)]
pub enum Yaku {
    Riichi,
    DoubleRiichi,
    Ippatsu,
    Haitei,
    RinshanKaihou,
    Chankan,
    Tanyao,
    Iipeikou,
    Ryanpeikou,
    Toitoi,
    SanshokuDoujun,
    Sanankou,
    Honitsu,
    Shousangen,
    JunchanTaiyao,
    Honroutou,
    Sankantsu,
    Ittsuu,
    Chantaiyao,
    Chiitoitsu,
    MenzenTsumo,
    Pinfu,
    SanshokuDoukou,
    Chinitsu,
    Yakuhai,
    Daisangen,
    Suuankou,
    SuuankouTankiWait,
    Chinroutou,
    Ryuuiisou,
    ChuurenPoutou,
    ChuurenPoutou9SidedWait,
    Tsuuiisou,
    Daichiishin,
    Suukantsu,
    Shousuushii,
    Daisuushii,
    KokushiMusou,
    KokushiMusou13SidedWait,
    Tenhou,
    Chiihou,
}

/// Whether the pattern is yakuman class.
pub open spec fn spec_is_yakuman(y: Yaku) -> bool {
    match y {
        Yaku::Daisangen => true,
        Yaku::Suuankou => true,
        Yaku::SuuankouTankiWait => true,
        Yaku::Chinroutou => true,
        Yaku::Ryuuiisou => true,
        Yaku::ChuurenPoutou => true,
        Yaku::ChuurenPoutou9SidedWait => true,
        Yaku::Tsuuiisou => true,
        Yaku::Daichiishin => true,
        Yaku::Suukantsu => true,
        Yaku::Shousuushii => true,
        Yaku::Daisuushii => true,
        Yaku::KokushiMusou => true,
        Yaku::KokushiMusou13SidedWait => true,
        Yaku::Tenhou => true,
        Yaku::Chiihou => true,
        _ => false,
    }
}

/// The han value of each pattern.  Several structural patterns are
/// worth one han less in an open hand; every yakuman counts as one
/// stacking unit.
pub open spec fn spec_han(y: Yaku, is_open: bool) -> nat {
    match y {
        Yaku::Riichi => 1,
        Yaku::DoubleRiichi => 2,
        Yaku::Ippatsu => 1,
        Yaku::Haitei => 1,
        Yaku::RinshanKaihou => 1,
        Yaku::Chankan => 1,
        Yaku::Tanyao => 1,
        Yaku::Iipeikou => 1,
        Yaku::Ryanpeikou => 3,
        Yaku::Toitoi => 2,
        Yaku::SanshokuDoujun => if is_open {
            1
        } else {
            2
        },
        Yaku::Sanankou => 2,
        Yaku::Honitsu => if is_open {
            2
        } else {
            3
        },
        Yaku::Shousangen => 2,
        Yaku::JunchanTaiyao => if is_open {
            2
        } else {
            3
        },
        Yaku::Honroutou => 2,
        Yaku::Sankantsu => 2,
        Yaku::Ittsuu => if is_open {
            1
        } else {
            2
        },
        Yaku::Chantaiyao => if is_open {
            1
        } else {
            2
        },
        Yaku::Chiitoitsu => 2,
        Yaku::MenzenTsumo => 1,
        Yaku::Pinfu => 1,
        Yaku::SanshokuDoukou => 2,
        Yaku::Chinitsu => if is_open {
            5
        } else {
            6
        },
        Yaku::Yakuhai => 1,
        _ => 1,
    }
}

/// No pattern is worth more than six han.
pub proof fn lemma_han_bound(y: Yaku, is_open: bool)
    ensures
        1 <= spec_han(y, is_open) <= 6,
{
}

impl Yaku {
    /// The pattern's han value, given the hand's openness.
    pub fn get_han(&self, is_open: bool) -> (r: u64)
        ensures
            r as nat == spec_han(*self, is_open),
            1 <= r <= 6,
    {
        match self {
            Yaku::Riichi => 1,
            Yaku::DoubleRiichi => 2,
            Yaku::Ippatsu => 1,
            Yaku::Haitei => 1,
            Yaku::RinshanKaihou => 1,
            Yaku::Chankan => 1,
            Yaku::Tanyao => 1,
            Yaku::Iipeikou => 1,
            Yaku::Ryanpeikou => 3,
            Yaku::Toitoi => 2,
            Yaku::SanshokuDoujun => if is_open {
                1
            } else {
                2
            },
            Yaku::Sanankou => 2,
            Yaku::Honitsu => if is_open {
                2
            } else {
                3
            },
            Yaku::Shousangen => 2,
            Yaku::JunchanTaiyao => if is_open {
                2
            } else {
                3
            },
            Yaku::Honroutou => 2,
            Yaku::Sankantsu => 2,
            Yaku::Ittsuu => if is_open {
                1
            } else {
                2
            },
            Yaku::Chantaiyao => if is_open {
                1
            } else {
                2
            },
            Yaku::Chiitoitsu => 2,
            Yaku::MenzenTsumo => 1,
            Yaku::Pinfu => 1,
            Yaku::SanshokuDoukou => 2,
            Yaku::Chinitsu => if is_open {
                5
            } else {
                6
            },
            Yaku::Yakuhai => 1,
            _ => 1,
        }
    }

    /// Whether the pattern is yakuman class.
    pub fn is_yakuman(&self) -> (r: bool)
        ensures
            r == spec_is_yakuman(*self),
    {
        match self {
            Yaku::Daisangen
            | Yaku::Suuankou
            | Yaku::SuuankouTankiWait
            | Yaku::Chinroutou
            | Yaku::Ryuuiisou
            | Yaku::ChuurenPoutou
            | Yaku::ChuurenPoutou9SidedWait
            | Yaku::Tsuuiisou
            | Yaku::Daichiishin
            | Yaku::Suukantsu
            | Yaku::Shousuushii
            | Yaku::Daisuushii
            | Yaku::KokushiMusou
            | Yaku::KokushiMusou13SidedWait
            | Yaku::Tenhou
            | Yaku::Chiihou => true,
            _ => false,
        }
    }
}

} // verus!
