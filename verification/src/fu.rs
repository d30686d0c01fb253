//! The fu model: the named fu-contribution reasons, their fixed point
//! values, and the specification of which reasons a hand earns.

use vstd::prelude::*;

use crate::hand::HandView;
use crate::tile::{digit_of, GroupType, Suit, TileGroup};

verus! {

/// A named fu contribution: base points, win-method bonuses, per-meld
/// bonuses scaled by simple/non-simple, open/closed and triplet/kan,
/// the value-pair bonus, and the single-wait bonus.
#[derive(Debug, Clone, Copy, PartialEq, Eq, Structural)]
pub enum Fu {
    BasePoints,
    BasePointsChitoi,
    ClosedRon,
    Tsumo,
    NonSimpleClosedTriplet,
    SimpleClosedTriplet,
    NonSimpleOpenTriplet,
    SimpleOpenTriplet,
    NonSimpleClosedKan,
    SimpleClosedKan,
    NonSimpleOpenKan,
    SimpleOpenKan,
    Toitsu,
    SingleWait,
}

/// The fixed point value of each fu reason.
pub open spec fn fu_points(f: Fu) -> nat {
    match f {
        Fu::BasePoints => 20,
        Fu::BasePointsChitoi => 25,
        Fu::ClosedRon => 10,
        Fu::Tsumo => 2,
        Fu::NonSimpleClosedTriplet => 8,
        Fu::SimpleClosedTriplet => 4,
        Fu::NonSimpleOpenTriplet => 4,
        Fu::SimpleOpenTriplet => 2,
        Fu::NonSimpleClosedKan => 32,
        Fu::SimpleClosedKan => 16,
        Fu::NonSimpleOpenKan => 16,
        Fu::SimpleOpenKan => 8,
        Fu::Toitsu => 2,
        Fu::SingleWait => 2,
    }
}

/// The sum of the point values of a list of fu reasons.
pub open spec fn fu_sum(fs: Seq<Fu>) -> int
    decreases fs.len(),
{
    if fs.len() == 0 {
        0
    } else {
        fu_sum(fs.drop_last()) + fu_points(fs.last())
    }
}

/// Rounding up to the next multiple of ten.
pub open spec fn round_up_to_ten(x: int) -> int {
    ((x + 9) / 10) * 10
}

/// Appending one reason adds exactly its point value.
pub broadcast proof fn lemma_fu_sum_push(fs: Seq<Fu>, f: Fu)
    ensures
        #![trigger fs.push(f)]
        fu_sum(fs.push(f)) == fu_sum(fs) + fu_points(f),
{
    assert(fs.push(f).drop_last() =~= fs);
    assert(fs.push(f).last() == f);
}

/// The sum over a one-longer prefix adds the point value of the next
/// element.
pub proof fn lemma_fu_sum_take_succ(fs: Seq<Fu>, i: int)
    requires
        0 <= i < fs.len(),
    ensures
        fu_sum(fs.take(i + 1)) == fu_sum(fs.take(i)) + fu_points(fs[i]),
{
    assert(fs.take(i + 1).drop_last() =~= fs.take(i));
    assert(fs.take(i + 1).last() == fs[i]);
}

/// The triplet reasons over a one-longer prefix add the next group's
/// contribution.
pub proof fn lemma_triplet_fu_take_succ(gs: Seq<TileGroup>, win_idx: int, tsumo: bool, i: int)
    requires
        0 <= i < gs.len(),
    ensures
        triplet_fu(gs.take(i + 1), win_idx, tsumo) == triplet_fu(gs.take(i), win_idx, tsumo)
            + triplet_fu_contrib(gs[i], i == win_idx, tsumo),
{
    assert(gs.take(i + 1).drop_last() =~= gs.take(i));
    assert(gs.take(i + 1).last() == gs[i]);
}

/// The kan reasons over a one-longer prefix add the next group's
/// contribution.
pub proof fn lemma_kan_fu_take_succ(gs: Seq<TileGroup>, i: int)
    requires
        0 <= i < gs.len(),
    ensures
        kan_fu(gs.take(i + 1)) == kan_fu(gs.take(i)) + kan_fu_contrib(gs[i]),
{
    assert(gs.take(i + 1).drop_last() =~= gs.take(i));
    assert(gs.take(i + 1).last() == gs[i]);
}

/// The pair reasons over a one-longer prefix add the next group's
/// contribution.
pub proof fn lemma_pair_fu_take_succ(gs: Seq<TileGroup>, prev: TileGroup, seat: TileGroup, i: int)
    requires
        0 <= i < gs.len(),
    ensures
        pair_fu(gs.take(i + 1), prev, seat) == pair_fu(gs.take(i), prev, seat) + pair_fu_contrib(
            gs[i],
            prev,
            seat,
        ),
{
    assert(gs.take(i + 1).drop_last() =~= gs.take(i));
    assert(gs.take(i + 1).last() == gs[i]);
}

/// A triplet or kan scores as non-simple when it is an honor group or
/// touches a terminal.
pub open spec fn nonsimple(g: TileGroup) -> bool {
    g.suit == Suit::Wind || g.suit == Suit::Dragon || g.isterminal
}

/// The fu reason a triplet earns.  The winning triplet scores as closed
/// on a self-draw and as open otherwise, whatever its true concealment;
/// any other triplet scores by its own openness.
pub open spec fn triplet_fu_contrib(g: TileGroup, is_win: bool, tsumo: bool) -> Seq<Fu> {
    if g.group_type != GroupType::Triplet {
        Seq::empty()
    } else {
        let closed = if is_win {
            tsumo
        } else {
            !g.isopen
        };
        if closed {
            if nonsimple(g) {
                seq![Fu::NonSimpleClosedTriplet]
            } else {
                seq![Fu::SimpleClosedTriplet]
            }
        } else {
            if nonsimple(g) {
                seq![Fu::NonSimpleOpenTriplet]
            } else {
                seq![Fu::SimpleOpenTriplet]
            }
        }
    }
}

/// The fu reasons of all triplets, in hand order.  `win_idx` is the
/// position of the group completed by the winning tile.
pub open spec fn triplet_fu(gs: Seq<TileGroup>, win_idx: int, tsumo: bool) -> Seq<Fu>
    decreases gs.len(),
{
    if gs.len() == 0 {
        Seq::empty()
    } else {
        triplet_fu(gs.drop_last(), win_idx, tsumo) + triplet_fu_contrib(
            gs.last(),
            gs.len() - 1 == win_idx,
            tsumo,
        )
    }
}

/// The fu reason a kan earns, by its simpleness and openness.
pub open spec fn kan_fu_contrib(g: TileGroup) -> Seq<Fu> {
    if g.group_type != GroupType::Kan {
        Seq::empty()
    } else if nonsimple(g) {
        if !g.isopen {
            seq![Fu::NonSimpleClosedKan]
        } else {
            seq![Fu::NonSimpleOpenKan]
        }
    } else {
        if !g.isopen {
            seq![Fu::SimpleClosedKan]
        } else {
            seq![Fu::SimpleOpenKan]
        }
    }
}

/// The fu reasons of all kans, in hand order.
pub open spec fn kan_fu(gs: Seq<TileGroup>) -> Seq<Fu>
    decreases gs.len(),
{
    if gs.len() == 0 {
        Seq::empty()
    } else {
        kan_fu(gs.drop_last()) + kan_fu_contrib(gs.last())
    }
}

/// Whether a pair scores: it matches the prevalent wind, the seat wind,
/// or is a dragon pair.
pub open spec fn scoring_pair(g: TileGroup, prev: TileGroup, seat: TileGroup) -> bool {
    g.value == prev.value || g.value == seat.value || g.suit == Suit::Dragon
}

/// The fu reason a pair earns.
pub open spec fn pair_fu_contrib(g: TileGroup, prev: TileGroup, seat: TileGroup) -> Seq<Fu> {
    if g.group_type == GroupType::Pair && scoring_pair(g, prev, seat) {
        seq![Fu::Toitsu]
    } else {
        Seq::empty()
    }
}

/// The fu reasons of all pairs, in hand order.
pub open spec fn pair_fu(gs: Seq<TileGroup>, prev: TileGroup, seat: TileGroup) -> Seq<Fu>
    decreases gs.len(),
{
    if gs.len() == 0 {
        Seq::empty()
    } else {
        pair_fu(gs.drop_last(), prev, seat) + pair_fu_contrib(gs.last(), prev, seat)
    }
}

/// A single wait earns fu: winning on the pair itself, on the middle
/// tile of a closed-interval sequence wait, or on the inner end of a
/// terminal-touching sequence.
pub open spec fn single_wait(h: HandView) -> bool {
    h.groups.len() > 0 && {
        let last = h.groups.last();
        ||| last.group_type is Pair
        ||| (last.group_type is Sequence && {
            ||| digit_of(h.win.value) == digit_of(last.value) + 1
            ||| (!(h.win.value == '1' || h.win.value == '9') && last.isterminal)
        })
    }
}

/// The wait-shape fu reason, if any.
pub open spec fn wait_fu(h: HandView) -> Seq<Fu> {
    if single_wait(h) {
        seq![Fu::SingleWait]
    } else {
        Seq::empty()
    }
}

/// Every fu reason a hand earns, in order: base points, the self-draw
/// bonus, the closed-ron bonus (concealed hands not won by self-draw),
/// the per-triplet and per-kan bonuses, the value-pair bonus, and the
/// single-wait bonus.
#[verifier::opaque]
pub open spec fn fu_reasons(h: HandView, tsumo: bool) -> Seq<Fu> {
    seq![Fu::BasePoints] + (if tsumo {
        seq![Fu::Tsumo]
    } else {
        Seq::empty()
    }) + (if !h.open && !tsumo {
        seq![Fu::ClosedRon]
    } else {
        Seq::empty()
    }) + triplet_fu(h.groups, h.groups.len() - 1, tsumo) + kan_fu(h.groups) + pair_fu(
        h.groups,
        h.prev,
        h.seat,
    ) + wait_fu(h)
}

/// Each triplet contributes exactly one reason, drawn from the four
/// triplet reasons.
pub proof fn lemma_triplet_fu_elems(gs: Seq<TileGroup>, win_idx: int, tsumo: bool)
    ensures
        triplet_fu(gs, win_idx, tsumo).len() == crate::hand::triplet_groups(gs).len(),
        forall|i: int|
            0 <= i < triplet_fu(gs, win_idx, tsumo).len() ==> {
                let f = #[trigger] triplet_fu(gs, win_idx, tsumo)[i];
                ||| f == Fu::NonSimpleClosedTriplet
                ||| f == Fu::SimpleClosedTriplet
                ||| f == Fu::NonSimpleOpenTriplet
                ||| f == Fu::SimpleOpenTriplet
            },
    decreases gs.len(),
{
    reveal(crate::hand::matching);
    if gs.len() > 0 {
        lemma_triplet_fu_elems(gs.drop_last(), win_idx, tsumo);
    }
}

/// Each kan contributes exactly one reason, drawn from the four kan
/// reasons.
pub proof fn lemma_kan_fu_elems(gs: Seq<TileGroup>)
    ensures
        kan_fu(gs).len() == crate::hand::kan_groups(gs).len(),
        forall|i: int|
            0 <= i < kan_fu(gs).len() ==> {
                let f = #[trigger] kan_fu(gs)[i];
                ||| f == Fu::NonSimpleClosedKan
                ||| f == Fu::SimpleClosedKan
                ||| f == Fu::NonSimpleOpenKan
                ||| f == Fu::SimpleOpenKan
            },
    decreases gs.len(),
{
    reveal(crate::hand::matching);
    if gs.len() > 0 {
        lemma_kan_fu_elems(gs.drop_last());
    }
}

/// Pairs contribute only the pair bonus, exactly when a scoring pair
/// is present.
pub proof fn lemma_pair_fu_elems(gs: Seq<TileGroup>, prev: TileGroup, seat: TileGroup)
    ensures
        pair_fu(gs, prev, seat).len() <= gs.len(),
        forall|i: int|
            0 <= i < pair_fu(gs, prev, seat).len() ==> (#[trigger] pair_fu(gs, prev, seat)[i])
                == Fu::Toitsu,
        (pair_fu(gs, prev, seat).len() == 0) <==> (forall|i: int|
            0 <= i < gs.len() ==> !((#[trigger] gs[i]).group_type is Pair && scoring_pair(
                gs[i],
                prev,
                seat,
            ))),
    decreases gs.len(),
{
    if gs.len() > 0 {
        lemma_pair_fu_elems(gs.drop_last(), prev, seat);
        if pair_fu(gs, prev, seat).len() == 0 {
            assert forall|i: int|
                0 <= i < gs.len() implies !((#[trigger] gs[i]).group_type is Pair && scoring_pair(
                gs[i],
                prev,
                seat,
            )) by {
                if i < gs.len() - 1 {
                    assert(gs.drop_last()[i] == gs[i]);
                }
            }
        }
        if (forall|i: int|
            0 <= i < gs.len() ==> !((#[trigger] gs[i]).group_type is Pair && scoring_pair(
                gs[i],
                prev,
                seat,
            ))) {
            assert forall|i: int|
                0 <= i < gs.drop_last().len() implies !((#[trigger] gs.drop_last()[i]).group_type
                is Pair && scoring_pair(gs.drop_last()[i], prev, seat)) by {
                assert(gs.drop_last()[i] == gs[i]);
            }
        }
    }
}

/// The reason list of a hand is short: a few fixed entries plus at
/// most one per meld.
pub proof fn lemma_fu_reasons_len(h: HandView, tsumo: bool)
    ensures
        fu_reasons(h, tsumo).len() <= 4 + 3 * h.groups.len(),
{
    reveal(fu_reasons);
    lemma_triplet_fu_elems(h.groups, h.groups.len() - 1, tsumo);
    lemma_kan_fu_elems(h.groups);
    lemma_pair_fu_elems(h.groups, h.prev, h.seat);
    crate::hand::lemma_matching_len(
        h.groups,
        |g: TileGroup| g.group_type == GroupType::Triplet,
    );
    crate::hand::lemma_matching_len(h.groups, |g: TileGroup| g.group_type == GroupType::Kan);
}

/// The general fu pass never reports the seven-pairs base.
pub proof fn lemma_fu_reasons_no_chitoi(h: HandView, tsumo: bool)
    ensures
        !fu_reasons(h, tsumo).contains(Fu::BasePointsChitoi),
{
    reveal(fu_reasons);
    lemma_triplet_fu_elems(h.groups, h.groups.len() - 1, tsumo);
    lemma_kan_fu_elems(h.groups);
    lemma_pair_fu_elems(h.groups, h.prev, h.seat);
    let r = fu_reasons(h, tsumo);
    assert forall|i: int| 0 <= i < r.len() implies r[i] != Fu::BasePointsChitoi by {
    }
}

/// The fu total of a list of reasons: 25 for the fixed seven-pairs
/// base, otherwise the sum rounded up to the next multiple of ten.
pub open spec fn spec_total_fu_value(fs: Seq<Fu>) -> int {
    if fs.contains(Fu::BasePointsChitoi) {
        25
    } else {
        round_up_to_ten(fu_sum(fs))
    }
}

impl Fu {
    /// The reason's display form, with its point value.
    pub fn to_string(&self) -> (r: String)
        ensures
            r@ == spec_fu_string(*self),
    {
        match self {
            Fu::BasePoints => "BasePoints: 20".to_owned(),
            Fu::BasePointsChitoi => "BasePoints: 25".to_owned(),
            Fu::ClosedRon => "ClosedRon: 10".to_owned(),
            Fu::Tsumo => "Tsumo: 2".to_owned(),
            Fu::NonSimpleClosedTriplet => "NonSimpleClosedTriplet: 8".to_owned(),
            Fu::SimpleClosedTriplet => "ClosedTriplet: 4".to_owned(),
            Fu::NonSimpleOpenTriplet => "NonSimpleOpenTriplet: 4".to_owned(),
            Fu::SimpleOpenTriplet => "OpenTriplet: 2".to_owned(),
            Fu::NonSimpleClosedKan => "NonSimpleClosedKan: 32".to_owned(),
            Fu::SimpleClosedKan => "ClosedKan: 16".to_owned(),
            Fu::NonSimpleOpenKan => "NonSimpleOpenKan: 16".to_owned(),
            Fu::SimpleOpenKan => "OpenKan: 8".to_owned(),
            Fu::Toitsu => "Toitsu: 2".to_owned(),
            Fu::SingleWait => "SingleWait: 2".to_owned(),
        }
    }
}

/// The display form of each fu reason.
pub open spec fn spec_fu_string(f: Fu) -> Seq<char> {
    match f {
        Fu::BasePoints => "BasePoints: 20"@,
        Fu::BasePointsChitoi => "BasePoints: 25"@,
        Fu::ClosedRon => "ClosedRon: 10"@,
        Fu::Tsumo => "Tsumo: 2"@,
        Fu::NonSimpleClosedTriplet => "NonSimpleClosedTriplet: 8"@,
        Fu::SimpleClosedTriplet => "ClosedTriplet: 4"@,
        Fu::NonSimpleOpenTriplet => "NonSimpleOpenTriplet: 4"@,
        Fu::SimpleOpenTriplet => "OpenTriplet: 2"@,
        Fu::NonSimpleClosedKan => "NonSimpleClosedKan: 32"@,
        Fu::SimpleClosedKan => "ClosedKan: 16"@,
        Fu::NonSimpleOpenKan => "NonSimpleOpenKan: 16"@,
        Fu::SimpleOpenKan => "OpenKan: 8"@,
        Fu::Toitsu => "Toitsu: 2"@,
        Fu::SingleWait => "SingleWait: 2"@,
    }
}

/// Sum a list of fu reasons into the final fu total: the fixed 25 for
/// the seven-pairs base reason, otherwise the rounded-up sum.  The total
/// is a multiple of ten in every case but seven pairs.
pub fn calculate_total_fu_value(fu: &Vec<Fu>) -> (r: u32)
    requires
        fu@.len() <= 0x10000,
    ensures
        r == spec_total_fu_value(fu@),
        fu@.contains(Fu::BasePointsChitoi) ==> r == 25,
        !fu@.contains(Fu::BasePointsChitoi) ==> r % 10 == 0,
{
    let n = fu.len();
    let mut i: usize = 0;
    while i < n
        invariant
            i <= n,
            n == fu@.len(),
            forall|j: int| 0 <= j < i ==> fu@[j] != Fu::BasePointsChitoi,
        decreases n - i,
    {
        if matches!(fu[i], Fu::BasePointsChitoi) {
            assert(fu@[i as int] == Fu::BasePointsChitoi);
            return 25;
        }
        i += 1;
    }
    assert(!fu@.contains(Fu::BasePointsChitoi));

    let mut total: u32 = 0;
    let mut k: usize = 0;
    while k < n
        invariant
            k <= n,
            n == fu@.len(),
            n <= 0x10000,
            total == fu_sum(fu@.take(k as int)),
            total <= 32 * k,
        decreases n - k,
    {
        proof {
            lemma_fu_sum_take_succ(fu@, k as int);
        }
        let p: u32 = fu_value_of(fu[k]);
        total += p;
        k += 1;
    }
    assert(fu@.take(n as int) =~= fu@);
    let rounded = ((total + 9) / 10) * 10;
    assert(rounded % 10 == 0) by (nonlinear_arith)
        requires
            rounded == ((total + 9) / 10) * 10,
    {
    }
    rounded
}

/// Exec mirror of [`fu_points`].
fn fu_value_of(f: Fu) -> (r: u32)
    ensures
        r as nat == fu_points(f),
        r <= 32,
{
    match f {
        Fu::BasePoints => 20,
        Fu::BasePointsChitoi => 25,
        Fu::ClosedRon => 10,
        Fu::Tsumo => 2,
        Fu::NonSimpleClosedTriplet => 8,
        Fu::SimpleClosedTriplet => 4,
        Fu::NonSimpleOpenTriplet => 4,
        Fu::SimpleOpenTriplet => 2,
        Fu::NonSimpleClosedKan => 32,
        Fu::SimpleClosedKan => 16,
        Fu::NonSimpleOpenKan => 16,
        Fu::SimpleOpenKan => 8,
        Fu::Toitsu => 2,
        Fu::SingleWait => 2,
    }
}

} // verus!
