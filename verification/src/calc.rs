//! The top of the engine: detect every scoring pattern of a hand,
//! resolve yakuman precedence, and turn han and fu into the payment
//! table.
//!
//! The detector follows the design of an ordered table of (condition,
//! pattern) pairs: a condition function gives the k-th condition, a tag
//! function the k-th pattern, and a prefix builder folds them into the
//! reported list, the yakuman table in a pass of its own that takes
//! precedence over the ordinary one.

use vstd::prelude::*;

use crate::error::HandErr;
use crate::fu::{
    calculate_total_fu_value, fu_reasons, lemma_fu_reasons_len, lemma_fu_reasons_no_chitoi,
    spec_total_fu_value, Fu,
};
use crate::hand::{
    any_open, kan_groups, parse_groups, spec_hand_err, spec_is_chantaiyao, spec_is_chiihou,
    spec_is_chiitoitsu, spec_is_chinitsu, spec_is_chinroutou, spec_is_chuurenpoutou,
    spec_is_chuurenpoutou9sided, spec_is_daichiishin, spec_is_daisangen, spec_is_daisuushii,
    spec_is_honitsu, spec_is_honroutou, spec_is_iipeikou, spec_is_ittsuu, spec_is_junchantaiyao,
    spec_is_menzentsumo, spec_is_pinfu, spec_is_ryanpeikou, spec_is_ryuuiisou, spec_is_sanankou,
    spec_is_sankantsu, spec_is_sanshokudoujun, spec_is_sanshokudoukou, spec_is_shousangen,
    spec_is_shousuushii, spec_is_suuankou, spec_is_suuankoutankiwait, spec_is_suukantsu,
    spec_is_tanyao, spec_is_tenhou, spec_is_toitoi, spec_is_tsuuiisou, spec_yakuhai_count,
    lemma_matching_len, lemma_yakuhai_bound, triplet_groups, Hand, HandView, MAX_GROUPS,
};
use crate::limit_hand::{spec_get_limit_hand, spec_is_limit_hand, spec_limit_base, LimitHands};
use crate::round_context::{Riichi, RoundContext};
use crate::score::{
    formula_base_points, round_up_to_hundred, FuValue, HanValue, HonbaCounter, Payment, Score,
};
use crate::tile::{spec_parse_single, GroupType, TileGroup};
use crate::yaku::{lemma_han_bound, spec_han, spec_is_yakuman, Yaku};

verus! {

broadcast use crate::fu::lemma_fu_sum_push;

/// The failures of direct payment resolution: no han, no fu, or no
/// qualifying pattern.
#[derive(Debug, Clone, Copy, PartialEq, Eq, Structural)]
pub enum CalculatorErrors {
    NoHan,
    NoFu,
    NoYaku,
}

impl CalculatorErrors {
    /// A short human-readable description of the failure.
    pub fn to_string(&self) -> (r: String)
        ensures
            *self is NoHan ==> r@ == "No han provided!"@,
            *self is NoFu ==> r@ == "No fu provided!"@,
            *self is NoYaku ==> r@ == "No Yaku!"@,
    {
        match self {
            CalculatorErrors::NoHan => "No han provided!".to_owned(),
            CalculatorErrors::NoFu => "No fu provided!".to_owned(),
            CalculatorErrors::NoYaku => "No Yaku!".to_owned(),
        }
    }
}

/// The list extended by one pattern when its condition holds.
pub open spec fn cond_push(ys: Seq<Yaku>, b: bool, y: Yaku) -> Seq<Yaku> {
    if b {
        ys.push(y)
    } else {
        ys
    }
}

/// The k-th yakuman condition.
pub open spec fn yakuman_cond(h: HandView, ctx: RoundContext, k: int) -> bool {
    if k == 0 {
        spec_is_daisangen(h.groups)
    } else if k == 1 {
        spec_is_suuankou(h, ctx.tsumo)
    } else if k == 2 {
        spec_is_suuankoutankiwait(h)
    } else if k == 3 {
        spec_is_chinroutou(h.groups)
    } else if k == 4 {
        spec_is_ryuuiisou(h.groups)
    } else if k == 5 {
        spec_is_chuurenpoutou(h)
    } else if k == 6 {
        spec_is_chuurenpoutou9sided(h)
    } else if k == 7 {
        spec_is_tsuuiisou(h.groups)
    } else if k == 8 {
        spec_is_daichiishin(h.groups)
    } else if k == 9 {
        spec_is_suukantsu(h.groups)
    } else if k == 10 {
        spec_is_shousuushii(h.groups)
    } else if k == 11 {
        spec_is_daisuushii(h.groups)
    } else if k == 12 {
        spec_is_tenhou(h, ctx.tenhou)
    } else if k == 13 {
        spec_is_chiihou(h, ctx.tenhou)
    } else {
        false
    }
}

/// The yakuman pattern the k-th condition reports.
pub open spec fn yakuman_tag(k: int) -> Yaku {
    if k == 0 {
        Yaku::Daisangen
    } else if k == 1 {
        Yaku::Suuankou
    } else if k == 2 {
        Yaku::SuuankouTankiWait
    } else if k == 3 {
        Yaku::Chinroutou
    } else if k == 4 {
        Yaku::Ryuuiisou
    } else if k == 5 {
        Yaku::ChuurenPoutou
    } else if k == 6 {
        Yaku::ChuurenPoutou9SidedWait
    } else if k == 7 {
        Yaku::Tsuuiisou
    } else if k == 8 {
        Yaku::Daichiishin
    } else if k == 9 {
        Yaku::Suukantsu
    } else if k == 10 {
        Yaku::Shousuushii
    } else if k == 11 {
        Yaku::Daisuushii
    } else if k == 12 {
        Yaku::Tenhou
    } else if k == 13 {
        Yaku::Chiihou
    } else {
        Yaku::Daisangen
    }
}

/// The first `k` entries of the yakuman pass.
pub open spec fn yakuman_prefix(h: HandView, ctx: RoundContext, k: int) -> Seq<Yaku>
    decreases k,
{
    if k <= 0 {
        Seq::empty()
    } else {
        cond_push(yakuman_prefix(h, ctx, k - 1), yakuman_cond(h, ctx, k - 1), yakuman_tag(k - 1))
    }
}

/// The yakuman conditions, evaluated in a fixed order as one
/// independent pass.
pub open spec fn spec_yakuman_list(h: HandView, ctx: RoundContext) -> Seq<Yaku> {
    yakuman_prefix(h, ctx, 14)
}

/// The riichi declaration's contribution to the yaku list.
pub open spec fn spec_riichi_seq(ctx: RoundContext) -> Seq<Yaku> {
    match ctx.riichi {
        Option::None => Seq::empty(),
        Some(Riichi::Riichi) => seq![Yaku::Riichi],
        Some(Riichi::DoubleRiichi) => seq![Yaku::DoubleRiichi],
    }
}

/// The k-th ordinary condition.
pub open spec fn ordinary_cond(h: HandView, ctx: RoundContext, k: int) -> bool {
    if k == 0 {
        ctx.ippatsu
    } else if k == 1 {
        ctx.haitei
    } else if k == 2 {
        ctx.rinshan
    } else if k == 3 {
        ctx.chankan
    } else if k == 4 {
        spec_is_tanyao(h.groups)
    } else if k == 5 {
        spec_is_iipeikou(h)
    } else if k == 6 {
        spec_is_ryanpeikou(h.groups)
    } else if k == 7 {
        spec_is_toitoi(h)
    } else if k == 8 {
        spec_is_sanshokudoujun(h.groups)
    } else if k == 9 {
        spec_is_sanankou(h, ctx.tsumo)
    } else if k == 10 {
        spec_is_honitsu(h.groups)
    } else if k == 11 {
        spec_is_shousangen(h.groups)
    } else if k == 12 {
        spec_is_junchantaiyao(h.groups)
    } else if k == 13 {
        spec_is_honroutou(h.groups)
    } else if k == 14 {
        spec_is_sankantsu(h.groups)
    } else if k == 15 {
        spec_is_ittsuu(h.groups)
    } else if k == 16 {
        spec_is_chantaiyao(h.groups)
    } else if k == 17 {
        spec_is_chiitoitsu(h.groups)
    } else if k == 18 {
        spec_is_menzentsumo(h, ctx.tsumo)
    } else if k == 19 {
        spec_is_pinfu(h)
    } else if k == 20 {
        spec_is_sanshokudoukou(h.groups)
    } else if k == 21 {
        spec_is_chinitsu(h.groups)
    } else {
        false
    }
}

/// The ordinary pattern the k-th condition reports.
pub open spec fn ordinary_tag(k: int) -> Yaku {
    if k == 0 {
        Yaku::Ippatsu
    } else if k == 1 {
        Yaku::Haitei
    } else if k == 2 {
        Yaku::RinshanKaihou
    } else if k == 3 {
        Yaku::Chankan
    } else if k == 4 {
        Yaku::Tanyao
    } else if k == 5 {
        Yaku::Iipeikou
    } else if k == 6 {
        Yaku::Ryanpeikou
    } else if k == 7 {
        Yaku::Toitoi
    } else if k == 8 {
        Yaku::SanshokuDoujun
    } else if k == 9 {
        Yaku::Sanankou
    } else if k == 10 {
        Yaku::Honitsu
    } else if k == 11 {
        Yaku::Shousangen
    } else if k == 12 {
        Yaku::JunchanTaiyao
    } else if k == 13 {
        Yaku::Honroutou
    } else if k == 14 {
        Yaku::Sankantsu
    } else if k == 15 {
        Yaku::Ittsuu
    } else if k == 16 {
        Yaku::Chantaiyao
    } else if k == 17 {
        Yaku::Chiitoitsu
    } else if k == 18 {
        Yaku::MenzenTsumo
    } else if k == 19 {
        Yaku::Pinfu
    } else if k == 20 {
        Yaku::SanshokuDoukou
    } else if k == 21 {
        Yaku::Chinitsu
    } else {
        Yaku::Ippatsu
    }
}

/// The riichi contribution and the first `k` ordinary entries.
pub open spec fn ordinary_prefix(h: HandView, ctx: RoundContext, k: int) -> Seq<Yaku>
    decreases k,
{
    if k <= 0 {
        spec_riichi_seq(ctx)
    } else {
        cond_push(ordinary_prefix(h, ctx, k - 1), ordinary_cond(h, ctx, k - 1), ordinary_tag(k - 1))
    }
}

/// The ordinary yaku, evaluated in a fixed order: the riichi state,
/// the situational flags, the structural patterns, then one entry per
/// yakuhai unit.
pub open spec fn spec_ordinary_list(h: HandView, ctx: RoundContext) -> Seq<Yaku> {
    ordinary_prefix(h, ctx, 22) + Seq::new(spec_yakuhai_count(h), |i: int| Yaku::Yakuhai)
}

/// A prefix of the yakuman pass holds at most one entry per condition.
pub proof fn lemma_yakuman_prefix_len(h: HandView, ctx: RoundContext, k: int)
    requires
        k >= 0,
    ensures
        yakuman_prefix(h, ctx, k).len() <= k,
    decreases k,
{
    if k > 0 {
        lemma_yakuman_prefix_len(h, ctx, k - 1);
    }
}

/// A prefix of the ordinary pass holds the riichi entry and at most one
/// entry per condition.
pub proof fn lemma_ordinary_prefix_len(h: HandView, ctx: RoundContext, k: int)
    requires
        k >= 0,
    ensures
        ordinary_prefix(h, ctx, k).len() <= 1 + k,
    decreases k,
{
    if k > 0 {
        lemma_ordinary_prefix_len(h, ctx, k - 1);
    }
}

/// The summed han of a yaku list, given the hand's openness.
pub open spec fn han_sum(ys: Seq<Yaku>, is_open: bool) -> nat
    decreases ys.len(),
{
    if ys.len() == 0 {
        0
    } else {
        han_sum(ys.drop_last(), is_open) + spec_han(ys.last(), is_open)
    }
}

/// The han over a one-longer prefix adds the next pattern's value.
pub proof fn lemma_han_sum_take_succ(ys: Seq<Yaku>, is_open: bool, i: int)
    requires
        0 <= i < ys.len(),
    ensures
        han_sum(ys.take(i + 1), is_open) == han_sum(ys.take(i), is_open) + spec_han(
            ys[i],
            is_open,
        ),
{
    assert(ys.take(i + 1).drop_last() =~= ys.take(i));
    assert(ys.take(i + 1).last() == ys[i]);
}

/// The reported yaku: the yakuman list alone when it is non-empty,
/// otherwise the ordinary list.
pub open spec fn spec_yaku_list(h: HandView, ctx: RoundContext) -> Seq<Yaku> {
    if spec_yakuman_list(h, ctx).len() > 0 {
        spec_yakuman_list(h, ctx)
    } else {
        spec_ordinary_list(h, ctx)
    }
}

/// The reported han: one unit per stacked yakuman, otherwise the sum
/// of the ordinary yaku's han values.
pub open spec fn spec_yaku_han_total(h: HandView, ctx: RoundContext) -> nat {
    if spec_yakuman_list(h, ctx).len() > 0 {
        spec_yakuman_list(h, ctx).len()
    } else {
        han_sum(spec_ordinary_list(h, ctx), h.open)
    }
}

/// The first half of the yakuman pass.
#[verifier::rlimit(100)]
fn detect_yakuman_front(hand: &Hand, round_context: &RoundContext) -> (r: Vec<Yaku>)
    requires
        hand@.wf(),
    ensures
        r@ == yakuman_prefix(hand@, *round_context, 7),
{
    let ghost h = hand@;
    let ghost ctx = *round_context;
    let mut yakuman: Vec<Yaku> = Vec::new();
    assert(yakuman@ == yakuman_prefix(h, ctx, 0));
    if hand.is_daisangen() {
        yakuman.push(Yaku::Daisangen);
    }
    assert(yakuman@ == yakuman_prefix(h, ctx, 1));
    if hand.is_suuankou(round_context.tsumo()) {
        yakuman.push(Yaku::Suuankou);
    }
    assert(yakuman@ == yakuman_prefix(h, ctx, 2));
    if hand.is_suuankoutankiwait() {
        yakuman.push(Yaku::SuuankouTankiWait);
    }
    assert(yakuman@ == yakuman_prefix(h, ctx, 3));
    if hand.is_chinroutou() {
        yakuman.push(Yaku::Chinroutou);
    }
    assert(yakuman@ == yakuman_prefix(h, ctx, 4));
    if hand.is_ryuuiisou() {
        yakuman.push(Yaku::Ryuuiisou);
    }
    assert(yakuman@ == yakuman_prefix(h, ctx, 5));
    if hand.is_chuurenpoutou() {
        yakuman.push(Yaku::ChuurenPoutou);
    }
    assert(yakuman@ == yakuman_prefix(h, ctx, 6));
    if hand.is_chuurenpoutou9sided() {
        yakuman.push(Yaku::ChuurenPoutou9SidedWait);
    }
    assert(yakuman@ == yakuman_prefix(h, ctx, 7));
    yakuman
}

/// The yakuman pass: every yakuman condition, in a fixed order.
#[verifier::rlimit(100)]
fn detect_yakuman(hand: &Hand, round_context: &RoundContext) -> (r: Vec<Yaku>)
    requires
        hand@.wf(),
    ensures
        r@ == spec_yakuman_list(hand@, *round_context),
        r@.len() <= 14,
{
    let ghost h = hand@;
    let ghost ctx = *round_context;
    proof {
        lemma_yakuman_prefix_len(h, ctx, 14);
    }
    let mut yakuman = detect_yakuman_front(hand, round_context);
    if hand.is_tsuuiisou() {
        yakuman.push(Yaku::Tsuuiisou);
    }
    assert(yakuman@ == yakuman_prefix(h, ctx, 8));
    if hand.is_daichiishin() {
        yakuman.push(Yaku::Daichiishin);
    }
    assert(yakuman@ == yakuman_prefix(h, ctx, 9));
    if hand.is_suukantsu() {
        yakuman.push(Yaku::Suukantsu);
    }
    assert(yakuman@ == yakuman_prefix(h, ctx, 10));
    if hand.is_shousuushii() {
        yakuman.push(Yaku::Shousuushii);
    }
    assert(yakuman@ == yakuman_prefix(h, ctx, 11));
    if hand.is_daisuushii() {
        yakuman.push(Yaku::Daisuushii);
    }
    assert(yakuman@ == yakuman_prefix(h, ctx, 12));
    if hand.is_tenhou(round_context.tenhou()) {
        yakuman.push(Yaku::Tenhou);
    }
    assert(yakuman@ == yakuman_prefix(h, ctx, 13));
    if hand.is_chiihou(round_context.tenhou()) {
        yakuman.push(Yaku::Chiihou);
    }
    assert(yakuman@ == yakuman_prefix(h, ctx, 14));
    yakuman
}

/// The ordinary pass through the first third of its conditions.
#[verifier::rlimit(100)]
fn detect_ordinary_front(hand: &Hand, round_context: &RoundContext) -> (r: Vec<Yaku>)
    requires
        hand@.wf(),
    ensures
        r@ == ordinary_prefix(hand@, *round_context, 8),
{
    let ghost h = hand@;
    let ghost ctx = *round_context;
    let mut yaku: Vec<Yaku> = Vec::new();
    match round_context.riichi() {
        Some(Riichi::Riichi) => yaku.push(Yaku::Riichi),
        Some(Riichi::DoubleRiichi) => yaku.push(Yaku::DoubleRiichi),
        None => {},
    }
    assert(yaku@ =~= ordinary_prefix(h, ctx, 0));
    if round_context.ippatsu() {
        yaku.push(Yaku::Ippatsu);
    }
    assert(yaku@ == ordinary_prefix(h, ctx, 1));
    if round_context.haitei() {
        yaku.push(Yaku::Haitei);
    }
    assert(yaku@ == ordinary_prefix(h, ctx, 2));
    if round_context.rinshan() {
        yaku.push(Yaku::RinshanKaihou);
    }
    assert(yaku@ == ordinary_prefix(h, ctx, 3));
    if round_context.chankan() {
        yaku.push(Yaku::Chankan);
    }
    assert(yaku@ == ordinary_prefix(h, ctx, 4));
    if hand.is_tanyao() {
        yaku.push(Yaku::Tanyao);
    }
    assert(yaku@ == ordinary_prefix(h, ctx, 5));
    if hand.is_iipeikou() {
        yaku.push(Yaku::Iipeikou);
    }
    assert(yaku@ == ordinary_prefix(h, ctx, 6));
    if hand.is_ryanpeikou() {
        yaku.push(Yaku::Ryanpeikou);
    }
    assert(yaku@ == ordinary_prefix(h, ctx, 7));
    if hand.is_toitoi() {
        yaku.push(Yaku::Toitoi);
    }
    assert(yaku@ == ordinary_prefix(h, ctx, 8));
    yaku
}

/// The ordinary pass through its structural middle.
#[verifier::rlimit(100)]
fn detect_ordinary_middle(hand: &Hand, round_context: &RoundContext) -> (r: Vec<Yaku>)
    requires
        hand@.wf(),
    ensures
        r@ == ordinary_prefix(hand@, *round_context, 16),
{
    let ghost h = hand@;
    let ghost ctx = *round_context;
    let mut yaku = detect_ordinary_front(hand, round_context);
    if hand.is_sanshokudoujun() {
        yaku.push(Yaku::SanshokuDoujun);
    }
    assert(yaku@ == ordinary_prefix(h, ctx, 9));
    if hand.is_sanankou(round_context.tsumo()) {
        yaku.push(Yaku::Sanankou);
    }
    assert(yaku@ == ordinary_prefix(h, ctx, 10));
    if hand.is_honitsu() {
        yaku.push(Yaku::Honitsu);
    }
    assert(yaku@ == ordinary_prefix(h, ctx, 11));
    if hand.is_shousangen() {
        yaku.push(Yaku::Shousangen);
    }
    assert(yaku@ == ordinary_prefix(h, ctx, 12));
    if hand.is_junchantaiyao() {
        yaku.push(Yaku::JunchanTaiyao);
    }
    assert(yaku@ == ordinary_prefix(h, ctx, 13));
    if hand.is_honroutou() {
        yaku.push(Yaku::Honroutou);
    }
    assert(yaku@ == ordinary_prefix(h, ctx, 14));
    if hand.is_sankantsu() {
        yaku.push(Yaku::Sankantsu);
    }
    assert(yaku@ == ordinary_prefix(h, ctx, 15));
    if hand.is_ittsuu() {
        yaku.push(Yaku::Ittsuu);
    }
    assert(yaku@ == ordinary_prefix(h, ctx, 16));
    yaku
}

/// The ordinary pass: the riichi state, the situational flags, the
/// structural patterns, then one entry per yakuhai unit.
#[verifier::rlimit(100)]
fn detect_ordinary(hand: &Hand, round_context: &RoundContext) -> (r: Vec<Yaku>)
    requires
        hand@.wf(),
    ensures
        r@ == spec_ordinary_list(hand@, *round_context),
        r@.len() <= 23 + 6 * MAX_GROUPS,
{
    let ghost h = hand@;
    let ghost ctx = *round_context;
    proof {
        lemma_ordinary_prefix_len(h, ctx, 22);
        lemma_matching_len(h.groups, |g: TileGroup| g.group_type == GroupType::Triplet);
        lemma_matching_len(h.groups, |g: TileGroup| g.group_type == GroupType::Kan);
        lemma_yakuhai_bound(triplet_groups(h.groups), h.prev, h.seat);
        lemma_yakuhai_bound(kan_groups(h.groups), h.prev, h.seat);
    }
    assert(spec_yakuhai_count(h) <= 6 * MAX_GROUPS);
    let mut yaku = detect_ordinary_middle(hand, round_context);
    if hand.is_chantaiyao() {
        yaku.push(Yaku::Chantaiyao);
    }
    assert(yaku@ == ordinary_prefix(h, ctx, 17));
    if hand.is_chiitoitsu() {
        yaku.push(Yaku::Chiitoitsu);
    }
    assert(yaku@ == ordinary_prefix(h, ctx, 18));
    if hand.is_menzentsumo(round_context.tsumo()) {
        yaku.push(Yaku::MenzenTsumo);
    }
    assert(yaku@ == ordinary_prefix(h, ctx, 19));
    if hand.is_pinfu() {
        yaku.push(Yaku::Pinfu);
    }
    assert(yaku@ == ordinary_prefix(h, ctx, 20));
    if hand.is_sanshokudoukou() {
        yaku.push(Yaku::SanshokuDoukou);
    }
    assert(yaku@ == ordinary_prefix(h, ctx, 21));
    if hand.is_chinitsu() {
        yaku.push(Yaku::Chinitsu);
    }
    assert(yaku@ == ordinary_prefix(h, ctx, 22));

    let ghost stem = ordinary_prefix(h, ctx, 22);
    let yakuhai_units = hand.is_yakuhai();
    let mut u: u16 = 0;
    while u < yakuhai_units
        invariant
            u <= yakuhai_units,
            yakuhai_units as nat == spec_yakuhai_count(h),
            yaku@ == stem + Seq::new(u as nat, |i: int| Yaku::Yakuhai),
        decreases yakuhai_units - u,
    {
        yaku.push(Yaku::Yakuhai);
        assert(yaku@ =~= stem + Seq::new((u + 1) as nat, |i: int| Yaku::Yakuhai));
        u += 1;
    }
    assert(yaku@ == spec_ordinary_list(h, ctx));
    yaku
}

/// Get the yaku score and list of yaku given a hand and some round
/// context.  The yakuman pass runs first and, when it matches, its
/// list is the whole result.
pub fn get_yaku_han(hand: &Hand, round_context: &RoundContext) -> (r: (HanValue, Vec<Yaku>))
    requires
        hand@.wf(),
    ensures
        r.1@ == spec_yaku_list(hand@, *round_context),
        r.1@.len() <= 23 + 6 * MAX_GROUPS,
        r.0 as nat == spec_yaku_han_total(hand@, *round_context),
        r.0 <= 0x10000,
{
    let ghost h = hand@;
    let ghost ctx = *round_context;

    let yakuman = detect_yakuman(hand, round_context);
    if yakuman.len() != 0 {
        let count = yakuman.len() as u64;
        return (count, yakuman);
    }

    let yaku = detect_ordinary(hand, round_context);
    let is_open_flag = hand.is_open();
    let n = yaku.len();
    let mut yaku_han: u64 = 0;
    let mut i: usize = 0;
    while i < n
        invariant
            i <= n,
            n == yaku@.len(),
            n <= 23 + 6 * MAX_GROUPS,
            is_open_flag == h.open,
            yaku@ == spec_ordinary_list(h, ctx),
            yaku_han as nat == han_sum(yaku@.take(i as int), h.open),
            yaku_han <= 6 * i,
        decreases n - i,
    {
        proof {
            lemma_han_sum_take_succ(yaku@, h.open, i as int);
        }
        let g = yaku[i].get_han(is_open_flag);
        yaku_han += g;
        i += 1;
    }
    assert(yaku@.take(n as int) =~= yaku@);

    (yaku_han, yaku)
}

/// The summed han of the yakuman entries of a list, everything else
/// ignored.
pub open spec fn yakuman_sum(ys: Seq<Yaku>) -> nat
    decreases ys.len(),
{
    if ys.len() == 0 {
        0
    } else {
        yakuman_sum(ys.drop_last()) + if spec_is_yakuman(ys.last()) {
            spec_han(ys.last(), false)
        } else {
            0
        }
    }
}

/// The yakuman sum over a one-longer prefix adds the next entry's
/// share.
pub proof fn lemma_yakuman_sum_take_succ(ys: Seq<Yaku>, i: int)
    requires
        0 <= i < ys.len(),
    ensures
        yakuman_sum(ys.take(i + 1)) == yakuman_sum(ys.take(i)) + if spec_is_yakuman(ys[i]) {
            spec_han(ys[i], false)
        } else {
            0
        },
{
    assert(ys.take(i + 1).drop_last() =~= ys.take(i));
    assert(ys.take(i + 1).last() == ys[i]);
}

/// Each entry contributes at most six.
pub proof fn lemma_yakuman_sum_bound(ys: Seq<Yaku>)
    ensures
        yakuman_sum(ys) <= 6 * ys.len(),
    decreases ys.len(),
{
    if ys.len() > 0 {
        lemma_yakuman_sum_bound(ys.drop_last());
        lemma_han_bound(ys.last(), false);
    }
}

/// A list with a yakuman entry has a positive yakuman sum.
pub proof fn lemma_yakuman_sum_pos(ys: Seq<Yaku>, i: int)
    requires
        0 <= i < ys.len(),
        spec_is_yakuman(ys[i]),
    ensures
        yakuman_sum(ys) >= 1,
    decreases ys.len(),
{
    lemma_han_bound(ys.last(), false);
    if i < ys.len() - 1 {
        lemma_yakuman_sum_pos(ys.drop_last(), i);
    }
}

/// Calculate the payment amounts from the list of yakuman yaku: 8000
/// base points per stacked yakuman unit.
pub fn calculate_yakuman(yaku: &Vec<Yaku>) -> (r: Result<Payment, CalculatorErrors>)
    requires
        yaku@.len() <= 0xFFFF_FFFF,
    ensures
        r is Err <==> yakuman_sum(yaku@) == 0,
        r is Err ==> r == Err::<Payment, CalculatorErrors>(CalculatorErrors::NoYaku),
        r is Ok ==> {
            let p = r->Ok_0;
            &&& p.dealer_ron == round_up_to_hundred(6 * 8000 * yakuman_sum(yaku@) as int)
            &&& p.dealer_tsumo == round_up_to_hundred(2 * 8000 * yakuman_sum(yaku@) as int)
            &&& p.non_dealer_ron == round_up_to_hundred(4 * 8000 * yakuman_sum(yaku@) as int)
            &&& p.non_dealer_tsumo_to_non_dealer == round_up_to_hundred(
                8000 * yakuman_sum(yaku@) as int,
            )
            &&& p.non_dealer_tsumo_to_dealer == round_up_to_hundred(
                2 * 8000 * yakuman_sum(yaku@) as int,
            )
            &&& p.wf()
        },
{
    proof {
        lemma_yakuman_sum_bound(yaku@);
    }
    let n = yaku.len();
    let mut total: u64 = 0;
    let mut i: usize = 0;
    while i < n
        invariant
            i <= n,
            n == yaku@.len(),
            n <= 0xFFFF_FFFF,
            total as nat == yakuman_sum(yaku@.take(i as int)),
            total <= 6 * i,
        decreases n - i,
    {
        proof {
            lemma_yakuman_sum_take_succ(yaku@, i as int);
        }
        if yaku[i].is_yakuman() {
            let g = yaku[i].get_han(false);
            total += g;
        }
        i += 1;
    }
    assert(yaku@.take(n as int) =~= yaku@);
    if total == 0 {
        return Err(CalculatorErrors::NoYaku);
    }

    let basepoints: u64 = 8000 * total;
    assert(basepoints == 8000 * yakuman_sum(yaku@));
    let p = Payment::from_base_points(basepoints);
    let ghost s: int = yakuman_sum(yaku@) as int;
    assert(6 * 8000 * yakuman_sum(yaku@) as int == 48000 * s);
    assert(2 * 8000 * yakuman_sum(yaku@) as int == 16000 * s);
    assert(4 * 8000 * yakuman_sum(yaku@) as int == 32000 * s);
    assert(8000 * yakuman_sum(yaku@) as int == 8000 * s);
    assert(basepoints as int == 8000 * s);
    assert(p.dealer_ron == round_up_to_hundred(6 * 8000 * yakuman_sum(yaku@) as int));
    assert(p.dealer_tsumo == round_up_to_hundred(2 * 8000 * yakuman_sum(yaku@) as int));
    assert(p.non_dealer_ron == round_up_to_hundred(4 * 8000 * yakuman_sum(yaku@) as int));
    assert(p.non_dealer_tsumo_to_non_dealer == round_up_to_hundred(
        8000 * yakuman_sum(yaku@) as int,
    ));
    assert(p.non_dealer_tsumo_to_dealer == round_up_to_hundred(
        2 * 8000 * yakuman_sum(yaku@) as int,
    ));
    Ok(p)
}

/// The base points the resolver assigns: the tier's fixed base for
/// limit hands, the exponential formula below the limit.
pub open spec fn resolve_base_points(han: int, fu: int) -> int {
    if spec_is_limit_hand(han, fu) {
        spec_limit_base(spec_get_limit_hand(han, fu).unwrap())
    } else {
        formula_base_points(han, fu)
    }
}

/// Calculate the payment amounts from the han and fu scores.  Fails
/// with `NoHan` when no han is given — before `NoFu` when both are
/// missing — and with `NoFu` when no fu is given.
pub fn calculate(han: HanValue, fu: FuValue) -> (r: Result<Payment, CalculatorErrors>)
    ensures
        r is Err <==> (han == 0 || fu == 0),
        han == 0 ==> r == Err::<Payment, CalculatorErrors>(CalculatorErrors::NoHan),
        han >= 1 && fu == 0 ==> r == Err::<Payment, CalculatorErrors>(CalculatorErrors::NoFu),
        r is Ok ==> {
            let p = r->Ok_0;
            &&& p.dealer_ron == round_up_to_hundred(6 * resolve_base_points(han as int, fu as int))
            &&& p.dealer_tsumo == round_up_to_hundred(
                2 * resolve_base_points(han as int, fu as int),
            )
            &&& p.non_dealer_ron == round_up_to_hundred(
                4 * resolve_base_points(han as int, fu as int),
            )
            &&& p.non_dealer_tsumo_to_non_dealer == round_up_to_hundred(
                resolve_base_points(han as int, fu as int),
            )
            &&& p.non_dealer_tsumo_to_dealer == round_up_to_hundred(
                2 * resolve_base_points(han as int, fu as int),
            )
            &&& p.wf()
        },
{
    if han == 0 {
        return Err(CalculatorErrors::NoHan);
    }
    if fu == 0 {
        return Err(CalculatorErrors::NoFu);
    }

    match LimitHands::get_limit_hand(han, fu) {
        Some(limithand) => Ok(limithand.get_score()),
        None => Ok(Payment::from_han_and_fu(han, fu)),
    }
}

/// Whether every entry of the list is yakuman class.
pub open spec fn all_yakuman(ys: Seq<Yaku>) -> bool {
    forall|i: int| 0 <= i < ys.len() ==> spec_is_yakuman(#[trigger] ys[i])
}

/// Whether no entry of the list is yakuman class.
pub open spec fn no_yakuman(ys: Seq<Yaku>) -> bool {
    forall|i: int| 0 <= i < ys.len() ==> !spec_is_yakuman(#[trigger] ys[i])
}

/// Every entry the yakuman pass reports is yakuman class.
proof fn lemma_yakuman_prefix_all(h: HandView, ctx: RoundContext, k: int)
    requires
        0 <= k <= 14,
    ensures
        all_yakuman(yakuman_prefix(h, ctx, k)),
    decreases k,
{
    if k > 0 {
        lemma_yakuman_prefix_all(h, ctx, k - 1);
        assert(spec_is_yakuman(yakuman_tag(k - 1)));
        let prev_list = yakuman_prefix(h, ctx, k - 1);
        let cur = yakuman_prefix(h, ctx, k);
        assert forall|i: int| 0 <= i < cur.len() implies spec_is_yakuman(#[trigger] cur[i]) by {
            if i < prev_list.len() {
                assert(cur[i] == prev_list[i]);
            }
        }
    }
}

/// No entry the ordinary pass's condition table reports is yakuman
/// class.
proof fn lemma_ordinary_prefix_none(h: HandView, ctx: RoundContext, k: int)
    requires
        0 <= k <= 22,
    ensures
        no_yakuman(ordinary_prefix(h, ctx, k)),
    decreases k,
{
    if k > 0 {
        lemma_ordinary_prefix_none(h, ctx, k - 1);
        assert(!spec_is_yakuman(ordinary_tag(k - 1)));
        let prev_list = ordinary_prefix(h, ctx, k - 1);
        let cur = ordinary_prefix(h, ctx, k);
        assert forall|i: int| 0 <= i < cur.len() implies !spec_is_yakuman(#[trigger] cur[i]) by {
            if i < prev_list.len() {
                assert(cur[i] == prev_list[i]);
            }
        }
    }
}

/// No entry of the whole ordinary list is yakuman class.
proof fn lemma_ordinary_list_none(h: HandView, ctx: RoundContext)
    ensures
        no_yakuman(spec_ordinary_list(h, ctx)),
{
    lemma_ordinary_prefix_none(h, ctx, 22);
    let stem = ordinary_prefix(h, ctx, 22);
    let full = spec_ordinary_list(h, ctx);
    assert forall|i: int| 0 <= i < full.len() implies !spec_is_yakuman(#[trigger] full[i]) by {
        if i < stem.len() {
            assert(full[i] == stem[i]);
        } else {
            assert(full[i] == Yaku::Yakuhai);
        }
    }
}

/// A hand with any satisfied yakuman condition never also reports an
/// ordinary yaku: when the yakuman pass matches anything, the reported
/// list is the yakuman list and every entry in it is yakuman class;
/// otherwise no reported entry is.
pub proof fn lemma_yakuman_excludes_ordinary(h: HandView, ctx: RoundContext)
    ensures
        spec_yakuman_list(h, ctx).len() > 0 ==> spec_yaku_list(h, ctx) == spec_yakuman_list(
            h,
            ctx,
        ) && all_yakuman(spec_yaku_list(h, ctx)),
        spec_yakuman_list(h, ctx).len() == 0 ==> no_yakuman(spec_yaku_list(h, ctx)),
{
    lemma_yakuman_prefix_all(h, ctx, 14);
    lemma_ordinary_list_none(h, ctx);
}

/// Rounding up to hundreds preserves order.
proof fn lemma_round_hundred_mono(x: int, y: int)
    requires
        x <= y,
    ensures
        round_up_to_hundred(x) <= round_up_to_hundred(y),
{
    vstd::arithmetic::div_mod::lemma_div_is_ordered(x + 99, y + 99, 100);
}

/// For all valid (han, fu) pairs below the limit thresholds, the
/// resolver's payment figures are monotonically non-decreasing in both
/// han and fu.
pub proof fn lemma_resolve_monotonic(han1: int, fu1: int, han2: int, fu2: int)
    requires
        1 <= han1 <= han2,
        1 <= fu1 <= fu2,
        !spec_is_limit_hand(han2, fu2),
    ensures
        resolve_base_points(han1, fu1) <= resolve_base_points(han2, fu2),
        round_up_to_hundred(6 * resolve_base_points(han1, fu1)) <= round_up_to_hundred(
            6 * resolve_base_points(han2, fu2),
        ),
        round_up_to_hundred(4 * resolve_base_points(han1, fu1)) <= round_up_to_hundred(
            4 * resolve_base_points(han2, fu2),
        ),
        round_up_to_hundred(2 * resolve_base_points(han1, fu1)) <= round_up_to_hundred(
            2 * resolve_base_points(han2, fu2),
        ),
        round_up_to_hundred(resolve_base_points(han1, fu1)) <= round_up_to_hundred(
            resolve_base_points(han2, fu2),
        ),
{
    assert(!spec_is_limit_hand(han1, fu1));
    let b1 = resolve_base_points(han1, fu1);
    let b2 = resolve_base_points(han2, fu2);
    assert(b1 <= b2);
    lemma_round_hundred_mono(6 * b1, 6 * b2);
    lemma_round_hundred_mono(4 * b1, 4 * b2);
    lemma_round_hundred_mono(2 * b1, 2 * b2);
    lemma_round_hundred_mono(b1, b2);
}

/// Limit-hand payments are exact fixed tables, keyed by han alone and
/// independent of fu once a tier is reached: mangan 12000/4000 and
/// 8000/2000-4000, haneman 1.5x, baiman 2x, sanbaiman 3x, kazoe
/// yakuman 4x.
pub proof fn lemma_limit_payments(han: int, fu: int)
    requires
        spec_is_limit_hand(han, fu),
    ensures
        han <= 5 ==> {
            &&& round_up_to_hundred(6 * resolve_base_points(han, fu)) == 12000
            &&& round_up_to_hundred(2 * resolve_base_points(han, fu)) == 4000
            &&& round_up_to_hundred(4 * resolve_base_points(han, fu)) == 8000
            &&& round_up_to_hundred(resolve_base_points(han, fu)) == 2000
        },
        6 <= han <= 7 ==> {
            &&& round_up_to_hundred(6 * resolve_base_points(han, fu)) == 18000
            &&& round_up_to_hundred(2 * resolve_base_points(han, fu)) == 6000
            &&& round_up_to_hundred(4 * resolve_base_points(han, fu)) == 12000
            &&& round_up_to_hundred(resolve_base_points(han, fu)) == 3000
        },
        8 <= han <= 10 ==> {
            &&& round_up_to_hundred(6 * resolve_base_points(han, fu)) == 24000
            &&& round_up_to_hundred(2 * resolve_base_points(han, fu)) == 8000
            &&& round_up_to_hundred(4 * resolve_base_points(han, fu)) == 16000
            &&& round_up_to_hundred(resolve_base_points(han, fu)) == 4000
        },
        11 <= han <= 12 ==> {
            &&& round_up_to_hundred(6 * resolve_base_points(han, fu)) == 36000
            &&& round_up_to_hundred(2 * resolve_base_points(han, fu)) == 12000
            &&& round_up_to_hundred(4 * resolve_base_points(han, fu)) == 24000
            &&& round_up_to_hundred(resolve_base_points(han, fu)) == 6000
        },
        han >= 13 ==> {
            &&& round_up_to_hundred(6 * resolve_base_points(han, fu)) == 48000
            &&& round_up_to_hundred(2 * resolve_base_points(han, fu)) == 16000
            &&& round_up_to_hundred(4 * resolve_base_points(han, fu)) == 32000
            &&& round_up_to_hundred(resolve_base_points(han, fu)) == 8000
        },
{
}

/// The hand model a successful parse yields.
pub open spec fn spec_hand_of(
    tiles: Seq<Seq<char>>,
    win: Seq<char>,
    prev: Seq<char>,
    seat: Seq<char>,
) -> HandView {
    HandView {
        groups: parse_groups(tiles)->Ok_0,
        win: spec_parse_single(win)->Ok_0,
        seat: spec_parse_single(seat)->Ok_0,
        prev: spec_parse_single(prev)->Ok_0,
        open: any_open(parse_groups(tiles)->Ok_0),
    }
}

/// Whether the list reports a yakuman.
pub open spec fn spec_has_yakuman(ys: Seq<Yaku>) -> bool {
    exists|i: int| 0 <= i < ys.len() && spec_is_yakuman(#[trigger] ys[i])
}

/// The fu list a scoring request reports: the fixed seven-pairs base
/// for chiitoitsu, the fixed base (plus closed-ron bonus on a discard
/// win) for pinfu, otherwise the full fu pass.
pub open spec fn spec_selected_fu(h: HandView, ctx: RoundContext) -> Seq<Fu> {
    let yl = spec_yaku_list(h, ctx);
    if yl.contains(Yaku::Chiitoitsu) {
        seq![Fu::BasePointsChitoi]
    } else if yl.contains(Yaku::Pinfu) {
        if ctx.tsumo {
            seq![Fu::BasePoints]
        } else {
            seq![Fu::BasePoints, Fu::ClosedRon]
        }
    } else {
        fu_reasons(h, ctx.tsumo)
    }
}

/// The failure a whole scoring request reports, if any: a parse or
/// shape error, then a replacement-tile win without a kan, then a hand
/// without a single qualifying pattern.
pub open spec fn spec_hand_score_err(
    tiles: Seq<Seq<char>>,
    win: Seq<char>,
    prev: Seq<char>,
    seat: Seq<char>,
    ctx: RoundContext,
) -> Option<HandErr> {
    match spec_hand_err(tiles, win, prev, seat) {
        Some(e) => Some(e),
        Option::None => {
            let h = spec_hand_of(tiles, win, prev, seat);
            if kan_groups(h.groups).len() == 0 && ctx.rinshan {
                Some(HandErr::RinshanKanWithoutKan)
            } else if spec_yaku_han_total(h, ctx) == 0 {
                Some(HandErr::NoYaku)
            } else {
                Option::None
            }
        },
    }
}

/// Whether the list contains the pattern.
fn contains_yaku(v: &Vec<Yaku>, y: Yaku) -> (r: bool)
    ensures
        r == v@.contains(y),
{
    let n = v.len();
    let mut i: usize = 0;
    while i < n
        invariant
            i <= n,
            n == v@.len(),
            forall|j: int| 0 <= j < i ==> v@[j] != y,
        decreases n - i,
    {
        if v[i] == y {
            assert(v@[i as int] == y);
            return true;
        }
        i += 1;
    }
    false
}

/// Whether the list reports any yakuman.
fn any_yakuman(v: &Vec<Yaku>) -> (r: bool)
    ensures
        r == spec_has_yakuman(v@),
{
    let n = v.len();
    let mut i: usize = 0;
    while i < n
        invariant
            i <= n,
            n == v@.len(),
            forall|j: int| 0 <= j < i ==> !spec_is_yakuman(#[trigger] v@[j]),
        decreases n - i,
    {
        if v[i].is_yakuman() {
            assert(spec_is_yakuman(v@[i as int]));
            return true;
        }
        i += 1;
    }
    false
}

/// Get the score breakdown of the hand: parse and validate it, check
/// the round context against it, detect the yaku, select the fu, and
/// expand han and fu — or the stacked yakuman — into the payment
/// table.  The honba counter is carried in the result untouched; it
/// never changes the payment figures.
#[verifier::rlimit(100)]
pub fn get_hand_score(
    tiles: Vec<String>,
    win: String,
    dora: u32,
    seat: String,
    prev: String,
    round_context: &RoundContext,
    honba: HonbaCounter,
) -> (r: Result<Score, HandErr>)
    ensures
        match r {
            Ok(score) => {
                let h = spec_hand_of(tiles.deep_view(), win@, prev@, seat@);
                let ctx = *round_context;
                &&& spec_hand_score_err(tiles.deep_view(), win@, prev@, seat@, ctx) is None
                &&& score.yaku@ == spec_yaku_list(h, ctx)
                &&& score.han == spec_yaku_han_total(h, ctx) + dora
                &&& score.fu@ == spec_selected_fu(h, ctx)
                &&& score.fu_score == spec_total_fu_value(spec_selected_fu(h, ctx))
                &&& score.honba == honba
                &&& score.is_open == h.open
                &&& {
                    let base: int = if spec_has_yakuman(spec_yaku_list(h, ctx)) {
                        8000 * yakuman_sum(spec_yaku_list(h, ctx)) as int
                    } else {
                        resolve_base_points(score.han as int, score.fu_score as int)
                    };
                    &&& score.payment.dealer_ron == round_up_to_hundred(6 * base)
                    &&& score.payment.dealer_tsumo == round_up_to_hundred(2 * base)
                    &&& score.payment.non_dealer_ron == round_up_to_hundred(4 * base)
                    &&& score.payment.non_dealer_tsumo_to_non_dealer == round_up_to_hundred(base)
                    &&& score.payment.non_dealer_tsumo_to_dealer == round_up_to_hundred(2 * base)
                }
            },
            Err(e) => spec_hand_score_err(tiles.deep_view(), win@, prev@, seat@, *round_context)
                == Some(e),
        },
{
    let ghost tv = tiles.deep_view();
    let ghost wv = win@;
    let ghost pv = prev@;
    let ghost sv = seat@;
    let ghost ctx = *round_context;

    let hand = match Hand::new(tiles, win, prev, seat) {
        Ok(hand) => hand,
        Err(e) => {
            return Err(e);
        },
    };
    assert(hand@ =~= spec_hand_of(tv, wv, pv, sv));
    let ghost h = hand@;

    if hand.kans().len() == 0 && round_context.rinshan() {
        return Err(HandErr::RinshanKanWithoutKan);
    }

    let yaku = get_yaku_han(&hand, round_context);
    let yaku_han_value = yaku.0;
    let yaku_list = yaku.1;
    if yaku_han_value == 0 {
        return Err(HandErr::NoYaku);
    }

    let tsumo = round_context.tsumo();
    let fu_list: Vec<Fu> = if contains_yaku(&yaku_list, Yaku::Chiitoitsu) {
        let mut v: Vec<Fu> = Vec::new();
        v.push(Fu::BasePointsChitoi);
        v
    } else if contains_yaku(&yaku_list, Yaku::Pinfu) {
        let mut v: Vec<Fu> = Vec::new();
        v.push(Fu::BasePoints);
        if !tsumo {
            v.push(Fu::ClosedRon);
        }
        v
    } else {
        let fu = hand.calculate_fu(tsumo);
        fu.1
    };
    assert(fu_list@ =~= spec_selected_fu(h, ctx));

    let han: u64 = yaku_han_value + (dora as u64);
    proof {
        lemma_fu_reasons_len(h, ctx.tsumo);
    }
    let fu_value = calculate_total_fu_value(&fu_list);
    proof {
        if !fu_list@.contains(Fu::BasePointsChitoi) {
            lemma_fu_reasons_no_chitoi(h, ctx.tsumo);
        }
    }

    let has_yakuman = any_yakuman(&yaku_list);
    let payment = if has_yakuman {
        proof {
            let i = choose|i: int|
                0 <= i < yaku_list@.len() && spec_is_yakuman(#[trigger] yaku_list@[i]);
            lemma_yakuman_sum_pos(yaku_list@, i);
        }
        match calculate_yakuman(&yaku_list) {
            Ok(p) => p,
            Err(_) => {
                proof {
                    assert(false);
                }
                return Err(HandErr::NoYaku);
            },
        }
    } else {
        assert(fu_value >= 1);
        match calculate(han, fu_value) {
            Ok(p) => p,
            Err(_) => {
                proof {
                    assert(false);
                }
                return Err(HandErr::NoHan);
            },
        }
    };

    let is_open_flag = hand.is_open();
    let score = Score::new(payment, yaku_list, fu_list, han, fu_value, honba, is_open_flag);
    assert(spec_hand_score_err(tv, wv, pv, sv, ctx) is None);
    assert(score.yaku@ == spec_yaku_list(h, ctx));
    assert(score.han == spec_yaku_han_total(h, ctx) + dora);
    assert(score.fu@ == spec_selected_fu(h, ctx));
    assert(score.fu_score == spec_total_fu_value(spec_selected_fu(h, ctx)));
    assert(score.is_open == h.open);
    let ghost base: int = if spec_has_yakuman(spec_yaku_list(h, ctx)) {
        8000 * yakuman_sum(spec_yaku_list(h, ctx)) as int
    } else {
        resolve_base_points(score.han as int, score.fu_score as int)
    };
    proof {
        let yl = spec_yaku_list(h, ctx);
        if spec_has_yakuman(yl) {
            let s: int = yakuman_sum(yl) as int;
            assert(base == 8000 * s);
            assert(6 * 8000 * yakuman_sum(yaku_list@) as int == 6 * base);
            assert(2 * 8000 * yakuman_sum(yaku_list@) as int == 2 * base);
            assert(4 * 8000 * yakuman_sum(yaku_list@) as int == 4 * base);
            assert(8000 * yakuman_sum(yaku_list@) as int == base);
        } else {
            assert(base == resolve_base_points(han as int, fu_value as int));
        }
    }
    assert(score.payment.dealer_ron == round_up_to_hundred(6 * base));
    assert(score.payment.dealer_tsumo == round_up_to_hundred(2 * base));
    assert(score.payment.non_dealer_ron == round_up_to_hundred(4 * base));
    assert(score.payment.non_dealer_tsumo_to_non_dealer == round_up_to_hundred(base));
    assert(score.payment.non_dealer_tsumo_to_dealer == round_up_to_hundred(2 * base));
    Ok(score)
}

} // verus!

