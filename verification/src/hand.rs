//! The hand model: the committed meld partition plus the three single
//! reference tiles, validated at construction, with the pure structural
//! queries that the fu calculator and the yaku detector build on.

use vstd::prelude::*;

use crate::error::HandErr;
use crate::fu::{
    fu_reasons, fu_sum, kan_fu, lemma_fu_sum_push, lemma_kan_fu_elems, lemma_kan_fu_take_succ,
    lemma_pair_fu_elems, lemma_pair_fu_take_succ, lemma_triplet_fu_elems,
    lemma_triplet_fu_take_succ, pair_fu, round_up_to_ten, scoring_pair, single_wait, triplet_fu,
    wait_fu, Fu,
};
use crate::tile::{
    digit_of, spec_parse_group, spec_parse_single, GroupType, Suit, TileGroup,
};

verus! {

broadcast use lemma_fu_sum_push;

/// The most groups a hand partition may hold.  A real hand has at most
/// seven groups; the cap also keeps every count and fu sum far away from
/// its integer type's limit.
pub const MAX_GROUPS: usize = 64;

/// The mathematical content of a [`Hand`]: its group partition, the
/// three reference tiles, and its openness.
#[verifier::ext_equal]
pub struct HandView {
    pub groups: Seq<TileGroup>,
    pub win: TileGroup,
    pub seat: TileGroup,
    pub prev: TileGroup,
    pub open: bool,
}

/// A complete hand: the meld partition (the last group contains the
/// winning tile), the winning tile, the seat wind, the prevalent wind,
/// and whether any group was openly called.  Immutable once built.
#[derive(Debug)]
pub struct Hand {
    groups: Vec<TileGroup>,
    win_tile: TileGroup,
    seat_tile: TileGroup,
    prev_tile: TileGroup,
    isopen: bool,
}

impl View for Hand {
    type V = HandView;

    closed spec fn view(&self) -> HandView {
        HandView {
            groups: self.groups@,
            win: self.win_tile,
            seat: self.seat_tile,
            prev: self.prev_tile,
            open: self.isopen,
        }
    }
}

/// The subsequence of groups satisfying a predicate, in hand order.
#[verifier::opaque]
pub open spec fn matching(gs: Seq<TileGroup>, p: spec_fn(TileGroup) -> bool) -> Seq<TileGroup>
    decreases gs.len(),
{
    if gs.len() == 0 {
        Seq::empty()
    } else if p(gs.last()) {
        matching(gs.drop_last(), p).push(gs.last())
    } else {
        matching(gs.drop_last(), p)
    }
}

/// The sequence groups of a partition, in hand order.
pub open spec fn seq_groups(gs: Seq<TileGroup>) -> Seq<TileGroup> {
    matching(gs, |g: TileGroup| g.group_type == GroupType::Sequence)
}

/// The triplet groups of a partition, in hand order.
pub open spec fn triplet_groups(gs: Seq<TileGroup>) -> Seq<TileGroup> {
    matching(gs, |g: TileGroup| g.group_type == GroupType::Triplet)
}

/// The kan groups of a partition, in hand order.
pub open spec fn kan_groups(gs: Seq<TileGroup>) -> Seq<TileGroup> {
    matching(gs, |g: TileGroup| g.group_type == GroupType::Kan)
}

/// The pair groups of a partition, in hand order.
pub open spec fn pair_groups(gs: Seq<TileGroup>) -> Seq<TileGroup> {
    matching(gs, |g: TileGroup| g.group_type == GroupType::Pair)
}

/// Whether any group of the partition was openly called.
pub open spec fn any_open(gs: Seq<TileGroup>) -> bool {
    exists|i: int| 0 <= i < gs.len() && gs[i].isopen
}

/// The shape invariant: four sets (triplets, sequences, kans) and one
/// pair, or seven pairs, within the group cap.
pub open spec fn valid_shape(gs: Seq<TileGroup>) -> bool {
    &&& gs.len() <= MAX_GROUPS
    &&& {
        ||| (triplet_groups(gs).len() + seq_groups(gs).len() + kan_groups(gs).len() == 4
            && pair_groups(gs).len() == 1)
        ||| pair_groups(gs).len() == 7
    }
}

/// What parsing guarantees of every group in a hand: it is a real meld
/// or pair (never a lone reference tile), and a sequence starts on a
/// digit from 1 to 7.
pub open spec fn wf_group(g: TileGroup) -> bool {
    &&& g.group_type != GroupType::Single
    &&& g.group_type is Sequence ==> 1 <= digit_of(g.value) <= 7
}

impl HandView {
    /// Well-formedness: the shape invariant holds, every group is a
    /// parsed meld or pair, and the openness flag agrees with the
    /// groups.
    pub open spec fn wf(self) -> bool {
        &&& valid_shape(self.groups)
        &&& forall|i: int| 0 <= i < self.groups.len() ==> wf_group(#[trigger] self.groups[i])
        &&& self.open == any_open(self.groups)
    }
}

/// What parsing a whole list of group notation strings yields: the
/// groups in order, or the first parse failure.
pub open spec fn parse_groups(ts: Seq<Seq<char>>) -> Result<Seq<TileGroup>, HandErr>
    decreases ts.len(),
{
    if ts.len() == 0 {
        Ok(Seq::empty())
    } else {
        match parse_groups(ts.drop_last()) {
            Err(e) => Err(e),
            Ok(gs) => match spec_parse_group(ts.last()) {
                Err(e) => Err(e),
                Ok(g) => Ok(gs.push(g)),
            },
        }
    }
}

/// The failure [`Hand::new`] reports, if any: the first group parse
/// error, else a shape violation, else the first reference-tile error,
/// checking the winning tile, then the seat wind, then the prevalent
/// wind.
pub open spec fn spec_hand_err(
    tiles: Seq<Seq<char>>,
    win: Seq<char>,
    prev: Seq<char>,
    seat: Seq<char>,
) -> Option<HandErr> {
    match parse_groups(tiles) {
        Err(e) => Some(e),
        Ok(gs) => if !valid_shape(gs) {
            Some(HandErr::InvalidShape)
        } else {
            match spec_parse_single(win) {
                Err(e) => Some(e),
                Ok(_) => match spec_parse_single(seat) {
                    Err(e) => Some(e),
                    Ok(_) => match spec_parse_single(prev) {
                        Err(e) => Some(e),
                        Ok(_) => Option::None,
                    },
                },
            }
        },
    }
}

/// Extending the groups by one element extends the matching
/// subsequence exactly when the new group matches.
pub proof fn lemma_matching_take_succ(
    gs: Seq<TileGroup>,
    p: spec_fn(TileGroup) -> bool,
    i: int,
)
    requires
        0 <= i < gs.len(),
    ensures
        matching(gs.take(i + 1), p) == if p(gs[i]) {
            matching(gs.take(i), p).push(gs[i])
        } else {
            matching(gs.take(i), p)
        },
{
    reveal(matching);
    assert(gs.take(i + 1).drop_last() =~= gs.take(i));
    assert(gs.take(i + 1).last() == gs[i]);
}

/// A filtered subsequence is never longer than the partition.
pub proof fn lemma_matching_len(gs: Seq<TileGroup>, p: spec_fn(TileGroup) -> bool)
    ensures
        matching(gs, p).len() <= gs.len(),
    decreases gs.len(),
{
    reveal(matching);
    if gs.len() > 0 {
        lemma_matching_len(gs.drop_last(), p);
    }
}

/// A well-formed hand has at least one group: either shape holds a
/// pair, and a filtered subsequence needs somewhere to come from.
pub proof fn lemma_wf_nonempty(h: HandView)
    requires
        h.wf(),
    ensures
        h.groups.len() >= 1,
{
    lemma_matching_len(h.groups, |g: TileGroup| g.group_type == GroupType::Pair);
}

/// The sequence with each run of consecutive equal elements collapsed
/// to its first element, as `Vec::dedup` leaves it.
#[verifier::opaque]
pub open spec fn dedup_consecutive<T>(s: Seq<T>) -> Seq<T>
    decreases s.len(),
{
    if s.len() == 0 {
        Seq::empty()
    } else {
        let rest = dedup_consecutive(s.drop_last());
        if s.len() >= 2 && s[s.len() - 2] == s.last() {
            rest
        } else {
            rest.push(s.last())
        }
    }
}

/// Collapsing a one-longer prefix keeps the next element exactly when
/// it differs from its predecessor.
pub proof fn lemma_dedup_take_succ<T>(s: Seq<T>, i: int)
    requires
        0 <= i < s.len(),
    ensures
        dedup_consecutive(s.take(i + 1)) == if i >= 1 && s[i - 1] == s[i] {
            dedup_consecutive(s.take(i))
        } else {
            dedup_consecutive(s.take(i)).push(s[i])
        },
{
    reveal(dedup_consecutive);
    assert(s.take(i + 1).drop_last() =~= s.take(i));
    assert(s.take(i + 1).last() == s[i]);
}

/// A parse failure in a prefix of the group strings decides the result
/// for the whole list.
pub proof fn lemma_parse_groups_prefix_err(ts: Seq<Seq<char>>, i: int)
    requires
        0 <= i <= ts.len(),
        parse_groups(ts.take(i)) is Err,
    ensures
        parse_groups(ts) == parse_groups(ts.take(i)),
    decreases ts.len() - i,
{
    if i < ts.len() {
        assert(ts.take(i + 1).drop_last() =~= ts.take(i));
        assert(parse_groups(ts.take(i + 1)) == parse_groups(ts.take(i)));
        lemma_parse_groups_prefix_err(ts, i + 1);
    } else {
        assert(ts.take(i) =~= ts);
    }
}

/// A group that parses successfully is well formed.
pub proof fn lemma_parse_group_wf(s: Seq<char>)
    requires
        spec_parse_group(s) is Ok,
    ensures
        wf_group(spec_parse_group(s)->Ok_0),
{
}

/// Appending a group to the partition keeps or establishes openness
/// exactly when the new group is open.
proof fn lemma_any_open_push(gs: Seq<TileGroup>, g: TileGroup)
    ensures
        any_open(gs.push(g)) == (any_open(gs) || g.isopen),
{
    let ps = gs.push(g);
    if g.isopen {
        assert(ps[gs.len() as int].isopen);
    } else if any_open(gs) {
        let i = choose|i: int| 0 <= i < gs.len() && gs[i].isopen;
        assert(ps[i].isopen);
    } else if any_open(ps) {
        let i = choose|i: int| 0 <= i < ps.len() && ps[i].isopen;
        assert(i < gs.len() ==> gs[i].isopen);
    }
}

/// An honor group: winds or dragons.
pub open spec fn honor(g: TileGroup) -> bool {
    g.suit == Suit::Wind || g.suit == Suit::Dragon
}

/// All simples: no terminal-touching group and no honors.
#[verifier::opaque]
pub open spec fn spec_is_tanyao(gs: Seq<TileGroup>) -> bool {
    forall|i: int| 0 <= i < gs.len() ==> !(#[trigger] gs[i]).isterminal && !honor(gs[i])
}

/// Two pairs of identical sequences: four sequences collapsing to two
/// distinct consecutive runs.
#[verifier::opaque]
pub open spec fn spec_is_ryanpeikou(gs: Seq<TileGroup>) -> bool {
    seq_groups(gs).len() == 4 && dedup_consecutive(seq_groups(gs)).len() == 2
}

/// One pair of identical sequences, concealed hands only, and not
/// already two pairs.
#[verifier::opaque]
pub open spec fn spec_is_iipeikou(h: HandView) -> bool {
    !(dedup_consecutive(seq_groups(h.groups)).len() == seq_groups(h.groups).len() || h.open
        || spec_is_ryanpeikou(h.groups))
}

/// All triplets: four triplet or kan sets, in an open hand.
#[verifier::opaque]
pub open spec fn spec_is_toitoi(h: HandView) -> bool {
    triplet_groups(h.groups).len() + kan_groups(h.groups).len() == 4 && h.open
}

/// Three kans.
#[verifier::opaque]
pub open spec fn spec_is_sankantsu(gs: Seq<TileGroup>) -> bool {
    kan_groups(gs).len() == 3
}

/// Seven pairs.
#[verifier::opaque]
pub open spec fn spec_is_chiitoitsu(gs: Seq<TileGroup>) -> bool {
    pair_groups(gs).len() == 7
}

/// A concealed self-draw win.
#[verifier::opaque]
pub open spec fn spec_is_menzentsumo(h: HandView, tsumo: bool) -> bool {
    !h.open && tsumo
}

/// A flush: every group of one suit (honor suits included, a hand of
/// nothing but winds counts as one suit here).
#[verifier::opaque]
pub open spec fn spec_is_chinitsu(gs: Seq<TileGroup>) -> bool {
    gs.len() > 0 && forall|i: int, j: int|
        0 <= i < gs.len() && 0 <= j < gs.len() ==> (#[trigger] gs[i]).suit == (
        #[trigger] gs[j]).suit
}

/// Terminals in every group and no honors, with at least one sequence.
#[verifier::opaque]
pub open spec fn spec_is_junchantaiyao(gs: Seq<TileGroup>) -> bool {
    &&& forall|i: int| 0 <= i < gs.len() ==> (#[trigger] gs[i]).isterminal && !honor(gs[i])
    &&& seq_groups(gs).len() > 0
}

/// Every group touches a terminal or is an honor group.
pub open spec fn all_terminal_or_honor(gs: Seq<TileGroup>) -> bool {
    forall|i: int| 0 <= i < gs.len() ==> (#[trigger] gs[i]).isterminal || honor(gs[i])
}

/// Some group touches a terminal.
pub open spec fn has_terminal(gs: Seq<TileGroup>) -> bool {
    exists|i: int| 0 <= i < gs.len() && (#[trigger] gs[i]).isterminal
}

/// Some non-terminal group is an honor group.
pub open spec fn has_honor(gs: Seq<TileGroup>) -> bool {
    exists|i: int| 0 <= i < gs.len() && !(#[trigger] gs[i]).isterminal && honor(gs[i])
}

/// Terminals and honors only, no sequences, with both present.
#[verifier::opaque]
pub open spec fn spec_is_honroutou(gs: Seq<TileGroup>) -> bool {
    &&& seq_groups(gs).len() == 0
    &&& all_terminal_or_honor(gs)
    &&& has_terminal(gs)
    &&& has_honor(gs)
}

/// Every group holds a terminal or honor, with at least one sequence
/// and both a terminal group and an honor group present.
#[verifier::opaque]
pub open spec fn spec_is_chantaiyao(gs: Seq<TileGroup>) -> bool {
    &&& seq_groups(gs).len() > 0
    &&& all_terminal_or_honor(gs)
    &&& has_terminal(gs)
    &&& has_honor(gs)
}

/// All honors.
#[verifier::opaque]
pub open spec fn spec_is_tsuuiisou(gs: Seq<TileGroup>) -> bool {
    forall|i: int| 0 <= i < gs.len() ==> honor(#[trigger] gs[i])
}

/// Seven pairs of honors.
#[verifier::opaque]
pub open spec fn spec_is_daichiishin(gs: Seq<TileGroup>) -> bool {
    spec_is_tsuuiisou(gs) && pair_groups(gs).len() == 7
}

/// Four kans.
#[verifier::opaque]
pub open spec fn spec_is_suukantsu(gs: Seq<TileGroup>) -> bool {
    kan_groups(gs).len() == 4
}

/// The concealed triplet and kan sets, in hand order.
pub open spec fn closed_sets(gs: Seq<TileGroup>) -> Seq<TileGroup> {
    matching(
        gs,
        |g: TileGroup|
            (g.group_type == GroupType::Triplet || g.group_type == GroupType::Kan) && !g.isopen,
    )
}

/// The dragon triplet and kan sets, in hand order.
pub open spec fn dragon_sets(gs: Seq<TileGroup>) -> Seq<TileGroup> {
    matching(
        gs,
        |g: TileGroup|
            (g.group_type == GroupType::Triplet || g.group_type == GroupType::Kan) && g.suit
                == Suit::Dragon,
    )
}

/// The wind triplet and kan sets, in hand order.
pub open spec fn wind_sets(gs: Seq<TileGroup>) -> Seq<TileGroup> {
    matching(
        gs,
        |g: TileGroup|
            (g.group_type == GroupType::Triplet || g.group_type == GroupType::Kan) && g.suit
                == Suit::Wind,
    )
}

/// Three concealed triplets.  A triplet completed by another player's
/// discard counts as open here, so on a ron win the final group, when a
/// triplet, is discounted.
#[verifier::opaque]
pub open spec fn spec_is_sanankou(h: HandView, tsumo: bool) -> bool {
    if !tsumo && h.groups.last().group_type is Triplet {
        closed_sets(h.groups).len() == 4
    } else {
        closed_sets(h.groups).len() == 3
    }
}

/// The han each yakuhai condition a set satisfies is counted once: the
/// prevalent wind, the seat wind, and a dragon suit each count.
pub open spec fn group_yakuhai(g: TileGroup, prev: TileGroup, seat: TileGroup) -> nat {
    (if g.value == prev.value {
        1 as nat
    } else {
        0
    }) + (if g.value == seat.value {
        1 as nat
    } else {
        0
    }) + (if g.suit == Suit::Dragon {
        1 as nat
    } else {
        0
    })
}

/// The yakuhai units earned over a list of sets.
#[verifier::opaque]
pub open spec fn yakuhai_in(gs: Seq<TileGroup>, prev: TileGroup, seat: TileGroup) -> nat
    decreases gs.len(),
{
    if gs.len() == 0 {
        0
    } else {
        yakuhai_in(gs.drop_last(), prev, seat) + group_yakuhai(gs.last(), prev, seat)
    }
}

/// The yakuhai units of a hand: every triplet and kan, counted per
/// satisfied condition.
pub open spec fn spec_yakuhai_count(h: HandView) -> nat {
    yakuhai_in(triplet_groups(h.groups), h.prev, h.seat) + yakuhai_in(
        kan_groups(h.groups),
        h.prev,
        h.seat,
    )
}

/// The yakuhai units over a one-longer prefix add the next set's units.
pub proof fn lemma_yakuhai_take_succ(gs: Seq<TileGroup>, prev: TileGroup, seat: TileGroup, i: int)
    requires
        0 <= i < gs.len(),
    ensures
        yakuhai_in(gs.take(i + 1), prev, seat) == yakuhai_in(gs.take(i), prev, seat)
            + group_yakuhai(gs[i], prev, seat),
{
    reveal(yakuhai_in);
    assert(gs.take(i + 1).drop_last() =~= gs.take(i));
    assert(gs.take(i + 1).last() == gs[i]);
}

/// Each set earns at most three yakuhai units.
pub proof fn lemma_yakuhai_bound(gs: Seq<TileGroup>, prev: TileGroup, seat: TileGroup)
    ensures
        yakuhai_in(gs, prev, seat) <= 3 * gs.len(),
    decreases gs.len(),
{
    reveal(yakuhai_in);
    if gs.len() > 0 {
        lemma_yakuhai_bound(gs.drop_last(), prev, seat);
    }
}

/// The values of a list of groups, in order.
pub open spec fn values_of(gs: Seq<TileGroup>) -> Seq<char> {
    gs.map_values(|g: TileGroup| g.value)
}

/// Three sequences of one value across the suits: with exactly three
/// sequences their values collapse to one, with four to two.
#[verifier::opaque]
pub open spec fn spec_is_sanshokudoujun(gs: Seq<TileGroup>) -> bool {
    let seqs = seq_groups(gs);
    &&& seqs.len() >= 3
    &&& if seqs.len() == 3 {
        dedup_consecutive(values_of(seqs)).len() == 1
    } else {
        dedup_consecutive(values_of(seqs)).len() == 2
    }
}

/// Three triplets of one value across the suits, counting kans.
#[verifier::opaque]
pub open spec fn spec_is_sanshokudoukou(gs: Seq<TileGroup>) -> bool {
    let sets = triplet_groups(gs) + kan_groups(gs);
    &&& sets.len() >= 3
    &&& if sets.len() == 3 {
        dedup_consecutive(values_of(sets)).len() == 1
    } else {
        dedup_consecutive(values_of(sets)).len() == 2
    }
}

/// A half flush: honors present, numbered groups present, and every
/// numbered group of one suit.
#[verifier::opaque]
pub open spec fn spec_is_honitsu(gs: Seq<TileGroup>) -> bool {
    &&& exists|i: int| 0 <= i < gs.len() && honor(#[trigger] gs[i])
    &&& exists|i: int| 0 <= i < gs.len() && !honor(#[trigger] gs[i])
    &&& forall|i: int, j: int|
        0 <= i < gs.len() && 0 <= j < gs.len() && !honor(#[trigger] gs[i]) && !honor(
            #[trigger] gs[j]) ==> gs[i].suit == gs[j].suit
}

/// Two dragon sets and the dragon pair.
#[verifier::opaque]
pub open spec fn spec_is_shousangen(gs: Seq<TileGroup>) -> bool
    recommends
        pair_groups(gs).len() >= 1,
{
    dragon_sets(gs).len() == 2 && pair_groups(gs)[0].suit == Suit::Dragon
}

/// A sequence group of the given suit starting on the given value.
pub open spec fn has_seq_value(ss: Seq<TileGroup>, suit: Suit, v: char) -> bool {
    exists|i: int| 0 <= i < ss.len() && (#[trigger] ss[i]).suit == suit && ss[i].value == v
}

/// The pure straight 1-9 within one suit.
pub open spec fn ittsuu_in_suit(gs: Seq<TileGroup>, suit: Suit) -> bool {
    &&& has_seq_value(seq_groups(gs), suit, '1')
    &&& has_seq_value(seq_groups(gs), suit, '4')
    &&& has_seq_value(seq_groups(gs), suit, '7')
}

/// A pure straight in any numbered suit.
#[verifier::opaque]
pub open spec fn spec_is_ittsuu(gs: Seq<TileGroup>) -> bool {
    ||| ittsuu_in_suit(gs, Suit::Pinzu)
    ||| ittsuu_in_suit(gs, Suit::Manzu)
    ||| ittsuu_in_suit(gs, Suit::Souzu)
}

/// Pinfu: a concealed hand whose only fu reasons on a ron would be the
/// base points and the closed-ron bonus — all sequences, a pair that
/// scores nothing, and a two-sided wait.
#[verifier::opaque]
pub open spec fn spec_is_pinfu(h: HandView) -> bool {
    &&& !h.open
    &&& forall|i: int|
        0 <= i < fu_reasons(h, false).len() ==> (#[trigger] fu_reasons(h, false)[i]) == Fu::BasePoints
            || fu_reasons(h, false)[i] == Fu::ClosedRon
}

/// Three dragon sets.
#[verifier::opaque]
pub open spec fn spec_is_daisangen(gs: Seq<TileGroup>) -> bool {
    dragon_sets(gs).len() == 3
}

/// Four concealed sets, won by self-draw or on the pair wait.
#[verifier::opaque]
pub open spec fn spec_is_suuankou(h: HandView, tsumo: bool) -> bool {
    closed_sets(h.groups).len() == 4 && (tsumo || h.groups.last().group_type is Pair)
}

/// Four concealed sets completed on the lone pair wait.
#[verifier::opaque]
pub open spec fn spec_is_suuankoutankiwait(h: HandView) -> bool {
    closed_sets(h.groups).len() == 4 && h.groups.last().group_type is Pair
}

/// All terminals: every group touches a terminal and none is a
/// sequence.
#[verifier::opaque]
pub open spec fn spec_is_chinroutou(gs: Seq<TileGroup>) -> bool {
    forall|i: int|
        0 <= i < gs.len() ==> (#[trigger] gs[i]).isterminal && gs[i].group_type != GroupType::Sequence
}

/// A group drawn entirely from the green tiles: souzu 2, 3, 4, 6, 8 and
/// the green dragon.
pub open spec fn green_group(g: TileGroup) -> bool {
    ||| (g.suit == Suit::Souzu && (if g.group_type is Sequence {
        g.value == '2'
    } else {
        g.value == '2' || g.value == '3' || g.value == '4' || g.value == '6' || g.value == '8'
    }))
    ||| (g.suit == Suit::Dragon && g.value == 'g')
}

/// All green.
#[verifier::opaque]
pub open spec fn spec_is_ryuuiisou(gs: Seq<TileGroup>) -> bool {
    forall|i: int| 0 <= i < gs.len() ==> green_group(#[trigger] gs[i])
}

/// Three wind sets and the wind pair.
#[verifier::opaque]
pub open spec fn spec_is_shousuushii(gs: Seq<TileGroup>) -> bool
    recommends
        pair_groups(gs).len() >= 1,
{
    wind_sets(gs).len() == 3 && pair_groups(gs)[0].suit == Suit::Wind
}

/// Four wind sets.
#[verifier::opaque]
pub open spec fn spec_is_daisuushii(gs: Seq<TileGroup>) -> bool {
    wind_sets(gs).len() == 4
}

/// Blessing of heaven: the dealer (East seat) wins on the first
/// uninterrupted draw.
#[verifier::opaque]
pub open spec fn spec_is_tenhou(h: HandView, tenhou: bool) -> bool {
    tenhou && h.seat.value == 'E'
}

/// Blessing of earth: a non-dealer wins on the first uninterrupted
/// draw.
#[verifier::opaque]
pub open spec fn spec_is_chiihou(h: HandView, tenhou: bool) -> bool {
    tenhou && h.seat.value != 'E'
}

/// How many tiles of one digit a group contributes.
pub open spec fn digit_count_contrib(g: TileGroup, d: int) -> nat {
    match g.group_type {
        GroupType::Sequence => if digit_of(g.value) <= d <= digit_of(g.value) + 2 {
            1 as nat
        } else {
            0
        },
        GroupType::Triplet => if digit_of(g.value) == d {
            3 as nat
        } else {
            0
        },
        GroupType::Pair => if digit_of(g.value) == d {
            2 as nat
        } else {
            0
        },
        GroupType::Kan => if digit_of(g.value) == d {
            4 as nat
        } else {
            0
        },
        GroupType::Single => 0,
    }
}

/// How many tiles of one digit the hand holds.
#[verifier::opaque]
pub open spec fn digit_count(gs: Seq<TileGroup>, d: int) -> nat
    decreases gs.len(),
{
    if gs.len() == 0 {
        0
    } else {
        digit_count(gs.drop_last(), d) + digit_count_contrib(gs.last(), d)
    }
}

/// The digit count over a one-longer prefix adds the next group's
/// contribution.
pub proof fn lemma_digit_count_take_succ(gs: Seq<TileGroup>, d: int, i: int)
    requires
        0 <= i < gs.len(),
    ensures
        digit_count(gs.take(i + 1), d) == digit_count(gs.take(i), d) + digit_count_contrib(
            gs[i],
            d,
        ),
{
    reveal(digit_count);
    assert(gs.take(i + 1).drop_last() =~= gs.take(i));
    assert(gs.take(i + 1).last() == gs[i]);
}

/// A numbered suit.
pub open spec fn numbered_suit(s: Suit) -> bool {
    s == Suit::Manzu || s == Suit::Pinzu || s == Suit::Souzu
}

/// Nine gates: a concealed single-numbered-suit hand without kans whose
/// fourteen tiles cover 1112345678999 plus one extra tile.
#[verifier::opaque]
pub open spec fn spec_is_chuurenpoutou(h: HandView) -> bool {
    let gs = h.groups;
    &&& !h.open
    &&& kan_groups(gs).len() == 0
    &&& gs.len() > 0
    &&& numbered_suit(gs[0].suit)
    &&& forall|i: int| 0 <= i < gs.len() ==> (#[trigger] gs[i]).suit == gs[0].suit
    &&& digit_count(gs, 1) >= 3
    &&& digit_count(gs, 9) >= 3
    &&& digit_count(gs, 2) >= 1
    &&& digit_count(gs, 3) >= 1
    &&& digit_count(gs, 4) >= 1
    &&& digit_count(gs, 5) >= 1
    &&& digit_count(gs, 6) >= 1
    &&& digit_count(gs, 7) >= 1
    &&& digit_count(gs, 8) >= 1
    &&& digit_count(gs, 1) + digit_count(gs, 2) + digit_count(gs, 3) + digit_count(gs, 4)
        + digit_count(gs, 5) + digit_count(gs, 6) + digit_count(gs, 7) + digit_count(gs, 8)
        + digit_count(gs, 9) == 14
}

/// The tile count the pure nine-gates pattern assigns to a digit.
pub open spec fn chuuren_base(d: int) -> nat {
    if d == 1 || d == 9 {
        3 as nat
    } else {
        1 as nat
    }
}

/// Nine gates waiting on all nine tiles: the winning tile is the one
/// tile beyond the pure 1112345678999 pattern.
#[verifier::opaque]
pub open spec fn spec_is_chuurenpoutou9sided(h: HandView) -> bool {
    &&& spec_is_chuurenpoutou(h)
    &&& h.win.suit == h.groups[0].suit
    &&& 1 <= digit_of(h.win.value) <= 9
    &&& digit_count(h.groups, digit_of(h.win.value) as int) == chuuren_base(
        digit_of(h.win.value) as int,
    ) + 1
}

/// Collapse runs of consecutive equal groups, as the dedup of the
/// original vector would.
fn dedup_tile_groups(v: &Vec<TileGroup>) -> (r: Vec<TileGroup>)
    ensures
        r@ == dedup_consecutive(v@),
{
    proof {
        reveal(dedup_consecutive);
    }
    let mut out: Vec<TileGroup> = Vec::new();
    let n = v.len();
    let mut i: usize = 0;
    while i < n
        invariant
            i <= n,
            n == v@.len(),
            out@ == dedup_consecutive(v@.take(i as int)),
        decreases n - i,
    {
        proof {
            lemma_dedup_take_succ(v@, i as int);
        }
        if i == 0 || !(v[i - 1] == v[i]) {
            out.push(v[i]);
        }
        i += 1;
    }
    assert(v@.take(n as int) =~= v@);
    out
}

/// Collapse runs of consecutive equal characters.
fn dedup_chars(v: &Vec<char>) -> (r: Vec<char>)
    ensures
        r@ == dedup_consecutive(v@),
{
    proof {
        reveal(dedup_consecutive);
    }
    let mut out: Vec<char> = Vec::new();
    let n = v.len();
    let mut i: usize = 0;
    while i < n
        invariant
            i <= n,
            n == v@.len(),
            out@ == dedup_consecutive(v@.take(i as int)),
        decreases n - i,
    {
        proof {
            lemma_dedup_take_succ(v@, i as int);
        }
        if i == 0 || !(v[i - 1] == v[i]) {
            out.push(v[i]);
        }
        i += 1;
    }
    assert(v@.take(n as int) =~= v@);
    out
}

/// The values of a vector of groups, in order.
fn values_vec(v: &Vec<TileGroup>) -> (r: Vec<char>)
    ensures
        r@ == values_of(v@),
{
    let mut out: Vec<char> = Vec::new();
    let n = v.len();
    let mut i: usize = 0;
    while i < n
        invariant
            i <= n,
            n == v@.len(),
            out@ == values_of(v@.take(i as int)),
        decreases n - i,
    {
        out.push(v[i].value);
        assert(out@ =~= values_of(v@.take(i + 1)));
        i += 1;
    }
    assert(v@.take(n as int) =~= v@);
    out
}

/// Whether the straight's three starting sequences of one suit are all
/// present in a list of sequence groups.
fn ittsuu_scan(seqs: &Vec<TileGroup>, suit: Suit) -> (r: bool)
    ensures
        r == (has_seq_value(seqs@, suit, '1') && has_seq_value(seqs@, suit, '4') && has_seq_value(
            seqs@,
            suit,
            '7',
        )),
{
    let n = seqs.len();
    let mut h1 = false;
    let mut h4 = false;
    let mut h7 = false;
    let mut i: usize = 0;
    while i < n
        invariant
            i <= n,
            n == seqs@.len(),
            h1 == exists|j: int|
                0 <= j < i && (#[trigger] seqs@[j]).suit == suit && seqs@[j].value == '1',
            h4 == exists|j: int|
                0 <= j < i && (#[trigger] seqs@[j]).suit == suit && seqs@[j].value == '4',
            h7 == exists|j: int|
                0 <= j < i && (#[trigger] seqs@[j]).suit == suit && seqs@[j].value == '7',
        decreases n - i,
    {
        let g = seqs[i];
        if suit_eq(g.suit, suit) {
            if g.value == '1' {
                assert((seqs@[i as int]).suit == suit && seqs@[i as int].value == '1');
                h1 = true;
            }
            if g.value == '4' {
                assert((seqs@[i as int]).suit == suit && seqs@[i as int].value == '4');
                h4 = true;
            }
            if g.value == '7' {
                assert((seqs@[i as int]).suit == suit && seqs@[i as int].value == '7');
                h7 = true;
            }
        }
        i += 1;
    }
    h1 && h4 && h7
}

impl Hand {
    /// The number of concealed triplet and kan sets.
    fn count_closed_sets(&self) -> (r: usize)
        ensures
            r == closed_sets(self@.groups).len(),
            r <= self@.groups.len(),
    {
        proof {
            reveal(matching);
        }
        let n = self.groups.len();
        let mut cnt: usize = 0;
        let mut i: usize = 0;
        while i < n
            invariant
                i <= n,
                n == self.groups@.len(),
                cnt == closed_sets(self.groups@.take(i as int)).len(),
                cnt <= i,
            decreases n - i,
        {
            proof {
                lemma_matching_take_succ(
                    self.groups@,
                    |g: TileGroup|
                        (g.group_type == GroupType::Triplet || g.group_type == GroupType::Kan)
                            && !g.isopen,
                    i as int,
                );
            }
            let g = self.groups[i];
            if (matches!(g.group_type, GroupType::Triplet) || matches!(g.group_type, GroupType::Kan))
                && !g.isopen {
                cnt += 1;
            }
            i += 1;
        }
        assert(self.groups@.take(n as int) =~= self.groups@);
        cnt
    }

    /// The number of dragon triplet and kan sets.
    fn count_dragon_sets(&self) -> (r: usize)
        ensures
            r == dragon_sets(self@.groups).len(),
            r <= self@.groups.len(),
    {
        proof {
            reveal(matching);
        }
        let n = self.groups.len();
        let mut cnt: usize = 0;
        let mut i: usize = 0;
        while i < n
            invariant
                i <= n,
                n == self.groups@.len(),
                cnt == dragon_sets(self.groups@.take(i as int)).len(),
                cnt <= i,
            decreases n - i,
        {
            proof {
                lemma_matching_take_succ(
                    self.groups@,
                    |g: TileGroup|
                        (g.group_type == GroupType::Triplet || g.group_type == GroupType::Kan)
                            && g.suit == Suit::Dragon,
                    i as int,
                );
            }
            let g = self.groups[i];
            if (matches!(g.group_type, GroupType::Triplet) || matches!(g.group_type, GroupType::Kan))
                && matches!(g.suit, Suit::Dragon) {
                cnt += 1;
            }
            i += 1;
        }
        assert(self.groups@.take(n as int) =~= self.groups@);
        cnt
    }

    /// The number of wind triplet and kan sets.
    fn count_wind_sets(&self) -> (r: usize)
        ensures
            r == wind_sets(self@.groups).len(),
            r <= self@.groups.len(),
    {
        proof {
            reveal(matching);
        }
        let n = self.groups.len();
        let mut cnt: usize = 0;
        let mut i: usize = 0;
        while i < n
            invariant
                i <= n,
                n == self.groups@.len(),
                cnt == wind_sets(self.groups@.take(i as int)).len(),
                cnt <= i,
            decreases n - i,
        {
            proof {
                lemma_matching_take_succ(
                    self.groups@,
                    |g: TileGroup|
                        (g.group_type == GroupType::Triplet || g.group_type == GroupType::Kan)
                            && g.suit == Suit::Wind,
                    i as int,
                );
            }
            let g = self.groups[i];
            if (matches!(g.group_type, GroupType::Triplet) || matches!(g.group_type, GroupType::Kan))
                && matches!(g.suit, Suit::Wind) {
                cnt += 1;
            }
            i += 1;
        }
        assert(self.groups@.take(n as int) =~= self.groups@);
        cnt
    }

    /// How many tiles of one digit the hand holds.
    fn count_digit_tiles(&self, d: u8) -> (r: u16)
        requires
            self@.wf(),
            1 <= d <= 9,
        ensures
            r as nat == digit_count(self@.groups, d as int),
            r <= 256,
    {
        proof {
            reveal(digit_count);
        }
        let ghost gs = self.groups@;
        let n = self.groups.len();
        let mut c: u16 = 0;
        let mut i: usize = 0;
        while i < n
            invariant
                i <= n,
                n == gs.len(),
                gs == self.groups@,
                n <= MAX_GROUPS,
                c as nat == digit_count(gs.take(i as int), d as int),
                c <= 4 * i,
            decreases n - i,
        {
            proof {
                lemma_digit_count_take_succ(gs, d as int, i as int);
            }
            let g = self.groups[i];
            let dv = crate::tile::digit(g.value);
            match g.group_type {
                GroupType::Sequence => {
                    if dv <= d && d <= dv + 2 {
                        c += 1;
                    }
                },
                GroupType::Triplet => {
                    if dv == d {
                        c += 3;
                    }
                },
                GroupType::Pair => {
                    if dv == d {
                        c += 2;
                    }
                },
                GroupType::Kan => {
                    if dv == d {
                        c += 4;
                    }
                },
                GroupType::Single => {},
            }
            i += 1;
        }
        assert(gs.take(n as int) =~= gs);
        c
    }

    /// Parse and validate a whole hand: every group notation string, the
    /// shape invariant, and the three reference tiles, in that order.
    pub fn new(tiles: Vec<String>, win: String, prev: String, seat: String) -> (r: Result<
        Hand,
        HandErr,
    >)
        ensures
            match r {
                Ok(h) => {
                    &&& spec_hand_err(tiles.deep_view(), win@, prev@, seat@) is None
                    &&& h@.groups == parse_groups(tiles.deep_view())->Ok_0
                    &&& h@.win == spec_parse_single(win@)->Ok_0
                    &&& h@.seat == spec_parse_single(seat@)->Ok_0
                    &&& h@.prev == spec_parse_single(prev@)->Ok_0
                    &&& h@.wf()
                },
                Err(e) => spec_hand_err(tiles.deep_view(), win@, prev@, seat@) == Some(e),
            },
    {
        proof {
            reveal(matching);
        }
        let ghost ts = tiles.deep_view();
        let mut tile_groups: Vec<TileGroup> = Vec::new();
        let mut ishandopen = false;
        let n = tiles.len();
        assert(ts.len() == n);
        let mut i: usize = 0;
        while i < n
            invariant
                i <= n,
                n == tiles.len(),
                ts == tiles.deep_view(),
                ts.len() == n,
                parse_groups(ts.take(i as int)) == Ok::<Seq<TileGroup>, HandErr>(tile_groups@),
                ishandopen == any_open(tile_groups@),
                forall|j: int| 0 <= j < tile_groups@.len() ==> wf_group(#[trigger] tile_groups@[j]),
            decreases n - i,
        {
            assert(ts[i as int] == tiles@[i as int]@);
            let tile = match TileGroup::new(tiles[i].clone()) {
                Ok(t) => t,
                Err(e) => {
                    proof {
                        assert(ts.take(i + 1).drop_last() =~= ts.take(i as int));
                        assert(ts.take(i + 1).last() == ts[i as int]);
                        assert(parse_groups(ts.take(i + 1)) == Err::<Seq<TileGroup>, HandErr>(e));
                        lemma_parse_groups_prefix_err(ts, i + 1);
                    }
                    return Err(e);
                },
            };
            if tile.isopen {
                ishandopen = true;
            }
            proof {
                assert(ts.take(i + 1).drop_last() =~= ts.take(i as int));
                assert(ts.take(i + 1).last() == ts[i as int]);
                lemma_any_open_push(tile_groups@, tile);
                lemma_parse_group_wf(ts[i as int]);
            }
            tile_groups.push(tile);
            i += 1;
        }
        assert(ts.take(n as int) =~= ts);
        let ghost gs = tile_groups@;

        if tile_groups.len() > MAX_GROUPS {
            return Err(HandErr::InvalidShape);
        }
        let mut tripcount: usize = 0;
        let mut seqcount: usize = 0;
        let mut paircount: usize = 0;
        let mut kancount: usize = 0;
        let m = tile_groups.len();
        let mut k: usize = 0;
        while k < m
            invariant
                k <= m,
                m == gs.len(),
                gs == tile_groups@,
                m <= MAX_GROUPS,
                tripcount == triplet_groups(gs.take(k as int)).len(),
                seqcount == seq_groups(gs.take(k as int)).len(),
                kancount == kan_groups(gs.take(k as int)).len(),
                paircount == pair_groups(gs.take(k as int)).len(),
                tripcount <= k && seqcount <= k && kancount <= k && paircount <= k,
            decreases m - k,
        {
            proof {
                lemma_matching_take_succ(gs, |g: TileGroup| g.group_type == GroupType::Triplet, k as int);
                lemma_matching_take_succ(gs, |g: TileGroup| g.group_type == GroupType::Sequence, k as int);
                lemma_matching_take_succ(gs, |g: TileGroup| g.group_type == GroupType::Kan, k as int);
                lemma_matching_take_succ(gs, |g: TileGroup| g.group_type == GroupType::Pair, k as int);
            }
            let g = tile_groups[k];
            if matches!(g.group_type, GroupType::Triplet) {
                tripcount += 1;
            } else if matches!(g.group_type, GroupType::Sequence) {
                seqcount += 1;
            } else if matches!(g.group_type, GroupType::Pair) {
                paircount += 1;
            } else if matches!(g.group_type, GroupType::Kan) {
                kancount += 1;
            }
            k += 1;
        }
        assert(gs.take(m as int) =~= gs);

        if !(tripcount + seqcount + kancount == 4 && paircount == 1) && paircount != 7 {
            return Err(HandErr::InvalidShape);
        }
        assert(valid_shape(gs));

        let win_tile = match TileGroup::new_single(&win) {
            Ok(t) => t,
            Err(e) => {
                return Err(e);
            },
        };
        let seat_tile = match TileGroup::new_single(&seat) {
            Ok(t) => t,
            Err(e) => {
                return Err(e);
            },
        };
        let prev_tile = match TileGroup::new_single(&prev) {
            Ok(t) => t,
            Err(e) => {
                return Err(e);
            },
        };

        Ok(Hand { groups: tile_groups, win_tile, seat_tile, prev_tile, isopen: ishandopen })
    }

    /// The sequence groups, in hand order.
    pub fn sequences(&self) -> (r: Vec<TileGroup>)
        ensures
            r@ == seq_groups(self@.groups),
    {
        proof {
            reveal(matching);
        }
        let mut seqs: Vec<TileGroup> = Vec::new();
        let n = self.groups.len();
        let mut i: usize = 0;
        while i < n
            invariant
                i <= n,
                n == self.groups@.len(),
                seqs@ == seq_groups(self.groups@.take(i as int)),
            decreases n - i,
        {
            proof {
                lemma_matching_take_succ(
                    self.groups@,
                    |g: TileGroup| g.group_type == GroupType::Sequence,
                    i as int,
                );
            }
            if matches!(self.groups[i].group_type, GroupType::Sequence) {
                seqs.push(self.groups[i]);
            }
            i += 1;
        }
        assert(self.groups@.take(n as int) =~= self.groups@);
        seqs
    }

    /// The triplet groups, in hand order.
    pub fn triplets(&self) -> (r: Vec<TileGroup>)
        ensures
            r@ == triplet_groups(self@.groups),
    {
        proof {
            reveal(matching);
        }
        let mut trips: Vec<TileGroup> = Vec::new();
        let n = self.groups.len();
        let mut i: usize = 0;
        while i < n
            invariant
                i <= n,
                n == self.groups@.len(),
                trips@ == triplet_groups(self.groups@.take(i as int)),
            decreases n - i,
        {
            proof {
                lemma_matching_take_succ(
                    self.groups@,
                    |g: TileGroup| g.group_type == GroupType::Triplet,
                    i as int,
                );
            }
            if matches!(self.groups[i].group_type, GroupType::Triplet) {
                trips.push(self.groups[i]);
            }
            i += 1;
        }
        assert(self.groups@.take(n as int) =~= self.groups@);
        trips
    }

    /// The kan groups, in hand order.
    pub fn kans(&self) -> (r: Vec<TileGroup>)
        ensures
            r@ == kan_groups(self@.groups),
    {
        proof {
            reveal(matching);
        }
        let mut kans: Vec<TileGroup> = Vec::new();
        let n = self.groups.len();
        let mut i: usize = 0;
        while i < n
            invariant
                i <= n,
                n == self.groups@.len(),
                kans@ == kan_groups(self.groups@.take(i as int)),
            decreases n - i,
        {
            proof {
                lemma_matching_take_succ(
                    self.groups@,
                    |g: TileGroup| g.group_type == GroupType::Kan,
                    i as int,
                );
            }
            if matches!(self.groups[i].group_type, GroupType::Kan) {
                kans.push(self.groups[i]);
            }
            i += 1;
        }
        assert(self.groups@.take(n as int) =~= self.groups@);
        kans
    }

    /// The pair groups, in hand order.
    pub fn pairs(&self) -> (r: Vec<TileGroup>)
        ensures
            r@ == pair_groups(self@.groups),
    {
        proof {
            reveal(matching);
        }
        let mut pairs_out: Vec<TileGroup> = Vec::new();
        let n = self.groups.len();
        let mut i: usize = 0;
        while i < n
            invariant
                i <= n,
                n == self.groups@.len(),
                pairs_out@ == pair_groups(self.groups@.take(i as int)),
            decreases n - i,
        {
            proof {
                lemma_matching_take_succ(
                    self.groups@,
                    |g: TileGroup| g.group_type == GroupType::Pair,
                    i as int,
                );
            }
            if matches!(self.groups[i].group_type, GroupType::Pair) {
                pairs_out.push(self.groups[i]);
            }
            i += 1;
        }
        assert(self.groups@.take(n as int) =~= self.groups@);
        pairs_out
    }

    /// The winning tile.
    pub fn win_tile(&self) -> (r: TileGroup)
        ensures
            r == self@.win,
    {
        self.win_tile
    }

    /// The seat wind tile.
    pub fn seat_tile(&self) -> (r: TileGroup)
        ensures
            r == self@.seat,
    {
        self.seat_tile
    }

    /// The prevalent wind tile.
    pub fn prev_tile(&self) -> (r: TileGroup)
        ensures
            r == self@.prev,
    {
        self.prev_tile
    }

    /// Whether any group was openly called.
    pub fn is_open(&self) -> (r: bool)
        ensures
            r == self@.open,
    {
        self.isopen
    }

    /// Compute the fu total and its contributing reasons: 20 base
    /// points, the self-draw or closed-ron bonus, the per-triplet and
    /// per-kan bonuses (the winning triplet scoring closed exactly on a
    /// self-draw), the value-pair bonus, and the single-wait bonus, the
    /// sum rounded up to the next multiple of ten.
    pub fn calculate_fu(&self, tsumo: bool) -> (r: (u16, Vec<Fu>))
        requires
            self@.wf(),
        ensures
            r.1@ == fu_reasons(self@, tsumo),
            r.0 as int == round_up_to_ten(fu_sum(fu_reasons(self@, tsumo))),
            r.0 % 10 == 0,
            20 <= r.0 <= 2740,
    {
        let ghost h = self@;
        let ghost gs = self.groups@;
        let ghost widx: int = gs.len() - 1;
        proof {
            reveal(fu_reasons);
            lemma_wf_nonempty(h);
        }
        let mut fu_types: Vec<Fu> = Vec::new();
        let mut total: u16 = 20;
        fu_types.push(Fu::BasePoints);
        if tsumo {
            total += 2;
            fu_types.push(Fu::Tsumo);
        }
        if !self.isopen && !tsumo {
            total += 10;
            fu_types.push(Fu::ClosedRon);
        }
        let ghost header = seq![Fu::BasePoints] + (if tsumo {
            seq![Fu::Tsumo]
        } else {
            Seq::<Fu>::empty()
        }) + (if !h.open && !tsumo {
            seq![Fu::ClosedRon]
        } else {
            Seq::<Fu>::empty()
        });
        assert(fu_types@ =~= header);

        let n = self.groups.len();
        let mut i: usize = 0;
        while i < n
            invariant
                i <= n,
                n == gs.len(),
                gs == self.groups@,
                1 <= n <= MAX_GROUPS,
                widx == gs.len() - 1,
                fu_types@ == header + triplet_fu(gs.take(i as int), widx, tsumo),
                total == fu_sum(fu_types@),
                20 <= total <= 32 + 8 * i,
            decreases n - i,
        {
            proof {
                lemma_triplet_fu_take_succ(gs, widx, tsumo, i as int);
            }
            let g = self.groups[i];
            if matches!(g.group_type, GroupType::Triplet) {
                let is_win = i == n - 1;
                let big = matches!(g.suit, Suit::Wind) || matches!(g.suit, Suit::Dragon)
                    || g.isterminal;
                let closed = if is_win {
                    tsumo
                } else {
                    !g.isopen
                };
                if closed {
                    if big {
                        fu_types.push(Fu::NonSimpleClosedTriplet);
                        total += 8;
                    } else {
                        fu_types.push(Fu::SimpleClosedTriplet);
                        total += 4;
                    }
                } else {
                    if big {
                        fu_types.push(Fu::NonSimpleOpenTriplet);
                        total += 4;
                    } else {
                        fu_types.push(Fu::SimpleOpenTriplet);
                        total += 2;
                    }
                }
            }
            assert(fu_types@ =~= header + triplet_fu(gs.take(i + 1), widx, tsumo));
            i += 1;
        }
        assert(gs.take(n as int) =~= gs);
        let ghost after_triplets = header + triplet_fu(gs, widx, tsumo);

        let mut k: usize = 0;
        while k < n
            invariant
                k <= n,
                n == gs.len(),
                gs == self.groups@,
                1 <= n <= MAX_GROUPS,
                fu_types@ == after_triplets + kan_fu(gs.take(k as int)),
                total == fu_sum(fu_types@),
                20 <= total <= 544 + 32 * k,
            decreases n - k,
        {
            proof {
                lemma_kan_fu_take_succ(gs, k as int);
            }
            let g = self.groups[k];
            if matches!(g.group_type, GroupType::Kan) {
                let big = matches!(g.suit, Suit::Wind) || matches!(g.suit, Suit::Dragon)
                    || g.isterminal;
                if big {
                    if !g.isopen {
                        total += 32;
                        fu_types.push(Fu::NonSimpleClosedKan);
                    } else {
                        fu_types.push(Fu::NonSimpleOpenKan);
                        total += 16;
                    }
                } else {
                    if !g.isopen {
                        fu_types.push(Fu::SimpleClosedKan);
                        total += 16;
                    } else {
                        fu_types.push(Fu::SimpleOpenKan);
                        total += 8;
                    }
                }
            }
            assert(fu_types@ =~= after_triplets + kan_fu(gs.take(k + 1)));
            k += 1;
        }
        assert(gs.take(n as int) =~= gs);
        let ghost after_kans = after_triplets + kan_fu(gs);

        let mut q: usize = 0;
        while q < n
            invariant
                q <= n,
                n == gs.len(),
                gs == self.groups@,
                1 <= n <= MAX_GROUPS,
                h == self@,
                fu_types@ == after_kans + pair_fu(gs.take(q as int), h.prev, h.seat),
                total == fu_sum(fu_types@),
                20 <= total <= 2592 + 2 * q,
            decreases n - q,
        {
            proof {
                lemma_pair_fu_take_succ(gs, h.prev, h.seat, q as int);
            }
            let g = self.groups[q];
            if matches!(g.group_type, GroupType::Pair) {
                if g.value == self.prev_tile.value || g.value == self.seat_tile.value
                    || matches!(g.suit, Suit::Dragon) {
                    fu_types.push(Fu::Toitsu);
                    total += 2;
                }
            }
            assert(fu_types@ =~= after_kans + pair_fu(gs.take(q + 1), h.prev, h.seat));
            q += 1;
        }
        assert(gs.take(n as int) =~= gs);

        let last = self.groups[n - 1];
        assert(last == gs.last());
        if matches!(last.group_type, GroupType::Pair) {
            fu_types.push(Fu::SingleWait);
            total += 2;
        } else if matches!(last.group_type, GroupType::Sequence) {
            let dlast = crate::tile::digit(last.value);
            let dwin = crate::tile::digit(self.win_tile.value);
            if dwin == dlast + 1 || (!(self.win_tile.value == '1' || self.win_tile.value == '9')
                && last.isterminal) {
                fu_types.push(Fu::SingleWait);
                total += 2;
            }
        }
        assert(fu_types@ =~= fu_reasons(h, tsumo));

        let rounded = ((total + 9) / 10) * 10;
        assert(rounded % 10 == 0) by (nonlinear_arith)
            requires
                rounded == ((total + 9) / 10) * 10,
        {
        }
        (rounded, fu_types)
    }

    /// All simples: no terminal-touching group, no winds, no dragons.
    pub fn is_tanyao(&self) -> (r: bool)
        requires
            self@.wf(),
        ensures
            r == spec_is_tanyao(self@.groups),
    {
        proof {
            reveal(spec_is_tanyao);
        }
        let n = self.groups.len();
        let mut i: usize = 0;
        while i < n
            invariant
                i <= n,
                n == self.groups@.len(),
                forall|j: int|
                    0 <= j < i ==> !(#[trigger] self.groups@[j]).isterminal && !honor(
                        self.groups@[j],
                    ),
            decreases n - i,
        {
            proof {
                reveal(spec_is_tanyao);
            }
            let g = self.groups[i];
            if g.isterminal || matches!(g.suit, Suit::Dragon) || matches!(g.suit, Suit::Wind) {
                assert(self.groups@[i as int].isterminal || honor(self.groups@[i as int]));
                return false;
            }
            i += 1;
        }
        true
    }

    /// Two pairs of identical sequences.
    pub fn is_ryanpeikou(&self) -> (r: bool)
        requires
            self@.wf(),
        ensures
            r == spec_is_ryanpeikou(self@.groups),
    {
        proof {
            reveal(spec_is_ryanpeikou);
        }
        let seqs = self.sequences();
        if seqs.len() != 4 {
            return false;
        }
        let deduped = dedup_tile_groups(&seqs);
        deduped.len() == 2
    }

    /// One pair of identical sequences in a concealed hand that is not
    /// already two pairs.
    pub fn is_iipeikou(&self) -> (r: bool)
        requires
            self@.wf(),
        ensures
            r == spec_is_iipeikou(self@),
    {
        proof {
            reveal(spec_is_iipeikou);
            reveal(spec_is_ryanpeikou);
        }
        let seqs = self.sequences();
        let deduped = dedup_tile_groups(&seqs);
        !(deduped.len() == seqs.len() || self.is_open() || self.is_ryanpeikou())
    }

    /// All triplets: four triplet or kan sets in an open hand.
    pub fn is_toitoi(&self) -> (r: bool)
        requires
            self@.wf(),
        ensures
            r == spec_is_toitoi(self@),
    {
        proof {
            reveal(spec_is_toitoi);
        }
        proof {
            lemma_matching_len(self@.groups, |g: TileGroup| g.group_type == GroupType::Triplet);
            lemma_matching_len(self@.groups, |g: TileGroup| g.group_type == GroupType::Kan);
        }
        self.triplets().len() + self.kans().len() == 4 && self.is_open()
    }

    /// Three kans.
    pub fn is_sankantsu(&self) -> (r: bool)
        requires
            self@.wf(),
        ensures
            r == spec_is_sankantsu(self@.groups),
    {
        proof {
            reveal(spec_is_sankantsu);
        }
        self.kans().len() == 3
    }

    /// Seven pairs.
    pub fn is_chiitoitsu(&self) -> (r: bool)
        requires
            self@.wf(),
        ensures
            r == spec_is_chiitoitsu(self@.groups),
    {
        proof {
            reveal(spec_is_chiitoitsu);
        }
        self.pairs().len() == 7
    }

    /// A concealed self-draw win.
    pub fn is_menzentsumo(&self, tsumo: bool) -> (r: bool)
        requires
            self@.wf(),
        ensures
            r == spec_is_menzentsumo(self@, tsumo),
    {
        proof {
            reveal(spec_is_menzentsumo);
        }
        !self.isopen && tsumo
    }

    /// A flush: every group shares one suit.
    pub fn is_chinitsu(&self) -> (r: bool)
        requires
            self@.wf(),
        ensures
            r == spec_is_chinitsu(self@.groups),
    {
        proof {
            reveal(spec_is_chinitsu);
        }
        proof {
            lemma_wf_nonempty(self@);
        }
        let n = self.groups.len();
        let first_suit = self.groups[0].suit;
        let mut i: usize = 0;
        while i < n
            invariant
                i <= n,
                n == self.groups@.len(),
                n >= 1,
                first_suit == self.groups@[0].suit,
                forall|j: int| 0 <= j < i ==> (#[trigger] self.groups@[j]).suit == first_suit,
            decreases n - i,
        {
            proof {
                reveal(spec_is_chinitsu);
            }
            if !suit_eq(self.groups[i].suit, first_suit) {
                assert(self.groups@[i as int].suit != self.groups@[0].suit);
                return false;
            }
            i += 1;
        }
        true
    }

    /// Terminals in every group, no honors, at least one sequence.
    pub fn is_junchantaiyao(&self) -> (r: bool)
        requires
            self@.wf(),
        ensures
            r == spec_is_junchantaiyao(self@.groups),
    {
        proof {
            reveal(spec_is_junchantaiyao);
        }
        let n = self.groups.len();
        let mut i: usize = 0;
        while i < n
            invariant
                i <= n,
                n == self.groups@.len(),
                forall|j: int|
                    0 <= j < i ==> (#[trigger] self.groups@[j]).isterminal && !honor(
                        self.groups@[j],
                    ),
            decreases n - i,
        {
            proof {
                reveal(spec_is_junchantaiyao);
            }
            let g = self.groups[i];
            if matches!(g.suit, Suit::Dragon) || matches!(g.suit, Suit::Wind) || !g.isterminal {
                assert(!(self.groups@[i as int].isterminal && !honor(self.groups@[i as int])));
                return false;
            }
            i += 1;
        }
        self.sequences().len() > 0
    }

    /// Terminals and honors only, without sequences, both present.
    pub fn is_honroutou(&self) -> (r: bool)
        requires
            self@.wf(),
        ensures
            r == spec_is_honroutou(self@.groups),
    {
        proof {
            reveal(spec_is_honroutou);
        }
        if self.sequences().len() != 0 {
            return false;
        }
        match self.terminal_honor_scan() {
            Some((ht, hh)) => ht && hh,
            None => false,
        }
    }

    /// Every group holds a terminal or honor, with at least one
    /// sequence and both kinds present.
    pub fn is_chantaiyao(&self) -> (r: bool)
        requires
            self@.wf(),
        ensures
            r == spec_is_chantaiyao(self@.groups),
    {
        proof {
            reveal(spec_is_chantaiyao);
        }
        if self.sequences().len() == 0 {
            return false;
        }
        match self.terminal_honor_scan() {
            Some((ht, hh)) => ht && hh,
            None => false,
        }
    }

    /// Scan the groups: `None` when some group is neither terminal nor
    /// honor, else which of the two kinds appeared.
    fn terminal_honor_scan(&self) -> (r: Option<(bool, bool)>)
        ensures
            match r {
                Some((ht, hh)) => all_terminal_or_honor(self@.groups) && ht == has_terminal(
                    self@.groups,
                ) && hh == has_honor(self@.groups),
                None => !all_terminal_or_honor(self@.groups),
            },
    {
        let n = self.groups.len();
        let mut ht = false;
        let mut hh = false;
        let mut i: usize = 0;
        while i < n
            invariant
                i <= n,
                n == self.groups@.len(),
                forall|j: int|
                    0 <= j < i ==> (#[trigger] self.groups@[j]).isterminal || honor(
                        self.groups@[j],
                    ),
                ht == exists|j: int| 0 <= j < i && (#[trigger] self.groups@[j]).isterminal,
                hh == exists|j: int|
                    0 <= j < i && !(#[trigger] self.groups@[j]).isterminal && honor(
                        self.groups@[j],
                    ),
            decreases n - i,
        {
            let g = self.groups[i];
            if g.isterminal {
                assert(self.groups@[i as int].isterminal);
                ht = true;
            } else if matches!(g.suit, Suit::Dragon) || matches!(g.suit, Suit::Wind) {
                assert(!self.groups@[i as int].isterminal && honor(self.groups@[i as int]));
                hh = true;
            } else {
                assert(!(self.groups@[i as int].isterminal || honor(self.groups@[i as int])));
                return None;
            }
            i += 1;
        }
        Some((ht, hh))
    }

    /// All honors.
    pub fn is_tsuuiisou(&self) -> (r: bool)
        requires
            self@.wf(),
        ensures
            r == spec_is_tsuuiisou(self@.groups),
    {
        proof {
            reveal(spec_is_tsuuiisou);
        }
        let n = self.groups.len();
        let mut i: usize = 0;
        while i < n
            invariant
                i <= n,
                n == self.groups@.len(),
                forall|j: int| 0 <= j < i ==> honor(#[trigger] self.groups@[j]),
            decreases n - i,
        {
            proof {
                reveal(spec_is_tsuuiisou);
            }
            let g = self.groups[i];
            if !(matches!(g.suit, Suit::Wind) || matches!(g.suit, Suit::Dragon)) {
                assert(!honor(self.groups@[i as int]));
                return false;
            }
            i += 1;
        }
        true
    }

    /// Seven pairs of honors.
    pub fn is_daichiishin(&self) -> (r: bool)
        requires
            self@.wf(),
        ensures
            r == spec_is_daichiishin(self@.groups),
    {
        proof {
            reveal(spec_is_daichiishin);
            reveal(spec_is_tsuuiisou);
        }
        self.is_tsuuiisou() && self.pairs().len() == 7
    }

    /// Four kans.
    pub fn is_suukantsu(&self) -> (r: bool)
        requires
            self@.wf(),
        ensures
            r == spec_is_suukantsu(self@.groups),
    {
        proof {
            reveal(spec_is_suukantsu);
        }
        self.kans().len() == 4
    }

    /// The yakuhai units: every triplet and kan, counted once per
    /// satisfied condition (prevalent wind, seat wind, dragon), so a
    /// single set may count more than once.
    pub fn is_yakuhai(&self) -> (r: u16)
        requires
            self@.wf(),
        ensures
            r as nat == spec_yakuhai_count(self@),
    {
        let ghost prev = self@.prev;
        let ghost seat = self@.seat;
        proof {
            reveal(yakuhai_in);
            lemma_matching_len(self@.groups, |g: TileGroup| g.group_type == GroupType::Triplet);
            lemma_matching_len(self@.groups, |g: TileGroup| g.group_type == GroupType::Kan);
            lemma_yakuhai_bound(triplet_groups(self@.groups), prev, seat);
            lemma_yakuhai_bound(kan_groups(self@.groups), prev, seat);
        }
        let mut count: u16 = 0;
        let trips = self.triplets();
        let n = trips.len();
        let mut i: usize = 0;
        while i < n
            invariant
                i <= n,
                n == trips@.len(),
                n <= MAX_GROUPS,
                prev == self@.prev,
                seat == self@.seat,
                count as nat == yakuhai_in(trips@.take(i as int), prev, seat),
                count <= 3 * i,
            decreases n - i,
        {
            proof {
                lemma_yakuhai_take_succ(trips@, prev, seat, i as int);
            }
            let g = trips[i];
            if g.value == self.prev_tile.value {
                count += 1;
            }
            if g.value == self.seat_tile.value {
                count += 1;
            }
            if matches!(g.suit, Suit::Dragon) {
                count += 1;
            }
            i += 1;
        }
        assert(trips@.take(n as int) =~= trips@);
        let kans = self.kans();
        let m = kans.len();
        let mut k: usize = 0;
        while k < m
            invariant
                k <= m,
                m == kans@.len(),
                m <= MAX_GROUPS,
                prev == self@.prev,
                seat == self@.seat,
                count as nat == yakuhai_in(triplet_groups(self@.groups), prev, seat) + yakuhai_in(
                    kans@.take(k as int),
                    prev,
                    seat,
                ),
                count <= 192 + 3 * k,
            decreases m - k,
        {
            proof {
                lemma_yakuhai_take_succ(kans@, prev, seat, k as int);
            }
            let g = kans[k];
            if g.value == self.prev_tile.value {
                count += 1;
            }
            if g.value == self.seat_tile.value {
                count += 1;
            }
            if matches!(g.suit, Suit::Dragon) {
                count += 1;
            }
            k += 1;
        }
        assert(kans@.take(m as int) =~= kans@);
        count
    }

    /// Three concealed triplets, discounting the final triplet on a ron
    /// win.
    pub fn is_sanankou(&self, tsumo: bool) -> (r: bool)
        requires
            self@.wf(),
        ensures
            r == spec_is_sanankou(self@, tsumo),
    {
        proof {
            reveal(spec_is_sanankou);
        }
        proof {
            lemma_wf_nonempty(self@);
        }
        let closed_count = self.count_closed_sets();
        let n = self.groups.len();
        let last = self.groups[n - 1];
        let target: usize = if !tsumo && matches!(last.group_type, GroupType::Triplet) {
            4
        } else {
            3
        };
        closed_count == target
    }

    /// Three sequences of one value across the suits.
    pub fn is_sanshokudoujun(&self) -> (r: bool)
        requires
            self@.wf(),
        ensures
            r == spec_is_sanshokudoujun(self@.groups),
    {
        proof {
            reveal(spec_is_sanshokudoujun);
        }
        let seqs = self.sequences();
        if seqs.len() < 3 {
            return false;
        }
        let vals = values_vec(&seqs);
        let deduped = dedup_chars(&vals);
        if seqs.len() == 3 {
            deduped.len() == 1
        } else {
            deduped.len() == 2
        }
    }

    /// Three triplets of one value across the suits, counting kans.
    pub fn is_sanshokudoukou(&self) -> (r: bool)
        requires
            self@.wf(),
        ensures
            r == spec_is_sanshokudoukou(self@.groups),
    {
        proof {
            reveal(spec_is_sanshokudoukou);
        }
        proof {
            lemma_matching_len(self@.groups, |g: TileGroup| g.group_type == GroupType::Triplet);
            lemma_matching_len(self@.groups, |g: TileGroup| g.group_type == GroupType::Kan);
        }
        let trips = self.triplets();
        let kans = self.kans();
        let mut sets: Vec<TileGroup> = Vec::new();
        let n = trips.len();
        let mut i: usize = 0;
        while i < n
            invariant
                i <= n,
                n == trips@.len(),
                sets@ == trips@.take(i as int),
            decreases n - i,
        {
            sets.push(trips[i]);
            assert(sets@ =~= trips@.take(i + 1));
            i += 1;
        }
        assert(trips@.take(n as int) =~= trips@);
        let m = kans.len();
        let mut k: usize = 0;
        while k < m
            invariant
                k <= m,
                m == kans@.len(),
                sets@ == trips@ + kans@.take(k as int),
            decreases m - k,
        {
            sets.push(kans[k]);
            assert(sets@ =~= trips@ + kans@.take(k + 1));
            k += 1;
        }
        assert(kans@.take(m as int) =~= kans@);
        if sets.len() < 3 {
            return false;
        }
        let vals = values_vec(&sets);
        let deduped = dedup_chars(&vals);
        if sets.len() == 3 {
            deduped.len() == 1
        } else {
            deduped.len() == 2
        }
    }

    /// A half flush: honors, numbered groups, and one numbered suit.
    pub fn is_honitsu(&self) -> (r: bool)
        requires
            self@.wf(),
        ensures
            r == spec_is_honitsu(self@.groups),
    {
        proof {
            reveal(spec_is_honitsu);
        }
        let ghost gs = self.groups@;
        let n = self.groups.len();
        let mut has_honor_flag = false;
        let mut has_normal = false;
        let mut norm_suit = Suit::Manzu;
        let ghost mut widx: int = 0;
        let mut i: usize = 0;
        while i < n
            invariant
                i <= n,
                n == gs.len(),
                gs == self.groups@,
                has_honor_flag == exists|j: int| 0 <= j < i && honor(#[trigger] gs[j]),
                has_normal == exists|j: int| 0 <= j < i && !honor(#[trigger] gs[j]),
                has_normal ==> 0 <= widx < i && !honor(gs[widx]) && gs[widx].suit == norm_suit,
            decreases n - i,
        {
            proof {
                reveal(spec_is_honitsu);
            }
            let g = self.groups[i];
            if matches!(g.suit, Suit::Dragon) || matches!(g.suit, Suit::Wind) {
                assert(honor(gs[i as int]));
                has_honor_flag = true;
            } else {
                assert(!honor(gs[i as int]));
                has_normal = true;
                norm_suit = g.suit;
                proof {
                    widx = i as int;
                }
            }
            i += 1;
        }
        if !has_normal || !has_honor_flag {
            return false;
        }
        let mut k: usize = 0;
        while k < n
            invariant
                k <= n,
                n == gs.len(),
                gs == self.groups@,
                0 <= widx < n && !honor(gs[widx]) && gs[widx].suit == norm_suit,
                exists|j: int| 0 <= j < n && honor(#[trigger] gs[j]),
                forall|j: int| 0 <= j < k && !honor(#[trigger] gs[j]) ==> gs[j].suit == norm_suit,
            decreases n - k,
        {
            proof {
                reveal(spec_is_honitsu);
            }
            let g = self.groups[k];
            if !suit_eq(g.suit, norm_suit) && !(matches!(g.suit, Suit::Dragon) || matches!(
                g.suit,
                Suit::Wind,
            )) {
                assert(!honor(gs[k as int]) && !honor(gs[widx]) && gs[k as int].suit != gs[widx].suit);
                return false;
            }
            k += 1;
        }
        true
    }

    /// Two dragon sets and the dragon pair.
    pub fn is_shousangen(&self) -> (r: bool)
        requires
            self@.wf(),
        ensures
            r == spec_is_shousangen(self@.groups),
    {
        proof {
            reveal(spec_is_shousangen);
        }
        let cnt = self.count_dragon_sets();
        let pair_list = self.pairs();
        assert(pair_groups(self@.groups).len() >= 1);
        cnt == 2 && matches!(pair_list[0].suit, Suit::Dragon)
    }

    /// A pure straight in some numbered suit.
    pub fn is_ittsuu(&self) -> (r: bool)
        requires
            self@.wf(),
        ensures
            r == spec_is_ittsuu(self@.groups),
    {
        proof {
            reveal(spec_is_ittsuu);
        }
        let seqs = self.sequences();
        let in_pinzu = ittsuu_scan(&seqs, Suit::Pinzu);
        let in_manzu = ittsuu_scan(&seqs, Suit::Manzu);
        let in_souzu = ittsuu_scan(&seqs, Suit::Souzu);
        in_pinzu || in_manzu || in_souzu
    }

    /// Pinfu: concealed, and no fu reason beyond the base points and
    /// the closed-ron bonus.
    pub fn is_pinfu(&self) -> (r: bool)
        requires
            self@.wf(),
        ensures
            r == spec_is_pinfu(self@),
    {
        proof {
            reveal(spec_is_pinfu);
        }
        if self.isopen {
            return false;
        }
        let fu = self.calculate_fu(false);
        let reasons = fu.1;
        let n = reasons.len();
        let mut i: usize = 0;
        while i < n
            invariant
                i <= n,
                n == reasons@.len(),
                reasons@ == fu_reasons(self@, false),
                forall|j: int|
                    0 <= j < i ==> (#[trigger] reasons@[j]) == Fu::BasePoints || reasons@[j]
                        == Fu::ClosedRon,
            decreases n - i,
        {
            proof {
                reveal(spec_is_pinfu);
            }
            if !(matches!(reasons[i], Fu::BasePoints) || matches!(reasons[i], Fu::ClosedRon)) {
                assert(!(reasons@[i as int] == Fu::BasePoints || reasons@[i as int]
                    == Fu::ClosedRon));
                return false;
            }
            i += 1;
        }
        true
    }

    /// Three dragon sets.
    pub fn is_daisangen(&self) -> (r: bool)
        requires
            self@.wf(),
        ensures
            r == spec_is_daisangen(self@.groups),
    {
        proof {
            reveal(spec_is_daisangen);
        }
        self.count_dragon_sets() == 3
    }

    /// Four concealed sets, won by self-draw or on the pair wait.
    pub fn is_suuankou(&self, tsumo: bool) -> (r: bool)
        requires
            self@.wf(),
        ensures
            r == spec_is_suuankou(self@, tsumo),
    {
        proof {
            reveal(spec_is_suuankou);
        }
        proof {
            lemma_wf_nonempty(self@);
        }
        let n = self.groups.len();
        let last = self.groups[n - 1];
        self.count_closed_sets() == 4 && (tsumo || matches!(last.group_type, GroupType::Pair))
    }

    /// Four concealed sets completed on the lone pair wait.
    pub fn is_suuankoutankiwait(&self) -> (r: bool)
        requires
            self@.wf(),
        ensures
            r == spec_is_suuankoutankiwait(self@),
    {
        proof {
            reveal(spec_is_suuankoutankiwait);
        }
        proof {
            lemma_wf_nonempty(self@);
        }
        let n = self.groups.len();
        let last = self.groups[n - 1];
        self.count_closed_sets() == 4 && matches!(last.group_type, GroupType::Pair)
    }

    /// All terminals.
    pub fn is_chinroutou(&self) -> (r: bool)
        requires
            self@.wf(),
        ensures
            r == spec_is_chinroutou(self@.groups),
    {
        proof {
            reveal(spec_is_chinroutou);
        }
        let n = self.groups.len();
        let mut i: usize = 0;
        while i < n
            invariant
                i <= n,
                n == self.groups@.len(),
                forall|j: int|
                    0 <= j < i ==> (#[trigger] self.groups@[j]).isterminal && self.groups@[j].group_type
                        != GroupType::Sequence,
            decreases n - i,
        {
            proof {
                reveal(spec_is_chinroutou);
            }
            let g = self.groups[i];
            if !g.isterminal || matches!(g.group_type, GroupType::Sequence) {
                assert(!((self.groups@[i as int]).isterminal && self.groups@[i as int].group_type
                    != GroupType::Sequence));
                return false;
            }
            i += 1;
        }
        true
    }

    /// All green: every group drawn from souzu 2, 3, 4, 6, 8 and the
    /// green dragon.
    pub fn is_ryuuiisou(&self) -> (r: bool)
        requires
            self@.wf(),
        ensures
            r == spec_is_ryuuiisou(self@.groups),
    {
        proof {
            reveal(spec_is_ryuuiisou);
        }
        let n = self.groups.len();
        let mut i: usize = 0;
        while i < n
            invariant
                i <= n,
                n == self.groups@.len(),
                forall|j: int| 0 <= j < i ==> green_group(#[trigger] self.groups@[j]),
            decreases n - i,
        {
            proof {
                reveal(spec_is_ryuuiisou);
            }
            let g = self.groups[i];
            let green = if matches!(g.suit, Suit::Souzu) {
                if matches!(g.group_type, GroupType::Sequence) {
                    g.value == '2'
                } else {
                    g.value == '2' || g.value == '3' || g.value == '4' || g.value == '6'
                        || g.value == '8'
                }
            } else {
                matches!(g.suit, Suit::Dragon) && g.value == 'g'
            };
            if !green {
                assert(!green_group(self.groups@[i as int]));
                return false;
            }
            assert(green_group(self.groups@[i as int]));
            i += 1;
        }
        true
    }

    /// Nine gates: concealed, one numbered suit, no kans, and the
    /// 1112345678999 pattern plus one extra tile.
    pub fn is_chuurenpoutou(&self) -> (r: bool)
        requires
            self@.wf(),
        ensures
            r == spec_is_chuurenpoutou(self@),
    {
        proof {
            reveal(spec_is_chuurenpoutou);
        }
        proof {
            lemma_wf_nonempty(self@);
        }
        let ghost gs = self.groups@;
        if self.isopen {
            return false;
        }
        if self.kans().len() != 0 {
            return false;
        }
        let first_suit = self.groups[0].suit;
        if !(matches!(first_suit, Suit::Manzu) || matches!(first_suit, Suit::Pinzu) || matches!(
            first_suit,
            Suit::Souzu,
        )) {
            return false;
        }
        let n = self.groups.len();
        let mut i: usize = 0;
        while i < n
            invariant
                i <= n,
                n == gs.len(),
                gs == self.groups@,
                n >= 1,
                first_suit == gs[0].suit,
                forall|j: int| 0 <= j < i ==> (#[trigger] gs[j]).suit == gs[0].suit,
            decreases n - i,
        {
            proof {
                reveal(spec_is_chuurenpoutou);
            }
            if !suit_eq(self.groups[i].suit, first_suit) {
                assert(gs[i as int].suit != gs[0].suit);
                return false;
            }
            i += 1;
        }
        let c1 = self.count_digit_tiles(1);
        let c2 = self.count_digit_tiles(2);
        let c3 = self.count_digit_tiles(3);
        let c4 = self.count_digit_tiles(4);
        let c5 = self.count_digit_tiles(5);
        let c6 = self.count_digit_tiles(6);
        let c7 = self.count_digit_tiles(7);
        let c8 = self.count_digit_tiles(8);
        let c9 = self.count_digit_tiles(9);
        if c1 < 3 || c9 < 3 || c2 < 1 || c3 < 1 || c4 < 1 || c5 < 1 || c6 < 1 || c7 < 1 || c8 < 1 {
            return false;
        }
        let total = c1 + c2 + c3 + c4 + c5 + c6 + c7 + c8 + c9;
        total == 14
    }

    /// Nine gates waiting on all nine tiles.
    pub fn is_chuurenpoutou9sided(&self) -> (r: bool)
        requires
            self@.wf(),
        ensures
            r == spec_is_chuurenpoutou9sided(self@),
    {
        proof {
            reveal(spec_is_chuurenpoutou9sided);
            reveal(spec_is_chuurenpoutou);
        }
        if !self.is_chuurenpoutou() {
            return false;
        }
        proof {
            lemma_wf_nonempty(self@);
        }
        if !suit_eq(self.win_tile.suit, self.groups[0].suit) {
            return false;
        }
        let dw = crate::tile::digit(self.win_tile.value);
        if dw < 1 {
            return false;
        }
        let c = self.count_digit_tiles(dw);
        let base: u16 = if dw == 1 || dw == 9 {
            3
        } else {
            1
        };
        c == base + 1
    }

    /// Three wind sets and the wind pair.
    pub fn is_shousuushii(&self) -> (r: bool)
        requires
            self@.wf(),
        ensures
            r == spec_is_shousuushii(self@.groups),
    {
        proof {
            reveal(spec_is_shousuushii);
        }
        let cnt = self.count_wind_sets();
        let pair_list = self.pairs();
        assert(pair_groups(self@.groups).len() >= 1);
        cnt == 3 && matches!(pair_list[0].suit, Suit::Wind)
    }

    /// Four wind sets.
    pub fn is_daisuushii(&self) -> (r: bool)
        requires
            self@.wf(),
        ensures
            r == spec_is_daisuushii(self@.groups),
    {
        proof {
            reveal(spec_is_daisuushii);
        }
        self.count_wind_sets() == 4
    }

    /// Blessing of heaven: the dealer wins on the first uninterrupted
    /// draw.
    pub fn is_tenhou(&self, tenhou: bool) -> (r: bool)
        requires
            self@.wf(),
        ensures
            r == spec_is_tenhou(self@, tenhou),
    {
        proof {
            reveal(spec_is_tenhou);
        }
        tenhou && self.seat_tile.value == 'E'
    }

    /// Blessing of earth: a non-dealer wins on the first uninterrupted
    /// draw.
    pub fn is_chiihou(&self, tenhou: bool) -> (r: bool)
        requires
            self@.wf(),
        ensures
            r == spec_is_chiihou(self@, tenhou),
    {
        proof {
            reveal(spec_is_chiihou);
        }
        tenhou && !(self.seat_tile.value == 'E')
    }
}


/// Pinfu requires a concealed hand, all-sequence melds, a pair that
/// scores nothing, and a two-sided sequence wait: the moment any one of
/// these conditions is violated, the hand is not pinfu.
pub proof fn lemma_pinfu_conditions(h: HandView)
    requires
        h.wf(),
        spec_is_pinfu(h),
    ensures
        !h.open,
        triplet_groups(h.groups).len() == 0,
        kan_groups(h.groups).len() == 0,
        forall|i: int|
            0 <= i < h.groups.len() && (#[trigger] h.groups[i]).group_type is Pair
                ==> !scoring_pair(h.groups[i], h.prev, h.seat),
        h.groups.last().group_type is Sequence,
        !single_wait(h),
{
    reveal(spec_is_pinfu);
    reveal(fu_reasons);
    reveal(matching);
    lemma_wf_nonempty(h);
    let gs = h.groups;
    let widx: int = gs.len() - 1;
    lemma_triplet_fu_elems(gs, widx, false);
    lemma_kan_fu_elems(gs);
    lemma_pair_fu_elems(gs, h.prev, h.seat);
    let r = fu_reasons(h, false);
    let header = seq![Fu::BasePoints] + Seq::<Fu>::empty() + seq![Fu::ClosedRon];
    let t = triplet_fu(gs, widx, false);
    let k = kan_fu(gs);
    let p = pair_fu(gs, h.prev, h.seat);
    let w = wait_fu(h);
    assert(r == header + t + k + p + w);
    assert(header.len() == 2);

    if t.len() > 0 {
        assert(r[2] == t[0]);
        assert(false);
    }
    if k.len() > 0 {
        assert(r[2 + t.len() as int] == k[0]);
        assert(false);
    }
    if p.len() > 0 {
        assert(r[2 + t.len() as int + k.len() as int] == p[0]);
        assert(false);
    }
    if single_wait(h) {
        assert(w == seq![Fu::SingleWait]);
        assert(r[2 + t.len() as int + k.len() as int + p.len() as int] == Fu::SingleWait);
        assert(false);
    }

    let last = gs.last();
    assert(last.group_type != GroupType::Single);
    if last.group_type is Triplet {
        assert(triplet_groups(gs).len() >= 1);
        assert(false);
    }
    if last.group_type is Kan {
        assert(kan_groups(gs).len() >= 1);
        assert(false);
    }
    if last.group_type is Pair {
        assert(single_wait(h));
        assert(false);
    }
}

/// Structural suit comparison.
fn suit_eq(a: Suit, b: Suit) -> (r: bool)
    ensures
        r == (a == b),
{
    a == b
}

} // verus!
