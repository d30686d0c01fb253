//! Parsing, hand validation, fu calculation, yaku detection, and
//! whole scoring requests.

use mahc::calc::get_hand_score;
use mahc::error::HandErr;
use mahc::fu::Fu;
use mahc::hand::Hand;
use mahc::round_context::{Riichi, RoundContext};
use mahc::tile::{GroupType, Suit, TileGroup};
use mahc::yaku::Yaku;

fn strings(v: &[&str]) -> Vec<String> {
    v.iter().map(|s| s.to_string()).collect()
}

fn plain_context() -> RoundContext {
    RoundContext::new(false, None, false, false, false, false, false)
}

#[test]
fn parse_sequence_group() {
    let g = TileGroup::new("123p".to_string()).unwrap();
    assert_eq!(g.value, '1');
    assert_eq!(g.suit, Suit::Pinzu);
    assert_eq!(g.group_type, GroupType::Sequence);
    assert!(g.isterminal);
    assert!(!g.isopen);
}

#[test]
fn parse_open_triplet_group() {
    let g = TileGroup::new("EEEwo".to_string()).unwrap();
    assert_eq!(g.value, 'E');
    assert_eq!(g.suit, Suit::Wind);
    assert_eq!(g.group_type, GroupType::Triplet);
    assert!(g.isopen);
    assert!(!g.isterminal);
}

#[test]
fn parse_pair_and_kan() {
    let pair = TileGroup::new("99m".to_string()).unwrap();
    assert_eq!(pair.group_type, GroupType::Pair);
    assert!(pair.isterminal);
    let kan = TileGroup::new("5555s".to_string()).unwrap();
    assert_eq!(kan.group_type, GroupType::Kan);
    assert!(!kan.isterminal);
}

#[test]
fn parse_rejects_bad_notation() {
    assert_eq!(TileGroup::new("135p".to_string()).unwrap_err(), HandErr::InvalidGroup);
    assert_eq!(TileGroup::new("123x".to_string()).unwrap_err(), HandErr::InvalidSuit);
    assert_eq!(TileGroup::new("".to_string()).unwrap_err(), HandErr::InvalidGroup);
    assert_eq!(TileGroup::new("12345p".to_string()).unwrap_err(), HandErr::InvalidGroup);
    assert_eq!(
        GroupType::group_type_from_string("zzzp".to_string()).unwrap_err(),
        HandErr::InvalidGroup,
    );
    assert_eq!(Suit::suit_from_string("q".to_string()).unwrap_err(), HandErr::InvalidSuit);
    assert_eq!(Suit::suit_from_string("m".to_string()).unwrap(), Suit::Manzu);
}

#[test]
fn hand_shape_is_validated() {
    let bad = Hand::new(
        strings(&["123p", "456p", "11s"]),
        "1p".to_string(),
        "Ew".to_string(),
        "Ew".to_string(),
    );
    assert_eq!(bad.unwrap_err(), HandErr::InvalidShape);

    let seven_pairs = Hand::new(
        strings(&["11p", "22p", "33p", "44s", "55s", "66m", "77m"]),
        "7m".to_string(),
        "Ew".to_string(),
        "Ew".to_string(),
    );
    assert!(seven_pairs.is_ok());
}

#[test]
fn fu_total_is_multiple_of_ten() {
    let hand = Hand::new(
        strings(&["111m", "345p", "EEEw", "678s", "99s"]),
        "9s".to_string(),
        "Ew".to_string(),
        "Sw".to_string(),
    )
    .unwrap();
    let (ron_fu, _) = hand.calculate_fu(false);
    assert_eq!(ron_fu % 10, 0);
    let (tsumo_fu, _) = hand.calculate_fu(true);
    assert_eq!(tsumo_fu % 10, 0);
}

#[test]
fn fu_breakdown_for_closed_ron() {
    // 20 base + 10 closed ron + 8 closed terminal triplet + 8 closed
    // honor triplet + 2 pair wait = 48, rounded up to 50.
    let hand = Hand::new(
        strings(&["111m", "345p", "EEEw", "678s", "99s"]),
        "9s".to_string(),
        "Ew".to_string(),
        "Sw".to_string(),
    )
    .unwrap();
    let (total, reasons) = hand.calculate_fu(false);
    assert_eq!(total, 50);
    assert!(reasons.contains(&Fu::BasePoints));
    assert!(reasons.contains(&Fu::ClosedRon));
    assert!(reasons.contains(&Fu::NonSimpleClosedTriplet));
    assert!(reasons.contains(&Fu::SingleWait));
}

#[test]
fn pinfu_hand_scores_one_han_thirty_fu() {
    let result = get_hand_score(
        strings(&["234p", "345p", "99s", "567s", "678s"]),
        "8s".to_string(),
        0,
        "Ew".to_string(),
        "Ew".to_string(),
        &plain_context(),
        0,
    )
    .unwrap();
    assert!(result.yaku().contains(&Yaku::Pinfu));
    assert_eq!(result.han(), 1);
    assert_eq!(result.fu_score(), 30);
    assert_eq!(result.payment().non_dealer_ron(), 1000);
    assert_eq!(result.payment().dealer_ron(), 1500);
}

#[test]
fn pinfu_rejected_when_any_condition_fails() {
    // A scoring pair (dragons) breaks pinfu.
    let dragon_pair = Hand::new(
        strings(&["234p", "345p", "rrd", "567s", "678s"]),
        "8s".to_string(),
        "Ew".to_string(),
        "Ew".to_string(),
    )
    .unwrap();
    assert!(!dragon_pair.is_pinfu());

    // A triplet breaks pinfu.
    let with_triplet = Hand::new(
        strings(&["234p", "555p", "99s", "567s", "678s"]),
        "8s".to_string(),
        "Ew".to_string(),
        "Ew".to_string(),
    )
    .unwrap();
    assert!(!with_triplet.is_pinfu());

    // A closed-interval wait breaks pinfu.
    let kanchan_wait = Hand::new(
        strings(&["234p", "345p", "99s", "678s", "567s"]),
        "6s".to_string(),
        "Ew".to_string(),
        "Ew".to_string(),
    )
    .unwrap();
    assert!(!kanchan_wait.is_pinfu());

    // An open call breaks pinfu.
    let open_hand = Hand::new(
        strings(&["234po", "345p", "99s", "567s", "678s"]),
        "8s".to_string(),
        "Ew".to_string(),
        "Ew".to_string(),
    )
    .unwrap();
    assert!(!open_hand.is_pinfu());

    // The reference wait satisfies every condition.
    let pinfu = Hand::new(
        strings(&["234p", "345p", "99s", "567s", "678s"]),
        "8s".to_string(),
        "Ew".to_string(),
        "Ew".to_string(),
    )
    .unwrap();
    assert!(pinfu.is_pinfu());
}

#[test]
fn yakuman_excludes_ordinary_yaku() {
    // Big three dragons; the concealed hand would otherwise also earn
    // ordinary yaku, but only the yakuman is reported.
    let result = get_hand_score(
        strings(&["rrrd", "gggd", "wwwd", "123p", "11s"]),
        "1s".to_string(),
        2,
        "Ew".to_string(),
        "Ew".to_string(),
        &plain_context(),
        0,
    )
    .unwrap();
    assert_eq!(result.yaku().len(), 1);
    assert_eq!(result.yaku()[0], Yaku::Daisangen);
    assert!(result.yaku().iter().all(|y| y.is_yakuman()));
    assert_eq!(result.payment().dealer_ron(), 48000);
    assert_eq!(result.payment().non_dealer_ron(), 32000);
    assert_eq!(result.payment().dealer_tsumo(), 16000);
}

#[test]
fn seven_pairs_fixed_at_25_fu() {
    let result = get_hand_score(
        strings(&["11p", "22p", "33p", "44s", "55s", "66m", "88m"]),
        "8m".to_string(),
        0,
        "Ew".to_string(),
        "Ew".to_string(),
        &plain_context(),
        0,
    )
    .unwrap();
    assert!(result.yaku().contains(&Yaku::Chiitoitsu));
    assert_eq!(result.fu_score(), 25);
    assert_eq!(result.han(), 2);
    // 25 fu x 2^(2+2) = 400 base points.
    assert_eq!(result.payment().non_dealer_ron(), 1600);
}

#[test]
fn rinshan_without_kan_is_rejected() {
    let rinshan_context = RoundContext::new(true, None, false, true, false, false, false);
    let result = get_hand_score(
        strings(&["234p", "345p", "99s", "567s", "678s"]),
        "8s".to_string(),
        0,
        "Ew".to_string(),
        "Ew".to_string(),
        &rinshan_context,
        0,
    );
    assert_eq!(result.unwrap_err(), HandErr::RinshanKanWithoutKan);
}

#[test]
fn hand_without_yaku_is_an_error() {
    let result = get_hand_score(
        strings(&["123po", "456p", "789s", "234m", "11s"]),
        "4m".to_string(),
        0,
        "Ew".to_string(),
        "Ew".to_string(),
        &plain_context(),
        0,
    );
    assert_eq!(result.unwrap_err(), HandErr::NoYaku);
}

#[test]
fn dora_adds_han_but_is_never_a_yaku() {
    let without_dora = get_hand_score(
        strings(&["234p", "345p", "99s", "567s", "678s"]),
        "8s".to_string(),
        0,
        "Ew".to_string(),
        "Ew".to_string(),
        &plain_context(),
        0,
    )
    .unwrap();
    let with_dora = get_hand_score(
        strings(&["234p", "345p", "99s", "567s", "678s"]),
        "8s".to_string(),
        2,
        "Ew".to_string(),
        "Ew".to_string(),
        &plain_context(),
        0,
    )
    .unwrap();
    assert_eq!(without_dora.han(), 1);
    assert_eq!(with_dora.han(), 3);
    assert_eq!(without_dora.yaku().len(), with_dora.yaku().len());
}

#[test]
fn yakuhai_counts_every_matching_condition() {
    // The east triplet matches both the seat and the prevalent wind,
    // and the dragon triplet adds a third unit.
    let hand = Hand::new(
        strings(&["rrrd", "EEEw", "234p", "567s", "11m"]),
        "1m".to_string(),
        "Ew".to_string(),
        "Ew".to_string(),
    )
    .unwrap();
    assert_eq!(hand.is_yakuhai(), 3);
}

#[test]
fn riichi_and_ippatsu_add_han() {
    let context = RoundContext::new(false, Some(Riichi::Riichi), true, false, false, false, false);
    let result = get_hand_score(
        strings(&["234p", "345p", "99s", "567s", "678s"]),
        "8s".to_string(),
        0,
        "Ew".to_string(),
        "Ew".to_string(),
        &context,
        0,
    )
    .unwrap();
    assert!(result.yaku().contains(&Yaku::Riichi));
    assert!(result.yaku().contains(&Yaku::Ippatsu));
    assert!(result.yaku().contains(&Yaku::Pinfu));
    assert_eq!(result.han(), 3);
}

#[test]
fn round_context_builder_sets_flags() {
    let round_context = RoundContext::builder()
        .tsumo(true)
        .riichi(Some(Riichi::Riichi))
        .ippatsu(true)
        .build();
    assert!(round_context.tsumo());
    let expected_riichi = Some(Riichi::Riichi);
    assert_eq!(round_context.riichi(), &expected_riichi);
    assert!(round_context.ippatsu());
    assert!(!round_context.rinshan());
    assert!(!round_context.chankan());
    assert!(!round_context.haitei());
    assert!(!round_context.tenhou());
}

#[test]
fn fu_reason_names() {
    assert_eq!(Fu::BasePoints.to_string(), "BasePoints: 20");
    assert_eq!(Fu::BasePointsChitoi.to_string(), "BasePoints: 25");
    assert_eq!(Fu::NonSimpleClosedKan.to_string(), "NonSimpleClosedKan: 32");
    assert_eq!(HandErr::NoYaku.to_string(), "No Yaku!");
}

#[test]
fn honba_applies_at_presentation() {
    let result = get_hand_score(
        strings(&["234p", "345p", "99s", "567s", "678s"]),
        "8s".to_string(),
        0,
        "Ew".to_string(),
        "Ew".to_string(),
        &plain_context(),
        2,
    )
    .unwrap();
    assert_eq!(result.honba(), 2);
    // The stored payment carries no honba; the surcharge is added when
    // the result is presented.
    assert_eq!(result.payment().non_dealer_ron(), 1000);
    let shown = result.payment().apply_honba(result.honba());
    assert_eq!(shown.non_dealer_ron(), 1600);
    assert_eq!(shown.non_dealer_tsumo_to_dealer(), result.payment().non_dealer_tsumo_to_dealer() + 200);
}

#[test]
fn limit_hand_helpers() {
    assert!(mahc::is_limit_hand(5, 1));
    assert!(mahc::is_limit_hand(4, 40));
    assert!(mahc::is_limit_hand(3, 70));
    assert!(!mahc::is_limit_hand(4, 30));
    assert!(!mahc::is_limit_hand(2, 110));
    let tier = mahc::LimitHands::get_limit_hand(6, 30).unwrap();
    assert_eq!(tier, mahc::LimitHands::Haneman);
    assert_eq!(tier.get_score().dealer_ron(), 18000);
    assert!(mahc::LimitHands::get_limit_hand(2, 40).is_none());
}

#[test]
fn stacked_yakuman_pay_additively() {
    // Four concealed triplets completed on the lone pair wait satisfy
    // both the suuankou condition and its tanki-wait variant: two
    // stacked yakuman units.
    let result = get_hand_score(
        strings(&["111s", "222s", "333s", "444s", "55s"]),
        "5s".to_string(),
        0,
        "Ew".to_string(),
        "Ew".to_string(),
        &plain_context(),
        0,
    )
    .unwrap();
    assert_eq!(result.yaku().len(), 2);
    assert!(result.yaku().contains(&Yaku::Suuankou));
    assert!(result.yaku().contains(&Yaku::SuuankouTankiWait));
    assert_eq!(result.payment().dealer_ron(), 96000);
    assert_eq!(result.payment().non_dealer_ron(), 64000);
}

#[test]
fn pinfu_tsumo_fixes_twenty_fu() {
    let tsumo_context = RoundContext::new(true, None, false, false, false, false, false);
    let result = get_hand_score(
        strings(&["234p", "345p", "99s", "567s", "678s"]),
        "8s".to_string(),
        0,
        "Ew".to_string(),
        "Ew".to_string(),
        &tsumo_context,
        0,
    )
    .unwrap();
    assert!(result.yaku().contains(&Yaku::Pinfu));
    assert!(result.yaku().contains(&Yaku::MenzenTsumo));
    assert_eq!(result.han(), 2);
    assert_eq!(result.fu_score(), 20);
    // 20 fu x 2^(2+2) = 320 base points.
    assert_eq!(result.payment().non_dealer_tsumo_to_non_dealer(), 400);
    assert_eq!(result.payment().non_dealer_tsumo_to_dealer(), 700);
}
