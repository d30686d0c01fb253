//! Manual-mode payment resolution: the han/fu calculator, the limit
//! tiers, and the honba surcharge.

use mahc::calc::{calculate, CalculatorErrors};
use mahc::score::Payment;

fn assert_payment(p: &Payment, dealer_ron: u64, dealer_tsumo: u64, non_dealer_ron: u64, to_non_dealer: u64, to_dealer: u64) {
    assert_eq!(p.dealer_ron(), dealer_ron);
    assert_eq!(p.dealer_tsumo(), dealer_tsumo);
    assert_eq!(p.non_dealer_ron(), non_dealer_ron);
    assert_eq!(p.non_dealer_tsumo_to_non_dealer(), to_non_dealer);
    assert_eq!(p.non_dealer_tsumo_to_dealer(), to_dealer);
}

#[test]
fn no_han_for_calc() {
    let out = calculate(0, 30);
    assert_eq!(out.unwrap_err(), CalculatorErrors::NoHan);
}

#[test]
fn no_fu_for_calc() {
    let out = calculate(4, 0);
    assert_eq!(out.unwrap_err(), CalculatorErrors::NoFu);
}

#[test]
fn valid_calc_input() {
    let out = calculate(4, 30).unwrap().apply_honba(3);
    assert_payment(&out, 12500, 4200, 8600, 2300, 4200);
}

#[test]
fn han_1_fu_30_calc() {
    let out = calculate(1, 30).unwrap().apply_honba(0);
    assert_payment(&out, 1500, 500, 1000, 300, 500);
}

#[test]
fn han_2_fu_80_calc() {
    let out = calculate(2, 80).unwrap().apply_honba(0);
    assert_payment(&out, 7700, 2600, 5200, 1300, 2600);
}

#[test]
fn han_3_mangan_calc() {
    let out = calculate(3, 70).unwrap().apply_honba(3);
    assert_payment(&out, 12900, 4300, 8900, 2300, 4300);
}

#[test]
fn han_4_mangan_calc() {
    let out = calculate(4, 60).unwrap().apply_honba(3);
    assert_payment(&out, 12900, 4300, 8900, 2300, 4300);
}

#[test]
fn han_5_mangan_calc() {
    let out = calculate(5, 70).unwrap().apply_honba(3);
    assert_payment(&out, 12900, 4300, 8900, 2300, 4300);
}

#[test]
fn haneman_calc() {
    let out = calculate(6, 70).unwrap().apply_honba(3);
    assert_payment(&out, 18900, 6300, 12900, 3300, 6300);
    let out = calculate(7, 70).unwrap().apply_honba(3);
    assert_payment(&out, 18900, 6300, 12900, 3300, 6300);
}

#[test]
fn baiman_calc() {
    let out = calculate(8, 70).unwrap().apply_honba(3);
    assert_payment(&out, 24900, 8300, 16900, 4300, 8300);
    let out = calculate(9, 70).unwrap().apply_honba(3);
    assert_payment(&out, 24900, 8300, 16900, 4300, 8300);
    let out = calculate(10, 70).unwrap().apply_honba(3);
    assert_payment(&out, 24900, 8300, 16900, 4300, 8300);
}

#[test]
fn sanbaiman_calc() {
    let out = calculate(11, 70).unwrap().apply_honba(3);
    assert_payment(&out, 36900, 12300, 24900, 6300, 12300);
    let out = calculate(12, 70).unwrap().apply_honba(3);
    assert_payment(&out, 36900, 12300, 24900, 6300, 12300);
}

#[test]
fn kazoeyakuman_calc() {
    let out = calculate(13, 70).unwrap().apply_honba(3);
    assert_payment(&out, 48900, 16300, 32900, 8300, 16300);
}

#[test]
fn no_han_takes_precedence_over_no_fu() {
    let out = calculate(0, 0);
    assert_eq!(out.unwrap_err(), CalculatorErrors::NoHan);
}

#[test]
fn limit_tiers_ignore_fu() {
    let low_fu = calculate(5, 20).unwrap();
    let high_fu = calculate(5, 110).unwrap();
    assert_eq!(low_fu.dealer_ron(), 12000);
    assert_eq!(low_fu, high_fu);
    let mangan_by_fu = calculate(4, 40).unwrap();
    assert_payment(&mangan_by_fu, 12000, 4000, 8000, 2000, 4000);
    let mangan_three_han = calculate(3, 70).unwrap();
    assert_payment(&mangan_three_han, 12000, 4000, 8000, 2000, 4000);
}

#[test]
fn honba_adds_flat_surcharge() {
    let base = calculate(2, 40).unwrap();
    let with_honba = base.apply_honba(2);
    assert_eq!(with_honba.dealer_ron(), base.dealer_ron() + 600);
    assert_eq!(with_honba.non_dealer_ron(), base.non_dealer_ron() + 600);
    assert_eq!(with_honba.dealer_tsumo(), base.dealer_tsumo() + 200);
    assert_eq!(with_honba.non_dealer_tsumo_to_non_dealer(), base.non_dealer_tsumo_to_non_dealer() + 200);
    assert_eq!(with_honba.non_dealer_tsumo_to_dealer(), base.non_dealer_tsumo_to_dealer() + 200);
}

#[test]
fn payments_monotone_below_limit() {
    let mut last: u64 = 0;
    for fu in [20u32, 30, 40, 50, 60] {
        let p = calculate(2, fu).unwrap();
        assert!(p.dealer_ron() >= last);
        last = p.dealer_ron();
    }
    let one_han = calculate(1, 30).unwrap();
    let two_han = calculate(2, 30).unwrap();
    assert!(two_han.dealer_ron() >= one_han.dealer_ron());
    assert!(two_han.non_dealer_ron() >= one_han.non_dealer_ron());
}

#[test]
fn error_messages() {
    assert_eq!(CalculatorErrors::NoHan.to_string(), "No han provided!");
    assert_eq!(CalculatorErrors::NoFu.to_string(), "No fu provided!");
    assert_eq!(CalculatorErrors::NoYaku.to_string(), "No Yaku!");
}
