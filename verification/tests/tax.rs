use terra_cosmwasm_test_contract::contract::calc_withdraw_amount;
use terra_cosmwasm_test_contract::msg::CalcPossibleWithdrawAmount;
use terra_cosmwasm_test_contract::oracle::{TaxCap, TaxRate};
use terra_cosmwasm_test_contract::tax::SCALE;

fn quote(uusd_amount: u128, cap: u128, numerator: u128) -> CalcPossibleWithdrawAmount {
    calc_withdraw_amount(uusd_amount, TaxCap { cap }, TaxRate { numerator, denominator: SCALE })
        .unwrap()
}

#[test]
fn scale_is_ten_to_the_eighteenth() {
    assert_eq!(SCALE, 10u128.pow(18));
}

#[test]
fn one_percent_of_a_million_under_a_high_cap() {
    let quoted = quote(1_000_000, 1_000_000_000_000, 10_000_000_000_000_000);
    assert_eq!(quoted.tax_amount, 990_099);
    assert_eq!(quoted.possible_withdraw_amount, 9_901);
}

#[test]
fn one_percent_of_a_million_under_a_low_cap() {
    let quoted = quote(1_000_000, 1_000, 10_000_000_000_000_000);
    assert_eq!(quoted.tax_amount, 1_000);
    assert_eq!(quoted.possible_withdraw_amount, 999_000);
}

#[test]
fn cap_equal_to_the_proportional_part() {
    let quoted = quote(1_000_000, 990_099, 10_000_000_000_000_000);
    assert_eq!(quoted.tax_amount, 990_099);
    let quoted = quote(1_000_000, 990_098, 10_000_000_000_000_000);
    assert_eq!(quoted.tax_amount, 990_098);
    let quoted = quote(1_000_000, 990_100, 10_000_000_000_000_000);
    assert_eq!(quoted.tax_amount, 990_099);
}

#[test]
fn zero_cap_means_no_tax() {
    for numerator in [0, 1, 10_000_000_000_000_000, SCALE, u128::MAX - SCALE] {
        for amount in [0, 1, 1_000_000, u128::MAX] {
            let quoted = quote(amount, 0, numerator);
            assert_eq!(quoted.tax_amount, 0);
            assert_eq!(quoted.possible_withdraw_amount, amount);
        }
    }
}

#[test]
fn zero_amount_means_no_tax() {
    let quoted = quote(0, u128::MAX, 10_000_000_000_000_000);
    assert_eq!(quoted, CalcPossibleWithdrawAmount { possible_withdraw_amount: 0, tax_amount: 0 });
}

#[test]
fn zero_rate_takes_the_whole_amount_up_to_the_cap() {
    let quoted = quote(1_000, u128::MAX, 0);
    assert_eq!(quoted, CalcPossibleWithdrawAmount { possible_withdraw_amount: 0, tax_amount: 1_000 });
    let quoted = quote(1_000, 400, 0);
    assert_eq!(quoted, CalcPossibleWithdrawAmount { possible_withdraw_amount: 600, tax_amount: 400 });
}

#[test]
fn rate_of_one_halves_the_amount() {
    let quoted = quote(1_001, u128::MAX, SCALE);
    assert_eq!(quoted, CalcPossibleWithdrawAmount { possible_withdraw_amount: 501, tax_amount: 500 });
}

#[test]
fn division_rounds_down() {
    // 10 * SCALE / (3 * SCALE) = 3.33..
    let quoted = quote(10, u128::MAX, 2 * SCALE);
    assert_eq!(quoted.tax_amount, 3);
    assert_eq!(quoted.possible_withdraw_amount, 7);
    // 2 * SCALE / (SCALE + 1) = 1.99..
    let quoted = quote(2, u128::MAX, 1);
    assert_eq!(quoted.tax_amount, 1);
    assert_eq!(quoted.possible_withdraw_amount, 1);
}

#[test]
fn the_product_may_exceed_128_bits() {
    let quoted = quote(u128::MAX, u128::MAX, 0);
    assert_eq!(quoted.tax_amount, u128::MAX);
    assert_eq!(quoted.possible_withdraw_amount, 0);
    // u128::MAX * SCALE / (2 * SCALE)
    let quoted = quote(u128::MAX, u128::MAX, SCALE);
    assert_eq!(quoted.tax_amount, u128::MAX / 2);
    assert_eq!(quoted.possible_withdraw_amount, u128::MAX - u128::MAX / 2);
}

#[test]
fn the_largest_rate_in_range() {
    // SCALE + numerator = u128::MAX
    let quoted = quote(u128::MAX, u128::MAX, u128::MAX - SCALE);
    assert_eq!(quoted.tax_amount, SCALE);
    assert_eq!(quoted.possible_withdraw_amount, u128::MAX - SCALE);
    let quoted = quote(u128::MAX - 1, u128::MAX, u128::MAX - SCALE);
    assert_eq!(quoted.tax_amount, SCALE - 1);
}

#[test]
fn parts_add_up_to_the_amount() {
    let amounts = [0, 1, 2, 999, 1_000_000, 123_456_789_012_345_678_901_234_567_890, u128::MAX];
    let caps = [0, 1, 500, 1_000_000_000_000, u128::MAX];
    let numerators = [0, 1, 10_000_000_000_000_000, SCALE - 1, SCALE, 7 * SCALE, u128::MAX - SCALE];
    for amount in amounts {
        for cap in caps {
            for numerator in numerators {
                let quoted = quote(amount, cap, numerator);
                assert_eq!(quoted.possible_withdraw_amount + quoted.tax_amount, amount);
                assert!(quoted.tax_amount <= amount);
                assert!(quoted.tax_amount <= cap);
            }
        }
    }
}

#[test]
fn tax_is_the_smaller_of_cap_and_proportional_part() {
    let amounts = [0u128, 1, 999, 1_000_000, 340_282_366_920_938_463_463];
    let caps = [0u128, 1, 500, 1_000_000_000_000, u128::MAX];
    let numerators = [0u128, 1, 10_000_000_000_000_000, SCALE, 7 * SCALE];
    for amount in amounts {
        for cap in caps {
            for numerator in numerators {
                let proportional = amount * SCALE / (SCALE + numerator);
                assert_eq!(quote(amount, cap, numerator).tax_amount, cap.min(proportional));
            }
        }
    }
}
