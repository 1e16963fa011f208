use token_manager::{initial_supply, MAX_DECIMALS, WHOLE_TOKENS};

#[test]
fn zero_decimals_gives_the_whole_tokens() {
    assert_eq!(WHOLE_TOKENS, 1_000_000);
    assert_eq!(initial_supply(0), Some(1_000_000));
}

#[test]
fn each_decimal_multiplies_by_ten() {
    assert_eq!(initial_supply(1), Some(10_000_000));
    assert_eq!(initial_supply(2), Some(100_000_000));
    assert_eq!(initial_supply(6), Some(1_000_000_000_000));
    assert_eq!(initial_supply(9), Some(1_000_000_000_000_000));
}

#[test]
fn thirteen_decimals_is_the_last_that_fits() {
    assert_eq!(MAX_DECIMALS, 13);
    assert_eq!(initial_supply(13), Some(10_000_000_000_000_000_000));
    assert_eq!(initial_supply(14), None);
}

#[test]
fn large_precisions_overflow() {
    assert_eq!(initial_supply(19), None);
    assert_eq!(initial_supply(20), None);
    assert_eq!(initial_supply(30), None);
    assert_eq!(initial_supply(255), None);
}

#[test]
fn supply_matches_the_formula_wherever_it_fits() {
    let mut expected: u128 = 1_000_000;
    for decimals in 0..=255u8 {
        let fits = expected <= u64::MAX as u128;
        match initial_supply(decimals) {
            Some(units) => {
                assert!(fits);
                assert_eq!(units as u128, expected);
            }
            None => assert!(!fits),
        }
        expected = expected.saturating_mul(10);
    }
}
