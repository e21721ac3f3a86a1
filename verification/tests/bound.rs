use swap_core::amount::Amount;
use swap_core::bound::{calculate_minout, BoundError};

fn amount(value: u64) -> Amount {
    Amount::from_u64(value)
}

fn largest() -> Amount {
    Amount { limbs: [u64::MAX; 4] }
}

#[test]
fn half_percent_of_a_million() {
    assert_eq!(calculate_minout(amount(1_000_000), amount(50)), Ok(amount(995_000)));
}

#[test]
fn no_slippage_keeps_the_expected_output() {
    assert_eq!(calculate_minout(amount(1_000_000), amount(0)), Ok(amount(1_000_000)));
    assert_eq!(calculate_minout(amount(7), amount(0)), Ok(amount(7)));
    assert_eq!(calculate_minout(amount(0), amount(0)), Ok(amount(0)));
}

#[test]
fn full_slippage_keeps_nothing() {
    assert_eq!(calculate_minout(amount(1_000_000), amount(10_000)), Ok(amount(0)));
    assert_eq!(calculate_minout(largest(), amount(10_000)), Ok(amount(0)));
}

#[test]
fn bound_rounds_down() {
    assert_eq!(calculate_minout(amount(1), amount(1)), Ok(amount(0)));
    assert_eq!(calculate_minout(amount(3), amount(5_000)), Ok(amount(1)));
    assert_eq!(calculate_minout(amount(10_001), amount(1)), Ok(amount(9_999)));
    assert_eq!(calculate_minout(amount(19_999), amount(9_999)), Ok(amount(1)));
}

#[test]
fn bound_falls_as_slippage_grows() {
    let expected = amount(123_456_789);
    let mut last = expected;
    let mut bps = 0u64;
    while bps <= 10_000 {
        let bound = calculate_minout(expected, amount(bps)).unwrap();
        assert!(bound.limbs[0] <= last.limbs[0]);
        assert_eq!(bound.limbs[1..], [0u64; 3]);
        last = bound;
        bps += 125;
    }
    assert_eq!(last, amount(0));
}

#[test]
fn slippage_above_the_whole_is_rejected() {
    assert_eq!(
        calculate_minout(amount(1_000_000), amount(10_001)),
        Err(BoundError::InvalidSlippage)
    );
    assert_eq!(
        calculate_minout(amount(0), Amount { limbs: [0, 1, 0, 0] }),
        Err(BoundError::InvalidSlippage)
    );
    assert_eq!(calculate_minout(largest(), largest()), Err(BoundError::InvalidSlippage));
}

#[test]
fn product_beyond_256_bits_is_rejected() {
    assert_eq!(calculate_minout(largest(), amount(1)), Err(BoundError::Overflow));
    assert_eq!(calculate_minout(largest(), amount(0)), Err(BoundError::Overflow));
    assert_eq!(calculate_minout(largest(), amount(9_998)), Err(BoundError::Overflow));
}

#[test]
fn largest_amount_with_one_part_kept() {
    // (2^256 - 1) / 10000, in 64-bit words from the least significant
    let bound = calculate_minout(largest(), amount(9_999)).unwrap();
    assert_eq!(
        bound.limbs,
        [
            0x4a23_39c0_ebed_fa43,
            0x2546_0aa6_4c2f_837b,
            0x295e_9e1b_089a_0275,
            0x0006_8db8_bac7_10cb,
        ]
    );
}

#[test]
fn bound_of_an_amount_beyond_one_word() {
    // 2^200 with a quarter given up: 3 * 2^198
    let expected = Amount { limbs: [0, 0, 0, 1 << 8] };
    assert_eq!(
        calculate_minout(expected, amount(2_500)),
        Ok(Amount { limbs: [0, 0, 0, 3 << 6] })
    );
}

#[test]
fn product_that_just_fits() {
    // the largest expected output whose product with 10000 stays below 2^256
    let limit = Amount {
        limbs: [
            0x4a23_39c0_ebed_fa43,
            0x2546_0aa6_4c2f_837b,
            0x295e_9e1b_089a_0275,
            0x0006_8db8_bac7_10cb,
        ],
    };
    assert_eq!(calculate_minout(limit, amount(0)), Ok(limit));
    let above = Amount { limbs: [limit.limbs[0] + 1, limit.limbs[1], limit.limbs[2], limit.limbs[3]] };
    assert_eq!(calculate_minout(above, amount(0)), Err(BoundError::Overflow));
    assert!(calculate_minout(above, amount(1)).is_ok());
}

#[test]
fn amounts_compare_by_value() {
    assert_eq!(amount(5), Amount { limbs: [5, 0, 0, 0] });
    assert_ne!(amount(5), Amount { limbs: [5, 1, 0, 0] });
    assert_ne!(amount(5), Amount { limbs: [5, 0, 0, 1] });
    assert!(amount(0).same_as(&Amount::zero()));
    assert!(!amount(1).same_as(&Amount::zero()));
}
