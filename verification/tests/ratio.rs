use patchwaste_core::ratio::{mul_wide, Ratio};

#[test]
fn fixed3_rounds_to_the_nearest_thousandth() {
    assert_eq!(Ratio::new(0, 1).to_fixed3(), "0.000");
    assert_eq!(Ratio::new(1, 1).to_fixed3(), "1.000");
    assert_eq!(Ratio::new(1, 2).to_fixed3(), "0.500");
    assert_eq!(Ratio::new(1, 3).to_fixed3(), "0.333");
    assert_eq!(Ratio::new(2, 3).to_fixed3(), "0.667");
    assert_eq!(Ratio::new(10_345_678, 12_345_678).to_fixed3(), "0.838");
    assert_eq!(Ratio::new(12_345_678, 1000).to_fixed3(), "12345.678");
    assert_eq!(Ratio::new(9_999, 10_000).to_fixed3(), "1.000");
    assert_eq!(Ratio::new(u64::MAX, 1).to_fixed3(), "18446744073709551615.000");
    assert_eq!(Ratio::new(1, u64::MAX).to_fixed3(), "0.000");
}

#[test]
fn fixed3_sends_a_tie_to_the_even_thousandth() {
    assert_eq!(Ratio::new(1, 16).to_fixed3(), "0.062");
    assert_eq!(Ratio::new(3, 16).to_fixed3(), "0.188");
    assert_eq!(Ratio::new(1, 2000).to_fixed3(), "0.000");
    assert_eq!(Ratio::new(3, 2000).to_fixed3(), "0.002");
}

#[test]
fn fixed3_names_the_ratios_that_are_no_numbers() {
    assert_eq!(Ratio::infinity().to_fixed3(), "inf");
    assert_eq!(Ratio::new(7, 0).to_fixed3(), "inf");
    assert_eq!(Ratio::new(0, 0).to_fixed3(), "NaN");
}

#[test]
fn kinds_of_ratio_are_told_apart() {
    assert!(Ratio::one().is_finite());
    assert!(!Ratio::one().is_infinite());
    assert!(!Ratio::one().is_nan());
    assert!(Ratio::infinity().is_infinite());
    assert!(!Ratio::infinity().is_finite());
    assert!(Ratio::new(0, 0).is_nan());
    assert!(!Ratio::new(0, 0).is_infinite());
    assert_eq!(Ratio::zero(), Ratio { num: 0, den: 1 });
    assert_eq!(Ratio::one(), Ratio { num: 1, den: 1 });
}

#[test]
fn comparison_is_by_value() {
    assert!(Ratio::new(1, 2).le(&Ratio::new(2, 4)));
    assert!(Ratio::new(2, 4).le(&Ratio::new(1, 2)));
    assert!(Ratio::new(1, 3).le(&Ratio::new(1, 2)));
    assert!(!Ratio::new(1, 2).le(&Ratio::new(1, 3)));
    assert!(Ratio::new(u64::MAX, 1).le(&Ratio::infinity()));
    assert!(!Ratio::infinity().le(&Ratio::new(u64::MAX, 1)));
    assert!(Ratio::infinity().le(&Ratio::new(3, 0)));
    assert!(!Ratio::new(0, 0).le(&Ratio::one()));
    assert!(!Ratio::one().le(&Ratio::new(0, 0)));
    assert!(Ratio::new(u64::MAX, u64::MAX).le(&Ratio::one()));
    assert!(!Ratio::new(u64::MAX, u64::MAX - 1).le(&Ratio::one()));
}

#[test]
fn wide_product_does_not_overflow() {
    assert_eq!(mul_wide(u64::MAX, u64::MAX), (u64::MAX as u128) * (u64::MAX as u128));
    assert_eq!(mul_wide(0, 5), 0);
}
