use imgopt::stats::compression_ratio;

#[test]
fn ratio_is_positive_for_savings() {
    // 1000 -> 400 saves 60.00%.
    assert_eq!(compression_ratio(1000, 400), 6000);
}

#[test]
fn ratio_is_negative_for_growth() {
    // 400 -> 1000 grows by 150.00%.
    assert_eq!(compression_ratio(400, 1000), -15000);
}

#[test]
fn ratio_of_zero_original_is_zero() {
    assert_eq!(compression_ratio(0, 12345), 0);
}

#[test]
fn ratio_of_unchanged_size_is_zero() {
    assert_eq!(compression_ratio(500, 500), 0);
}

#[test]
fn ratio_handles_extreme_growth_without_overflow() {
    let expected: i128 = -((u64::MAX - 1) as i128 * 10000);
    assert_eq!(compression_ratio(1, u64::MAX), expected);
}

#[test]
fn ratio_truncates_toward_zero() {
    // 3 -> 2 saves one third: 33.33% in hundredths.
    assert_eq!(compression_ratio(3, 2), 3333);
}
