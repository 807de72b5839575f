use ore_app::amount::amount_text;
use ore_app::amount::sol_amount_text;
use ore_app::amount::split_amount;
use ore_app::amount::token_amount_text;
use ore_app::amount::SOL_DECIMALS;
use ore_app::amount::TOKEN_DECIMALS;

#[test]
fn two_and_a_half_tokens_render_as_2_5() {
    assert_eq!(amount_text(2_500_000_000, 9), "2.5");
}

#[test]
fn whole_amounts_render_without_a_point() {
    assert_eq!(amount_text(0, 9), "0");
    assert_eq!(amount_text(1_000_000_000, 9), "1");
    assert_eq!(amount_text(10_000_000_000, 9), "10");
    assert_eq!(amount_text(120_000_000_000, 9), "120");
}

#[test]
fn decimals_end_at_the_last_digit_that_is_not_zero() {
    assert_eq!(amount_text(1, 9), "0.000000001");
    assert_eq!(amount_text(1_000_000, 9), "0.001");
    assert_eq!(amount_text(1_050_000_000, 9), "1.05");
    assert_eq!(amount_text(123_456_789_012, 9), "123.456789012");
    assert_eq!(amount_text(100_000_000_100, 9), "100.0000001");
}

#[test]
fn amount_without_decimals_renders_as_the_integer() {
    assert_eq!(amount_text(42, 0), "42");
    assert_eq!(amount_text(0, 0), "0");
    assert_eq!(amount_text(u64::MAX, 0), "18446744073709551615");
}

#[test]
fn largest_amount_renders_exactly() {
    assert_eq!(amount_text(u64::MAX, 9), "18446744073.709551615");
    assert_eq!(amount_text(u64::MAX, 19), "1.8446744073709551615");
    assert_eq!(amount_text(u64::MAX, 20), "0.18446744073709551615");
    assert_eq!(amount_text(5, 22), "0.0000000000000000000005");
    assert_eq!(amount_text(50, 22), "0.000000000000000000005");
}

#[test]
fn split_amount_divides_by_ten_to_the_decimals() {
    assert_eq!(split_amount(2_500_000_000, 9), (2, 500_000_000));
    assert_eq!(split_amount(999_999_999, 9), (0, 999_999_999));
    assert_eq!(split_amount(1234, 2), (12, 34));
    assert_eq!(split_amount(1234, 0), (1234, 0));
    assert_eq!(split_amount(u64::MAX, 19), (1, 8_446_744_073_709_551_615));
    assert_eq!(split_amount(u64::MAX, 20), (0, u64::MAX));
    assert_eq!(split_amount(u64::MAX, 255), (0, u64::MAX));
}

#[test]
fn token_amounts_have_nine_decimals() {
    assert_eq!(TOKEN_DECIMALS, 9);
    assert_eq!(token_amount_text(2_500_000_000), "2.5");
    assert_eq!(token_amount_text(1), "0.000000001");
    assert_eq!(token_amount_text(1_000_000), "0.001");
}

#[test]
fn lamports_render_as_sol() {
    assert_eq!(SOL_DECIMALS, 9);
    assert_eq!(sol_amount_text(1_000_000_000), "1");
    assert_eq!(sol_amount_text(1), "0.000000001");
    assert_eq!(sol_amount_text(12_340_000_000), "12.34");
}

#[test]
fn exact_rendering_agrees_with_the_float_where_the_float_is_exact() {
    let amount: u64 = 2_500_000_000;
    let as_float = (amount as f64) / 10f64.powf(9.0);
    assert_eq!(amount_text(amount, 9), format!("{}", as_float));
}
