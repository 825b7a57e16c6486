use mint_token::decimal::{ui_amount_to_amount, Decimal};
use mint_token::error::Error;

fn dec(mantissa: i128, scale: u32) -> Decimal {
    Decimal { mantissa, scale }
}

#[test]
fn one_and_a_half_at_two_places() {
    assert_eq!(ui_amount_to_amount(dec(15, 1), 2), Ok(150));
}

#[test]
fn too_many_fractional_digits() {
    assert_eq!(ui_amount_to_amount(dec(1234, 3), 2), Err(Error::Conversion));
}

#[test]
fn trailing_zeros_are_no_fractional_digits() {
    assert_eq!(ui_amount_to_amount(dec(1500, 3), 1), Ok(15));
    assert_eq!(ui_amount_to_amount(dec(1500, 3), 2), Ok(150));
    assert_eq!(ui_amount_to_amount(dec(1500, 3), 0), Err(Error::Conversion));
    assert_eq!(ui_amount_to_amount(dec(2000, 3), 0), Ok(2));
}

#[test]
fn same_scale_keeps_the_digits() {
    assert_eq!(ui_amount_to_amount(dec(1234, 3), 3), Ok(1234));
    assert_eq!(ui_amount_to_amount(dec(7, 0), 0), Ok(7));
}

#[test]
fn whole_number_scaled_up() {
    assert_eq!(ui_amount_to_amount(dec(3, 0), 9), Ok(3_000_000_000));
    assert_eq!(ui_amount_to_amount(dec(1, 0), 19), Ok(10_000_000_000_000_000_000));
}

#[test]
fn zero_at_any_precision() {
    assert_eq!(ui_amount_to_amount(dec(0, 0), 0), Ok(0));
    assert_eq!(ui_amount_to_amount(dec(0, 0), 255), Ok(0));
    assert_eq!(ui_amount_to_amount(dec(0, 28), 0), Ok(0));
    assert_eq!(ui_amount_to_amount(dec(0, u32::MAX), 3), Ok(0));
}

#[test]
fn negative_amounts_fail() {
    assert_eq!(ui_amount_to_amount(dec(-15, 1), 2), Err(Error::Conversion));
    assert_eq!(ui_amount_to_amount(dec(-1, 0), 0), Err(Error::Conversion));
    assert_eq!(ui_amount_to_amount(dec(i128::MIN, 5), 2), Err(Error::Conversion));
}

#[test]
fn the_largest_amount_and_one_more() {
    let max = u64::MAX as i128;
    assert_eq!(ui_amount_to_amount(dec(max, 0), 0), Ok(u64::MAX));
    assert_eq!(ui_amount_to_amount(dec(max + 1, 0), 0), Err(Error::Conversion));
    assert_eq!(ui_amount_to_amount(dec(max, 2), 2), Ok(u64::MAX));
    assert_eq!(ui_amount_to_amount(dec(max * 100, 2), 0), Ok(u64::MAX));
    assert_eq!(ui_amount_to_amount(dec((max + 1) * 100, 2), 0), Err(Error::Conversion));
}

#[test]
fn scaling_up_past_64_bits_fails() {
    assert_eq!(ui_amount_to_amount(dec(1, 0), 20), Err(Error::Conversion));
    assert_eq!(ui_amount_to_amount(dec(2, 0), 19), Err(Error::Conversion));
    assert_eq!(ui_amount_to_amount(dec(1, 0), 255), Err(Error::Conversion));
    assert_eq!(ui_amount_to_amount(dec(i128::MAX, 0), 1), Err(Error::Conversion));
}

#[test]
fn scale_beyond_the_precision_by_many_places() {
    assert_eq!(ui_amount_to_amount(dec(1, 28), 9), Err(Error::Conversion));
    assert_eq!(ui_amount_to_amount(dec(10i128.pow(28), 28), 0), Ok(1));
    assert_eq!(ui_amount_to_amount(dec(5, u32::MAX), 255), Err(Error::Conversion));
}

#[test]
fn base_units_read_back_are_the_amount() {
    let cases = [(dec(15, 1), 2u8), (dec(1500, 3), 1), (dec(42, 0), 6), (dec(999, 3), 3)];
    for (amount, decimals) in cases {
        let units = ui_amount_to_amount(amount, decimals).unwrap();
        let back = Decimal::from_base_units(units, decimals);
        let left = back.mantissa * 10i128.pow(amount.scale);
        let right = amount.mantissa * 10i128.pow(back.scale);
        assert_eq!(left, right);
    }
}

#[test]
fn from_base_units_converts_back() {
    assert_eq!(Decimal::from_base_units(150, 2), dec(150, 2));
    for (units, decimals) in [(0u64, 0u8), (150, 2), (u64::MAX, 9), (1, 255), (u64::MAX, 255)] {
        assert_eq!(ui_amount_to_amount(Decimal::from_base_units(units, decimals), decimals), Ok(units));
    }
}
