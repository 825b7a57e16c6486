//! Decimal amounts and their conversion to the ledger's base units.

use crate::error::Error;
use vstd::arithmetic::div_mod::{
    lemma_fundamental_div_mod,
    lemma_fundamental_div_mod_converse,
};
use vstd::arithmetic::mul::{
    lemma_mul_equality_converse,
    lemma_mul_inequality,
    lemma_mul_is_associative,
};
use vstd::arithmetic::power::{
    lemma_pow0,
    lemma_pow1,
    lemma_pow_adds,
    lemma_pow_increases,
    lemma_pow_positive,
    pow,
};
use vstd::prelude::*;

verus! {

/// Ten to the power `e`.
pub open spec fn pow10(e: nat) -> int {
    pow(10, e)
}

/// A decimal quantity: `mantissa / 10^scale`.
#[derive(Clone, Copy, Debug, PartialEq, Eq)]
pub struct Decimal {
    /// The digits, as one signed whole number.
    pub mantissa: i128,
    /// How many of the digits stand behind the decimal point.
    pub scale: u32,
}

impl Decimal {
    /// The two decimals denote the same quantity, whatever their scales.
    pub open spec fn same_value(self, other: Decimal) -> bool {
        self.mantissa * pow10(other.scale as nat) == other.mantissa * pow10(self.scale as nat)
    }

    /// The quantity has no more than `decimals` fractional digits: scaled by
    /// `10^decimals` it is a whole number.
    pub open spec fn has_precision(self, decimals: nat) -> bool {
        (self.mantissa * pow10(decimals)) % pow10(self.scale as nat) == 0
    }

    /// The quantity scaled by `10^decimals`, rounded down.
    pub open spec fn scaled(self, decimals: nat) -> int {
        (self.mantissa * pow10(decimals)) / pow10(self.scale as nat)
    }

    /// The quantity in base units at precision `decimals`, where it is a
    /// whole number of them and that number fits in 64 bits.
    pub open spec fn base_units(self, decimals: u8) -> Option<u64> {
        if self.has_precision(decimals as nat) && 0 <= self.scaled(decimals as nat) <= u64::MAX {
            Some(self.scaled(decimals as nat) as u64)
        } else {
            None
        }
    }

    /// The decimal that `amount` base units are worth at precision
    /// `decimals`: `amount / 10^decimals`.
    pub open spec fn spec_from_base_units(amount: u64, decimals: u8) -> Decimal {
        Decimal { mantissa: amount as i128, scale: decimals as u32 }
    }

    /// The decimal that `amount` base units are worth at precision
    /// `decimals`.
    #[verifier::when_used_as_spec(spec_from_base_units)]
    pub fn from_base_units(amount: u64, decimals: u8) -> (ui_amount: Decimal)
        ensures
            ui_amount == Self::spec_from_base_units(amount, decimals),
    {
        Decimal { mantissa: amount as i128, scale: decimals as u32 }
    }
}

proof fn lemma_pow10_positive(e: nat)
    ensures
        pow10(e) > 0,
{
    lemma_pow_positive(10, e);
}

proof fn lemma_pow10_adds(a: nat, b: nat)
    ensures
        pow10(a + b) == pow10(a) * pow10(b),
        pow10(a) > 0,
        pow10(b) > 0,
{
    lemma_pow_adds(10, a, b);
    lemma_pow10_positive(a);
    lemma_pow10_positive(b);
}

proof fn lemma_pow10_succ(e: nat)
    ensures
        pow10(e + 1) == pow10(e) * 10,
        pow10(e) > 0,
{
    lemma_pow10_adds(e, 1);
    lemma_pow1(10);
}

/// A multiple of `p` divides by `p` without remainder.
proof fn lemma_whole(x: int, p: int, v: int)
    requires
        p > 0,
        x == v * p,
    ensures
        x % p == 0,
        x / p == v,
{
    lemma_fundamental_div_mod_converse(x, p, v, 0);
}

/// Where `v` base units are worth the decimal, they are its base units.
proof fn lemma_base_units_of_witness(amount: Decimal, decimals: u8, v: int)
    requires
        v * pow10(amount.scale as nat) == amount.mantissa * pow10(decimals as nat),
    ensures
        amount.has_precision(decimals as nat),
        amount.scaled(decimals as nat) == v,
{
    lemma_pow10_positive(amount.scale as nat);
    lemma_whole(amount.mantissa * pow10(decimals as nat), pow10(amount.scale as nat), v);
}

/// A negative quantity scales to a negative number.
proof fn lemma_negative_scaled(amount: Decimal, decimals: u8)
    requires
        amount.mantissa < 0,
    ensures
        amount.scaled(decimals as nat) < 0,
{
    let p = pow10(amount.scale as nat);
    let x = amount.mantissa * pow10(decimals as nat);
    lemma_pow10_positive(amount.scale as nat);
    lemma_pow10_positive(decimals as nat);
    assert(x < 0) by (nonlinear_arith)
        requires
            x == amount.mantissa * pow10(decimals as nat),
            amount.mantissa < 0,
            pow10(decimals as nat) > 0,
    ;
    lemma_fundamental_div_mod(x, p);
    assert(x / p < 0) by (nonlinear_arith)
        requires
            x == p * (x / p) + (x % p),
            0 <= x % p,
            x < 0,
            p > 0,
    ;
}

/// With `decimals >= scale`, the base units are the mantissa times
/// `10^(decimals - scale)`.
proof fn lemma_scale_up(amount: Decimal, decimals: u8)
    requires
        decimals >= amount.scale,
    ensures
        amount.has_precision(decimals as nat),
        amount.scaled(decimals as nat) == amount.mantissa * pow10((decimals - amount.scale) as nat),
{
    let s = amount.scale as nat;
    let k = (decimals - amount.scale) as nat;
    lemma_pow10_adds(k, s);
    lemma_mul_is_associative(amount.mantissa as int, pow10(k), pow10(s));
    lemma_base_units_of_witness(amount, decimals, amount.mantissa * pow10(k));
}

/// With `decimals < scale`, a mantissa that is `v * 10^(scale - decimals)`
/// gives `v` base units.
proof fn lemma_scale_down(amount: Decimal, decimals: u8, v: int)
    requires
        decimals < amount.scale,
        amount.mantissa == v * pow10((amount.scale - decimals) as nat),
    ensures
        amount.has_precision(decimals as nat),
        amount.scaled(decimals as nat) == v,
{
    let d = decimals as nat;
    let k = (amount.scale - decimals) as nat;
    lemma_pow10_adds(k, d);
    lemma_mul_is_associative(v, pow10(k), pow10(d));
    lemma_base_units_of_witness(amount, decimals, v);
}

/// With `decimals < scale`, a mantissa whose digit at place `i`, counted
/// from the right and below `scale - decimals`, is not zero has more than
/// `decimals` fractional digits.
proof fn lemma_digit_lost(amount: Decimal, decimals: u8, v: int, i: nat)
    requires
        decimals < amount.scale,
        i < amount.scale - decimals,
        amount.mantissa == v * pow10(i),
        v % 10 != 0,
    ensures
        !amount.has_precision(decimals as nat),
{
    let d = decimals as nat;
    let s = amount.scale as nat;
    let m = amount.mantissa as int;
    let r = (s - d - i - 1) as nat;
    if amount.has_precision(d) {
        let q = (m * pow10(d)) / pow10(s);
        lemma_pow10_positive(s);
        lemma_fundamental_div_mod(m * pow10(d), pow10(s));
        assert(m * pow10(d) == pow10(s) * q);
        // 10^s = 10^d * 10^i * 10 * 10^r
        lemma_pow10_adds(d, i + 1 + r);
        lemma_pow10_adds(i + 1, r);
        lemma_pow10_succ(i);
        let pd = pow10(d);
        let pi = pow10(i);
        let pr = pow10(r);
        assert(pow10(s) == pd * ((pi * 10) * pr));
        assert(pd * (v * pi) == pd * (((pi * 10) * pr) * q)) by (nonlinear_arith)
            requires
                m == v * pi,
                m * pd == pow10(s) * q,
                pow10(s) == pd * ((pi * 10) * pr),
        ;
        lemma_mul_equality_converse(pd, v * pi, ((pi * 10) * pr) * q);
        assert(pi * v == pi * ((pr * q) * 10)) by (nonlinear_arith)
            requires
                v * pi == ((pi * 10) * pr) * q,
        ;
        lemma_mul_equality_converse(pi, v, (pr * q) * 10);
        lemma_whole(v, 10, pr * q);
    }
}

/// The base units that the decimal `ui_amount` is worth at precision
/// `decimals`. Fails where the amount has more than `decimals` fractional
/// digits, is negative, or comes to more than 64 bits hold: nothing is
/// rounded or cut off.
pub fn ui_amount_to_amount(ui_amount: Decimal, decimals: u8) -> (res: Result<u64, Error>)
    ensures
        res == match ui_amount.base_units(decimals) {
            Some(amount) => Ok::<u64, Error>(amount),
            None => Err::<u64, Error>(Error::Conversion),
        },
{
    let mantissa = ui_amount.mantissa;
    let scale = ui_amount.scale;
    let places = decimals as u32;
    if mantissa < 0 {
        proof {
            lemma_negative_scaled(ui_amount, decimals);
        }
        return Err(Error::Conversion);
    }
    if places >= scale {
        proof {
            lemma_scale_up(ui_amount, decimals);
            lemma_pow0(10);
        }
        if mantissa > u64::MAX as i128 {
            proof {
                lemma_pow10_positive((places - scale) as nat);
                lemma_mul_inequality(1, pow10((places - scale) as nat), mantissa as int);
            }
            return Err(Error::Conversion);
        }
        let steps: u32 = places - scale;
        let mut amount: u64 = mantissa as u64;
        let mut done: u32 = 0;
        while done < steps
            invariant
                done <= steps,
                0 <= mantissa,
                amount == mantissa * pow10(done as nat),
                ui_amount.has_precision(decimals as nat),
                ui_amount.scaled(decimals as nat) == mantissa * pow10(steps as nat),
            decreases steps - done,
        {
            proof {
                lemma_pow10_succ(done as nat);
                lemma_mul_is_associative(mantissa as int, pow10(done as nat), 10);
            }
            if amount > u64::MAX / 10 {
                proof {
                    let next = pow10((done + 1) as nat);
                    let last = pow10(steps as nat);
                    assert(mantissa * next == amount * 10);
                    assert(next <= last) by {
                        lemma_pow_increases(10, (done + 1) as nat, steps as nat);
                    }
                    assert(mantissa * next <= mantissa * last) by (nonlinear_arith)
                        requires
                            next <= last,
                            0 <= mantissa,
                    ;
                }
                return Err(Error::Conversion);
            }
            amount = amount * 10;
            done = done + 1;
        }
        Ok(amount)
    } else {
        let steps: u32 = scale - places;
        let mut rest: u128 = mantissa as u128;
        let mut done: u32 = 0;
        proof {
            lemma_pow0(10);
        }
        while done < steps && rest != 0
            invariant
                done <= steps,
                places < scale,
                steps == scale - places,
                mantissa == ui_amount.mantissa,
                scale == ui_amount.scale,
                places == decimals,
                mantissa == rest * pow10(done as nat),
            decreases steps - done,
        {
            if rest % 10 != 0 {
                proof {
                    lemma_digit_lost(ui_amount, decimals, rest as int, done as nat);
                }
                return Err(Error::Conversion);
            }
            proof {
                lemma_pow10_succ(done as nat);
                lemma_mul_is_associative((rest / 10) as int, 10, pow10(done as nat));
            }
            rest = rest / 10;
            done = done + 1;
        }
        proof {
            if rest == 0 {
                assert(mantissa == 0 * pow10(steps as nat)) by (nonlinear_arith)
                    requires
                        mantissa == rest * pow10(done as nat),
                        rest == 0,
                ;
            }
            lemma_scale_down(ui_amount, decimals, rest as int);
        }
        if rest > u64::MAX as u128 {
            Err(Error::Conversion)
        } else {
            Ok(rest as u64)
        }
    }
}

/// Round trip from a decimal: where the amount has no more than `decimals`
/// fractional digits, is not negative and comes to no more than 64 bits
/// hold, its base units read back at the same precision are worth the
/// amount again. Where it has more fractional digits, it has no base units.
pub proof fn lemma_base_units_round_trip(ui_amount: Decimal, decimals: u8)
    ensures
        ui_amount.has_precision(decimals as nat) && 0 <= ui_amount.scaled(decimals as nat)
            <= u64::MAX ==> ui_amount.base_units(decimals) is Some,
        !ui_amount.has_precision(decimals as nat) ==> ui_amount.base_units(decimals) is None,
        ui_amount.base_units(decimals) matches Some(amount) ==> Decimal::from_base_units(
            amount,
            decimals,
        ).same_value(ui_amount),
{
    if ui_amount.base_units(decimals) is Some {
        let x = ui_amount.mantissa * pow10(decimals as nat);
        let p = pow10(ui_amount.scale as nat);
        lemma_pow10_positive(ui_amount.scale as nat);
        lemma_fundamental_div_mod(x, p);
        assert(p * (x / p) == (x / p) * p) by (nonlinear_arith);
    }
}

/// Round trip from base units: the decimal that `amount` base units are
/// worth at precision `decimals` converts back to `amount` at that
/// precision.
pub proof fn lemma_from_base_units_round_trip(amount: u64, decimals: u8)
    ensures
        Decimal::from_base_units(amount, decimals).base_units(decimals) == Some(amount),
{
    lemma_base_units_of_witness(Decimal::from_base_units(amount, decimals), decimals, amount as int);
}

} // verus!
