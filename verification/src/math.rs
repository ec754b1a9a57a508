//! Shares of a vault: what a deposit is worth in LP tokens, what LP tokens
//! are worth in reserve tokens, and the fee on a profit.
//!
//! The conversions go through the fixed-point numbers of `spl_math`, which
//! keep twelve decimal places in 256 bits and round each product and each
//! quotient to the nearest. On 64-bit amounts no step overflows and the
//! rounding cancels out, so that what comes out is the plain quotient,
//! rounded down.

use vstd::prelude::*;

verus! {

/// The LP tokens that one reserve token buys while the vault is empty.
pub const INITIAL_COLLATERAL_RATIO: u64 = 1;

/// The number of slots in a year.
pub const SLOTS_PER_YEAR: u64 = 63_072_000;

/// One, in basis points.
pub const ONE_AS_BPS: u64 = 10000;

/// Why a computation on shares failed.
#[derive(Clone, Copy, Debug, PartialEq, Eq, Structural)]
pub enum ErrorCode {
    /// A product does not fit in 64 bits.
    OverflowError,
}

/// A fixed-point number of `spl_math`: the four 64-bit words of its 256-bit
/// value, lowest first.
#[derive(Clone, Copy, Debug)]
pub struct PreciseNumber {
    pub value: [u64; 4],
}

impl View for PreciseNumber {
    type V = Seq<u64>;

    open spec fn view(&self) -> Seq<u64> {
        self.value@
    }
}

/// One, as a fixed-point number: ten to the twelfth.
pub open spec fn precise_one() -> int {
    1_000_000_000_000
}

/// What a fixed-point number gets added before it is cut: half of one, so
/// that the cut rounds to the nearest.
pub open spec fn rounding_correction() -> int {
    500_000_000_000
}

/// Two to the 256th: what no fixed-point number reaches.
pub open spec fn precise_limit() -> int {
    0x1_0000_0000_0000_0000_0000_0000_0000_0000_0000_0000_0000_0000_0000_0000_0000_0000_0000int
}

/// The number that four words stand for.
pub open spec fn value_of(words: Seq<u64>) -> int {
    words[0] + words[1] * 0x1_0000_0000_0000_0000 + words[2]
        * 0x1_0000_0000_0000_0000_0000_0000_0000_0000int + words[3]
        * 0x1_0000_0000_0000_0000_0000_0000_0000_0000_0000_0000_0000_0000int
}

/// A fixed-point number, if there is one, by the number it stands for.
pub open spec fn precise_value(number: Option<PreciseNumber>) -> Option<int> {
    match number {
        Some(n) => Some(value_of(n@)),
        None => None,
    }
}

/// A number as a fixed-point number, where it is below the limit.
pub open spec fn below_limit(value: int) -> Option<int> {
    if value < precise_limit() {
        Some(value)
    } else {
        None
    }
}

/// The fixed-point number of a whole number: the whole number times one.
pub open spec fn new_value(value: u128) -> Option<int> {
    below_limit(value * precise_one())
}

/// The product of two fixed-point numbers: their product, rounded to the
/// nearest; or, where that product reaches the limit, the larger cut down
/// to whole numbers first.
pub open spec fn mul_value(left: int, right: int) -> Option<int> {
    if left * right < precise_limit() {
        if left * right + rounding_correction() < precise_limit() {
            Some((left * right + rounding_correction()) / precise_one())
        } else {
            None
        }
    } else if left >= right {
        below_limit((left / precise_one()) * right)
    } else {
        below_limit((right / precise_one()) * left)
    }
}

/// The quotient of two fixed-point numbers: none by zero; else the
/// dividend times one, rounded, by the divisor; or, where the dividend
/// times one reaches the limit, the rounded quotient times one.
pub open spec fn div_value(left: int, right: int) -> Option<int> {
    if right == 0 {
        None
    } else if left * precise_one() < precise_limit() {
        if left * precise_one() + rounding_correction() < precise_limit() {
            Some((left * precise_one() + rounding_correction()) / right)
        } else {
            None
        }
    } else if left + rounding_correction() < precise_limit() {
        below_limit(((left + rounding_correction()) / right) * precise_one())
    } else {
        None
    }
}

/// A fixed-point number without its decimal places.
pub open spec fn floor_value(number: int) -> Option<int> {
    below_limit((number / precise_one()) * precise_one())
}

/// The whole number nearest to a fixed-point number.
pub open spec fn imprecise_value(number: int) -> Option<int> {
    if number + rounding_correction() < precise_limit() {
        Some((number + rounding_correction()) / precise_one())
    } else {
        None
    }
}

/// Calls `PreciseNumber::new`, which multiplies the whole number by one,
/// in 256 bits, and gives none where that overflows.
#[verifier::external_body]
fn new_precise(value: u128) -> (number: Option<PreciseNumber>)
    ensures
        precise_value(number) == new_value(value),
{
    match spl_math::precise_number::PreciseNumber::new(value) {
        Some(n) => Some(PreciseNumber { value: n.value.0 }),
        None => None,
    }
}

/// Calls `PreciseNumber::checked_mul`, which works in 256 bits with
/// checked steps: the product plus the rounding correction, by one; or,
/// where the product overflows, the larger factor by one, times the other.
#[verifier::external_body]
fn mul_precise(left: &PreciseNumber, right: &PreciseNumber) -> (number: Option<PreciseNumber>)
    ensures
        precise_value(number) == mul_value(value_of(left@), value_of(right@)),
{
    let l = spl_math::precise_number::PreciseNumber { value: spl_math::uint::U256(left.value) };
    let r = spl_math::precise_number::PreciseNumber { value: spl_math::uint::U256(right.value) };
    match l.checked_mul(&r) {
        Some(n) => Some(PreciseNumber { value: n.value.0 }),
        None => None,
    }
}

/// Calls `PreciseNumber::checked_div`, which refuses a divisor of zero
/// and else works in 256 bits with checked steps: the dividend times one
/// plus the rounding correction, by the divisor; or, where the dividend
/// times one overflows, the dividend plus the rounding correction, by the
/// divisor, times one.
#[verifier::external_body]
fn div_precise(left: &PreciseNumber, right: &PreciseNumber) -> (number: Option<PreciseNumber>)
    ensures
        precise_value(number) == div_value(value_of(left@), value_of(right@)),
{
    let l = spl_math::precise_number::PreciseNumber { value: spl_math::uint::U256(left.value) };
    let r = spl_math::precise_number::PreciseNumber { value: spl_math::uint::U256(right.value) };
    match l.checked_div(&r) {
        Some(n) => Some(PreciseNumber { value: n.value.0 }),
        None => None,
    }
}

/// Calls `PreciseNumber::floor`, which divides by one and multiplies by
/// one again, in 256 bits with checked steps.
#[verifier::external_body]
fn floor_precise(number: &PreciseNumber) -> (floor: Option<PreciseNumber>)
    ensures
        precise_value(floor) == floor_value(value_of(number@)),
{
    let n = spl_math::precise_number::PreciseNumber { value: spl_math::uint::U256(number.value) };
    match n.floor() {
        Some(f) => Some(PreciseNumber { value: f.value.0 }),
        None => None,
    }
}

/// Whether a fixed-point number is small enough to be turned into a whole
/// number of 128 bits: below two to the 167th.
pub open spec fn fits_imprecise(number: Seq<u64>) -> bool {
    number.len() == 4 && number[3] == 0 && number[2] < 0x80_0000_0000
}

/// Calls `PreciseNumber::to_imprecise`, which adds the rounding
/// correction and divides by one, and panics where the quotient does not
/// fit in 128 bits; the bound keeps such numbers out.
#[verifier::external_body]
fn to_imprecise(number: &PreciseNumber) -> (whole: Option<u128>)
    requires
        fits_imprecise(number@),
    ensures
        match imprecise_value(value_of(number@)) {
            Some(value) => whole == Some(value as u128),
            None => whole is None,
        },
{
    let n = spl_math::precise_number::PreciseNumber { value: spl_math::uint::U256(number.value) };
    n.to_imprecise()
}

/// The whole number nearest to a fixed-point number, where the number is
/// small enough to have one in 128 bits.
pub open spec fn whole_part(number: Seq<u64>) -> Option<u128> {
    if fits_imprecise(number) {
        match imprecise_value(value_of(number)) {
            Some(value) => Some(value as u128),
            None => None,
        }
    } else {
        None
    }
}

/// Turns a fixed-point number into a whole number; gives none for a number
/// that is too large.
pub fn checked_to_imprecise(number: &PreciseNumber) -> (whole: Option<u128>)
    ensures
        whole == whole_part(number@),
{
    if number.value[3] == 0 && number.value[2] < 0x80_0000_0000 {
        to_imprecise(number)
    } else {
        None
    }
}

/// A whole number as a 64-bit number, where it fits.
pub open spec fn narrowed(whole: Option<u128>) -> Option<u64> {
    match whole {
        Some(value) if value <= u64::MAX => Some(value as u64),
        _ => None,
    }
}

/// Takes a whole number down to 64 bits; gives none where it does not fit.
pub fn narrow(whole: Option<u128>) -> (narrow: Option<u64>)
    ensures
        narrow == narrowed(whole),
{
    match whole {
        Some(value) => {
            if value <= u64::MAX as u128 {
                Some(value as u64)
            } else {
                None
            }
        },
        None => None,
    }
}

/// `first` times `second` divided by `divisor`, rounded down: none where
/// the divisor is zero or the quotient does not fit in 64 bits.
pub open spec fn mul_div_floor(first: u64, second: u64, divisor: u64) -> Option<u64> {
    if divisor == 0 {
        None
    } else if (first * second) / (divisor as int) > u64::MAX {
        None
    } else {
        Some(((first * second) / (divisor as int)) as u64)
    }
}

/// With a remainder below the scale, scaling dividend and divisor alike
/// leaves the quotient.
proof fn lemma_scaled_quotient(l: int, d: int, m: int, h: int)
    requires
        0 <= l,
        0 < d,
        0 < m,
        0 <= h < m,
    ensures
        (l * m + h) / (d * m) == l / d,
{
    let k = l / d;
    let r = l % d;
    vstd::arithmetic::div_mod::lemma_fundamental_div_mod(l, d);
    assert(0 <= r < d) by {
        vstd::arithmetic::div_mod::lemma_mod_pos_bound(l, d);
    }
    assert(l * m + h == k * (d * m) + (r * m + h)) by (nonlinear_arith)
        requires
            l == d * k + r,
    ;
    assert(0 <= r * m + h < d * m) by (nonlinear_arith)
        requires
            0 <= r < d,
            0 < m,
            0 <= h < m,
    ;
    assert(d * m > 0) by (nonlinear_arith)
        requires
            0 < d,
            0 < m,
    ;
    vstd::arithmetic::div_mod::lemma_fundamental_div_mod_converse(
        l * m + h,
        d * m,
        k,
        r * m + h,
    );
}

/// What the fixed-point numbers make of `first` times `second` by
/// `divisor`, step by step: no step overflows, and the floor of the
/// quotient is the whole quotient, rounded down, times one.
proof fn lemma_precise_steps(first: u64, second: u64, divisor: u64)
    requires
        divisor != 0,
    ensures
        new_value(first as u128) == Some(first * precise_one()),
        new_value(second as u128) == Some(second * precise_one()),
        new_value(divisor as u128) == Some(divisor * precise_one()),
        mul_value(first * precise_one(), second * precise_one()) == Some(
            first * second * precise_one(),
        ),
        div_value(first * second * precise_one(), divisor * precise_one()) is Some,
        ({
            let quotient = div_value(
                first * second * precise_one(),
                divisor * precise_one(),
            )->Some_0;
            let whole = (first * second) / (divisor as int);
            &&& floor_value(quotient) == Some(whole * precise_one())
            &&& imprecise_value(whole * precise_one()) == Some(whole)
            &&& 0 <= whole <= first * second
        }),
{
    let one = precise_one();
    let half = rounding_correction();
    let f = first as int;
    let s = second as int;
    let d = divisor as int;
    let l = f * s;
    assert(0 <= l <= 0xffff_ffff_ffff_ffffint * 0xffff_ffff_ffff_ffffint) by (nonlinear_arith)
        requires
            0 <= f <= 0xffff_ffff_ffff_ffff,
            0 <= s <= 0xffff_ffff_ffff_ffff,
            l == f * s,
    ;
    // the product
    assert((f * one) * (s * one) == (l * one) * one) by (nonlinear_arith)
        requires
            l == f * s,
    ;
    assert((l * one) * one < precise_limit() - half) by (nonlinear_arith)
        requires
            0 <= l <= 0xffff_ffff_ffff_ffffint * 0xffff_ffff_ffff_ffffint,
            one == 1_000_000_000_000,
            half == 500_000_000_000,
            precise_limit()
                == 0x1_0000_0000_0000_0000_0000_0000_0000_0000_0000_0000_0000_0000_0000_0000_0000_0000_0000int,
    ;
    assert(((l * one) * one + half) / one == l * one) by {
        assert((l * one) * one == one * (l * one)) by (nonlinear_arith);
        vstd::arithmetic::div_mod::lemma_div_multiples_vanish_fancy(l * one, half, one);
    }
    assert(0 <= l * one) by (nonlinear_arith)
        requires
            0 <= l,
            one == 1_000_000_000_000,
    ;
    // the quotient
    let q = ((l * one) * one + half) / (d * one);
    assert(d * one > 0) by (nonlinear_arith)
        requires
            d > 0,
            one == 1_000_000_000_000,
    ;
    assert(q / one == l / d) by {
        vstd::arithmetic::div_mod::lemma_div_denominator((l * one) * one + half, d * one, one);
        assert((l * one) * one == l * (one * one)) by (nonlinear_arith);
        assert((d * one) * one == d * (one * one)) by (nonlinear_arith);
        assert(one * one == 1_000_000_000_000_000_000_000_000int) by (nonlinear_arith)
            requires
                one == 1_000_000_000_000,
        ;
        lemma_scaled_quotient(l, d, one * one, half);
    }
    let whole = l / d;
    assert(0 <= whole <= l) by {
        vstd::arithmetic::div_mod::lemma_div_pos_is_pos(l, d);
        vstd::arithmetic::div_mod::lemma_div_is_ordered_by_denominator(l, 1, d);
        vstd::arithmetic::div_mod::lemma_div_basics(l);
    }
    assert(0 <= q) by {
        vstd::arithmetic::div_mod::lemma_div_pos_is_pos((l * one) * one + half, d * one);
    }
    assert(whole * one < precise_limit() - half) by (nonlinear_arith)
        requires
            0 <= whole <= l,
            0 <= l <= 0xffff_ffff_ffff_ffffint * 0xffff_ffff_ffff_ffffint,
            one == 1_000_000_000_000,
            half == 500_000_000_000,
            precise_limit()
                == 0x1_0000_0000_0000_0000_0000_0000_0000_0000_0000_0000_0000_0000_0000_0000_0000_0000_0000int,
    ;
    assert((whole * one + half) / one == whole) by {
        assert(whole * one == one * whole) by (nonlinear_arith);
        vstd::arithmetic::div_mod::lemma_div_multiples_vanish_fancy(whole, half, one);
    }
    assert(f * s * one == l * one);
    assert(f * one < precise_limit() && s * one < precise_limit() && d * one < precise_limit())
        by (nonlinear_arith)
        requires
            0 <= f <= 0xffff_ffff_ffff_ffff,
            0 <= s <= 0xffff_ffff_ffff_ffff,
            0 <= d <= 0xffff_ffff_ffff_ffff,
            one == 1_000_000_000_000,
            precise_limit()
                == 0x1_0000_0000_0000_0000_0000_0000_0000_0000_0000_0000_0000_0000_0000_0000_0000_0000_0000int,
    ;
}

/// Computes `first` times `second` divided by `divisor`, rounded down.
fn calc_mul_div_floor(first: u64, second: u64, divisor: u64) -> (res: Option<u64>)
    ensures
        res == mul_div_floor(first, second, divisor),
{
    proof {
        if divisor != 0 {
            lemma_precise_steps(first, second, divisor);
        }
        assert(new_value(first as u128) is Some && new_value(second as u128) is Some) by {
            assert(first * precise_one() < precise_limit() && second * precise_one()
                < precise_limit()) by (nonlinear_arith)
                requires
                    0 <= first <= 0xffff_ffff_ffff_ffff,
                    0 <= second <= 0xffff_ffff_ffff_ffff,
                    precise_one() == 1_000_000_000_000,
                    precise_limit()
                        == 0x1_0000_0000_0000_0000_0000_0000_0000_0000_0000_0000_0000_0000_0000_0000_0000_0000_0000int,
            ;
        }
    }
    let a = new_precise(first as u128)?;
    let b = new_precise(second as u128)?;
    let c = new_precise(divisor as u128)?;
    let product = mul_precise(&a, &b)?;
    let quotient = div_precise(&product, &c)?;
    let floor = floor_precise(&quotient)?;
    proof {
        let whole = (first * second) / (divisor as int);
        assert(value_of(floor@) == whole * precise_one());
        if !fits_imprecise(floor@) {
            assert(value_of(floor@) >= 0x80_0000_0000
                * 0x1_0000_0000_0000_0000_0000_0000_0000_0000int) by (nonlinear_arith)
                requires
                    floor@.len() == 4,
                    floor@[3] >= 1 || floor@[2] >= 0x80_0000_0000,
                    floor@[0] >= 0,
                    floor@[1] >= 0,
                    floor@[2] >= 0,
                    floor@[3] >= 0,
                    value_of(floor@) == floor@[0] + floor@[1] * 0x1_0000_0000_0000_0000
                        + floor@[2] * 0x1_0000_0000_0000_0000_0000_0000_0000_0000int + floor@[3]
                        * 0x1_0000_0000_0000_0000_0000_0000_0000_0000_0000_0000_0000_0000int,
            ;
            assert(whole > u64::MAX) by (nonlinear_arith)
                requires
                    whole * 1_000_000_000_000 >= 0x80_0000_0000
                        * 0x1_0000_0000_0000_0000_0000_0000_0000_0000int,
            ;
        }
    }
    narrow(checked_to_imprecise(&floor))
}

/// The LP tokens that a deposit buys: the deposit itself while the vault
/// holds nothing, and else the share of the LP supply that the deposit is
/// of what the vault holds.
pub open spec fn reserve_to_lp(
    reserve_token_amount: u64,
    lp_token_supply: u64,
    reserve_tokens_in_vault: u64,
) -> Option<u64> {
    if reserve_tokens_in_vault == 0 {
        Some(reserve_token_amount)
    } else {
        mul_div_floor(lp_token_supply, reserve_token_amount, reserve_tokens_in_vault)
    }
}

/// Computes the LP tokens that a deposit buys.
pub fn calc_reserve_to_lp(
    reserve_token_amount: u64,
    lp_token_supply: u64,
    reserve_tokens_in_vault: u64,
) -> (res: Option<u64>)
    ensures
        res == reserve_to_lp(reserve_token_amount, lp_token_supply, reserve_tokens_in_vault),
{
    if reserve_tokens_in_vault == 0 {
        INITIAL_COLLATERAL_RATIO.checked_mul(reserve_token_amount)
    } else {
        calc_mul_div_floor(lp_token_supply, reserve_token_amount, reserve_tokens_in_vault)
    }
}

/// Computes the reserve tokens that LP tokens are worth: the share of what
/// the vault holds that the LP tokens are of the LP supply.
pub fn calc_lp_to_reserve(
    lp_token_amount: u64,
    lp_token_supply: u64,
    reserve_tokens_in_vault: u64,
) -> (res: Option<u64>)
    ensures
        res == mul_div_floor(lp_token_amount, reserve_tokens_in_vault, lp_token_supply),
{
    calc_mul_div_floor(lp_token_amount, reserve_tokens_in_vault, lp_token_supply)
}

/// The fee on a profit at a rate in basis points: the ten-thousandth part
/// of their product, rounded down, where the product fits in 64 bits.
pub open spec fn carry_fees(profit: u64, fee_bps: u64) -> Result<u64, ErrorCode> {
    if profit * fee_bps > u64::MAX {
        Err(ErrorCode::OverflowError)
    } else {
        Ok(((profit * fee_bps) / 10000) as u64)
    }
}

/// Computes the fee on a profit.
pub fn calc_carry_fees(profit: u64, fee_bps: u64) -> (res: Result<u64, ErrorCode>)
    ensures
        res == carry_fees(profit, fee_bps),
{
    match profit.checked_mul(fee_bps) {
        Some(product) => Ok(product / ONE_AS_BPS),
        None => Err(ErrorCode::OverflowError),
    }
}

} // verus!
