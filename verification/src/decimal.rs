//! Arithmetic on quantities in 96-bit decimal numbers.

use rust_decimal::prelude::FromPrimitive;
use rust_decimal::prelude::ToPrimitive;
use rust_decimal::Decimal;
use vstd::prelude::*;

verus! {

/// The first integer that a decimal number cannot hold: 2^96.
pub const DECIMAL_LIMIT: u128 = 0x1_0000_0000_0000_0000_0000_0000;

/// Whether a decimal number can hold the integer `n`.
pub open spec fn fits_decimal(n: int) -> bool {
    0 <= n < DECIMAL_LIMIT
}

/// The product of two integers in decimal numbers: exact where both and the
/// product fit in 96 bits, and absent elsewhere.
pub open spec fn decimal_product(a: u128, b: u128) -> Option<u128> {
    if fits_decimal(a as int) && fits_decimal(b as int) && fits_decimal(a * b) {
        Some((a * b) as u128)
    } else {
        None
    }
}

/// The sum of two integers in decimal numbers: exact where both and the sum
/// fit in 96 bits, and absent elsewhere.
pub open spec fn decimal_sum(a: u128, b: u128) -> Option<u128> {
    if fits_decimal(a as int) && fits_decimal(b as int) && fits_decimal(a + b) {
        Some((a + b) as u128)
    } else {
        None
    }
}

/// What `Decimal::checked_div` followed by `to_u128` gives for the integers
/// `n` and `d`: the quotient as far as 96 bits hold it, rounded in its last
/// decimal place, then cut to an integer.
pub uninterp spec fn decimal_quotient(n: u128, d: u128) -> Option<u128>;

/// Multiplies two integers with `Decimal::checked_mul`.
///
/// Trusted: `Decimal::from_u128` gives `None` from 2^96 on; the product of
/// two integers has scale 0 and is exact, and `checked_mul` gives `None`
/// where it does not fit in 96 bits; `to_u128` gives a non-negative integer
/// back unchanged.
#[verifier::external_body]
fn decimal_mul(a: u128, b: u128) -> (res: Option<u128>)
    ensures
        res == decimal_product(a, b),
{
    let x = Decimal::from_u128(a)?;
    let y = Decimal::from_u128(b)?;
    x.checked_mul(y)?.to_u128()
}

/// Adds two integers with `Decimal::checked_add`.
///
/// Trusted: as for the product, the sum of two integers is exact, and
/// `checked_add` gives `None` where it does not fit in 96 bits.
#[verifier::external_body]
fn decimal_add(a: u128, b: u128) -> (res: Option<u128>)
    ensures
        res == decimal_sum(a, b),
{
    let x = Decimal::from_u128(a)?;
    let y = Decimal::from_u128(b)?;
    x.checked_add(y)?.to_u128()
}

/// Divides two integers with `Decimal::checked_div` and cuts the quotient to
/// an integer with `to_u128`.
///
/// Trusted: the result depends on `n` and `d` alone. Nothing else is claimed
/// of it.
#[verifier::external_body]
fn decimal_div(n: u128, d: u128) -> (res: Option<u128>)
    ensures
        res == decimal_quotient(n, d),
{
    let x = Decimal::from_u128(n)?;
    let y = Decimal::from_u128(d)?;
    x.checked_div(y)?.to_u128()
}

/// What `decimal_quote` returns: the quotient that decimal arithmetic finds
/// for `des_balance * src_qty / (src_balance + src_qty)`, where product and
/// sum fit in 96 bits.
pub open spec fn decimal_quote_value(src_balance: u128, src_qty: u128, des_balance: u128) -> Option<
    u128,
> {
    if fits_decimal(src_balance as int) && fits_decimal(src_qty as int) && fits_decimal(
        des_balance as int,
    ) && fits_decimal(des_balance * src_qty) && fits_decimal(src_balance + src_qty) {
        decimal_quotient((des_balance * src_qty) as u128, (src_balance + src_qty) as u128)
    } else {
        None
    }
}

/// The output of a swap as decimal arithmetic computes it: product, sum and
/// quotient are each taken in 96-bit decimal numbers. `None` where one of
/// them leaves that range.
pub fn decimal_quote(src_balance: u128, src_qty: u128, des_balance: u128) -> (res: Option<u128>)
    ensures
        res == decimal_quote_value(src_balance, src_qty, des_balance),
{
    let product = match decimal_mul(des_balance, src_qty) {
        Some(p) => p,
        None => { return None; },
    };
    let sum = match decimal_add(src_balance, src_qty) {
        Some(s) => s,
        None => { return None; },
    };
    decimal_div(product, sum)
}

} // verus!
