//! The constant-product curve: what a swap pays.

use crate::decimal::decimal_quote;
use crate::wide::mul_div_floor;
use vstd::arithmetic::div_mod::lemma_fundamental_div_mod;
use vstd::arithmetic::div_mod::lemma_fundamental_div_mod_converse;
use vstd::arithmetic::div_mod::lemma_multiply_divide_lt;
use vstd::arithmetic::mul::lemma_mul_is_commutative;
use vstd::arithmetic::mul::lemma_mul_strict_inequality;
use vstd::prelude::*;

verus! {

/// The quantity of the destination asset that `src_qty` of the source asset
/// buys from a pool that holds `src_balance` of the one and `des_balance` of
/// the other: `des_balance * src_qty / (src_balance + src_qty)`, rounded
/// down.
pub open spec fn swap_output(src_balance: nat, src_qty: nat, des_balance: nat) -> nat {
    ((des_balance * src_qty) as int / (src_balance + src_qty) as int) as nat
}

/// A swap pays no more than the pool holds of the destination asset.
pub proof fn lemma_swap_output_at_most_reserve(src_balance: nat, src_qty: nat, des_balance: nat)
    requires
        src_qty > 0,
    ensures
        swap_output(src_balance, src_qty, des_balance) <= des_balance,
{
    crate::wide::lemma_scaled_quotient_bound(
        des_balance as int,
        src_qty as int,
        (src_balance + src_qty) as int,
    );
}

/// A swap never takes the whole reserve of the destination asset while the
/// pool holds some of both assets.
pub proof fn lemma_swap_output_below_reserve(src_balance: nat, src_qty: nat, des_balance: nat)
    requires
        src_qty > 0,
        src_balance > 0,
        des_balance > 0,
    ensures
        swap_output(src_balance, src_qty, des_balance) < des_balance,
{
    let sum = (src_balance + src_qty) as int;
    lemma_mul_strict_inequality(src_qty as int, sum, des_balance as int);
    lemma_mul_is_commutative(src_qty as int, des_balance as int);
    lemma_mul_is_commutative(sum, des_balance as int);
    lemma_multiply_divide_lt((des_balance * src_qty) as int, sum, des_balance as int);
}

/// Whether `quote` is what a swap pays, decided in 128 bits: the answer is
/// no wherever `des_balance * src_qty` does not fit there.
pub fn is_swap_output(src_balance: u128, src_qty: u128, des_balance: u128, quote: u128) -> (res:
    bool)
    requires
        src_qty > 0,
        src_balance + src_qty <= u128::MAX,
    ensures
        res == (des_balance * src_qty <= u128::MAX && quote == swap_output(
            src_balance as nat,
            src_qty as nat,
            des_balance as nat,
        )),
{
    let sum = src_balance + src_qty;
    let product = match des_balance.checked_mul(src_qty) {
        Some(p) => p,
        None => { return false; },
    };
    proof {
        lemma_fundamental_div_mod(product as int, sum as int);
        lemma_mul_is_commutative(sum as int, product as int / sum as int);
    }
    match quote.checked_mul(sum) {
        Some(low) => {
            if low <= product && product - low < sum {
                proof {
                    lemma_fundamental_div_mod_converse(
                        product as int,
                        sum as int,
                        quote as int,
                        product - low,
                    );
                }
                true
            } else {
                false
            }
        },
        None => false,
    }
}

/// What a swap of `src_qty` pays out of `des_balance`.
///
/// The quote is first taken in decimal arithmetic; it stands only if it is
/// the floor of the exact quotient. Where decimal arithmetic has no answer,
/// or one that its rounding has lifted above the floor, the quotient is
/// computed in integers instead.
pub fn get_des_diff_from_src_qty(src_balance: u128, src_qty: u128, des_balance: u128) -> (res: u128)
    requires
        src_qty > 0,
        src_balance + src_qty <= u128::MAX,
    ensures
        res == swap_output(src_balance as nat, src_qty as nat, des_balance as nat),
        res <= des_balance,
        src_balance > 0 && des_balance > 0 ==> res < des_balance,
{
    proof {
        lemma_swap_output_at_most_reserve(src_balance as nat, src_qty as nat, des_balance as nat);
        if src_balance > 0 && des_balance > 0 {
            lemma_swap_output_below_reserve(src_balance as nat, src_qty as nat, des_balance as nat);
        }
    }
    match decimal_quote(src_balance, src_qty, des_balance) {
        Some(quote) => {
            if is_swap_output(src_balance, src_qty, des_balance, quote) {
                return quote;
            }
        },
        None => {},
    }
    mul_div_floor(des_balance, src_qty, src_balance + src_qty)
}

} // verus!
