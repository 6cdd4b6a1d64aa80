//! A product of two 128-bit quantities divided by a third, without losing
//! the bits of the product that 128 bits cannot hold.

use vstd::arithmetic::div_mod::lemma_div_is_ordered;
use vstd::arithmetic::div_mod::lemma_div_multiples_vanish;
use vstd::arithmetic::div_mod::lemma_fundamental_div_mod;
use vstd::arithmetic::div_mod::lemma_fundamental_div_mod_converse;
use vstd::arithmetic::mul::lemma_mul_inequality;
use vstd::arithmetic::mul::lemma_mul_is_commutative;
use vstd::prelude::*;

verus! {

/// `x + y` for two numbers below `c`, as a multiple of `c` (none or one) and
/// a rest below `c`.
fn add_reduced(x: u128, y: u128, c: u128) -> (res: (bool, u128))
    requires
        x < c,
        y < c,
    ensures
        res.1 < c,
        x + y == carry_of(res.0) * c + res.1,
{
    if x >= c - y {
        (true, x - (c - y))
    } else {
        (false, x + y)
    }
}

/// One for a carry, zero for none.
spec fn carry_of(carry: bool) -> int {
    if carry {
        1
    } else {
        0
    }
}

/// A quotient is below `b` where its multiple of `c` stays below `c * b`.
proof fn lemma_quotient_below(q: int, c: int, top: int, ra: int, b: int)
    by (nonlinear_arith)
    requires
        0 < c,
        0 <= ra < c,
        0 < b,
        0 <= q,
        q * c <= top,
        top <= ra * b,
    ensures
        q < b,
{
}

/// Adding a number `p = pq * c + pr` to a sum `a = q * c + r`, after the
/// rests have been added with a carry.
proof fn lemma_accumulate(q: int, r: int, pq: int, pr: int, k: int, nr: int, c: int)
    by (nonlinear_arith)
    requires
        r + pr == k * c + nr,
    ensures
        (q + pq + k) * c + nr == (q * c + r) + (pq * c + pr),
{
}

/// Splitting off the lowest bit of the multiplier.
proof fn lemma_odd_step(p: int, n: int, h: int)
    by (nonlinear_arith)
    requires
        n == 2 * h + 1,
    ensures
        p * n == (2 * p) * h + p,
{
}

/// Halving an even multiplier doubles the multiplicand.
proof fn lemma_even_step(p: int, n: int, h: int)
    by (nonlinear_arith)
    requires
        n == 2 * h,
    ensures
        p * n == (2 * p) * h,
{
}

/// A multiplicand is no more than its multiple by a positive number.
proof fn lemma_multiple_bound(p: int, h: int)
    by (nonlinear_arith)
    requires
        0 <= p,
        1 <= h,
    ensures
        p <= p * h,
{
}

/// The quotient of the whole product from the quotient of its two parts.
proof fn lemma_recombine(a: int, b: int, c: int, qa: int, ra: int, q: int, r: int)
    by (nonlinear_arith)
    requires
        0 < c,
        0 <= b <= c,
        0 <= a,
        0 <= qa,
        0 <= q,
        0 <= r,
        a == c * qa + ra,
        0 <= ra,
        ra * b == q * c + r,
    ensures
        a * b == (qa * b + q) * c + r,
        0 <= qa * b <= a,
        qa * b + q <= a,
{
}

/// Scaling by a factor that is no more than the divisor does not enlarge.
pub proof fn lemma_scaled_quotient_bound(a: int, b: int, c: int)
    requires
        0 < c,
        0 <= b <= c,
        0 <= a,
    ensures
        (a * b) / c <= a,
{
    lemma_mul_inequality(b, c, a);
    lemma_mul_is_commutative(a, b);
    lemma_mul_is_commutative(a, c);
    lemma_div_is_ordered(a * b, a * c, c);
    lemma_div_multiples_vanish(a, c);
}

/// The floor of `a * b / c`, for a factor `b` that is no more than the
/// divisor. The product itself is never formed: the quotient is gathered
/// bit by bit of `b`, so every intermediate value stays within 128 bits.
pub fn mul_div_floor(a: u128, b: u128, c: u128) -> (res: u128)
    requires
        0 < c,
        b <= c,
    ensures
        res == (a * b) / (c as int),
        res <= a,
{
    let qa = a / c;
    let ra = a % c;
    let mut q: u128 = 0;
    let mut r: u128 = 0;
    let mut pq: u128 = 0;
    let mut pr: u128 = ra;
    let mut n: u128 = b;
    proof {
        lemma_fundamental_div_mod(a as int, c as int);
        assert(ra * b == (pq * c + pr) * n + (q * c + r)) by (nonlinear_arith)
            requires
                pq == 0,
                q == 0,
                r == 0,
                pr == ra,
                n == b,
        ;
    }
    while n > 0
        invariant
            0 < c,
            ra < c,
            r < c,
            pr < c,
            n <= b,
            ra * b == (pq * c + pr) * n + (q * c + r),
        decreases n,
    {
        let ghost p: int = pq * c + pr;
        let ghost acc: int = q * c + r;
        let h = n / 2;
        assert(0 <= p && 0 <= acc) by (nonlinear_arith)
            requires
                p == pq * c + pr,
                acc == q * c + r,
        ;
        if n % 2 == 1 {
            let (carry, nr) = add_reduced(r, pr, c);
            proof {
                let k = carry_of(carry);
                lemma_accumulate(q as int, r as int, pq as int, pr as int, k, nr as int, c as int);
                lemma_odd_step(p, n as int, h as int);
                assert(0 <= (2 * p) * h) by (nonlinear_arith)
                    requires
                        0 <= p,
                        0 <= h,
                ;
                lemma_quotient_below(q + pq + k, c as int, acc + p, ra as int, b as int);
            }
            q = q + pq + (if carry {
                1
            } else {
                0
            });
            r = nr;
        } else {
            proof {
                lemma_even_step(p, n as int, h as int);
            }
        }
        assert(ra * b == (2 * p) * h + (q * c + r));
        if h > 0 {
            let (carry, npr) = add_reduced(pr, pr, c);
            proof {
                let k = carry_of(carry);
                lemma_accumulate(pq as int, pr as int, pq as int, pr as int, k, npr as int, c as int);
                lemma_multiple_bound(2 * p, h as int);
                assert(0 <= q * c + r) by (nonlinear_arith)
                    requires
                        0 <= q,
                        0 <= c,
                        0 <= r,
                ;
                lemma_quotient_below(pq + pq + k, c as int, 2 * p, ra as int, b as int);
            }
            pq = pq + pq + (if carry {
                1
            } else {
                0
            });
            pr = npr;
        } else {
            assert((2 * p) * h == (pq * c + pr) * h) by (nonlinear_arith)
                requires
                    h == 0,
            ;
        }
        n = h;
    }
    proof {
        assert((pq * c + pr) * n == 0) by (nonlinear_arith)
            requires
                n == 0,
        ;
        lemma_recombine(a as int, b as int, c as int, qa as int, ra as int, q as int, r as int);
        lemma_fundamental_div_mod_converse(a * b, c as int, qa * b + q, r as int);
    }
    qa * b + q
}

} // verus!
