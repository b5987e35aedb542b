//! Arithmetic on integers held as a sign and a `u128` magnitude.
//!
//! Every integer of every width this crate handles has such a form, so one
//! verified kernel serves all of them: an operation is carried out here and the
//! destination type then clamps the outcome into its own range.
use vstd::prelude::*;
use vstd::arithmetic::power::pow;
use vstd::arithmetic::power2::pow2;
use crate::bits::{lemma_pow2_le, lemma_pow2_top, pow2_u128};
use crate::math::{abs_int, represents, signed, trunc_div, trunc_rem};

verus! {

/// Adds two sign-magnitude integers, saturating the magnitude at `u128::MAX`.
pub fn add_magnitudes(a_negative: bool, a: u128, b_negative: bool, b: u128) -> (r: (bool, u128))
    ensures
        represents(r.0, r.1, signed(a_negative, a as nat) + signed(b_negative, b as nat)),
{
    if a_negative == b_negative {
        if a > u128::MAX - b {
            (a_negative, u128::MAX)
        } else {
            (a_negative, a + b)
        }
    } else if a >= b {
        (a_negative, a - b)
    } else {
        (b_negative, b - a)
    }
}

/// Multiplies two sign-magnitude integers, saturating the magnitude at `u128::MAX`.
pub fn mul_magnitudes(a_negative: bool, a: u128, b_negative: bool, b: u128) -> (r: (bool, u128))
    ensures
        represents(r.0, r.1, signed(a_negative, a as nat) * signed(b_negative, b as nat)),
{
    let negative = a_negative != b_negative;
    proof {
        let x = signed(a_negative, a as nat);
        let y = signed(b_negative, b as nat);
        let p = a as int * b as int;
        assert(x * y == signed(negative, p as nat)) by (nonlinear_arith)
            requires
                x == signed(a_negative, a as nat),
                y == signed(b_negative, b as nat),
                p == a as int * b as int,
                negative == (a_negative != b_negative),
                a >= 0,
                b >= 0,
        ;
        assert(0 <= p) by (nonlinear_arith)
            requires
                p == a as int * b as int,
                a >= 0,
                b >= 0,
        ;
    }
    match a.checked_mul(b) {
        Some(p) => (negative, p),
        None => (negative, u128::MAX),
    }
}

/// Divides two sign-magnitude integers, rounding toward zero.
pub fn div_magnitudes(a_negative: bool, a: u128, b_negative: bool, b: u128) -> (r: (bool, u128))
    requires
        b > 0,
    ensures
        signed(r.0, r.1 as nat) == trunc_div(signed(a_negative, a as nat), signed(b_negative, b as nat)),
        r.1 <= a,
{
    let q = a / b;
    proof {
        assert(abs_int(signed(a_negative, a as nat)) == a);
        assert(abs_int(signed(b_negative, b as nat)) == b);
        assert(q <= a) by (nonlinear_arith)
            requires
                q == a / b,
                b > 0,
                a >= 0,
        ;
    }
    (a_negative != b_negative, q)
}

/// The remainder of dividing two sign-magnitude integers, with the sign of the dividend.
pub fn rem_magnitudes(a_negative: bool, a: u128, b_negative: bool, b: u128) -> (r: (bool, u128))
    requires
        b > 0,
    ensures
        signed(r.0, r.1 as nat) == trunc_rem(signed(a_negative, a as nat), signed(b_negative, b as nat)),
        r.1 < b,
        r.1 <= a,
{
    let r = a % b;
    proof {
        assert(abs_int(signed(a_negative, a as nat)) == a);
        assert(abs_int(signed(b_negative, b as nat)) == b);
        vstd::arithmetic::div_mod::lemma_mod_bound(a as int, b as int);
        vstd::arithmetic::div_mod::lemma_mod_decreases(a as nat, b as nat);
        if a == 0 {
            vstd::arithmetic::div_mod::lemma_small_mod(0, b as nat);
        }
    }
    (a_negative, r)
}

/// Dividing by the negation of a positive divisor negates the Euclidean quotient.
proof fn lemma_div_by_negation(x: int, d: int)
    requires
        d > 0,
    ensures
        x / (-d) == -(x / d),
{
    assert(x / (-d) == -(x / d)) by (nonlinear_arith)
        requires
            d > 0,
    ;
}

/// Euclidean division of two sign-magnitude integers: the quotient that leaves a
/// non-negative remainder.
pub fn div_euclid_magnitudes(a_negative: bool, a: u128, b_negative: bool, b: u128) -> (r: (bool, u128))
    requires
        b > 0,
    ensures
        signed(r.0, r.1 as nat) == signed(a_negative, a as nat) / signed(b_negative, b as nat),
{
    let q = a / b;
    let rem = a % b;
    let ghost x = signed(a_negative, a as nat);
    proof {
        vstd::arithmetic::div_mod::lemma_fundamental_div_mod(a as int, b as int);
        vstd::arithmetic::div_mod::lemma_mod_bound(a as int, b as int);
        lemma_div_by_negation(x, b as int);
    }
    if !a_negative || rem == 0 {
        proof {
            assert(x == signed(a_negative, q as nat) * b + signed(a_negative, rem as nat)) by (nonlinear_arith)
                requires
                    a == b * q + rem,
                    x == signed(a_negative, a as nat),
                    !a_negative || rem == 0,
            ;
            vstd::arithmetic::div_mod::lemma_fundamental_div_mod_converse(
                x,
                b as int,
                signed(a_negative, q as nat),
                rem as int,
            );
        }
        (a_negative != b_negative, q)
    } else {
        proof {
            assert(q < u128::MAX) by (nonlinear_arith)
                requires
                    q == a / b,
                    b >= 2,
                    a <= u128::MAX,
            ;
            assert(x == (-(q + 1)) * b + (b - rem)) by (nonlinear_arith)
                requires
                    a == b * q + rem,
                    x == -a,
            ;
            vstd::arithmetic::div_mod::lemma_fundamental_div_mod_converse(x, b as int, -(q + 1), (b - rem) as int);
        }
        (!b_negative, q + 1)
    }
}

/// The Euclidean remainder of dividing two sign-magnitude integers: it is never negative.
pub fn rem_euclid_magnitudes(a_negative: bool, a: u128, b_negative: bool, b: u128) -> (r: u128)
    requires
        b > 0,
    ensures
        r == signed(a_negative, a as nat) % signed(b_negative, b as nat),
        r < b,
{
    let q = a / b;
    let rem = a % b;
    let ghost x = signed(a_negative, a as nat);
    let ghost y = signed(b_negative, b as nat);
    proof {
        vstd::arithmetic::div_mod::lemma_fundamental_div_mod(a as int, b as int);
        vstd::arithmetic::div_mod::lemma_mod_bound(a as int, b as int);
        assert(rem < b);
        vstd::arithmetic::div_mod::lemma_fundamental_div_mod(x, y);
        lemma_div_by_negation(x, b as int);
    }
    if !a_negative || rem == 0 {
        proof {
            assert(x == signed(a_negative, q as nat) * b + signed(a_negative, rem as nat)) by (nonlinear_arith)
                requires
                    a == b * q + rem,
                    x == signed(a_negative, a as nat),
                    !a_negative || rem == 0,
            ;
            vstd::arithmetic::div_mod::lemma_fundamental_div_mod_converse(
                x,
                b as int,
                signed(a_negative, q as nat),
                rem as int,
            );
            assert(x == y * (x / y) + rem) by (nonlinear_arith)
                requires
                    x == signed(a_negative, q as nat) * b + rem,
                    x / (b as int) == signed(a_negative, q as nat),
                    y == b || y == -b,
                    y == b ==> x / y == x / (b as int),
                    y == -b ==> x / y == -(x / (b as int)),
            ;
        }
        rem
    } else {
        proof {
            assert(x == (-(q + 1)) * b + (b - rem)) by (nonlinear_arith)
                requires
                    a == b * q + rem,
                    x == -a,
            ;
            vstd::arithmetic::div_mod::lemma_fundamental_div_mod_converse(x, b as int, -(q + 1), (b - rem) as int);
            assert(x == y * (x / y) + (b - rem)) by (nonlinear_arith)
                requires
                    x == (-(q + 1)) * b + (b - rem),
                    x / (b as int) == -(q + 1),
                    y == b || y == -b,
                    y == b ==> x / y == x / (b as int),
                    y == -b ==> x / y == -(x / (b as int)),
            ;
        }
        b - rem
    }
}

/// A power of a signed integer has the sign of the base when the exponent is odd,
/// and is non-negative otherwise; its magnitude is the power of the magnitude.
pub proof fn lemma_pow_signed(negative: bool, a: nat, e: nat)
    ensures
        pow(signed(negative, a), e) == signed(negative && e % 2 == 1, pow(a as int, e) as nat),
        pow(a as int, e) >= 0,
    decreases e,
{
    reveal(pow);
    if e > 0 {
        lemma_pow_signed(negative, a, (e - 1) as nat);
        let p = pow(a as int, (e - 1) as nat);
        assert(pow(a as int, e) == a * p);
        assert(a * p >= 0) by (nonlinear_arith)
            requires
                p >= 0,
        ;
        assert(signed(negative, a) * signed(negative && (e - 1) as nat % 2 == 1, p as nat) == signed(
            negative && e % 2 == 1,
            (a * p) as nat,
        )) by (nonlinear_arith)
            requires
                p >= 0,
                e > 0,
        ;
    }
}

/// Raises a sign-magnitude integer to the power `exp`, saturating the magnitude at
/// `u128::MAX`.
pub fn pow_magnitudes(negative: bool, a: u128, exp: u32) -> (r: (bool, u128))
    ensures
        represents(r.0, r.1, pow(signed(negative, a as nat), exp as nat)),
{
    let result_negative = negative && exp % 2 == 1;
    proof {
        lemma_pow_signed(negative, a as nat, exp as nat);
    }
    if a <= 1 {
        proof {
            reveal(pow);
            if a == 0 {
                if exp > 0 {
                    vstd::arithmetic::power::lemma0_pow(exp as nat);
                } else {
                    vstd::arithmetic::power::lemma_pow0(0);
                }
            } else {
                vstd::arithmetic::power::lemma1_pow(exp as nat);
            }
        }
        if a == 0 && exp > 0 {
            (false, 0)
        } else {
            (result_negative, 1)
        }
    } else {
        let mut acc: u128 = 1;
        let mut i: u32 = 0;
        proof {
            vstd::arithmetic::power::lemma_pow0(a as int);
        }
        while i < exp
            invariant
                i <= exp,
                a >= 2,
                acc == pow(a as int, i as nat),
                result_negative == (negative && exp % 2 == 1),
                pow(signed(negative, a as nat), exp as nat) == signed(
                    result_negative,
                    pow(a as int, exp as nat) as nat,
                ),
            decreases exp - i,
        {
            proof {
                reveal(pow);
                assert(pow(a as int, (i + 1) as nat) == a * pow(a as int, i as nat));
            }
            proof {
                assert(acc * a == a * acc) by (nonlinear_arith);
            }
            match acc.checked_mul(a) {
                Some(p) => {
                    acc = p;
                },
                None => {
                    proof {
                        vstd::arithmetic::power::lemma_pow_increases(a as nat, (i + 1) as nat, exp as nat);
                        assert(pow(a as int, exp as nat) > u128::MAX);
                    }
                    return (result_negative, u128::MAX);
                },
            }
            i = i + 1;
        }
        (result_negative, acc)
    }
}

/// A power of a base of at least two is at least the same power of two.
proof fn lemma_pow_at_least_pow2(b: nat, e: nat)
    requires
        b >= 2,
    ensures
        pow(b as int, e) >= vstd::arithmetic::power2::pow2(e),
    decreases e,
{
    reveal(pow);
    vstd::arithmetic::power2::lemma_pow2(e);
    if e > 0 {
        lemma_pow_at_least_pow2(b, (e - 1) as nat);
        vstd::arithmetic::power2::lemma_pow2((e - 1) as nat);
        let p = pow(b as int, (e - 1) as nat);
        let q = pow(2, (e - 1) as nat);
        assert(b * p >= 2 * q) by (nonlinear_arith)
            requires
                b >= 2,
                p >= q,
                q >= 0,
        ;
    }
}

/// `2^128` exceeds every `u128`.
proof fn lemma_pow2_128()
    ensures
        vstd::arithmetic::power2::pow2(128) == u128::MAX + 1,
{
    vstd::arithmetic::power2::lemma2_to64();
    vstd::arithmetic::power2::lemma_pow2_adds(64, 64);
}

/// The integer logarithm of `v` in the given base: the exponent of the greatest
/// power of `base` that does not exceed `v`.
pub fn ilog_magnitude(v: u128, base: u128) -> (r: u32)
    requires
        v >= 1,
        base >= 2,
    ensures
        pow(base as int, r as nat) <= v < pow(base as int, (r + 1) as nat),
{
    let mut x = v;
    let mut k: u32 = 0;
    proof {
        reveal(pow);
        vstd::arithmetic::div_mod::lemma_div_by_self(1);
        assert(v / 1 == v);
    }
    while x >= base
        invariant
            base >= 2,
            v >= 1,
            x >= 1,
            x == (v as int) / pow(base as int, k as nat),
            pow(base as int, k as nat) <= v,
            pow(base as int, k as nat) > 0,
        decreases x,
    {
        let ghost p = pow(base as int, k as nat);
        proof {
            reveal(pow);
            assert(pow(base as int, (k + 1) as nat) == base * p);
            vstd::arithmetic::div_mod::lemma_div_denominator(v as int, p, base as int);
            lemma_pow_at_least_pow2(base as nat, k as nat);
            lemma_pow2_128();
            if k >= 128 {
                vstd::arithmetic::power2::lemma_pow2_strictly_increases(128, k as nat);
            }
            assert(base * p <= v) by (nonlinear_arith)
                requires
                    x == (v as int) / p,
                    x >= base,
                    p > 0,
            ;
            assert(base * p > 0) by (nonlinear_arith)
                requires
                    base >= 2,
                    p > 0,
            ;
            assert(x / base < x) by (nonlinear_arith)
                requires
                    base >= 2,
                    x >= 1,
            ;
            assert(x / base >= 1) by (nonlinear_arith)
                requires
                    base >= 2,
                    x >= base,
            ;
            assert(p * base == base * p) by (nonlinear_arith);
        }
        x = x / base;
        k = k + 1;
    }
    proof {
        let p = pow(base as int, k as nat);
        reveal(pow);
        assert(pow(base as int, (k + 1) as nat) == base * p);
        vstd::arithmetic::div_mod::lemma_fundamental_div_mod(v as int, p);
        vstd::arithmetic::div_mod::lemma_mod_bound(v as int, p);
        assert(v < base * p) by (nonlinear_arith)
            requires
                x == (v as int) / p,
                x < base,
                p > 0,
                v == p * ((v as int) / p) + (v as int) % p,
                (v as int) % p < p,
        ;
    }
    k
}

/// The integer square root: the greatest `r` with `r * r <= v`.
pub fn isqrt_magnitude(v: u128) -> (r: u128)
    ensures
        r * r <= v < (r + 1) * (r + 1),
{
    let mut lo: u128 = 0;
    let mut hi: u128 = 0x1_0000_0000_0000_0000;
    proof {
        assert(hi * hi == u128::MAX + 1) by (nonlinear_arith) requires hi == 0x1_0000_0000_0000_0000;
    }
    while hi - lo > 1
        invariant
            lo < hi <= 0x1_0000_0000_0000_0000,
            lo * lo <= v,
            v < hi * hi,
        decreases hi - lo,
    {
        let mid = lo + (hi - lo) / 2;
        proof {
            assert(mid * mid < 0x1_0000_0000_0000_0000 * 0x1_0000_0000_0000_0000) by (nonlinear_arith)
                requires
                    mid < 0x1_0000_0000_0000_0000,
                    mid >= 0,
            ;
        }
        if mid * mid <= v {
            lo = mid;
        } else {
            hi = mid;
        }
    }
    lo
}

/// Whether `n` is a power of two.
pub open spec fn is_power_of_two(n: nat) -> bool
    decreases n,
{
    if n <= 1 {
        n == 1
    } else {
        n % 2 == 0 && is_power_of_two(n / 2)
    }
}

/// The first power of two, counting up from `p` by doubling, that is at least `n`.
pub open spec fn power_of_two_reaching(n: nat, p: nat) -> nat
    decreases n - p,
{
    if p == 0 || p >= n {
        p
    } else if 2 * p >= n {
        2 * p
    } else {
        power_of_two_reaching(n, 2 * p)
    }
}

/// The least power of two that is at least `n`.
pub open spec fn next_power_of_two(n: nat) -> nat {
    power_of_two_reaching(n, 1)
}

/// Counting up by doubling never goes below the start.
proof fn lemma_power_of_two_reaching_grows(n: nat, p: nat)
    ensures
        power_of_two_reaching(n, p) >= p,
    decreases n - p,
{
    if p != 0 && p < n && 2 * p < n {
        lemma_power_of_two_reaching_grows(n, 2 * p);
    }
}

/// Whether `v` is a power of two.
pub fn is_power_of_two_magnitude(v: u128) -> (r: bool)
    ensures
        r == is_power_of_two(v as nat),
{
    if v == 0 {
        return false;
    }
    let mut x = v;
    while x % 2 == 0
        invariant
            x >= 1,
            is_power_of_two(x as nat) == is_power_of_two(v as nat),
        decreases x,
    {
        x = x / 2;
    }
    x == 1
}

/// The least power of two that is at least `v`, when it does not exceed `max`.
pub fn next_power_of_two_magnitude(v: u128, max: u128) -> (r: Option<u128>)
    requires
        max >= 1,
    ensures
        r == (if next_power_of_two(v as nat) <= max {
            Some(next_power_of_two(v as nat) as u128)
        } else {
            None
        }),
{
    let mut p: u128 = 1;
    while p < v
        invariant
            1 <= p <= max,
            power_of_two_reaching(v as nat, p as nat) == next_power_of_two(v as nat),
        decreases max - p,
    {
        if p > max / 2 {
            proof {
                lemma_power_of_two_reaching_grows(v as nat, (2 * p) as nat);
            }
            return None;
        }
        p = p * 2;
    }
    Some(p)
}

/// A root whose square does not exceed `v` does not exceed `v` itself.
pub proof fn lemma_isqrt_bound(s: int, v: int)
    requires
        0 <= s,
        s * s <= v,
    ensures
        s <= v,
{
    assert(s <= v) by (nonlinear_arith)
        requires
            0 <= s,
            s * s <= v,
    ;
}

/// Multiplies a sign-magnitude integer by `2^n`, saturating the magnitude at `u128::MAX`.
pub fn shl_magnitudes(negative: bool, a: u128, n: u32) -> (r: u128)
    ensures
        represents(negative, r, signed(negative, a as nat) * pow2(n as nat)),
{
    let ghost exact = signed(negative, a as nat) * pow2(n as nat);
    proof {
        vstd::arithmetic::power2::lemma_pow2_pos(n as nat);
        let p = pow2(n as nat);
        assert(exact == signed(negative, (a * p) as nat)) by (nonlinear_arith)
            requires
                exact == signed(negative, a as nat) * p,
                a >= 0,
                p > 0,
        ;
        assert(a * p >= a) by (nonlinear_arith)
            requires
                a >= 0,
                p > 0,
        ;
    }
    if a == 0 {
        proof {
            assert(a * pow2(n as nat) == 0) by (nonlinear_arith)
                requires
                    a == 0,
            ;
        }
        0
    } else if n >= 128 {
        proof {
            lemma_pow2_le(128, n as nat);
            lemma_pow2_top();
            assert(a * pow2(n as nat) >= pow2(n as nat)) by (nonlinear_arith)
                requires
                    a >= 1,
                    pow2(n as nat) > 0,
            ;
            assert(represents(negative, u128::MAX, exact));
        }
        u128::MAX
    } else {
        let p = pow2_u128(n);
        if a > u128::MAX / p {
            proof {
                assert(a * p > u128::MAX) by (nonlinear_arith)
                    requires
                        a > u128::MAX / p,
                        p > 0,
                ;
            }
            u128::MAX
        } else {
            proof {
                assert(a * p <= u128::MAX) by (nonlinear_arith)
                    requires
                        a <= u128::MAX / p,
                        p > 0,
                ;
            }
            a * p
        }
    }
}

/// Divides a sign-magnitude integer by `2^n`, rounding toward negative infinity.
pub fn shr_magnitudes(negative: bool, a: u128, n: u32) -> (r: (bool, u128))
    ensures
        signed(r.0, r.1 as nat) == signed(negative, a as nat) / (pow2(n as nat) as int),
{
    let ghost x = signed(negative, a as nat);
    let ghost big = pow2(n as nat) as int;
    proof {
        vstd::arithmetic::power2::lemma_pow2_pos(n as nat);
        lemma_pow2_top();
        if n >= 128 {
            lemma_pow2_le(128, n as nat);
        }
    }
    if !negative || a == 0 {
        let q = if n >= 128 {
            0
        } else {
            a / pow2_u128(n)
        };
        proof {
            if n >= 128 {
                vstd::arithmetic::div_mod::lemma_basic_div(a as int, big);
            }
        }
        (false, q)
    } else {
        let q = if n >= 128 {
            0
        } else {
            (a - 1) / pow2_u128(n)
        };
        proof {
            if n >= 128 {
                vstd::arithmetic::div_mod::lemma_basic_div((a - 1) as int, big);
            }
            let r = (a - 1) as int % big;
            vstd::arithmetic::div_mod::lemma_fundamental_div_mod((a - 1) as int, big);
            vstd::arithmetic::div_mod::lemma_mod_bound((a - 1) as int, big);
            assert(x == (-(q + 1)) * big + (big - r - 1)) by (nonlinear_arith)
                requires
                    (a - 1) as int == big * q + r,
                    x == -(a as int),
            ;
            vstd::arithmetic::div_mod::lemma_fundamental_div_mod_converse(x, big, -(q + 1), big - r - 1);
            assert(q < u128::MAX) by (nonlinear_arith)
                requires
                    q == (a - 1) as int / big,
                    big > 0,
                    a <= u128::MAX,
                    a >= 1,
            ;
        }
        (true, q + 1)
    }
}

} // verus!
