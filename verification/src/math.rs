//! The mathematical vocabulary in which the contracts of this crate are stated.
use vstd::prelude::*;

verus! {

/// `v` brought into the closed range `[lo, hi]`.
pub open spec fn clamp(v: int, lo: int, hi: int) -> int {
    if v < lo {
        lo
    } else if v > hi {
        hi
    } else {
        v
    }
}

/// The absolute value of `v`.
pub open spec fn abs_int(v: int) -> nat {
    if v < 0 {
        (-v) as nat
    } else {
        v as nat
    }
}

/// The integer with the given sign and magnitude.
pub open spec fn signed(negative: bool, magnitude: nat) -> int {
    if negative {
        -magnitude
    } else {
        magnitude as int
    }
}

/// `(negative, magnitude)` stands for `exact`: it is `exact` itself, or, when the
/// magnitude is `u128::MAX`, a value of the same sign at least as far from zero.
/// Clamping to any range within the `u128` magnitudes cannot tell the two apart.
pub open spec fn represents(negative: bool, magnitude: u128, exact: int) -> bool {
    if magnitude == u128::MAX {
        if negative {
            exact <= -(u128::MAX as int)
        } else {
            exact >= u128::MAX
        }
    } else {
        signed(negative, magnitude as nat) == exact
    }
}

/// Division that rounds toward zero, as Rust's `/` on integers does.
pub open spec fn trunc_div(a: int, b: int) -> int
    recommends
        b != 0,
{
    let q = abs_int(a) / abs_int(b);
    if (a < 0) == (b < 0) {
        q as int
    } else {
        -q
    }
}

/// The remainder that goes with [`trunc_div`]: it has the sign of `a`, as Rust's `%` does.
pub open spec fn trunc_rem(a: int, b: int) -> int
    recommends
        b != 0,
{
    let r = abs_int(a) % abs_int(b);
    if a < 0 {
        -r
    } else {
        r as int
    }
}

/// The two's complement bit pattern of `v` in `width` bits.
pub open spec fn pattern_of(v: int, width: nat) -> nat {
    (v % (vstd::arithmetic::power2::pow2(width) as int)) as nat
}

/// The value that the bit pattern `p` of `width` bits stands for.
pub open spec fn value_of_pattern(p: nat, width: nat, is_signed: bool) -> int {
    if is_signed && width > 0 && p >= vstd::arithmetic::power2::pow2((width - 1) as nat) {
        p - vstd::arithmetic::power2::pow2(width)
    } else {
        p as int
    }
}

/// Clamping a value that `(negative, magnitude)` represents gives what clamping the
/// represented value itself gives.
pub proof fn lemma_represents_clamp(negative: bool, magnitude: u128, exact: int, lo: int, hi: int)
    requires
        represents(negative, magnitude, exact),
        -(u128::MAX as int) <= lo <= hi <= u128::MAX,
    ensures
        clamp(signed(negative, magnitude as nat), lo, hi) == clamp(exact, lo, hi),
{
}

} // verus!
