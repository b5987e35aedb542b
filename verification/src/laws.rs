//! What holds of the operations of this crate taken together: how the saturating
//! conversions compose (stated over [`saturated`], which each conversion between two
//! different integer types is), which bit, byte and sign transformations undo each other,
//! and how decimal text reads back.
use vstd::prelude::*;
use vstd::arithmetic::power2::{pow2, lemma2_to64, lemma_pow2_adds, lemma_pow2_pos, lemma_pow2_unfold};
use crate::bits::{native_bytes, native_little_endian, be_bytes, be_value, le_bytes, le_value, lemma_le_bytes_round_trip, lemma_le_value_round_trip,
    reversed_bits, reversed_bytes, rotated_left, rotated_right};
use crate::common::{saturated, SaturatingFrom, SaturatingInto};
use crate::integer::Integer;
use crate::math::{clamp, pattern_of, value_of_pattern};
use crate::text::{decimal, decimal_digits, digit_char, digits_value, is_decimal_digit, parsed_decimal};

verus! {

/// Clamping into `D` gives the element of `D` nearest to `x`.
proof fn lemma_saturated_value<S: Integer, D: Integer>(x: S)
    ensures
        saturated::<S, D>(x).value() == clamp(
            x.value(),
            D::lower(),
            D::upper(),
        ),
        D::lower() <= D::upper(),
{
    D::lemma_layout();
    lemma_pow2_pos(D::width());
    if D::width() > 0 {
        lemma_pow2_pos((D::width() - 1) as nat);
    }
    D::lemma_of_value(clamp(x.value(), D::lower(), D::upper()));
}

/// `x.saturating_into()` is `D::saturating_from(x)`, for any two types.
pub proof fn lemma_saturating_into_is_saturating_from<S, D: SaturatingFrom<S>>(x: S)
    ensures
        SaturatingInto::<D>::spec_saturating_into(x) == D::spec_saturating_from(x),
{
}

/// Converting a value of any type into its own type gives the value unchanged.
pub proof fn lemma_saturating_from_identity<T>(x: T)
    ensures
        <T as SaturatingFrom<T>>::spec_saturating_from(x) == x,
{
}

/// Clamping an integer into its own type gives it back, so the conversions between
/// integer types agree with the identity where source and destination are one type.
pub proof fn lemma_saturated_into_same_type<T: Integer>(x: T)
    ensures
        saturated::<T, T>(x) == x,
        saturated::<T, T>(x) == <T as SaturatingFrom<T>>::spec_saturating_from(x),
{
    x.lemma_value();
}

/// A saturating conversion keeps every value that the destination can hold, and
/// sends every other value to the destination's bound on the same side.
pub proof fn lemma_saturating_from_exact_or_bound<S: Integer, D: Integer>(x: S)
    ensures
        D::lower() <= x.value() <= D::upper() ==> saturated::<S, D>(
            x,
        ).value() == x.value(),
        x.value() > D::upper() ==> saturated::<S, D>(x).value()
            == D::upper(),
        x.value() < D::lower() ==> saturated::<S, D>(x).value()
            == D::lower(),
{
    lemma_saturated_value::<S, D>(x);
}

/// A saturating conversion keeps the order of its sources.
pub proof fn lemma_saturating_from_monotonic<S: Integer, D: Integer>(x: S, y: S)
    requires
        x.value() <= y.value(),
    ensures
        saturated::<S, D>(x).value() <= saturated::<S, D>(y).value(),
{
    D::lemma_layout();
    lemma_pow2_pos(D::width());
    lemma_saturated_value::<S, D>(x);
    lemma_saturated_value::<S, D>(y);
}

/// Going through a type `M` whose range holds the range of `D` gives what the
/// direct conversion into `D` gives.
pub proof fn lemma_saturating_from_through_wider<S: Integer, M: Integer, D: Integer>(x: S)
    requires
        M::lower() <= D::lower(),
        D::upper() <= M::upper(),
    ensures
        saturated::<M, D>(
            saturated::<S, M>(x),
        ) == saturated::<S, D>(x),
{
    D::lemma_layout();
    lemma_pow2_pos(D::width());
    lemma_saturated_value::<S, M>(x);
    lemma_saturated_value::<M, D>(saturated::<S, M>(x));
    lemma_saturated_value::<S, D>(x);
}

/// Widening into a type `M` whose range holds the range of `S` and saturating back
/// into `S` gives the value it started from.
pub proof fn lemma_widen_then_narrow<S: Integer, M: Integer>(x: S)
    requires
        M::lower() <= S::lower(),
        S::upper() <= M::upper(),
    ensures
        saturated::<M, S>(
            saturated::<S, M>(x),
        ) == x,
{
    x.lemma_value();
    lemma_saturated_value::<S, M>(x);
    let m = saturated::<S, M>(x);
    lemma_saturated_value::<M, S>(m);
    let back = saturated::<M, S>(m);
    back.lemma_value();
    assert(back == S::of_value(back.value()));
}

/// A `width`-bit pattern read as a value and written back is the same pattern.
proof fn lemma_pattern_of_value(p: nat, width: nat, is_signed: bool)
    requires
        p < pow2(width),
    ensures
        pattern_of(value_of_pattern(p, width, is_signed), width) == p,
{
    lemma_pow2_pos(width);
    vstd::arithmetic::div_mod::lemma_small_mod(p, pow2(width));
    if is_signed && width > 0 && p >= pow2((width - 1) as nat) {
        vstd::arithmetic::div_mod::lemma_mod_add_multiples_vanish(p - pow2(width), pow2(width) as int);
    }
}

/// A value of a `T` written as its pattern and read back is the same value.
proof fn lemma_value_of_pattern<T: Integer>(x: T)
    ensures
        value_of_pattern(pattern_of(x.value(), T::width()), T::width(), T::is_signed()) == x.value(),
        pattern_of(x.value(), T::width()) < pow2(T::width()),
{
    x.lemma_value();
    T::lemma_layout();
    let w = T::width();
    let v = x.value();
    lemma_pow2_pos(w);
    lemma_pow2_unfold(w);
    if v >= 0 {
        vstd::arithmetic::div_mod::lemma_small_mod(v as nat, pow2(w));
    } else {
        vstd::arithmetic::div_mod::lemma_mod_add_multiples_vanish(v, pow2(w) as int);
        vstd::arithmetic::div_mod::lemma_small_mod((pow2(w) + v) as nat, pow2(w));
    }
}

/// The little-endian bytes of a value, read back, give the value; so do its
/// big-endian bytes.
pub proof fn lemma_bytes_round_trip<T: Integer>(x: T)
    requires
        T::width() % 8 == 0,
    ensures
        value_of_pattern(
            le_value(le_bytes(pattern_of(x.value(), T::width()), T::width() / 8)),
            T::width(),
            T::is_signed(),
        ) == x.value(),
        value_of_pattern(
            be_value(be_bytes(pattern_of(x.value(), T::width()), T::width() / 8)),
            T::width(),
            T::is_signed(),
        ) == x.value(),
{
    let w = T::width();
    let p = pattern_of(x.value(), w);
    lemma_value_of_pattern(x);
    assert(8 * (w / 8) == w);
    lemma_le_bytes_round_trip(p, w / 8);
    let b = le_bytes(p, w / 8);
    assert(b.reverse().reverse() =~= b);
}

/// Bytes read as a value and written back in the same order are the same bytes.
pub proof fn lemma_value_bytes_round_trip<T: Integer>(bytes: Seq<u8>)
    requires
        T::width() % 8 == 0,
        bytes.len() == T::width() / 8,
    ensures
        le_bytes(pattern_of(value_of_pattern(le_value(bytes), T::width(), T::is_signed()), T::width()), T::width() / 8)
            == bytes,
        be_bytes(pattern_of(value_of_pattern(be_value(bytes), T::width(), T::is_signed()), T::width()), T::width() / 8)
            == bytes,
{
    let w = T::width();
    assert(8 * (w / 8) == w);
    lemma_le_value_round_trip(bytes);
    lemma_pattern_of_value(le_value(bytes), w, T::is_signed());
    let r = bytes.reverse();
    assert(r.len() == bytes.len());
    lemma_le_value_round_trip(r);
    lemma_pattern_of_value(le_value(r), w, T::is_signed());
    assert(r.reverse() =~= bytes);
}

/// Reversing `width` bits gives a `width`-bit pattern.
proof fn lemma_reversed_bits_bound(x: nat, width: nat)
    ensures
        reversed_bits(x, width) < pow2(width),
    decreases width,
{
    if width > 0 {
        lemma_pow2_unfold(width);
        lemma_reversed_bits_bound(x / 2, (width - 1) as nat);
        let q = pow2((width - 1) as nat);
        let rest = reversed_bits(x / 2, (width - 1) as nat);
        assert((x % 2) * q + rest < 2 * q) by (nonlinear_arith)
            requires
                x % 2 < 2,
                rest < q,
        ;
    } else {
        vstd::arithmetic::power2::lemma2_to64();
    }
}

/// Reversing a pattern whose top bit is `h` puts `h` at the bottom, above which
/// come the reversed low bits.
proof fn lemma_reversed_bits_top(h: nat, l: nat, width: nat)
    requires
        width >= 1,
        h < 2,
        l < pow2((width - 1) as nat),
    ensures
        reversed_bits(h * pow2((width - 1) as nat) + l, width) == 2 * reversed_bits(l, (width - 1) as nat) + h,
    decreases width,
{
    vstd::arithmetic::power2::lemma2_to64();
    let q = pow2((width - 1) as nat);
    let x = h * q + l;
    if width == 1 {
        assert(q == 1);
        assert(l == 0);
        assert(x == h) by (nonlinear_arith)
            requires
                x == h * q + l,
                q == 1,
                l == 0,
        ;
    } else {
        let q1 = pow2((width - 2) as nat);
        lemma_pow2_unfold((width - 1) as nat);
        assert(q == 2 * q1);
        vstd::arithmetic::div_mod::lemma_fundamental_div_mod(l as int, 2);
        assert(x == (h * q1 + l / 2) * 2 + l % 2) by (nonlinear_arith)
            requires
                x == h * q + l,
                q == 2 * q1,
                l == 2 * (l / 2) + l % 2,
        ;
        vstd::arithmetic::div_mod::lemma_fundamental_div_mod_converse(
            x as int,
            2,
            (h * q1 + l / 2) as int,
            (l % 2) as int,
        );
        assert(l / 2 < q1) by (nonlinear_arith)
            requires
                l < q,
                q == 2 * q1,
                l == 2 * (l / 2) + l % 2,
                l % 2 >= 0,
        ;
        lemma_reversed_bits_top(h, l / 2, (width - 1) as nat);
        assert((x % 2) * q == 2 * ((l % 2) * q1)) by (nonlinear_arith)
            requires
                x % 2 == l % 2,
                q == 2 * q1,
        ;
    }
}

/// Reversing the bits of a `width`-bit pattern twice gives the pattern again.
proof fn lemma_reversed_bits_twice(x: nat, width: nat)
    requires
        x < pow2(width),
    ensures
        reversed_bits(reversed_bits(x, width), width) == x,
    decreases width,
{
    vstd::arithmetic::power2::lemma2_to64();
    if width > 0 {
        let q = pow2((width - 1) as nat);
        lemma_pow2_unfold(width);
        let rest = reversed_bits(x / 2, (width - 1) as nat);
        lemma_reversed_bits_bound(x / 2, (width - 1) as nat);
        vstd::arithmetic::div_mod::lemma_fundamental_div_mod(x as int, 2);
        assert(x / 2 < q) by (nonlinear_arith)
            requires
                x < 2 * q,
                x == 2 * (x / 2) + x % 2,
                x % 2 >= 0,
        ;
        lemma_reversed_bits_twice(x / 2, (width - 1) as nat);
        lemma_reversed_bits_top(x % 2, rest, width);
    }
}

/// Reversing the bits of a value twice gives the value again.
pub proof fn lemma_reverse_bits_twice<T: Integer>(x: T)
    ensures
        value_of_pattern(
            reversed_bits(
                pattern_of(
                    value_of_pattern(reversed_bits(pattern_of(x.value(), T::width()), T::width()), T::width(), T::is_signed()),
                    T::width(),
                ),
                T::width(),
            ),
            T::width(),
            T::is_signed(),
        ) == x.value(),
{
    let w = T::width();
    let p = pattern_of(x.value(), w);
    lemma_value_of_pattern(x);
    lemma_reversed_bits_bound(p, w);
    lemma_pattern_of_value(reversed_bits(p, w), w, T::is_signed());
    lemma_reversed_bits_twice(p, w);
}

/// `2^(8 * count)` is `256` times `2^(8 * (count - 1))`.
proof fn lemma_pow2_byte_step(count: nat)
    requires
        count >= 1,
    ensures
        pow2(8 * count) == 256 * pow2((8 * (count - 1)) as nat),
{
    lemma2_to64();
    assert(8 * count == 8 + 8 * (count - 1));
    lemma_pow2_adds(8, (8 * (count - 1)) as nat);
}

/// Reversing `count` bytes gives a pattern of `count` bytes.
proof fn lemma_reversed_bytes_bound(x: nat, count: nat)
    ensures
        reversed_bytes(x, count) < pow2(8 * count),
    decreases count,
{
    lemma2_to64();
    if count > 0 {
        lemma_pow2_byte_step(count);
        lemma_reversed_bytes_bound(x / 256, (count - 1) as nat);
        let q = pow2((8 * (count - 1)) as nat);
        let rest = reversed_bytes(x / 256, (count - 1) as nat);
        assert((x % 256) * q + rest < 256 * q) by (nonlinear_arith)
            requires
                x % 256 < 256,
                rest < q,
        ;
    }
}

/// Reversing a pattern whose top byte is `h` puts `h` at the bottom, above which
/// come the reversed low bytes.
proof fn lemma_reversed_bytes_top(h: nat, l: nat, count: nat)
    requires
        count >= 1,
        h < 256,
        l < pow2((8 * (count - 1)) as nat),
    ensures
        reversed_bytes(h * pow2((8 * (count - 1)) as nat) + l, count) == 256 * reversed_bytes(l, (count - 1) as nat)
            + h,
    decreases count,
{
    lemma2_to64();
    let q = pow2((8 * (count - 1)) as nat);
    let x = h * q + l;
    if count == 1 {
        assert(q == 1);
        assert(l == 0);
        assert(x == h) by (nonlinear_arith)
            requires
                x == h * q + l,
                q == 1,
                l == 0,
        ;
        vstd::arithmetic::div_mod::lemma_small_mod(h, 256);
    } else {
        let q1 = pow2((8 * (count - 2)) as nat);
        lemma_pow2_byte_step((count - 1) as nat);
        assert(q == 256 * q1);
        vstd::arithmetic::div_mod::lemma_fundamental_div_mod(l as int, 256);
        assert(x == (h * q1 + l / 256) * 256 + l % 256) by (nonlinear_arith)
            requires
                x == h * q + l,
                q == 256 * q1,
                l == 256 * (l / 256) + l % 256,
        ;
        vstd::arithmetic::div_mod::lemma_fundamental_div_mod_converse(
            x as int,
            256,
            (h * q1 + l / 256) as int,
            (l % 256) as int,
        );
        assert(l / 256 < q1) by (nonlinear_arith)
            requires
                l < q,
                q == 256 * q1,
                l == 256 * (l / 256) + l % 256,
                l % 256 >= 0,
        ;
        lemma_reversed_bytes_top(h, l / 256, (count - 1) as nat);
        assert((x % 256) * q == 256 * ((l % 256) * q1)) by (nonlinear_arith)
            requires
                x % 256 == l % 256,
                q == 256 * q1,
        ;
    }
}

/// Reversing the bytes of a pattern of `count` bytes twice gives the pattern again.
proof fn lemma_reversed_bytes_twice(x: nat, count: nat)
    requires
        x < pow2(8 * count),
    ensures
        reversed_bytes(reversed_bytes(x, count), count) == x,
    decreases count,
{
    lemma2_to64();
    if count > 0 {
        let q = pow2((8 * (count - 1)) as nat);
        lemma_pow2_byte_step(count);
        let rest = reversed_bytes(x / 256, (count - 1) as nat);
        lemma_reversed_bytes_bound(x / 256, (count - 1) as nat);
        vstd::arithmetic::div_mod::lemma_fundamental_div_mod(x as int, 256);
        assert(x / 256 < q) by (nonlinear_arith)
            requires
                x < 256 * q,
                x == 256 * (x / 256) + x % 256,
                x % 256 >= 0,
        ;
        lemma_reversed_bytes_twice(x / 256, (count - 1) as nat);
        lemma_reversed_bytes_top(x % 256, rest, count);
    } else {
        assert(x == 0);
    }
}

/// Swapping the bytes of a value twice gives the value again.
pub proof fn lemma_swap_bytes_twice<T: Integer>(x: T)
    requires
        T::width() % 8 == 0,
    ensures
        value_of_pattern(
            reversed_bytes(
                pattern_of(
                    value_of_pattern(reversed_bytes(pattern_of(x.value(), T::width()), T::width() / 8), T::width(), T::is_signed()),
                    T::width(),
                ),
                T::width() / 8,
            ),
            T::width(),
            T::is_signed(),
        ) == x.value(),
{
    let w = T::width();
    let c = w / 8;
    assert(8 * c == w);
    let p = pattern_of(x.value(), w);
    lemma_value_of_pattern(x);
    lemma_reversed_bytes_bound(p, c);
    lemma_pattern_of_value(reversed_bytes(p, c), w, T::is_signed());
    lemma_reversed_bytes_twice(p, c);
}

/// Rotating a `width`-bit pattern left and then right by the same count gives the
/// pattern again, and so does rotating right and then left; either rotation gives a
/// `width`-bit pattern.
proof fn lemma_rotations_undo(x: nat, n: nat, width: nat)
    requires
        width >= 1,
        x < pow2(width),
    ensures
        rotated_left(x, n, width) < pow2(width),
        rotated_right(x, n, width) < pow2(width),
        rotated_right(rotated_left(x, n, width), n, width) == x,
        rotated_left(rotated_right(x, n, width), n, width) == x,
{
    let k = n % width;
    let a = pow2((width - k) as nat);
    let kk = pow2(k);
    lemma_pow2_pos((width - k) as nat);
    lemma_pow2_pos(k);
    assert(((width - k) as nat) + k == width);
    lemma_pow2_adds((width - k) as nat, k);
    assert(a * kk == pow2(width));
    // Left, then right.
    let hi = x / a;
    let lo = x % a;
    vstd::arithmetic::div_mod::lemma_fundamental_div_mod(x as int, a as int);
    assert(hi < kk) by (nonlinear_arith)
        requires
            x < a * kk,
            x == a * hi + lo,
            lo >= 0,
            a > 0,
    ;
    let left = lo * kk + hi;
    assert(left < pow2(width)) by (nonlinear_arith)
        requires
            lo < a,
            hi < kk,
            left == lo * kk + hi,
            a * kk == pow2(width),
    ;
    vstd::arithmetic::div_mod::lemma_fundamental_div_mod_converse(left as int, kk as int, lo as int, hi as int);
    assert(left / kk + (left % kk) * a == x) by (nonlinear_arith)
        requires
            left / kk == lo,
            left % kk == hi,
            x == a * hi + lo,
    ;
    // Right, then left.
    let hi2 = x / kk;
    let lo2 = x % kk;
    vstd::arithmetic::div_mod::lemma_fundamental_div_mod(x as int, kk as int);
    assert(hi2 < a) by (nonlinear_arith)
        requires
            x < a * kk,
            x == kk * hi2 + lo2,
            lo2 >= 0,
            kk > 0,
    ;
    let right = lo2 * a + hi2;
    assert(right < pow2(width)) by (nonlinear_arith)
        requires
            lo2 < kk,
            hi2 < a,
            right == lo2 * a + hi2,
            a * kk == pow2(width),
    ;
    assert(rotated_right(x, n, width) == right);
    vstd::arithmetic::div_mod::lemma_fundamental_div_mod_converse(right as int, a as int, lo2 as int, hi2 as int);
    assert((right % a) * kk + right / a == x) by (nonlinear_arith)
        requires
            right / a == lo2,
            right % a == hi2,
            x == kk * hi2 + lo2,
    ;
}

/// Rotating a value right by `n` bits undoes rotating it left by `n` bits, and the
/// other way round.
pub proof fn lemma_rotations_undo_each_other<T: Integer>(x: T, n: nat)
    ensures
        value_of_pattern(
            rotated_right(
                pattern_of(
                    value_of_pattern(rotated_left(pattern_of(x.value(), T::width()), n, T::width()), T::width(), T::is_signed()),
                    T::width(),
                ),
                n,
                T::width(),
            ),
            T::width(),
            T::is_signed(),
        ) == x.value(),
        value_of_pattern(
            rotated_left(
                pattern_of(
                    value_of_pattern(rotated_right(pattern_of(x.value(), T::width()), n, T::width()), T::width(), T::is_signed()),
                    T::width(),
                ),
                n,
                T::width(),
            ),
            T::width(),
            T::is_signed(),
        ) == x.value(),
{
    let w = T::width();
    let p = pattern_of(x.value(), w);
    T::lemma_layout();
    lemma_value_of_pattern(x);
    lemma_rotations_undo(p, n, w);
    lemma_pattern_of_value(rotated_left(p, n, w), w, T::is_signed());
    lemma_pattern_of_value(rotated_right(p, n, w), w, T::is_signed());
}

/// Negating a signed value twice gives it back, except for the least value, whose
/// negation saturates to the greatest value.
pub proof fn lemma_neg_twice<T: Integer>(x: T)
    requires
        T::is_signed(),
    ensures
        x.value() != T::lower() ==> clamp(-clamp(-x.value(), T::lower(), T::upper()), T::lower(), T::upper())
            == x.value(),
        clamp(-T::lower(), T::lower(), T::upper()) == T::upper(),
{
    x.lemma_value();
    T::lemma_layout();
    lemma_pow2_pos((T::width() - 1) as nat);
}

/// Between a signed and an unsigned type of one width, converting to the other
/// signedness and back gives the value again whenever the other type holds it.
pub proof fn lemma_signedness_round_trip<S: Integer, U: Integer>(s: S, u: U)
    requires
        S::is_signed(),
        !U::is_signed(),
        S::width() == U::width(),
    ensures
        u.value() <= S::upper() ==> {
            let signed = if u.value() > S::upper() {
                S::upper()
            } else {
                u.value()
            };
            (if signed < 0 {
                0
            } else {
                signed
            }) == u.value()
        },
        s.value() >= 0 ==> {
            let unsigned = if s.value() < 0 {
                0
            } else {
                s.value()
            };
            (if unsigned > S::upper() {
                S::upper()
            } else {
                unsigned
            }) == s.value()
        },
{
    s.lemma_value();
    u.lemma_value();
    U::lemma_layout();
}

/// The decimal digits of `n` are ASCII digits, at least one, and stand for `n`.
proof fn lemma_decimal_digits(n: nat)
    ensures
        decimal_digits(n).len() > 0,
        forall|i: int| 0 <= i < decimal_digits(n).len() ==> is_decimal_digit(#[trigger] decimal_digits(n)[i]),
        digits_value(decimal_digits(n)) == n,
    decreases n,
{
    if n < 10 {
        let s = decimal_digits(n);
        assert(s.drop_last() =~= Seq::<char>::empty());
        assert(digit_char(n) as int == '0' as int + n);
        assert(s.last() == digit_char(n));
        assert(digits_value(s) == digits_value(s.drop_last()) * 10 + ((s.last() as int - '0' as int) as nat));
    } else {
        lemma_decimal_digits(n / 10);
        let s = decimal_digits(n);
        assert(s.drop_last() =~= decimal_digits(n / 10));
        assert(digit_char(n % 10) as int == '0' as int + n % 10);
        assert(s.last() == digit_char(n % 10));
        vstd::arithmetic::div_mod::lemma_fundamental_div_mod(n as int, 10);
        assert(digits_value(s) == digits_value(s.drop_last()) * 10 + ((s.last() as int - '0' as int) as nat));
    }
}

/// A value written in decimal reads back as the same value: under the grammar that
/// allows a `-`, and, for a value that is not negative, under the one that does not.
pub proof fn lemma_decimal_round_trip(v: int, allow_minus: bool)
    requires
        allow_minus || v >= 0,
    ensures
        parsed_decimal(decimal(v), allow_minus) == Some(v),
{
    if v < 0 {
        let digits = decimal_digits((-v) as nat);
        lemma_decimal_digits((-v) as nat);
        assert(decimal(v).drop_first() =~= digits);
    } else {
        lemma_decimal_digits(v as nat);
    }
}

/// Whichever byte order a flag names, writing a value's bytes in that order and
/// reading them back in it gives the value; and converting from one fixed order to
/// the named one twice, with the same flag, gives the value back.
pub proof fn lemma_byte_order_round_trips<T: Integer>(x: T, little_endian: bool)
    requires
        T::width() % 8 == 0,
    ensures
        value_of_pattern(
            if little_endian {
                le_value(le_bytes(pattern_of(x.value(), T::width()), T::width() / 8))
            } else {
                be_value(be_bytes(pattern_of(x.value(), T::width()), T::width() / 8))
            },
            T::width(),
            T::is_signed(),
        ) == x.value(),
        (if little_endian {
            value_of_pattern(
                reversed_bytes(
                    pattern_of(
                        value_of_pattern(reversed_bytes(pattern_of(x.value(), T::width()), T::width() / 8), T::width(), T::is_signed()),
                        T::width(),
                    ),
                    T::width() / 8,
                ),
                T::width(),
                T::is_signed(),
            )
        } else {
            x.value()
        }) == x.value(),
{
    lemma_bytes_round_trip(x);
    lemma_swap_bytes_twice(x);
}

/// Appending a byte to the most significant end adds it at its place value.
proof fn lemma_le_value_push(s: Seq<u8>, a: u8)
    ensures
        le_value(s.push(a)) == le_value(s) + a * pow2(8 * s.len()),
    decreases s.len(),
{
    lemma2_to64();
    if s.len() == 0 {
        assert(s.push(a).drop_first() =~= Seq::<u8>::empty());
        assert(le_value(s.push(a).drop_first()) == 0);
        assert(s.push(a)[0] == a);
        assert(le_value(s.push(a)) == a);
        assert(pow2(8 * s.len()) == 1);
        assert(a * pow2(8 * s.len()) == a);
    } else {
        let t = s.drop_first();
        assert(s.push(a).drop_first() =~= t.push(a));
        lemma_le_value_push(t, a);
        lemma_pow2_byte_step(s.len());
        assert((8 * (s.len() - 1)) as nat == 8 * t.len());
        let q = pow2(8 * t.len());
        assert(pow2(8 * s.len()) == 256 * q);
        assert(le_value(s.push(a)) == s[0] + 256 * le_value(t.push(a)));
        assert(le_value(s) == s[0] + 256 * le_value(t));
        assert(256 * (le_value(t) + a * q) == 256 * le_value(t) + a * (256 * q)) by (nonlinear_arith);
    }
}

/// Reversing the bytes of a pattern reads its little-endian bytes most significant
/// first.
proof fn lemma_reversed_bytes_value(x: nat, count: nat)
    ensures
        reversed_bytes(x, count) == be_value(le_bytes(x, count)),
    decreases count,
{
    lemma2_to64();
    if count == 0 {
        assert(le_bytes(x, 0).reverse() =~= Seq::<u8>::empty());
    } else {
        let rest = le_bytes(x / 256, (count - 1) as nat);
        crate::bits::lemma_le_bytes_len(x / 256, (count - 1) as nat);
        let a = (x % 256) as u8;
        assert((seq![a] + rest).reverse() =~= rest.reverse().push(a));
        assert(le_bytes(x, count) =~= seq![a] + rest);
        lemma_le_value_push(rest.reverse(), a);
        lemma_reversed_bytes_value(x / 256, (count - 1) as nat);
        assert(8 * rest.reverse().len() == 8 * (count - 1));
    }
}

/// The bytes of a byte-swapped pattern are its bytes in the other order.
proof fn lemma_swapped_bytes(x: nat, count: nat)
    ensures
        le_bytes(reversed_bytes(x, count), count) == be_bytes(x, count),
        be_bytes(reversed_bytes(x, count), count) == le_bytes(x, count),
{
    lemma_reversed_bytes_value(x, count);
    let l = le_bytes(x, count);
    crate::bits::lemma_le_bytes_len(x, count);
    lemma_le_value_round_trip(l.reverse());
    assert(l.reverse().reverse() =~= l);
}

/// The bytes of the byte-swapped value of `x` are the bytes of `x` in the other
/// order.
pub proof fn lemma_swapped_value_bytes<T: Integer>(x: T)
    requires
        T::width() % 8 == 0,
    ensures
        le_bytes(
            pattern_of(
                value_of_pattern(reversed_bytes(pattern_of(x.value(), T::width()), T::width() / 8), T::width(), T::is_signed()),
                T::width(),
            ),
            T::width() / 8,
        ) == be_bytes(pattern_of(x.value(), T::width()), T::width() / 8),
        be_bytes(
            pattern_of(
                value_of_pattern(reversed_bytes(pattern_of(x.value(), T::width()), T::width() / 8), T::width(), T::is_signed()),
                T::width(),
            ),
            T::width() / 8,
        ) == le_bytes(pattern_of(x.value(), T::width()), T::width() / 8),
{
    let w = T::width();
    let c = w / 8;
    assert(8 * c == w);
    let p = pattern_of(x.value(), w);
    lemma_value_of_pattern(x);
    lemma_reversed_bytes_bound(p, c);
    lemma_pattern_of_value(reversed_bytes(p, c), w, T::is_signed());
    lemma_swapped_bytes(p, c);
}

} // verus!
