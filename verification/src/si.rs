//! The signed saturating wrappers.
use vstd::prelude::*;
use vstd::arithmetic::power::pow;
use crate::bits::{bit_length, bit_length_pattern, complement, count_ones_pattern, lemma_bit_length_bound,
    lemma_complement_bound, lemma_popcount_bound, low_mask, popcount, reverse_bits_pattern,
    reversed_bits, reversed_bytes, rotate_left_pattern, rotate_right_pattern, rotated_left,
    rotated_right, swap_bytes_pattern, trailing_zero_count, trailing_zeros_pattern, be_bytes, be_value, le_bytes,
    le_bytes_pattern, le_value, le_value_of_bytes, lemma_le_bytes_len, native_little_endian, target_is_little_endian};
use crate::integer::{from_magnitude_checked, from_pattern, to_pattern, Integer, SignedInteger};
use crate::magnitude::{add_magnitudes, div_euclid_magnitudes, div_magnitudes, ilog_magnitude,
    isqrt_magnitude, lemma_isqrt_bound, pow_magnitudes, rem_euclid_magnitudes,
    rem_magnitudes};
use crate::math::{abs_int, clamp, lemma_represents_clamp, pattern_of, trunc_div, trunc_rem, value_of_pattern};
use crate::sealed::Sealed;
use crate::su::{Su128, Su16, Su32, Su64, Su8, Susize};
use core::cmp::Ordering;
use core::ops::{BitAnd, BitAndAssign, BitOr, BitOrAssign, BitXor, BitXorAssign, Not};
use vstd::std_specs::cmp::{PartialEqSpecImpl, PartialOrdSpecImpl};
use vstd::std_specs::convert::FromSpecImpl;
use vstd::std_specs::ops::{BitAndSpecImpl, BitOrSpecImpl, BitXorSpecImpl, NotSpecImpl};

verus! {

/// A saturating wrapper around [`i8`]: its arithmetic clamps to the range of
/// [`i8`] instead of overflowing.
#[derive(Clone, Copy, Debug, PartialEq, Eq, Structural, PartialOrd, Ord, Hash)]
pub struct Si8(i8);

impl View for Si8 {
    type V = int;

    closed spec fn view(&self) -> int {
        self.0 as int
    }
}

/// The inner value of a [`Si8`] is its view.
pub broadcast proof fn lemma_si8_inner(x: Si8)
    ensures
        #[trigger] x.into_inner() as int == x@,
{
}

/// A [`Si8`] is made of the value it was made from.
pub broadcast proof fn lemma_si8_new(v: i8)
    ensures
        #[trigger] Si8::new(v)@ == v as int,
{
}

impl Sealed for Si8 {
}

impl Integer for Si8 {
    open spec fn value(self) -> int {
        self@
    }

    open spec fn lower() -> int {
        i8::MIN as int
    }

    open spec fn upper() -> int {
        i8::MAX as int
    }

    open spec fn width() -> nat {
        8
    }

    open spec fn is_signed() -> bool {
        true
    }

    open spec fn of_value(v: int) -> Si8 {
        Si8::new(v as i8)
    }

    proof fn lemma_value(self) {
    }

    proof fn lemma_of_value(v: int) {
    }

    proof fn lemma_layout() {
        i8::lemma_layout();
    }

    fn bits() -> (r: u32) {
        i8::bits()
    }

    fn signed_type() -> (r: bool) {
        i8::signed_type()
    }

    fn magnitude(self) -> (r: (bool, u128)) {
        self.0.magnitude()
    }

    fn from_magnitude(negative: bool, magnitude: u128) -> (r: Si8) {
        Si8(i8::from_magnitude(negative, magnitude))
    }
}

impl SignedInteger for Si8 {
}

impl Si8 {
    /// The size of this scalar type in bits.
    pub const BITS: u32 = 8;

    /// The minimum representable value for this scalar type.
    #[allow(non_snake_case)]
    pub fn MIN() -> (r: Si8)
        ensures
            r@ == i8::MIN,
    {
        Si8(i8::MIN)
    }

    /// The maximum representable value for this scalar type.
    #[allow(non_snake_case)]
    pub fn MAX() -> (r: Si8)
        ensures
            r@ == i8::MAX,
    {
        Si8(i8::MAX)
    }

    /// The additive identity value.
    #[allow(non_snake_case)]
    pub fn ZERO() -> (r: Si8)
        ensures
            r@ == 0,
    {
        Si8(0)
    }

    /// The multiplicative identity value.
    #[allow(non_snake_case)]
    pub fn ONE() -> (r: Si8)
        ensures
            r@ == 1,
    {
        Si8(1)
    }

    /// The wrapper that holds `value`.
    pub closed spec fn spec_new(value: i8) -> Si8 {
        Si8(value)
    }

    /// Creates a new [`Si8`] from an inner [`i8`] value.
    #[verifier::when_used_as_spec(spec_new)]
    pub fn new(value: i8) -> (r: Si8)
        ensures
            r == Si8::spec_new(value),
            r@ == value,
    {
        Si8(value)
    }

    /// The wrapped value.
    pub closed spec fn spec_into_inner(self) -> i8 {
        self.0
    }

    /// Returns the wrapped [`i8`] value.
    #[verifier::when_used_as_spec(spec_into_inner)]
    pub fn into_inner(self) -> (r: i8)
        ensures
            r == self.spec_into_inner(),
            r == self@,
    {
        self.0
    }

    /// Returns the number of ones in the binary representation.
    pub fn count_ones(self) -> (r: u32)
        ensures
            r == popcount(pattern_of(self@, 8), 8),
    {
        count_ones_pattern(to_pattern(self), Self::bits())
    }

    /// Returns the number of zeros in the binary representation.
    pub fn count_zeros(self) -> (r: u32)
        ensures
            r == 8 - popcount(pattern_of(self@, 8), 8),
    {
        proof {
            lemma_popcount_bound(pattern_of(self@, 8), 8);
        }
        Self::bits() - count_ones_pattern(to_pattern(self), Self::bits())
    }

    /// Returns the number of leading zeros in the binary representation.
    pub fn leading_zeros(self) -> (r: u32)
        ensures
            r == 8 - bit_length(pattern_of(self@, 8)),
    {
        let p = to_pattern(self);
        proof {
            lemma_bit_length_bound(p as nat, 8);
        }
        Self::bits() - bit_length_pattern(p)
    }

    /// Returns the number of leading ones in the binary representation.
    pub fn leading_ones(self) -> (r: u32)
        ensures
            r == 8 - bit_length(complement(pattern_of(self@, 8), 8)),
    {
        let p = to_pattern(self);
        proof {
            Self::lemma_layout();
            lemma_complement_bound(p as nat, 8);
            lemma_bit_length_bound(complement(p as nat, 8), 8);
        }
        Self::bits() - bit_length_pattern(low_mask(Self::bits()) - p)
    }

    /// Returns the number of trailing zeros in the binary representation.
    pub fn trailing_zeros(self) -> (r: u32)
        ensures
            r == trailing_zero_count(pattern_of(self@, 8), 8),
    {
        trailing_zeros_pattern(to_pattern(self), Self::bits())
    }

    /// Returns the number of trailing ones in the binary representation.
    pub fn trailing_ones(self) -> (r: u32)
        ensures
            r == trailing_zero_count(complement(pattern_of(self@, 8), 8), 8),
    {
        let p = to_pattern(self);
        proof {
            Self::lemma_layout();
        }
        trailing_zeros_pattern(low_mask(Self::bits()) - p, Self::bits())
    }

    /// Reverses the order of bits.
    pub fn reverse_bits(self) -> (r: Si8)
        ensures
            r@ == value_of_pattern(reversed_bits(pattern_of(self@, 8), 8), 8, true),
    {
        proof {
            Self::lemma_layout();
        }
        from_pattern(reverse_bits_pattern(to_pattern(self), Self::bits()))
    }

    /// Shifts bits to the left by `n`, wrapping the truncated bits to the end of the result.
    pub fn rotate_left(self, n: u32) -> (r: Si8)
        ensures
            r@ == value_of_pattern(rotated_left(pattern_of(self@, 8), n as nat, 8), 8, true),
    {
        proof {
            Self::lemma_layout();
        }
        from_pattern(rotate_left_pattern(to_pattern(self), n, Self::bits()))
    }

    /// Shifts bits to the right by `n`, wrapping the truncated bits to the beginning of the result.
    pub fn rotate_right(self, n: u32) -> (r: Si8)
        ensures
            r@ == value_of_pattern(rotated_right(pattern_of(self@, 8), n as nat, 8), 8, true),
    {
        proof {
            Self::lemma_layout();
        }
        from_pattern(rotate_right_pattern(to_pattern(self), n, Self::bits()))
    }

    /// Reverses the byte order.
    pub fn swap_bytes(self) -> (r: Si8)
        ensures
            r@ == value_of_pattern(reversed_bytes(pattern_of(self@, 8), 1), 8, true),
    {
        proof {
            Self::lemma_layout();
        }
        from_pattern(swap_bytes_pattern(to_pattern(self), Self::bits() / 8))
    }


    /// Converts from big-endian to the byte order that `little_endian` names: for
    /// little-endian this reverses the bytes, for big-endian it changes nothing.
    pub fn from_be_for(value: Si8, little_endian: bool) -> (r: Si8)
        ensures
            little_endian ==> r@ == value_of_pattern(reversed_bytes(pattern_of(value@, 8), 1), 8, true),
            !little_endian ==> r == value,
    {
        if little_endian {
            value.swap_bytes()
        } else {
            value
        }
    }

    /// Converts from little-endian to the byte order that `little_endian` names: for
    /// big-endian this reverses the bytes, for little-endian it changes nothing.
    pub fn from_le_for(value: Si8, little_endian: bool) -> (r: Si8)
        ensures
            little_endian ==> r == value,
            !little_endian ==> r@ == value_of_pattern(reversed_bytes(pattern_of(value@, 8), 1), 8, true),
    {
        if little_endian {
            value
        } else {
            value.swap_bytes()
        }
    }

    /// Converts from big-endian to the target's native endian: on a little-endian
    /// target this reverses the bytes, on a big-endian one it changes nothing (see
    /// [`Si8::from_be_for`]). Which of the two the target is, is a property of the machine.
    pub fn from_be(value: Si8) -> (r: Si8)
        ensures
            r == value || r@ == value_of_pattern(reversed_bytes(pattern_of(value@, 8), 1), 8, true),
            native_little_endian() ==> r@ == value_of_pattern(reversed_bytes(pattern_of(value@, 8), 1), 8, true),
            !native_little_endian() ==> r == value,
    {
        Si8::from_be_for(value, target_is_little_endian())
    }

    /// Converts from little-endian to the target's native endian: on a big-endian
    /// target this reverses the bytes, on a little-endian one it changes nothing (see
    /// [`Si8::from_le_for`]).
    pub fn from_le(value: Si8) -> (r: Si8)
        ensures
            r == value || r@ == value_of_pattern(reversed_bytes(pattern_of(value@, 8), 1), 8, true),
            native_little_endian() ==> r == value,
            !native_little_endian() ==> r@ == value_of_pattern(reversed_bytes(pattern_of(value@, 8), 1), 8, true),
    {
        Si8::from_le_for(value, target_is_little_endian())
    }

    /// Converts `self` to big-endian from the target's native endian.
    pub fn to_be(self) -> (r: Si8)
        ensures
            r == self || r@ == value_of_pattern(reversed_bytes(pattern_of(self@, 8), 1), 8, true),
            native_little_endian() ==> r@ == value_of_pattern(reversed_bytes(pattern_of(self@, 8), 1), 8, true),
            !native_little_endian() ==> r == self,
    {
        Si8::from_be(self)
    }

    /// Converts `self` to little-endian from the target's native endian.
    pub fn to_le(self) -> (r: Si8)
        ensures
            r == self || r@ == value_of_pattern(reversed_bytes(pattern_of(self@, 8), 1), 8, true),
            native_little_endian() ==> r == self,
            !native_little_endian() ==> r@ == value_of_pattern(reversed_bytes(pattern_of(self@, 8), 1), 8, true),
    {
        Si8::from_le(self)
    }

    /// Returns the memory representation as a byte array in big-endian order.
    pub fn to_be_bytes(self) -> (r: [u8; 1])
        ensures
            r@ == be_bytes(pattern_of(self@, 8), 1),
    {
        let v = le_bytes_pattern(to_pattern(self), 1);
        proof {
            lemma_le_bytes_len(pattern_of(self@, 8), 1);
        }
        let r = [v[0]];
        proof {
            assert(r@ =~= be_bytes(pattern_of(self@, 8), 1));
        }
        r
    }

    /// Returns the memory representation as a byte array in little-endian order.
    pub fn to_le_bytes(self) -> (r: [u8; 1])
        ensures
            r@ == le_bytes(pattern_of(self@, 8), 1),
    {
        let v = le_bytes_pattern(to_pattern(self), 1);
        proof {
            lemma_le_bytes_len(pattern_of(self@, 8), 1);
        }
        let r = [v[0]];
        proof {
            assert(r@ =~= le_bytes(pattern_of(self@, 8), 1));
        }
        r
    }

    /// Returns the memory representation as a byte array in the byte order that
    /// `little_endian` names.
    pub fn to_ne_bytes_for(self, little_endian: bool) -> (r: [u8; 1])
        ensures
            little_endian ==> r@ == le_bytes(pattern_of(self@, 8), 1),
            !little_endian ==> r@ == be_bytes(pattern_of(self@, 8), 1),
    {
        if little_endian {
            self.to_le_bytes()
        } else {
            self.to_be_bytes()
        }
    }

    /// Returns the memory representation as a byte array in native-endian order
    /// (see [`Si8::to_ne_bytes_for`]).
    pub fn to_ne_bytes(self) -> (r: [u8; 1])
        ensures
            r@ == le_bytes(pattern_of(self@, 8), 1) || r@ == be_bytes(pattern_of(self@, 8), 1),
            native_little_endian() ==> r@ == le_bytes(pattern_of(self@, 8), 1),
            !native_little_endian() ==> r@ == be_bytes(pattern_of(self@, 8), 1),
    {
        self.to_ne_bytes_for(target_is_little_endian())
    }

    /// Creates a scalar from a byte array in big-endian order.
    pub fn from_be_bytes(bytes: [u8; 1]) -> (r: Si8)
        ensures
            r@ == value_of_pattern(be_value(bytes@), 8, true),
    {
        let le = [bytes[0]];
        proof {
            assert(le@ =~= bytes@.reverse());
        }
        let p = le_value_of_bytes(le.as_slice());
        from_pattern(p)
    }

    /// Creates a scalar from a byte array in little-endian order.
    pub fn from_le_bytes(bytes: [u8; 1]) -> (r: Si8)
        ensures
            r@ == value_of_pattern(le_value(bytes@), 8, true),
    {
        let p = le_value_of_bytes(bytes.as_slice());
        from_pattern(p)
    }

    /// Creates a scalar from a byte array in the byte order that `little_endian` names.
    pub fn from_ne_bytes_for(bytes: [u8; 1], little_endian: bool) -> (r: Si8)
        ensures
            little_endian ==> r@ == value_of_pattern(le_value(bytes@), 8, true),
            !little_endian ==> r@ == value_of_pattern(be_value(bytes@), 8, true),
    {
        if little_endian {
            Si8::from_le_bytes(bytes)
        } else {
            Si8::from_be_bytes(bytes)
        }
    }

    /// Creates a scalar from a byte array in native-endian order (see
    /// [`Si8::from_ne_bytes_for`]).
    pub fn from_ne_bytes(bytes: [u8; 1]) -> (r: Si8)
        ensures
            r@ == value_of_pattern(le_value(bytes@), 8, true) || r@ == value_of_pattern(
                be_value(bytes@),
                8,
                true,
            ),
            native_little_endian() ==> r@ == value_of_pattern(le_value(bytes@), 8, true),
            !native_little_endian() ==> r@ == value_of_pattern(be_value(bytes@), 8, true),
    {
        Si8::from_ne_bytes_for(bytes, target_is_little_endian())
    }


    /// Divides two scalar values, returning `None` on division by zero or
    /// primitive signed overflow.
    ///
    /// Signed overflow can occur for `MIN / -1`.
    pub fn checked_div(self, rhs: Si8) -> (r: Option<Si8>)
        ensures
            r is None <==> rhs@ == 0 || !(i8::MIN <= trunc_div(self@, rhs@) <= i8::MAX),
            r matches Some(q) ==> q@ == trunc_div(self@, rhs@),
    {
        if rhs.0 == 0 {
            return None;
        }
        let (a_negative, a) = self.magnitude();
        let (b_negative, b) = rhs.magnitude();
        let (negative, q) = div_magnitudes(a_negative, a, b_negative, b);
        from_magnitude_checked(negative, q)
    }

    /// Calculates Euclidean division, returning `None` on division by zero or
    /// primitive signed overflow.
    pub fn checked_div_euclid(self, rhs: Si8) -> (r: Option<Si8>)
        ensures
            r is None <==> rhs@ == 0 || !(i8::MIN <= self@ / rhs@ <= i8::MAX),
            r matches Some(q) ==> q@ == self@ / rhs@,
    {
        if rhs.0 == 0 {
            return None;
        }
        let (a_negative, a) = self.magnitude();
        let (b_negative, b) = rhs.magnitude();
        let (negative, q) = div_euclid_magnitudes(a_negative, a, b_negative, b);
        from_magnitude_checked(negative, q)
    }

    /// Calculates the remainder of two scalar values, returning `None` on
    /// division by zero or primitive signed overflow.
    ///
    /// Signed overflow can occur for `MIN % -1`.
    pub fn checked_rem(self, rhs: Si8) -> (r: Option<Si8>)
        ensures
            r is None <==> rhs@ == 0 || (self@ == i8::MIN && rhs@ == -1),
            r matches Some(x) ==> x@ == trunc_rem(self@, rhs@),
    {
        if rhs.0 == 0 || (self.0 == i8::MIN && rhs.0 == -1) {
            return None;
        }
        let (a_negative, a) = self.magnitude();
        let (b_negative, b) = rhs.magnitude();
        let (negative, m) = rem_magnitudes(a_negative, a, b_negative, b);
        Some(Self::from_magnitude(negative, m))
    }

    /// Calculates the least nonnegative remainder, returning `None` on
    /// division by zero or primitive signed overflow.
    pub fn checked_rem_euclid(self, rhs: Si8) -> (r: Option<Si8>)
        ensures
            r is None <==> rhs@ == 0 || (self@ == i8::MIN && rhs@ == -1),
            r matches Some(x) ==> x@ == self@ % rhs@,
    {
        if rhs.0 == 0 || (self.0 == i8::MIN && rhs.0 == -1) {
            return None;
        }
        let (a_negative, a) = self.magnitude();
        let (b_negative, b) = rhs.magnitude();
        let m = rem_euclid_magnitudes(a_negative, a, b_negative, b);
        Some(Self::from_magnitude(false, m))
    }


    /// Raises `self` to the power of `exp`, saturating at numeric bounds.
    pub fn pow(self, exp: u32) -> (r: Si8)
        ensures
            r@ == clamp(pow(self@, exp as nat), i8::MIN as int, i8::MAX as int),
    {
        let (negative, a) = self.magnitude();
        let (n, m) = pow_magnitudes(negative, a, exp);
        proof {
            lemma_represents_clamp(n, m, pow(self@, exp as nat), i8::MIN as int, i8::MAX as int);
        }
        Self::from_magnitude(n, m)
    }

    /// Returns the base-`base` logarithm, or `None` if the logarithm is undefined.
    pub fn checked_ilog(self, base: i8) -> (r: Option<u32>)
        ensures
            r is None <==> self@ <= 0 || base < 2,
            r matches Some(k) ==> pow(base as int, k as nat) <= self@ < pow(base as int, (k + 1) as nat),
    {
        if self.0 <= 0 || base < 2 {
            None
        } else {
            Some(ilog_magnitude(self.0 as u128, base as u128))
        }
    }

    /// Returns the base-2 logarithm, or `None` if the logarithm is undefined.
    pub fn checked_ilog2(self) -> (r: Option<u32>)
        ensures
            r is None <==> self@ <= 0,
            r matches Some(k) ==> pow(2, k as nat) <= self@ < pow(2, (k + 1) as nat),
    {
        self.checked_ilog(2)
    }

    /// Returns the base-10 logarithm, or `None` if the logarithm is undefined.
    pub fn checked_ilog10(self) -> (r: Option<u32>)
        ensures
            r is None <==> self@ <= 0,
            r matches Some(k) ==> pow(10, k as nat) <= self@ < pow(10, (k + 1) as nat),
    {
        self.checked_ilog(10)
    }

    /// Returns `true` if `self` is the minimum representable value.
    pub fn is_min(self) -> (r: bool)
        ensures
            r == (self@ == i8::MIN),
    {
        self.0 == i8::MIN
    }

    /// Returns `true` if `self` is the maximum representable value.
    pub fn is_max(self) -> (r: bool)
        ensures
            r == (self@ == i8::MAX),
    {
        self.0 == i8::MAX
    }

    /// Returns `true` if `self` is zero.
    pub fn is_zero(self) -> (r: bool)
        ensures
            r == (self@ == 0),
    {
        self.0 == 0
    }

    /// Returns `true` if `self` is one.
    pub fn is_one(self) -> (r: bool)
        ensures
            r == (self@ == 1),
    {
        self.0 == 1
    }


    /// Computes the absolute value, saturating at [`Si8::MAX`].
    pub fn abs(self) -> (r: Si8)
        ensures
            r@ == clamp(abs_int(self@) as int, i8::MIN as int, i8::MAX as int),
    {
        let (_, a) = self.magnitude();
        Self::from_magnitude(false, a)
    }

    /// Computes the absolute value as an unsigned scalar.
    pub fn unsigned_abs(self) -> (r: Su8)
        ensures
            r@ == abs_int(self@),
    {
        let (_, a) = self.magnitude();
        Su8::from_magnitude(false, a)
    }

    /// Computes the absolute difference between `self` and `rhs`.
    pub fn abs_diff(self, rhs: Si8) -> (r: Su8)
        ensures
            r@ == abs_int(self@ - rhs@),
    {
        let (a_negative, a) = self.magnitude();
        let (b_negative, b) = rhs.magnitude();
        let (_, d) = add_magnitudes(a_negative, a, !b_negative, b);
        proof {
            Self::lemma_layout();
            Su8::lemma_layout();
            vstd::arithmetic::power2::lemma_pow2_unfold(8);
        }
        Su8::from_magnitude(false, d)
    }

    /// Computes the absolute value, returning `None` for [`Si8::MIN`].
    pub fn checked_abs(self) -> (r: Option<Si8>)
        ensures
            r is None <==> self@ == i8::MIN,
            r matches Some(x) ==> x@ == abs_int(self@),
    {
        if self.0 == i8::MIN {
            None
        } else {
            Some(self.abs())
        }
    }

    /// Returns a number representing the sign of `self`.
    pub fn signum(self) -> (r: Si8)
        ensures
            r@ == (if self@ > 0 {
                1
            } else if self@ < 0 {
                -1
            } else {
                0
            }),
    {
        if self.0 > 0 {
            Si8(1)
        } else if self.0 < 0 {
            Si8(-1)
        } else {
            Si8(0)
        }
    }

    /// Returns `true` if `self` is positive.
    pub fn is_positive(self) -> (r: bool)
        ensures
            r == (self@ > 0),
    {
        self.0 > 0
    }

    /// Returns `true` if `self` is negative.
    pub fn is_negative(self) -> (r: bool)
        ensures
            r == (self@ < 0),
    {
        self.0 < 0
    }

    /// Returns the integer square root, or `None` if `self` is negative.
    pub fn checked_isqrt(self) -> (r: Option<Si8>)
        ensures
            r is None <==> self@ < 0,
            r matches Some(x) ==> x@ * x@ <= self@ < (x@ + 1) * (x@ + 1),
    {
        if self.0 < 0 {
            return None;
        }
        let s = isqrt_magnitude(self.0 as u128);
        proof {
            lemma_isqrt_bound(s as int, self@);
        }
        Some(Self::from_magnitude(false, s))
    }

    /// Converts to the same-width unsigned wrapper, saturating negative values to zero.
    pub fn to_unsigned(self) -> (r: Su8)
        ensures
            r@ == (if self@ < 0 {
                0
            } else {
                self@
            }),
    {
        if self.is_negative() {
            return Su8::ZERO();
        }
        self.unsigned_abs()
    }

}

/// Creates a [`Si8`] from an inner [`i8`] value.
pub fn si8(value: i8) -> (r: Si8)
    ensures
        r@ == value,
{
    Si8::new(value)
}

impl Default for Si8 {
    fn default() -> (r: Si8)
        ensures
            r@ == 0,
    {
        Si8(0)
    }
}

impl From<i8> for Si8 {
    fn from(value: i8) -> (r: Si8)
        ensures
            r@ == value,
    {
        Si8(value)
    }
}

impl FromSpecImpl<i8> for Si8 {
    open spec fn obeys_from_spec() -> bool {
        true
    }

    open spec fn from_spec(v: i8) -> Si8 {
        Si8::new(v)
    }
}

impl From<Si8> for i8 {
    fn from(value: Si8) -> (r: i8)
        ensures
            r == value@,
    {
        value.0
    }
}

impl FromSpecImpl<Si8> for i8 {
    open spec fn obeys_from_spec() -> bool {
        true
    }

    open spec fn from_spec(v: Si8) -> i8 {
        v.into_inner()
    }
}

impl PartialEq<i8> for Si8 {
    fn eq(&self, other: &i8) -> (r: bool) {
        self.0 == *other
    }
}

impl PartialEqSpecImpl<i8> for Si8 {
    open spec fn obeys_eq_spec() -> bool {
        true
    }

    open spec fn eq_spec(&self, other: &i8) -> bool {
        self.into_inner() == *other
    }
}

impl PartialEq<Si8> for i8 {
    fn eq(&self, other: &Si8) -> (r: bool) {
        *self == other.0
    }
}

impl PartialEqSpecImpl<Si8> for i8 {
    open spec fn obeys_eq_spec() -> bool {
        true
    }

    open spec fn eq_spec(&self, other: &Si8) -> bool {
        *self == other.into_inner()
    }
}

impl PartialOrd<i8> for Si8 {
    fn partial_cmp(&self, other: &i8) -> (r: Option<Ordering>) {
        if self.0 < *other {
            Some(Ordering::Less)
        } else if self.0 > *other {
            Some(Ordering::Greater)
        } else {
            Some(Ordering::Equal)
        }
    }
}

impl PartialOrdSpecImpl<i8> for Si8 {
    open spec fn obeys_partial_cmp_spec() -> bool {
        true
    }

    open spec fn partial_cmp_spec(&self, other: &i8) -> Option<Ordering> {
        if self.into_inner() < *other {
            Some(Ordering::Less)
        } else if self.into_inner() > *other {
            Some(Ordering::Greater)
        } else {
            Some(Ordering::Equal)
        }
    }
}

impl PartialOrd<Si8> for i8 {
    fn partial_cmp(&self, other: &Si8) -> (r: Option<Ordering>) {
        if *self < other.0 {
            Some(Ordering::Less)
        } else if *self > other.0 {
            Some(Ordering::Greater)
        } else {
            Some(Ordering::Equal)
        }
    }
}

impl PartialOrdSpecImpl<Si8> for i8 {
    open spec fn obeys_partial_cmp_spec() -> bool {
        true
    }

    open spec fn partial_cmp_spec(&self, other: &Si8) -> Option<Ordering> {
        if *self < other.into_inner() {
            Some(Ordering::Less)
        } else if *self > other.into_inner() {
            Some(Ordering::Greater)
        } else {
            Some(Ordering::Equal)
        }
    }
}

impl BitAnd<Si8> for Si8 {
    type Output = Si8;

    fn bitand(self, rhs: Si8) -> (r: Si8)
        ensures
            r.into_inner() == self.into_inner() & rhs.into_inner(),
    {
        Si8(self.0 & rhs.0)
    }
}

impl BitAndSpecImpl<Si8> for Si8 {
    open spec fn obeys_bitand_spec() -> bool {
        true
    }

    open spec fn bitand_req(self, rhs: Si8) -> bool {
        true
    }

    open spec fn bitand_spec(self, rhs: Si8) -> Si8 {
        Si8::new(self.into_inner() & rhs.into_inner())
    }
}

impl BitAndAssign<Si8> for Si8 {
    fn bitand_assign(&mut self, rhs: Si8)
        ensures
            final(self).into_inner() == old(self).into_inner() & rhs.into_inner(),
    {
        *self = Si8(self.0 & rhs.0);
    }
}

impl BitAnd<i8> for Si8 {
    type Output = Si8;

    fn bitand(self, rhs: i8) -> (r: Si8)
        ensures
            r.into_inner() == self.into_inner() & rhs,
    {
        Si8(self.0 & rhs)
    }
}

impl BitAndSpecImpl<i8> for Si8 {
    open spec fn obeys_bitand_spec() -> bool {
        true
    }

    open spec fn bitand_req(self, rhs: i8) -> bool {
        true
    }

    open spec fn bitand_spec(self, rhs: i8) -> Si8 {
        Si8::new(self.into_inner() & rhs)
    }
}

impl BitAndAssign<i8> for Si8 {
    fn bitand_assign(&mut self, rhs: i8)
        ensures
            final(self).into_inner() == old(self).into_inner() & rhs,
    {
        *self = Si8(self.0 & rhs);
    }
}

impl BitOr<Si8> for Si8 {
    type Output = Si8;

    fn bitor(self, rhs: Si8) -> (r: Si8)
        ensures
            r.into_inner() == self.into_inner() | rhs.into_inner(),
    {
        Si8(self.0 | rhs.0)
    }
}

impl BitOrSpecImpl<Si8> for Si8 {
    open spec fn obeys_bitor_spec() -> bool {
        true
    }

    open spec fn bitor_req(self, rhs: Si8) -> bool {
        true
    }

    open spec fn bitor_spec(self, rhs: Si8) -> Si8 {
        Si8::new(self.into_inner() | rhs.into_inner())
    }
}

impl BitOrAssign<Si8> for Si8 {
    fn bitor_assign(&mut self, rhs: Si8)
        ensures
            final(self).into_inner() == old(self).into_inner() | rhs.into_inner(),
    {
        *self = Si8(self.0 | rhs.0);
    }
}

impl BitOr<i8> for Si8 {
    type Output = Si8;

    fn bitor(self, rhs: i8) -> (r: Si8)
        ensures
            r.into_inner() == self.into_inner() | rhs,
    {
        Si8(self.0 | rhs)
    }
}

impl BitOrSpecImpl<i8> for Si8 {
    open spec fn obeys_bitor_spec() -> bool {
        true
    }

    open spec fn bitor_req(self, rhs: i8) -> bool {
        true
    }

    open spec fn bitor_spec(self, rhs: i8) -> Si8 {
        Si8::new(self.into_inner() | rhs)
    }
}

impl BitOrAssign<i8> for Si8 {
    fn bitor_assign(&mut self, rhs: i8)
        ensures
            final(self).into_inner() == old(self).into_inner() | rhs,
    {
        *self = Si8(self.0 | rhs);
    }
}

impl BitXor<Si8> for Si8 {
    type Output = Si8;

    fn bitxor(self, rhs: Si8) -> (r: Si8)
        ensures
            r.into_inner() == self.into_inner() ^ rhs.into_inner(),
    {
        Si8(self.0 ^ rhs.0)
    }
}

impl BitXorSpecImpl<Si8> for Si8 {
    open spec fn obeys_bitxor_spec() -> bool {
        true
    }

    open spec fn bitxor_req(self, rhs: Si8) -> bool {
        true
    }

    open spec fn bitxor_spec(self, rhs: Si8) -> Si8 {
        Si8::new(self.into_inner() ^ rhs.into_inner())
    }
}

impl BitXorAssign<Si8> for Si8 {
    fn bitxor_assign(&mut self, rhs: Si8)
        ensures
            final(self).into_inner() == old(self).into_inner() ^ rhs.into_inner(),
    {
        *self = Si8(self.0 ^ rhs.0);
    }
}

impl BitXor<i8> for Si8 {
    type Output = Si8;

    fn bitxor(self, rhs: i8) -> (r: Si8)
        ensures
            r.into_inner() == self.into_inner() ^ rhs,
    {
        Si8(self.0 ^ rhs)
    }
}

impl BitXorSpecImpl<i8> for Si8 {
    open spec fn obeys_bitxor_spec() -> bool {
        true
    }

    open spec fn bitxor_req(self, rhs: i8) -> bool {
        true
    }

    open spec fn bitxor_spec(self, rhs: i8) -> Si8 {
        Si8::new(self.into_inner() ^ rhs)
    }
}

impl BitXorAssign<i8> for Si8 {
    fn bitxor_assign(&mut self, rhs: i8)
        ensures
            final(self).into_inner() == old(self).into_inner() ^ rhs,
    {
        *self = Si8(self.0 ^ rhs);
    }
}

impl Not for Si8 {
    type Output = Si8;

    fn not(self) -> (r: Si8)
        ensures
            r.into_inner() == !self.into_inner(),
    {
        Si8(!self.0)
    }
}

impl NotSpecImpl for Si8 {
    open spec fn obeys_not_spec() -> bool {
        true
    }

    open spec fn not_req(self) -> bool {
        true
    }

    open spec fn not_spec(self) -> Si8 {
        Si8::new(!self.into_inner())
    }
}

/// A saturating wrapper around [`i16`]: its arithmetic clamps to the range of
/// [`i16`] instead of overflowing.
#[derive(Clone, Copy, Debug, PartialEq, Eq, Structural, PartialOrd, Ord, Hash)]
pub struct Si16(i16);

impl View for Si16 {
    type V = int;

    closed spec fn view(&self) -> int {
        self.0 as int
    }
}

/// The inner value of a [`Si16`] is its view.
pub broadcast proof fn lemma_si16_inner(x: Si16)
    ensures
        #[trigger] x.into_inner() as int == x@,
{
}

/// A [`Si16`] is made of the value it was made from.
pub broadcast proof fn lemma_si16_new(v: i16)
    ensures
        #[trigger] Si16::new(v)@ == v as int,
{
}

impl Sealed for Si16 {
}

impl Integer for Si16 {
    open spec fn value(self) -> int {
        self@
    }

    open spec fn lower() -> int {
        i16::MIN as int
    }

    open spec fn upper() -> int {
        i16::MAX as int
    }

    open spec fn width() -> nat {
        16
    }

    open spec fn is_signed() -> bool {
        true
    }

    open spec fn of_value(v: int) -> Si16 {
        Si16::new(v as i16)
    }

    proof fn lemma_value(self) {
    }

    proof fn lemma_of_value(v: int) {
    }

    proof fn lemma_layout() {
        i16::lemma_layout();
    }

    fn bits() -> (r: u32) {
        i16::bits()
    }

    fn signed_type() -> (r: bool) {
        i16::signed_type()
    }

    fn magnitude(self) -> (r: (bool, u128)) {
        self.0.magnitude()
    }

    fn from_magnitude(negative: bool, magnitude: u128) -> (r: Si16) {
        Si16(i16::from_magnitude(negative, magnitude))
    }
}

impl SignedInteger for Si16 {
}

impl Si16 {
    /// The size of this scalar type in bits.
    pub const BITS: u32 = 16;

    /// The minimum representable value for this scalar type.
    #[allow(non_snake_case)]
    pub fn MIN() -> (r: Si16)
        ensures
            r@ == i16::MIN,
    {
        Si16(i16::MIN)
    }

    /// The maximum representable value for this scalar type.
    #[allow(non_snake_case)]
    pub fn MAX() -> (r: Si16)
        ensures
            r@ == i16::MAX,
    {
        Si16(i16::MAX)
    }

    /// The additive identity value.
    #[allow(non_snake_case)]
    pub fn ZERO() -> (r: Si16)
        ensures
            r@ == 0,
    {
        Si16(0)
    }

    /// The multiplicative identity value.
    #[allow(non_snake_case)]
    pub fn ONE() -> (r: Si16)
        ensures
            r@ == 1,
    {
        Si16(1)
    }

    /// The wrapper that holds `value`.
    pub closed spec fn spec_new(value: i16) -> Si16 {
        Si16(value)
    }

    /// Creates a new [`Si16`] from an inner [`i16`] value.
    #[verifier::when_used_as_spec(spec_new)]
    pub fn new(value: i16) -> (r: Si16)
        ensures
            r == Si16::spec_new(value),
            r@ == value,
    {
        Si16(value)
    }

    /// The wrapped value.
    pub closed spec fn spec_into_inner(self) -> i16 {
        self.0
    }

    /// Returns the wrapped [`i16`] value.
    #[verifier::when_used_as_spec(spec_into_inner)]
    pub fn into_inner(self) -> (r: i16)
        ensures
            r == self.spec_into_inner(),
            r == self@,
    {
        self.0
    }

    /// Returns the number of ones in the binary representation.
    pub fn count_ones(self) -> (r: u32)
        ensures
            r == popcount(pattern_of(self@, 16), 16),
    {
        count_ones_pattern(to_pattern(self), Self::bits())
    }

    /// Returns the number of zeros in the binary representation.
    pub fn count_zeros(self) -> (r: u32)
        ensures
            r == 16 - popcount(pattern_of(self@, 16), 16),
    {
        proof {
            lemma_popcount_bound(pattern_of(self@, 16), 16);
        }
        Self::bits() - count_ones_pattern(to_pattern(self), Self::bits())
    }

    /// Returns the number of leading zeros in the binary representation.
    pub fn leading_zeros(self) -> (r: u32)
        ensures
            r == 16 - bit_length(pattern_of(self@, 16)),
    {
        let p = to_pattern(self);
        proof {
            lemma_bit_length_bound(p as nat, 16);
        }
        Self::bits() - bit_length_pattern(p)
    }

    /// Returns the number of leading ones in the binary representation.
    pub fn leading_ones(self) -> (r: u32)
        ensures
            r == 16 - bit_length(complement(pattern_of(self@, 16), 16)),
    {
        let p = to_pattern(self);
        proof {
            Self::lemma_layout();
            lemma_complement_bound(p as nat, 16);
            lemma_bit_length_bound(complement(p as nat, 16), 16);
        }
        Self::bits() - bit_length_pattern(low_mask(Self::bits()) - p)
    }

    /// Returns the number of trailing zeros in the binary representation.
    pub fn trailing_zeros(self) -> (r: u32)
        ensures
            r == trailing_zero_count(pattern_of(self@, 16), 16),
    {
        trailing_zeros_pattern(to_pattern(self), Self::bits())
    }

    /// Returns the number of trailing ones in the binary representation.
    pub fn trailing_ones(self) -> (r: u32)
        ensures
            r == trailing_zero_count(complement(pattern_of(self@, 16), 16), 16),
    {
        let p = to_pattern(self);
        proof {
            Self::lemma_layout();
        }
        trailing_zeros_pattern(low_mask(Self::bits()) - p, Self::bits())
    }

    /// Reverses the order of bits.
    pub fn reverse_bits(self) -> (r: Si16)
        ensures
            r@ == value_of_pattern(reversed_bits(pattern_of(self@, 16), 16), 16, true),
    {
        proof {
            Self::lemma_layout();
        }
        from_pattern(reverse_bits_pattern(to_pattern(self), Self::bits()))
    }

    /// Shifts bits to the left by `n`, wrapping the truncated bits to the end of the result.
    pub fn rotate_left(self, n: u32) -> (r: Si16)
        ensures
            r@ == value_of_pattern(rotated_left(pattern_of(self@, 16), n as nat, 16), 16, true),
    {
        proof {
            Self::lemma_layout();
        }
        from_pattern(rotate_left_pattern(to_pattern(self), n, Self::bits()))
    }

    /// Shifts bits to the right by `n`, wrapping the truncated bits to the beginning of the result.
    pub fn rotate_right(self, n: u32) -> (r: Si16)
        ensures
            r@ == value_of_pattern(rotated_right(pattern_of(self@, 16), n as nat, 16), 16, true),
    {
        proof {
            Self::lemma_layout();
        }
        from_pattern(rotate_right_pattern(to_pattern(self), n, Self::bits()))
    }

    /// Reverses the byte order.
    pub fn swap_bytes(self) -> (r: Si16)
        ensures
            r@ == value_of_pattern(reversed_bytes(pattern_of(self@, 16), 2), 16, true),
    {
        proof {
            Self::lemma_layout();
        }
        from_pattern(swap_bytes_pattern(to_pattern(self), Self::bits() / 8))
    }


    /// Converts from big-endian to the byte order that `little_endian` names: for
    /// little-endian this reverses the bytes, for big-endian it changes nothing.
    pub fn from_be_for(value: Si16, little_endian: bool) -> (r: Si16)
        ensures
            little_endian ==> r@ == value_of_pattern(reversed_bytes(pattern_of(value@, 16), 2), 16, true),
            !little_endian ==> r == value,
    {
        if little_endian {
            value.swap_bytes()
        } else {
            value
        }
    }

    /// Converts from little-endian to the byte order that `little_endian` names: for
    /// big-endian this reverses the bytes, for little-endian it changes nothing.
    pub fn from_le_for(value: Si16, little_endian: bool) -> (r: Si16)
        ensures
            little_endian ==> r == value,
            !little_endian ==> r@ == value_of_pattern(reversed_bytes(pattern_of(value@, 16), 2), 16, true),
    {
        if little_endian {
            value
        } else {
            value.swap_bytes()
        }
    }

    /// Converts from big-endian to the target's native endian: on a little-endian
    /// target this reverses the bytes, on a big-endian one it changes nothing (see
    /// [`Si16::from_be_for`]). Which of the two the target is, is a property of the machine.
    pub fn from_be(value: Si16) -> (r: Si16)
        ensures
            r == value || r@ == value_of_pattern(reversed_bytes(pattern_of(value@, 16), 2), 16, true),
            native_little_endian() ==> r@ == value_of_pattern(reversed_bytes(pattern_of(value@, 16), 2), 16, true),
            !native_little_endian() ==> r == value,
    {
        Si16::from_be_for(value, target_is_little_endian())
    }

    /// Converts from little-endian to the target's native endian: on a big-endian
    /// target this reverses the bytes, on a little-endian one it changes nothing (see
    /// [`Si16::from_le_for`]).
    pub fn from_le(value: Si16) -> (r: Si16)
        ensures
            r == value || r@ == value_of_pattern(reversed_bytes(pattern_of(value@, 16), 2), 16, true),
            native_little_endian() ==> r == value,
            !native_little_endian() ==> r@ == value_of_pattern(reversed_bytes(pattern_of(value@, 16), 2), 16, true),
    {
        Si16::from_le_for(value, target_is_little_endian())
    }

    /// Converts `self` to big-endian from the target's native endian.
    pub fn to_be(self) -> (r: Si16)
        ensures
            r == self || r@ == value_of_pattern(reversed_bytes(pattern_of(self@, 16), 2), 16, true),
            native_little_endian() ==> r@ == value_of_pattern(reversed_bytes(pattern_of(self@, 16), 2), 16, true),
            !native_little_endian() ==> r == self,
    {
        Si16::from_be(self)
    }

    /// Converts `self` to little-endian from the target's native endian.
    pub fn to_le(self) -> (r: Si16)
        ensures
            r == self || r@ == value_of_pattern(reversed_bytes(pattern_of(self@, 16), 2), 16, true),
            native_little_endian() ==> r == self,
            !native_little_endian() ==> r@ == value_of_pattern(reversed_bytes(pattern_of(self@, 16), 2), 16, true),
    {
        Si16::from_le(self)
    }

    /// Returns the memory representation as a byte array in big-endian order.
    pub fn to_be_bytes(self) -> (r: [u8; 2])
        ensures
            r@ == be_bytes(pattern_of(self@, 16), 2),
    {
        let v = le_bytes_pattern(to_pattern(self), 2);
        proof {
            lemma_le_bytes_len(pattern_of(self@, 16), 2);
        }
        let r = [v[1], v[0]];
        proof {
            assert(r@ =~= be_bytes(pattern_of(self@, 16), 2));
        }
        r
    }

    /// Returns the memory representation as a byte array in little-endian order.
    pub fn to_le_bytes(self) -> (r: [u8; 2])
        ensures
            r@ == le_bytes(pattern_of(self@, 16), 2),
    {
        let v = le_bytes_pattern(to_pattern(self), 2);
        proof {
            lemma_le_bytes_len(pattern_of(self@, 16), 2);
        }
        let r = [v[0], v[1]];
        proof {
            assert(r@ =~= le_bytes(pattern_of(self@, 16), 2));
        }
        r
    }

    /// Returns the memory representation as a byte array in the byte order that
    /// `little_endian` names.
    pub fn to_ne_bytes_for(self, little_endian: bool) -> (r: [u8; 2])
        ensures
            little_endian ==> r@ == le_bytes(pattern_of(self@, 16), 2),
            !little_endian ==> r@ == be_bytes(pattern_of(self@, 16), 2),
    {
        if little_endian {
            self.to_le_bytes()
        } else {
            self.to_be_bytes()
        }
    }

    /// Returns the memory representation as a byte array in native-endian order
    /// (see [`Si16::to_ne_bytes_for`]).
    pub fn to_ne_bytes(self) -> (r: [u8; 2])
        ensures
            r@ == le_bytes(pattern_of(self@, 16), 2) || r@ == be_bytes(pattern_of(self@, 16), 2),
            native_little_endian() ==> r@ == le_bytes(pattern_of(self@, 16), 2),
            !native_little_endian() ==> r@ == be_bytes(pattern_of(self@, 16), 2),
    {
        self.to_ne_bytes_for(target_is_little_endian())
    }

    /// Creates a scalar from a byte array in big-endian order.
    pub fn from_be_bytes(bytes: [u8; 2]) -> (r: Si16)
        ensures
            r@ == value_of_pattern(be_value(bytes@), 16, true),
    {
        let le = [bytes[1], bytes[0]];
        proof {
            assert(le@ =~= bytes@.reverse());
        }
        let p = le_value_of_bytes(le.as_slice());
        from_pattern(p)
    }

    /// Creates a scalar from a byte array in little-endian order.
    pub fn from_le_bytes(bytes: [u8; 2]) -> (r: Si16)
        ensures
            r@ == value_of_pattern(le_value(bytes@), 16, true),
    {
        let p = le_value_of_bytes(bytes.as_slice());
        from_pattern(p)
    }

    /// Creates a scalar from a byte array in the byte order that `little_endian` names.
    pub fn from_ne_bytes_for(bytes: [u8; 2], little_endian: bool) -> (r: Si16)
        ensures
            little_endian ==> r@ == value_of_pattern(le_value(bytes@), 16, true),
            !little_endian ==> r@ == value_of_pattern(be_value(bytes@), 16, true),
    {
        if little_endian {
            Si16::from_le_bytes(bytes)
        } else {
            Si16::from_be_bytes(bytes)
        }
    }

    /// Creates a scalar from a byte array in native-endian order (see
    /// [`Si16::from_ne_bytes_for`]).
    pub fn from_ne_bytes(bytes: [u8; 2]) -> (r: Si16)
        ensures
            r@ == value_of_pattern(le_value(bytes@), 16, true) || r@ == value_of_pattern(
                be_value(bytes@),
                16,
                true,
            ),
            native_little_endian() ==> r@ == value_of_pattern(le_value(bytes@), 16, true),
            !native_little_endian() ==> r@ == value_of_pattern(be_value(bytes@), 16, true),
    {
        Si16::from_ne_bytes_for(bytes, target_is_little_endian())
    }


    /// Divides two scalar values, returning `None` on division by zero or
    /// primitive signed overflow.
    ///
    /// Signed overflow can occur for `MIN / -1`.
    pub fn checked_div(self, rhs: Si16) -> (r: Option<Si16>)
        ensures
            r is None <==> rhs@ == 0 || !(i16::MIN <= trunc_div(self@, rhs@) <= i16::MAX),
            r matches Some(q) ==> q@ == trunc_div(self@, rhs@),
    {
        if rhs.0 == 0 {
            return None;
        }
        let (a_negative, a) = self.magnitude();
        let (b_negative, b) = rhs.magnitude();
        let (negative, q) = div_magnitudes(a_negative, a, b_negative, b);
        from_magnitude_checked(negative, q)
    }

    /// Calculates Euclidean division, returning `None` on division by zero or
    /// primitive signed overflow.
    pub fn checked_div_euclid(self, rhs: Si16) -> (r: Option<Si16>)
        ensures
            r is None <==> rhs@ == 0 || !(i16::MIN <= self@ / rhs@ <= i16::MAX),
            r matches Some(q) ==> q@ == self@ / rhs@,
    {
        if rhs.0 == 0 {
            return None;
        }
        let (a_negative, a) = self.magnitude();
        let (b_negative, b) = rhs.magnitude();
        let (negative, q) = div_euclid_magnitudes(a_negative, a, b_negative, b);
        from_magnitude_checked(negative, q)
    }

    /// Calculates the remainder of two scalar values, returning `None` on
    /// division by zero or primitive signed overflow.
    ///
    /// Signed overflow can occur for `MIN % -1`.
    pub fn checked_rem(self, rhs: Si16) -> (r: Option<Si16>)
        ensures
            r is None <==> rhs@ == 0 || (self@ == i16::MIN && rhs@ == -1),
            r matches Some(x) ==> x@ == trunc_rem(self@, rhs@),
    {
        if rhs.0 == 0 || (self.0 == i16::MIN && rhs.0 == -1) {
            return None;
        }
        let (a_negative, a) = self.magnitude();
        let (b_negative, b) = rhs.magnitude();
        let (negative, m) = rem_magnitudes(a_negative, a, b_negative, b);
        Some(Self::from_magnitude(negative, m))
    }

    /// Calculates the least nonnegative remainder, returning `None` on
    /// division by zero or primitive signed overflow.
    pub fn checked_rem_euclid(self, rhs: Si16) -> (r: Option<Si16>)
        ensures
            r is None <==> rhs@ == 0 || (self@ == i16::MIN && rhs@ == -1),
            r matches Some(x) ==> x@ == self@ % rhs@,
    {
        if rhs.0 == 0 || (self.0 == i16::MIN && rhs.0 == -1) {
            return None;
        }
        let (a_negative, a) = self.magnitude();
        let (b_negative, b) = rhs.magnitude();
        let m = rem_euclid_magnitudes(a_negative, a, b_negative, b);
        Some(Self::from_magnitude(false, m))
    }


    /// Raises `self` to the power of `exp`, saturating at numeric bounds.
    pub fn pow(self, exp: u32) -> (r: Si16)
        ensures
            r@ == clamp(pow(self@, exp as nat), i16::MIN as int, i16::MAX as int),
    {
        let (negative, a) = self.magnitude();
        let (n, m) = pow_magnitudes(negative, a, exp);
        proof {
            lemma_represents_clamp(n, m, pow(self@, exp as nat), i16::MIN as int, i16::MAX as int);
        }
        Self::from_magnitude(n, m)
    }

    /// Returns the base-`base` logarithm, or `None` if the logarithm is undefined.
    pub fn checked_ilog(self, base: i16) -> (r: Option<u32>)
        ensures
            r is None <==> self@ <= 0 || base < 2,
            r matches Some(k) ==> pow(base as int, k as nat) <= self@ < pow(base as int, (k + 1) as nat),
    {
        if self.0 <= 0 || base < 2 {
            None
        } else {
            Some(ilog_magnitude(self.0 as u128, base as u128))
        }
    }

    /// Returns the base-2 logarithm, or `None` if the logarithm is undefined.
    pub fn checked_ilog2(self) -> (r: Option<u32>)
        ensures
            r is None <==> self@ <= 0,
            r matches Some(k) ==> pow(2, k as nat) <= self@ < pow(2, (k + 1) as nat),
    {
        self.checked_ilog(2)
    }

    /// Returns the base-10 logarithm, or `None` if the logarithm is undefined.
    pub fn checked_ilog10(self) -> (r: Option<u32>)
        ensures
            r is None <==> self@ <= 0,
            r matches Some(k) ==> pow(10, k as nat) <= self@ < pow(10, (k + 1) as nat),
    {
        self.checked_ilog(10)
    }

    /// Returns `true` if `self` is the minimum representable value.
    pub fn is_min(self) -> (r: bool)
        ensures
            r == (self@ == i16::MIN),
    {
        self.0 == i16::MIN
    }

    /// Returns `true` if `self` is the maximum representable value.
    pub fn is_max(self) -> (r: bool)
        ensures
            r == (self@ == i16::MAX),
    {
        self.0 == i16::MAX
    }

    /// Returns `true` if `self` is zero.
    pub fn is_zero(self) -> (r: bool)
        ensures
            r == (self@ == 0),
    {
        self.0 == 0
    }

    /// Returns `true` if `self` is one.
    pub fn is_one(self) -> (r: bool)
        ensures
            r == (self@ == 1),
    {
        self.0 == 1
    }


    /// Computes the absolute value, saturating at [`Si16::MAX`].
    pub fn abs(self) -> (r: Si16)
        ensures
            r@ == clamp(abs_int(self@) as int, i16::MIN as int, i16::MAX as int),
    {
        let (_, a) = self.magnitude();
        Self::from_magnitude(false, a)
    }

    /// Computes the absolute value as an unsigned scalar.
    pub fn unsigned_abs(self) -> (r: Su16)
        ensures
            r@ == abs_int(self@),
    {
        let (_, a) = self.magnitude();
        Su16::from_magnitude(false, a)
    }

    /// Computes the absolute difference between `self` and `rhs`.
    pub fn abs_diff(self, rhs: Si16) -> (r: Su16)
        ensures
            r@ == abs_int(self@ - rhs@),
    {
        let (a_negative, a) = self.magnitude();
        let (b_negative, b) = rhs.magnitude();
        let (_, d) = add_magnitudes(a_negative, a, !b_negative, b);
        proof {
            Self::lemma_layout();
            Su16::lemma_layout();
            vstd::arithmetic::power2::lemma_pow2_unfold(16);
        }
        Su16::from_magnitude(false, d)
    }

    /// Computes the absolute value, returning `None` for [`Si16::MIN`].
    pub fn checked_abs(self) -> (r: Option<Si16>)
        ensures
            r is None <==> self@ == i16::MIN,
            r matches Some(x) ==> x@ == abs_int(self@),
    {
        if self.0 == i16::MIN {
            None
        } else {
            Some(self.abs())
        }
    }

    /// Returns a number representing the sign of `self`.
    pub fn signum(self) -> (r: Si16)
        ensures
            r@ == (if self@ > 0 {
                1
            } else if self@ < 0 {
                -1
            } else {
                0
            }),
    {
        if self.0 > 0 {
            Si16(1)
        } else if self.0 < 0 {
            Si16(-1)
        } else {
            Si16(0)
        }
    }

    /// Returns `true` if `self` is positive.
    pub fn is_positive(self) -> (r: bool)
        ensures
            r == (self@ > 0),
    {
        self.0 > 0
    }

    /// Returns `true` if `self` is negative.
    pub fn is_negative(self) -> (r: bool)
        ensures
            r == (self@ < 0),
    {
        self.0 < 0
    }

    /// Returns the integer square root, or `None` if `self` is negative.
    pub fn checked_isqrt(self) -> (r: Option<Si16>)
        ensures
            r is None <==> self@ < 0,
            r matches Some(x) ==> x@ * x@ <= self@ < (x@ + 1) * (x@ + 1),
    {
        if self.0 < 0 {
            return None;
        }
        let s = isqrt_magnitude(self.0 as u128);
        proof {
            lemma_isqrt_bound(s as int, self@);
        }
        Some(Self::from_magnitude(false, s))
    }

    /// Converts to the same-width unsigned wrapper, saturating negative values to zero.
    pub fn to_unsigned(self) -> (r: Su16)
        ensures
            r@ == (if self@ < 0 {
                0
            } else {
                self@
            }),
    {
        if self.is_negative() {
            return Su16::ZERO();
        }
        self.unsigned_abs()
    }

}

/// Creates a [`Si16`] from an inner [`i16`] value.
pub fn si16(value: i16) -> (r: Si16)
    ensures
        r@ == value,
{
    Si16::new(value)
}

impl Default for Si16 {
    fn default() -> (r: Si16)
        ensures
            r@ == 0,
    {
        Si16(0)
    }
}

impl From<i16> for Si16 {
    fn from(value: i16) -> (r: Si16)
        ensures
            r@ == value,
    {
        Si16(value)
    }
}

impl FromSpecImpl<i16> for Si16 {
    open spec fn obeys_from_spec() -> bool {
        true
    }

    open spec fn from_spec(v: i16) -> Si16 {
        Si16::new(v)
    }
}

impl From<Si16> for i16 {
    fn from(value: Si16) -> (r: i16)
        ensures
            r == value@,
    {
        value.0
    }
}

impl FromSpecImpl<Si16> for i16 {
    open spec fn obeys_from_spec() -> bool {
        true
    }

    open spec fn from_spec(v: Si16) -> i16 {
        v.into_inner()
    }
}

impl PartialEq<i16> for Si16 {
    fn eq(&self, other: &i16) -> (r: bool) {
        self.0 == *other
    }
}

impl PartialEqSpecImpl<i16> for Si16 {
    open spec fn obeys_eq_spec() -> bool {
        true
    }

    open spec fn eq_spec(&self, other: &i16) -> bool {
        self.into_inner() == *other
    }
}

impl PartialEq<Si16> for i16 {
    fn eq(&self, other: &Si16) -> (r: bool) {
        *self == other.0
    }
}

impl PartialEqSpecImpl<Si16> for i16 {
    open spec fn obeys_eq_spec() -> bool {
        true
    }

    open spec fn eq_spec(&self, other: &Si16) -> bool {
        *self == other.into_inner()
    }
}

impl PartialOrd<i16> for Si16 {
    fn partial_cmp(&self, other: &i16) -> (r: Option<Ordering>) {
        if self.0 < *other {
            Some(Ordering::Less)
        } else if self.0 > *other {
            Some(Ordering::Greater)
        } else {
            Some(Ordering::Equal)
        }
    }
}

impl PartialOrdSpecImpl<i16> for Si16 {
    open spec fn obeys_partial_cmp_spec() -> bool {
        true
    }

    open spec fn partial_cmp_spec(&self, other: &i16) -> Option<Ordering> {
        if self.into_inner() < *other {
            Some(Ordering::Less)
        } else if self.into_inner() > *other {
            Some(Ordering::Greater)
        } else {
            Some(Ordering::Equal)
        }
    }
}

impl PartialOrd<Si16> for i16 {
    fn partial_cmp(&self, other: &Si16) -> (r: Option<Ordering>) {
        if *self < other.0 {
            Some(Ordering::Less)
        } else if *self > other.0 {
            Some(Ordering::Greater)
        } else {
            Some(Ordering::Equal)
        }
    }
}

impl PartialOrdSpecImpl<Si16> for i16 {
    open spec fn obeys_partial_cmp_spec() -> bool {
        true
    }

    open spec fn partial_cmp_spec(&self, other: &Si16) -> Option<Ordering> {
        if *self < other.into_inner() {
            Some(Ordering::Less)
        } else if *self > other.into_inner() {
            Some(Ordering::Greater)
        } else {
            Some(Ordering::Equal)
        }
    }
}

impl BitAnd<Si16> for Si16 {
    type Output = Si16;

    fn bitand(self, rhs: Si16) -> (r: Si16)
        ensures
            r.into_inner() == self.into_inner() & rhs.into_inner(),
    {
        Si16(self.0 & rhs.0)
    }
}

impl BitAndSpecImpl<Si16> for Si16 {
    open spec fn obeys_bitand_spec() -> bool {
        true
    }

    open spec fn bitand_req(self, rhs: Si16) -> bool {
        true
    }

    open spec fn bitand_spec(self, rhs: Si16) -> Si16 {
        Si16::new(self.into_inner() & rhs.into_inner())
    }
}

impl BitAndAssign<Si16> for Si16 {
    fn bitand_assign(&mut self, rhs: Si16)
        ensures
            final(self).into_inner() == old(self).into_inner() & rhs.into_inner(),
    {
        *self = Si16(self.0 & rhs.0);
    }
}

impl BitAnd<i16> for Si16 {
    type Output = Si16;

    fn bitand(self, rhs: i16) -> (r: Si16)
        ensures
            r.into_inner() == self.into_inner() & rhs,
    {
        Si16(self.0 & rhs)
    }
}

impl BitAndSpecImpl<i16> for Si16 {
    open spec fn obeys_bitand_spec() -> bool {
        true
    }

    open spec fn bitand_req(self, rhs: i16) -> bool {
        true
    }

    open spec fn bitand_spec(self, rhs: i16) -> Si16 {
        Si16::new(self.into_inner() & rhs)
    }
}

impl BitAndAssign<i16> for Si16 {
    fn bitand_assign(&mut self, rhs: i16)
        ensures
            final(self).into_inner() == old(self).into_inner() & rhs,
    {
        *self = Si16(self.0 & rhs);
    }
}

impl BitOr<Si16> for Si16 {
    type Output = Si16;

    fn bitor(self, rhs: Si16) -> (r: Si16)
        ensures
            r.into_inner() == self.into_inner() | rhs.into_inner(),
    {
        Si16(self.0 | rhs.0)
    }
}

impl BitOrSpecImpl<Si16> for Si16 {
    open spec fn obeys_bitor_spec() -> bool {
        true
    }

    open spec fn bitor_req(self, rhs: Si16) -> bool {
        true
    }

    open spec fn bitor_spec(self, rhs: Si16) -> Si16 {
        Si16::new(self.into_inner() | rhs.into_inner())
    }
}

impl BitOrAssign<Si16> for Si16 {
    fn bitor_assign(&mut self, rhs: Si16)
        ensures
            final(self).into_inner() == old(self).into_inner() | rhs.into_inner(),
    {
        *self = Si16(self.0 | rhs.0);
    }
}

impl BitOr<i16> for Si16 {
    type Output = Si16;

    fn bitor(self, rhs: i16) -> (r: Si16)
        ensures
            r.into_inner() == self.into_inner() | rhs,
    {
        Si16(self.0 | rhs)
    }
}

impl BitOrSpecImpl<i16> for Si16 {
    open spec fn obeys_bitor_spec() -> bool {
        true
    }

    open spec fn bitor_req(self, rhs: i16) -> bool {
        true
    }

    open spec fn bitor_spec(self, rhs: i16) -> Si16 {
        Si16::new(self.into_inner() | rhs)
    }
}

impl BitOrAssign<i16> for Si16 {
    fn bitor_assign(&mut self, rhs: i16)
        ensures
            final(self).into_inner() == old(self).into_inner() | rhs,
    {
        *self = Si16(self.0 | rhs);
    }
}

impl BitXor<Si16> for Si16 {
    type Output = Si16;

    fn bitxor(self, rhs: Si16) -> (r: Si16)
        ensures
            r.into_inner() == self.into_inner() ^ rhs.into_inner(),
    {
        Si16(self.0 ^ rhs.0)
    }
}

impl BitXorSpecImpl<Si16> for Si16 {
    open spec fn obeys_bitxor_spec() -> bool {
        true
    }

    open spec fn bitxor_req(self, rhs: Si16) -> bool {
        true
    }

    open spec fn bitxor_spec(self, rhs: Si16) -> Si16 {
        Si16::new(self.into_inner() ^ rhs.into_inner())
    }
}

impl BitXorAssign<Si16> for Si16 {
    fn bitxor_assign(&mut self, rhs: Si16)
        ensures
            final(self).into_inner() == old(self).into_inner() ^ rhs.into_inner(),
    {
        *self = Si16(self.0 ^ rhs.0);
    }
}

impl BitXor<i16> for Si16 {
    type Output = Si16;

    fn bitxor(self, rhs: i16) -> (r: Si16)
        ensures
            r.into_inner() == self.into_inner() ^ rhs,
    {
        Si16(self.0 ^ rhs)
    }
}

impl BitXorSpecImpl<i16> for Si16 {
    open spec fn obeys_bitxor_spec() -> bool {
        true
    }

    open spec fn bitxor_req(self, rhs: i16) -> bool {
        true
    }

    open spec fn bitxor_spec(self, rhs: i16) -> Si16 {
        Si16::new(self.into_inner() ^ rhs)
    }
}

impl BitXorAssign<i16> for Si16 {
    fn bitxor_assign(&mut self, rhs: i16)
        ensures
            final(self).into_inner() == old(self).into_inner() ^ rhs,
    {
        *self = Si16(self.0 ^ rhs);
    }
}

impl Not for Si16 {
    type Output = Si16;

    fn not(self) -> (r: Si16)
        ensures
            r.into_inner() == !self.into_inner(),
    {
        Si16(!self.0)
    }
}

impl NotSpecImpl for Si16 {
    open spec fn obeys_not_spec() -> bool {
        true
    }

    open spec fn not_req(self) -> bool {
        true
    }

    open spec fn not_spec(self) -> Si16 {
        Si16::new(!self.into_inner())
    }
}

/// A saturating wrapper around [`i32`]: its arithmetic clamps to the range of
/// [`i32`] instead of overflowing.
#[derive(Clone, Copy, Debug, PartialEq, Eq, Structural, PartialOrd, Ord, Hash)]
pub struct Si32(i32);

impl View for Si32 {
    type V = int;

    closed spec fn view(&self) -> int {
        self.0 as int
    }
}

/// The inner value of a [`Si32`] is its view.
pub broadcast proof fn lemma_si32_inner(x: Si32)
    ensures
        #[trigger] x.into_inner() as int == x@,
{
}

/// A [`Si32`] is made of the value it was made from.
pub broadcast proof fn lemma_si32_new(v: i32)
    ensures
        #[trigger] Si32::new(v)@ == v as int,
{
}

impl Sealed for Si32 {
}

impl Integer for Si32 {
    open spec fn value(self) -> int {
        self@
    }

    open spec fn lower() -> int {
        i32::MIN as int
    }

    open spec fn upper() -> int {
        i32::MAX as int
    }

    open spec fn width() -> nat {
        32
    }

    open spec fn is_signed() -> bool {
        true
    }

    open spec fn of_value(v: int) -> Si32 {
        Si32::new(v as i32)
    }

    proof fn lemma_value(self) {
    }

    proof fn lemma_of_value(v: int) {
    }

    proof fn lemma_layout() {
        i32::lemma_layout();
    }

    fn bits() -> (r: u32) {
        i32::bits()
    }

    fn signed_type() -> (r: bool) {
        i32::signed_type()
    }

    fn magnitude(self) -> (r: (bool, u128)) {
        self.0.magnitude()
    }

    fn from_magnitude(negative: bool, magnitude: u128) -> (r: Si32) {
        Si32(i32::from_magnitude(negative, magnitude))
    }
}

impl SignedInteger for Si32 {
}

impl Si32 {
    /// The size of this scalar type in bits.
    pub const BITS: u32 = 32;

    /// The minimum representable value for this scalar type.
    #[allow(non_snake_case)]
    pub fn MIN() -> (r: Si32)
        ensures
            r@ == i32::MIN,
    {
        Si32(i32::MIN)
    }

    /// The maximum representable value for this scalar type.
    #[allow(non_snake_case)]
    pub fn MAX() -> (r: Si32)
        ensures
            r@ == i32::MAX,
    {
        Si32(i32::MAX)
    }

    /// The additive identity value.
    #[allow(non_snake_case)]
    pub fn ZERO() -> (r: Si32)
        ensures
            r@ == 0,
    {
        Si32(0)
    }

    /// The multiplicative identity value.
    #[allow(non_snake_case)]
    pub fn ONE() -> (r: Si32)
        ensures
            r@ == 1,
    {
        Si32(1)
    }

    /// The wrapper that holds `value`.
    pub closed spec fn spec_new(value: i32) -> Si32 {
        Si32(value)
    }

    /// Creates a new [`Si32`] from an inner [`i32`] value.
    #[verifier::when_used_as_spec(spec_new)]
    pub fn new(value: i32) -> (r: Si32)
        ensures
            r == Si32::spec_new(value),
            r@ == value,
    {
        Si32(value)
    }

    /// The wrapped value.
    pub closed spec fn spec_into_inner(self) -> i32 {
        self.0
    }

    /// Returns the wrapped [`i32`] value.
    #[verifier::when_used_as_spec(spec_into_inner)]
    pub fn into_inner(self) -> (r: i32)
        ensures
            r == self.spec_into_inner(),
            r == self@,
    {
        self.0
    }

    /// Returns the number of ones in the binary representation.
    pub fn count_ones(self) -> (r: u32)
        ensures
            r == popcount(pattern_of(self@, 32), 32),
    {
        count_ones_pattern(to_pattern(self), Self::bits())
    }

    /// Returns the number of zeros in the binary representation.
    pub fn count_zeros(self) -> (r: u32)
        ensures
            r == 32 - popcount(pattern_of(self@, 32), 32),
    {
        proof {
            lemma_popcount_bound(pattern_of(self@, 32), 32);
        }
        Self::bits() - count_ones_pattern(to_pattern(self), Self::bits())
    }

    /// Returns the number of leading zeros in the binary representation.
    pub fn leading_zeros(self) -> (r: u32)
        ensures
            r == 32 - bit_length(pattern_of(self@, 32)),
    {
        let p = to_pattern(self);
        proof {
            lemma_bit_length_bound(p as nat, 32);
        }
        Self::bits() - bit_length_pattern(p)
    }

    /// Returns the number of leading ones in the binary representation.
    pub fn leading_ones(self) -> (r: u32)
        ensures
            r == 32 - bit_length(complement(pattern_of(self@, 32), 32)),
    {
        let p = to_pattern(self);
        proof {
            Self::lemma_layout();
            lemma_complement_bound(p as nat, 32);
            lemma_bit_length_bound(complement(p as nat, 32), 32);
        }
        Self::bits() - bit_length_pattern(low_mask(Self::bits()) - p)
    }

    /// Returns the number of trailing zeros in the binary representation.
    pub fn trailing_zeros(self) -> (r: u32)
        ensures
            r == trailing_zero_count(pattern_of(self@, 32), 32),
    {
        trailing_zeros_pattern(to_pattern(self), Self::bits())
    }

    /// Returns the number of trailing ones in the binary representation.
    pub fn trailing_ones(self) -> (r: u32)
        ensures
            r == trailing_zero_count(complement(pattern_of(self@, 32), 32), 32),
    {
        let p = to_pattern(self);
        proof {
            Self::lemma_layout();
        }
        trailing_zeros_pattern(low_mask(Self::bits()) - p, Self::bits())
    }

    /// Reverses the order of bits.
    pub fn reverse_bits(self) -> (r: Si32)
        ensures
            r@ == value_of_pattern(reversed_bits(pattern_of(self@, 32), 32), 32, true),
    {
        proof {
            Self::lemma_layout();
        }
        from_pattern(reverse_bits_pattern(to_pattern(self), Self::bits()))
    }

    /// Shifts bits to the left by `n`, wrapping the truncated bits to the end of the result.
    pub fn rotate_left(self, n: u32) -> (r: Si32)
        ensures
            r@ == value_of_pattern(rotated_left(pattern_of(self@, 32), n as nat, 32), 32, true),
    {
        proof {
            Self::lemma_layout();
        }
        from_pattern(rotate_left_pattern(to_pattern(self), n, Self::bits()))
    }

    /// Shifts bits to the right by `n`, wrapping the truncated bits to the beginning of the result.
    pub fn rotate_right(self, n: u32) -> (r: Si32)
        ensures
            r@ == value_of_pattern(rotated_right(pattern_of(self@, 32), n as nat, 32), 32, true),
    {
        proof {
            Self::lemma_layout();
        }
        from_pattern(rotate_right_pattern(to_pattern(self), n, Self::bits()))
    }

    /// Reverses the byte order.
    pub fn swap_bytes(self) -> (r: Si32)
        ensures
            r@ == value_of_pattern(reversed_bytes(pattern_of(self@, 32), 4), 32, true),
    {
        proof {
            Self::lemma_layout();
        }
        from_pattern(swap_bytes_pattern(to_pattern(self), Self::bits() / 8))
    }


    /// Converts from big-endian to the byte order that `little_endian` names: for
    /// little-endian this reverses the bytes, for big-endian it changes nothing.
    pub fn from_be_for(value: Si32, little_endian: bool) -> (r: Si32)
        ensures
            little_endian ==> r@ == value_of_pattern(reversed_bytes(pattern_of(value@, 32), 4), 32, true),
            !little_endian ==> r == value,
    {
        if little_endian {
            value.swap_bytes()
        } else {
            value
        }
    }

    /// Converts from little-endian to the byte order that `little_endian` names: for
    /// big-endian this reverses the bytes, for little-endian it changes nothing.
    pub fn from_le_for(value: Si32, little_endian: bool) -> (r: Si32)
        ensures
            little_endian ==> r == value,
            !little_endian ==> r@ == value_of_pattern(reversed_bytes(pattern_of(value@, 32), 4), 32, true),
    {
        if little_endian {
            value
        } else {
            value.swap_bytes()
        }
    }

    /// Converts from big-endian to the target's native endian: on a little-endian
    /// target this reverses the bytes, on a big-endian one it changes nothing (see
    /// [`Si32::from_be_for`]). Which of the two the target is, is a property of the machine.
    pub fn from_be(value: Si32) -> (r: Si32)
        ensures
            r == value || r@ == value_of_pattern(reversed_bytes(pattern_of(value@, 32), 4), 32, true),
            native_little_endian() ==> r@ == value_of_pattern(reversed_bytes(pattern_of(value@, 32), 4), 32, true),
            !native_little_endian() ==> r == value,
    {
        Si32::from_be_for(value, target_is_little_endian())
    }

    /// Converts from little-endian to the target's native endian: on a big-endian
    /// target this reverses the bytes, on a little-endian one it changes nothing (see
    /// [`Si32::from_le_for`]).
    pub fn from_le(value: Si32) -> (r: Si32)
        ensures
            r == value || r@ == value_of_pattern(reversed_bytes(pattern_of(value@, 32), 4), 32, true),
            native_little_endian() ==> r == value,
            !native_little_endian() ==> r@ == value_of_pattern(reversed_bytes(pattern_of(value@, 32), 4), 32, true),
    {
        Si32::from_le_for(value, target_is_little_endian())
    }

    /// Converts `self` to big-endian from the target's native endian.
    pub fn to_be(self) -> (r: Si32)
        ensures
            r == self || r@ == value_of_pattern(reversed_bytes(pattern_of(self@, 32), 4), 32, true),
            native_little_endian() ==> r@ == value_of_pattern(reversed_bytes(pattern_of(self@, 32), 4), 32, true),
            !native_little_endian() ==> r == self,
    {
        Si32::from_be(self)
    }

    /// Converts `self` to little-endian from the target's native endian.
    pub fn to_le(self) -> (r: Si32)
        ensures
            r == self || r@ == value_of_pattern(reversed_bytes(pattern_of(self@, 32), 4), 32, true),
            native_little_endian() ==> r == self,
            !native_little_endian() ==> r@ == value_of_pattern(reversed_bytes(pattern_of(self@, 32), 4), 32, true),
    {
        Si32::from_le(self)
    }

    /// Returns the memory representation as a byte array in big-endian order.
    pub fn to_be_bytes(self) -> (r: [u8; 4])
        ensures
            r@ == be_bytes(pattern_of(self@, 32), 4),
    {
        let v = le_bytes_pattern(to_pattern(self), 4);
        proof {
            lemma_le_bytes_len(pattern_of(self@, 32), 4);
        }
        let r = [v[3], v[2], v[1], v[0]];
        proof {
            assert(r@ =~= be_bytes(pattern_of(self@, 32), 4));
        }
        r
    }

    /// Returns the memory representation as a byte array in little-endian order.
    pub fn to_le_bytes(self) -> (r: [u8; 4])
        ensures
            r@ == le_bytes(pattern_of(self@, 32), 4),
    {
        let v = le_bytes_pattern(to_pattern(self), 4);
        proof {
            lemma_le_bytes_len(pattern_of(self@, 32), 4);
        }
        let r = [v[0], v[1], v[2], v[3]];
        proof {
            assert(r@ =~= le_bytes(pattern_of(self@, 32), 4));
        }
        r
    }

    /// Returns the memory representation as a byte array in the byte order that
    /// `little_endian` names.
    pub fn to_ne_bytes_for(self, little_endian: bool) -> (r: [u8; 4])
        ensures
            little_endian ==> r@ == le_bytes(pattern_of(self@, 32), 4),
            !little_endian ==> r@ == be_bytes(pattern_of(self@, 32), 4),
    {
        if little_endian {
            self.to_le_bytes()
        } else {
            self.to_be_bytes()
        }
    }

    /// Returns the memory representation as a byte array in native-endian order
    /// (see [`Si32::to_ne_bytes_for`]).
    pub fn to_ne_bytes(self) -> (r: [u8; 4])
        ensures
            r@ == le_bytes(pattern_of(self@, 32), 4) || r@ == be_bytes(pattern_of(self@, 32), 4),
            native_little_endian() ==> r@ == le_bytes(pattern_of(self@, 32), 4),
            !native_little_endian() ==> r@ == be_bytes(pattern_of(self@, 32), 4),
    {
        self.to_ne_bytes_for(target_is_little_endian())
    }

    /// Creates a scalar from a byte array in big-endian order.
    pub fn from_be_bytes(bytes: [u8; 4]) -> (r: Si32)
        ensures
            r@ == value_of_pattern(be_value(bytes@), 32, true),
    {
        let le = [bytes[3], bytes[2], bytes[1], bytes[0]];
        proof {
            assert(le@ =~= bytes@.reverse());
        }
        let p = le_value_of_bytes(le.as_slice());
        from_pattern(p)
    }

    /// Creates a scalar from a byte array in little-endian order.
    pub fn from_le_bytes(bytes: [u8; 4]) -> (r: Si32)
        ensures
            r@ == value_of_pattern(le_value(bytes@), 32, true),
    {
        let p = le_value_of_bytes(bytes.as_slice());
        from_pattern(p)
    }

    /// Creates a scalar from a byte array in the byte order that `little_endian` names.
    pub fn from_ne_bytes_for(bytes: [u8; 4], little_endian: bool) -> (r: Si32)
        ensures
            little_endian ==> r@ == value_of_pattern(le_value(bytes@), 32, true),
            !little_endian ==> r@ == value_of_pattern(be_value(bytes@), 32, true),
    {
        if little_endian {
            Si32::from_le_bytes(bytes)
        } else {
            Si32::from_be_bytes(bytes)
        }
    }

    /// Creates a scalar from a byte array in native-endian order (see
    /// [`Si32::from_ne_bytes_for`]).
    pub fn from_ne_bytes(bytes: [u8; 4]) -> (r: Si32)
        ensures
            r@ == value_of_pattern(le_value(bytes@), 32, true) || r@ == value_of_pattern(
                be_value(bytes@),
                32,
                true,
            ),
            native_little_endian() ==> r@ == value_of_pattern(le_value(bytes@), 32, true),
            !native_little_endian() ==> r@ == value_of_pattern(be_value(bytes@), 32, true),
    {
        Si32::from_ne_bytes_for(bytes, target_is_little_endian())
    }


    /// Divides two scalar values, returning `None` on division by zero or
    /// primitive signed overflow.
    ///
    /// Signed overflow can occur for `MIN / -1`.
    pub fn checked_div(self, rhs: Si32) -> (r: Option<Si32>)
        ensures
            r is None <==> rhs@ == 0 || !(i32::MIN <= trunc_div(self@, rhs@) <= i32::MAX),
            r matches Some(q) ==> q@ == trunc_div(self@, rhs@),
    {
        if rhs.0 == 0 {
            return None;
        }
        let (a_negative, a) = self.magnitude();
        let (b_negative, b) = rhs.magnitude();
        let (negative, q) = div_magnitudes(a_negative, a, b_negative, b);
        from_magnitude_checked(negative, q)
    }

    /// Calculates Euclidean division, returning `None` on division by zero or
    /// primitive signed overflow.
    pub fn checked_div_euclid(self, rhs: Si32) -> (r: Option<Si32>)
        ensures
            r is None <==> rhs@ == 0 || !(i32::MIN <= self@ / rhs@ <= i32::MAX),
            r matches Some(q) ==> q@ == self@ / rhs@,
    {
        if rhs.0 == 0 {
            return None;
        }
        let (a_negative, a) = self.magnitude();
        let (b_negative, b) = rhs.magnitude();
        let (negative, q) = div_euclid_magnitudes(a_negative, a, b_negative, b);
        from_magnitude_checked(negative, q)
    }

    /// Calculates the remainder of two scalar values, returning `None` on
    /// division by zero or primitive signed overflow.
    ///
    /// Signed overflow can occur for `MIN % -1`.
    pub fn checked_rem(self, rhs: Si32) -> (r: Option<Si32>)
        ensures
            r is None <==> rhs@ == 0 || (self@ == i32::MIN && rhs@ == -1),
            r matches Some(x) ==> x@ == trunc_rem(self@, rhs@),
    {
        if rhs.0 == 0 || (self.0 == i32::MIN && rhs.0 == -1) {
            return None;
        }
        let (a_negative, a) = self.magnitude();
        let (b_negative, b) = rhs.magnitude();
        let (negative, m) = rem_magnitudes(a_negative, a, b_negative, b);
        Some(Self::from_magnitude(negative, m))
    }

    /// Calculates the least nonnegative remainder, returning `None` on
    /// division by zero or primitive signed overflow.
    pub fn checked_rem_euclid(self, rhs: Si32) -> (r: Option<Si32>)
        ensures
            r is None <==> rhs@ == 0 || (self@ == i32::MIN && rhs@ == -1),
            r matches Some(x) ==> x@ == self@ % rhs@,
    {
        if rhs.0 == 0 || (self.0 == i32::MIN && rhs.0 == -1) {
            return None;
        }
        let (a_negative, a) = self.magnitude();
        let (b_negative, b) = rhs.magnitude();
        let m = rem_euclid_magnitudes(a_negative, a, b_negative, b);
        Some(Self::from_magnitude(false, m))
    }


    /// Raises `self` to the power of `exp`, saturating at numeric bounds.
    pub fn pow(self, exp: u32) -> (r: Si32)
        ensures
            r@ == clamp(pow(self@, exp as nat), i32::MIN as int, i32::MAX as int),
    {
        let (negative, a) = self.magnitude();
        let (n, m) = pow_magnitudes(negative, a, exp);
        proof {
            lemma_represents_clamp(n, m, pow(self@, exp as nat), i32::MIN as int, i32::MAX as int);
        }
        Self::from_magnitude(n, m)
    }

    /// Returns the base-`base` logarithm, or `None` if the logarithm is undefined.
    pub fn checked_ilog(self, base: i32) -> (r: Option<u32>)
        ensures
            r is None <==> self@ <= 0 || base < 2,
            r matches Some(k) ==> pow(base as int, k as nat) <= self@ < pow(base as int, (k + 1) as nat),
    {
        if self.0 <= 0 || base < 2 {
            None
        } else {
            Some(ilog_magnitude(self.0 as u128, base as u128))
        }
    }

    /// Returns the base-2 logarithm, or `None` if the logarithm is undefined.
    pub fn checked_ilog2(self) -> (r: Option<u32>)
        ensures
            r is None <==> self@ <= 0,
            r matches Some(k) ==> pow(2, k as nat) <= self@ < pow(2, (k + 1) as nat),
    {
        self.checked_ilog(2)
    }

    /// Returns the base-10 logarithm, or `None` if the logarithm is undefined.
    pub fn checked_ilog10(self) -> (r: Option<u32>)
        ensures
            r is None <==> self@ <= 0,
            r matches Some(k) ==> pow(10, k as nat) <= self@ < pow(10, (k + 1) as nat),
    {
        self.checked_ilog(10)
    }

    /// Returns `true` if `self` is the minimum representable value.
    pub fn is_min(self) -> (r: bool)
        ensures
            r == (self@ == i32::MIN),
    {
        self.0 == i32::MIN
    }

    /// Returns `true` if `self` is the maximum representable value.
    pub fn is_max(self) -> (r: bool)
        ensures
            r == (self@ == i32::MAX),
    {
        self.0 == i32::MAX
    }

    /// Returns `true` if `self` is zero.
    pub fn is_zero(self) -> (r: bool)
        ensures
            r == (self@ == 0),
    {
        self.0 == 0
    }

    /// Returns `true` if `self` is one.
    pub fn is_one(self) -> (r: bool)
        ensures
            r == (self@ == 1),
    {
        self.0 == 1
    }


    /// Computes the absolute value, saturating at [`Si32::MAX`].
    pub fn abs(self) -> (r: Si32)
        ensures
            r@ == clamp(abs_int(self@) as int, i32::MIN as int, i32::MAX as int),
    {
        let (_, a) = self.magnitude();
        Self::from_magnitude(false, a)
    }

    /// Computes the absolute value as an unsigned scalar.
    pub fn unsigned_abs(self) -> (r: Su32)
        ensures
            r@ == abs_int(self@),
    {
        let (_, a) = self.magnitude();
        Su32::from_magnitude(false, a)
    }

    /// Computes the absolute difference between `self` and `rhs`.
    pub fn abs_diff(self, rhs: Si32) -> (r: Su32)
        ensures
            r@ == abs_int(self@ - rhs@),
    {
        let (a_negative, a) = self.magnitude();
        let (b_negative, b) = rhs.magnitude();
        let (_, d) = add_magnitudes(a_negative, a, !b_negative, b);
        proof {
            Self::lemma_layout();
            Su32::lemma_layout();
            vstd::arithmetic::power2::lemma_pow2_unfold(32);
        }
        Su32::from_magnitude(false, d)
    }

    /// Computes the absolute value, returning `None` for [`Si32::MIN`].
    pub fn checked_abs(self) -> (r: Option<Si32>)
        ensures
            r is None <==> self@ == i32::MIN,
            r matches Some(x) ==> x@ == abs_int(self@),
    {
        if self.0 == i32::MIN {
            None
        } else {
            Some(self.abs())
        }
    }

    /// Returns a number representing the sign of `self`.
    pub fn signum(self) -> (r: Si32)
        ensures
            r@ == (if self@ > 0 {
                1
            } else if self@ < 0 {
                -1
            } else {
                0
            }),
    {
        if self.0 > 0 {
            Si32(1)
        } else if self.0 < 0 {
            Si32(-1)
        } else {
            Si32(0)
        }
    }

    /// Returns `true` if `self` is positive.
    pub fn is_positive(self) -> (r: bool)
        ensures
            r == (self@ > 0),
    {
        self.0 > 0
    }

    /// Returns `true` if `self` is negative.
    pub fn is_negative(self) -> (r: bool)
        ensures
            r == (self@ < 0),
    {
        self.0 < 0
    }

    /// Returns the integer square root, or `None` if `self` is negative.
    pub fn checked_isqrt(self) -> (r: Option<Si32>)
        ensures
            r is None <==> self@ < 0,
            r matches Some(x) ==> x@ * x@ <= self@ < (x@ + 1) * (x@ + 1),
    {
        if self.0 < 0 {
            return None;
        }
        let s = isqrt_magnitude(self.0 as u128);
        proof {
            lemma_isqrt_bound(s as int, self@);
        }
        Some(Self::from_magnitude(false, s))
    }

    /// Converts to the same-width unsigned wrapper, saturating negative values to zero.
    pub fn to_unsigned(self) -> (r: Su32)
        ensures
            r@ == (if self@ < 0 {
                0
            } else {
                self@
            }),
    {
        if self.is_negative() {
            return Su32::ZERO();
        }
        self.unsigned_abs()
    }

}

/// Creates a [`Si32`] from an inner [`i32`] value.
pub fn si32(value: i32) -> (r: Si32)
    ensures
        r@ == value,
{
    Si32::new(value)
}

impl Default for Si32 {
    fn default() -> (r: Si32)
        ensures
            r@ == 0,
    {
        Si32(0)
    }
}

impl From<i32> for Si32 {
    fn from(value: i32) -> (r: Si32)
        ensures
            r@ == value,
    {
        Si32(value)
    }
}

impl FromSpecImpl<i32> for Si32 {
    open spec fn obeys_from_spec() -> bool {
        true
    }

    open spec fn from_spec(v: i32) -> Si32 {
        Si32::new(v)
    }
}

impl From<Si32> for i32 {
    fn from(value: Si32) -> (r: i32)
        ensures
            r == value@,
    {
        value.0
    }
}

impl FromSpecImpl<Si32> for i32 {
    open spec fn obeys_from_spec() -> bool {
        true
    }

    open spec fn from_spec(v: Si32) -> i32 {
        v.into_inner()
    }
}

impl PartialEq<i32> for Si32 {
    fn eq(&self, other: &i32) -> (r: bool) {
        self.0 == *other
    }
}

impl PartialEqSpecImpl<i32> for Si32 {
    open spec fn obeys_eq_spec() -> bool {
        true
    }

    open spec fn eq_spec(&self, other: &i32) -> bool {
        self.into_inner() == *other
    }
}

impl PartialEq<Si32> for i32 {
    fn eq(&self, other: &Si32) -> (r: bool) {
        *self == other.0
    }
}

impl PartialEqSpecImpl<Si32> for i32 {
    open spec fn obeys_eq_spec() -> bool {
        true
    }

    open spec fn eq_spec(&self, other: &Si32) -> bool {
        *self == other.into_inner()
    }
}

impl PartialOrd<i32> for Si32 {
    fn partial_cmp(&self, other: &i32) -> (r: Option<Ordering>) {
        if self.0 < *other {
            Some(Ordering::Less)
        } else if self.0 > *other {
            Some(Ordering::Greater)
        } else {
            Some(Ordering::Equal)
        }
    }
}

impl PartialOrdSpecImpl<i32> for Si32 {
    open spec fn obeys_partial_cmp_spec() -> bool {
        true
    }

    open spec fn partial_cmp_spec(&self, other: &i32) -> Option<Ordering> {
        if self.into_inner() < *other {
            Some(Ordering::Less)
        } else if self.into_inner() > *other {
            Some(Ordering::Greater)
        } else {
            Some(Ordering::Equal)
        }
    }
}

impl PartialOrd<Si32> for i32 {
    fn partial_cmp(&self, other: &Si32) -> (r: Option<Ordering>) {
        if *self < other.0 {
            Some(Ordering::Less)
        } else if *self > other.0 {
            Some(Ordering::Greater)
        } else {
            Some(Ordering::Equal)
        }
    }
}

impl PartialOrdSpecImpl<Si32> for i32 {
    open spec fn obeys_partial_cmp_spec() -> bool {
        true
    }

    open spec fn partial_cmp_spec(&self, other: &Si32) -> Option<Ordering> {
        if *self < other.into_inner() {
            Some(Ordering::Less)
        } else if *self > other.into_inner() {
            Some(Ordering::Greater)
        } else {
            Some(Ordering::Equal)
        }
    }
}

impl BitAnd<Si32> for Si32 {
    type Output = Si32;

    fn bitand(self, rhs: Si32) -> (r: Si32)
        ensures
            r.into_inner() == self.into_inner() & rhs.into_inner(),
    {
        Si32(self.0 & rhs.0)
    }
}

impl BitAndSpecImpl<Si32> for Si32 {
    open spec fn obeys_bitand_spec() -> bool {
        true
    }

    open spec fn bitand_req(self, rhs: Si32) -> bool {
        true
    }

    open spec fn bitand_spec(self, rhs: Si32) -> Si32 {
        Si32::new(self.into_inner() & rhs.into_inner())
    }
}

impl BitAndAssign<Si32> for Si32 {
    fn bitand_assign(&mut self, rhs: Si32)
        ensures
            final(self).into_inner() == old(self).into_inner() & rhs.into_inner(),
    {
        *self = Si32(self.0 & rhs.0);
    }
}

impl BitAnd<i32> for Si32 {
    type Output = Si32;

    fn bitand(self, rhs: i32) -> (r: Si32)
        ensures
            r.into_inner() == self.into_inner() & rhs,
    {
        Si32(self.0 & rhs)
    }
}

impl BitAndSpecImpl<i32> for Si32 {
    open spec fn obeys_bitand_spec() -> bool {
        true
    }

    open spec fn bitand_req(self, rhs: i32) -> bool {
        true
    }

    open spec fn bitand_spec(self, rhs: i32) -> Si32 {
        Si32::new(self.into_inner() & rhs)
    }
}

impl BitAndAssign<i32> for Si32 {
    fn bitand_assign(&mut self, rhs: i32)
        ensures
            final(self).into_inner() == old(self).into_inner() & rhs,
    {
        *self = Si32(self.0 & rhs);
    }
}

impl BitOr<Si32> for Si32 {
    type Output = Si32;

    fn bitor(self, rhs: Si32) -> (r: Si32)
        ensures
            r.into_inner() == self.into_inner() | rhs.into_inner(),
    {
        Si32(self.0 | rhs.0)
    }
}

impl BitOrSpecImpl<Si32> for Si32 {
    open spec fn obeys_bitor_spec() -> bool {
        true
    }

    open spec fn bitor_req(self, rhs: Si32) -> bool {
        true
    }

    open spec fn bitor_spec(self, rhs: Si32) -> Si32 {
        Si32::new(self.into_inner() | rhs.into_inner())
    }
}

impl BitOrAssign<Si32> for Si32 {
    fn bitor_assign(&mut self, rhs: Si32)
        ensures
            final(self).into_inner() == old(self).into_inner() | rhs.into_inner(),
    {
        *self = Si32(self.0 | rhs.0);
    }
}

impl BitOr<i32> for Si32 {
    type Output = Si32;

    fn bitor(self, rhs: i32) -> (r: Si32)
        ensures
            r.into_inner() == self.into_inner() | rhs,
    {
        Si32(self.0 | rhs)
    }
}

impl BitOrSpecImpl<i32> for Si32 {
    open spec fn obeys_bitor_spec() -> bool {
        true
    }

    open spec fn bitor_req(self, rhs: i32) -> bool {
        true
    }

    open spec fn bitor_spec(self, rhs: i32) -> Si32 {
        Si32::new(self.into_inner() | rhs)
    }
}

impl BitOrAssign<i32> for Si32 {
    fn bitor_assign(&mut self, rhs: i32)
        ensures
            final(self).into_inner() == old(self).into_inner() | rhs,
    {
        *self = Si32(self.0 | rhs);
    }
}

impl BitXor<Si32> for Si32 {
    type Output = Si32;

    fn bitxor(self, rhs: Si32) -> (r: Si32)
        ensures
            r.into_inner() == self.into_inner() ^ rhs.into_inner(),
    {
        Si32(self.0 ^ rhs.0)
    }
}

impl BitXorSpecImpl<Si32> for Si32 {
    open spec fn obeys_bitxor_spec() -> bool {
        true
    }

    open spec fn bitxor_req(self, rhs: Si32) -> bool {
        true
    }

    open spec fn bitxor_spec(self, rhs: Si32) -> Si32 {
        Si32::new(self.into_inner() ^ rhs.into_inner())
    }
}

impl BitXorAssign<Si32> for Si32 {
    fn bitxor_assign(&mut self, rhs: Si32)
        ensures
            final(self).into_inner() == old(self).into_inner() ^ rhs.into_inner(),
    {
        *self = Si32(self.0 ^ rhs.0);
    }
}

impl BitXor<i32> for Si32 {
    type Output = Si32;

    fn bitxor(self, rhs: i32) -> (r: Si32)
        ensures
            r.into_inner() == self.into_inner() ^ rhs,
    {
        Si32(self.0 ^ rhs)
    }
}

impl BitXorSpecImpl<i32> for Si32 {
    open spec fn obeys_bitxor_spec() -> bool {
        true
    }

    open spec fn bitxor_req(self, rhs: i32) -> bool {
        true
    }

    open spec fn bitxor_spec(self, rhs: i32) -> Si32 {
        Si32::new(self.into_inner() ^ rhs)
    }
}

impl BitXorAssign<i32> for Si32 {
    fn bitxor_assign(&mut self, rhs: i32)
        ensures
            final(self).into_inner() == old(self).into_inner() ^ rhs,
    {
        *self = Si32(self.0 ^ rhs);
    }
}

impl Not for Si32 {
    type Output = Si32;

    fn not(self) -> (r: Si32)
        ensures
            r.into_inner() == !self.into_inner(),
    {
        Si32(!self.0)
    }
}

impl NotSpecImpl for Si32 {
    open spec fn obeys_not_spec() -> bool {
        true
    }

    open spec fn not_req(self) -> bool {
        true
    }

    open spec fn not_spec(self) -> Si32 {
        Si32::new(!self.into_inner())
    }
}

/// A saturating wrapper around [`i64`]: its arithmetic clamps to the range of
/// [`i64`] instead of overflowing.
#[derive(Clone, Copy, Debug, PartialEq, Eq, Structural, PartialOrd, Ord, Hash)]
pub struct Si64(i64);

impl View for Si64 {
    type V = int;

    closed spec fn view(&self) -> int {
        self.0 as int
    }
}

/// The inner value of a [`Si64`] is its view.
pub broadcast proof fn lemma_si64_inner(x: Si64)
    ensures
        #[trigger] x.into_inner() as int == x@,
{
}

/// A [`Si64`] is made of the value it was made from.
pub broadcast proof fn lemma_si64_new(v: i64)
    ensures
        #[trigger] Si64::new(v)@ == v as int,
{
}

impl Sealed for Si64 {
}

impl Integer for Si64 {
    open spec fn value(self) -> int {
        self@
    }

    open spec fn lower() -> int {
        i64::MIN as int
    }

    open spec fn upper() -> int {
        i64::MAX as int
    }

    open spec fn width() -> nat {
        64
    }

    open spec fn is_signed() -> bool {
        true
    }

    open spec fn of_value(v: int) -> Si64 {
        Si64::new(v as i64)
    }

    proof fn lemma_value(self) {
    }

    proof fn lemma_of_value(v: int) {
    }

    proof fn lemma_layout() {
        i64::lemma_layout();
    }

    fn bits() -> (r: u32) {
        i64::bits()
    }

    fn signed_type() -> (r: bool) {
        i64::signed_type()
    }

    fn magnitude(self) -> (r: (bool, u128)) {
        self.0.magnitude()
    }

    fn from_magnitude(negative: bool, magnitude: u128) -> (r: Si64) {
        Si64(i64::from_magnitude(negative, magnitude))
    }
}

impl SignedInteger for Si64 {
}

impl Si64 {
    /// The size of this scalar type in bits.
    pub const BITS: u32 = 64;

    /// The minimum representable value for this scalar type.
    #[allow(non_snake_case)]
    pub fn MIN() -> (r: Si64)
        ensures
            r@ == i64::MIN,
    {
        Si64(i64::MIN)
    }

    /// The maximum representable value for this scalar type.
    #[allow(non_snake_case)]
    pub fn MAX() -> (r: Si64)
        ensures
            r@ == i64::MAX,
    {
        Si64(i64::MAX)
    }

    /// The additive identity value.
    #[allow(non_snake_case)]
    pub fn ZERO() -> (r: Si64)
        ensures
            r@ == 0,
    {
        Si64(0)
    }

    /// The multiplicative identity value.
    #[allow(non_snake_case)]
    pub fn ONE() -> (r: Si64)
        ensures
            r@ == 1,
    {
        Si64(1)
    }

    /// The wrapper that holds `value`.
    pub closed spec fn spec_new(value: i64) -> Si64 {
        Si64(value)
    }

    /// Creates a new [`Si64`] from an inner [`i64`] value.
    #[verifier::when_used_as_spec(spec_new)]
    pub fn new(value: i64) -> (r: Si64)
        ensures
            r == Si64::spec_new(value),
            r@ == value,
    {
        Si64(value)
    }

    /// The wrapped value.
    pub closed spec fn spec_into_inner(self) -> i64 {
        self.0
    }

    /// Returns the wrapped [`i64`] value.
    #[verifier::when_used_as_spec(spec_into_inner)]
    pub fn into_inner(self) -> (r: i64)
        ensures
            r == self.spec_into_inner(),
            r == self@,
    {
        self.0
    }

    /// Returns the number of ones in the binary representation.
    pub fn count_ones(self) -> (r: u32)
        ensures
            r == popcount(pattern_of(self@, 64), 64),
    {
        count_ones_pattern(to_pattern(self), Self::bits())
    }

    /// Returns the number of zeros in the binary representation.
    pub fn count_zeros(self) -> (r: u32)
        ensures
            r == 64 - popcount(pattern_of(self@, 64), 64),
    {
        proof {
            lemma_popcount_bound(pattern_of(self@, 64), 64);
        }
        Self::bits() - count_ones_pattern(to_pattern(self), Self::bits())
    }

    /// Returns the number of leading zeros in the binary representation.
    pub fn leading_zeros(self) -> (r: u32)
        ensures
            r == 64 - bit_length(pattern_of(self@, 64)),
    {
        let p = to_pattern(self);
        proof {
            lemma_bit_length_bound(p as nat, 64);
        }
        Self::bits() - bit_length_pattern(p)
    }

    /// Returns the number of leading ones in the binary representation.
    pub fn leading_ones(self) -> (r: u32)
        ensures
            r == 64 - bit_length(complement(pattern_of(self@, 64), 64)),
    {
        let p = to_pattern(self);
        proof {
            Self::lemma_layout();
            lemma_complement_bound(p as nat, 64);
            lemma_bit_length_bound(complement(p as nat, 64), 64);
        }
        Self::bits() - bit_length_pattern(low_mask(Self::bits()) - p)
    }

    /// Returns the number of trailing zeros in the binary representation.
    pub fn trailing_zeros(self) -> (r: u32)
        ensures
            r == trailing_zero_count(pattern_of(self@, 64), 64),
    {
        trailing_zeros_pattern(to_pattern(self), Self::bits())
    }

    /// Returns the number of trailing ones in the binary representation.
    pub fn trailing_ones(self) -> (r: u32)
        ensures
            r == trailing_zero_count(complement(pattern_of(self@, 64), 64), 64),
    {
        let p = to_pattern(self);
        proof {
            Self::lemma_layout();
        }
        trailing_zeros_pattern(low_mask(Self::bits()) - p, Self::bits())
    }

    /// Reverses the order of bits.
    pub fn reverse_bits(self) -> (r: Si64)
        ensures
            r@ == value_of_pattern(reversed_bits(pattern_of(self@, 64), 64), 64, true),
    {
        proof {
            Self::lemma_layout();
        }
        from_pattern(reverse_bits_pattern(to_pattern(self), Self::bits()))
    }

    /// Shifts bits to the left by `n`, wrapping the truncated bits to the end of the result.
    pub fn rotate_left(self, n: u32) -> (r: Si64)
        ensures
            r@ == value_of_pattern(rotated_left(pattern_of(self@, 64), n as nat, 64), 64, true),
    {
        proof {
            Self::lemma_layout();
        }
        from_pattern(rotate_left_pattern(to_pattern(self), n, Self::bits()))
    }

    /// Shifts bits to the right by `n`, wrapping the truncated bits to the beginning of the result.
    pub fn rotate_right(self, n: u32) -> (r: Si64)
        ensures
            r@ == value_of_pattern(rotated_right(pattern_of(self@, 64), n as nat, 64), 64, true),
    {
        proof {
            Self::lemma_layout();
        }
        from_pattern(rotate_right_pattern(to_pattern(self), n, Self::bits()))
    }

    /// Reverses the byte order.
    pub fn swap_bytes(self) -> (r: Si64)
        ensures
            r@ == value_of_pattern(reversed_bytes(pattern_of(self@, 64), 8), 64, true),
    {
        proof {
            Self::lemma_layout();
        }
        from_pattern(swap_bytes_pattern(to_pattern(self), Self::bits() / 8))
    }


    /// Converts from big-endian to the byte order that `little_endian` names: for
    /// little-endian this reverses the bytes, for big-endian it changes nothing.
    pub fn from_be_for(value: Si64, little_endian: bool) -> (r: Si64)
        ensures
            little_endian ==> r@ == value_of_pattern(reversed_bytes(pattern_of(value@, 64), 8), 64, true),
            !little_endian ==> r == value,
    {
        if little_endian {
            value.swap_bytes()
        } else {
            value
        }
    }

    /// Converts from little-endian to the byte order that `little_endian` names: for
    /// big-endian this reverses the bytes, for little-endian it changes nothing.
    pub fn from_le_for(value: Si64, little_endian: bool) -> (r: Si64)
        ensures
            little_endian ==> r == value,
            !little_endian ==> r@ == value_of_pattern(reversed_bytes(pattern_of(value@, 64), 8), 64, true),
    {
        if little_endian {
            value
        } else {
            value.swap_bytes()
        }
    }

    /// Converts from big-endian to the target's native endian: on a little-endian
    /// target this reverses the bytes, on a big-endian one it changes nothing (see
    /// [`Si64::from_be_for`]). Which of the two the target is, is a property of the machine.
    pub fn from_be(value: Si64) -> (r: Si64)
        ensures
            r == value || r@ == value_of_pattern(reversed_bytes(pattern_of(value@, 64), 8), 64, true),
            native_little_endian() ==> r@ == value_of_pattern(reversed_bytes(pattern_of(value@, 64), 8), 64, true),
            !native_little_endian() ==> r == value,
    {
        Si64::from_be_for(value, target_is_little_endian())
    }

    /// Converts from little-endian to the target's native endian: on a big-endian
    /// target this reverses the bytes, on a little-endian one it changes nothing (see
    /// [`Si64::from_le_for`]).
    pub fn from_le(value: Si64) -> (r: Si64)
        ensures
            r == value || r@ == value_of_pattern(reversed_bytes(pattern_of(value@, 64), 8), 64, true),
            native_little_endian() ==> r == value,
            !native_little_endian() ==> r@ == value_of_pattern(reversed_bytes(pattern_of(value@, 64), 8), 64, true),
    {
        Si64::from_le_for(value, target_is_little_endian())
    }

    /// Converts `self` to big-endian from the target's native endian.
    pub fn to_be(self) -> (r: Si64)
        ensures
            r == self || r@ == value_of_pattern(reversed_bytes(pattern_of(self@, 64), 8), 64, true),
            native_little_endian() ==> r@ == value_of_pattern(reversed_bytes(pattern_of(self@, 64), 8), 64, true),
            !native_little_endian() ==> r == self,
    {
        Si64::from_be(self)
    }

    /// Converts `self` to little-endian from the target's native endian.
    pub fn to_le(self) -> (r: Si64)
        ensures
            r == self || r@ == value_of_pattern(reversed_bytes(pattern_of(self@, 64), 8), 64, true),
            native_little_endian() ==> r == self,
            !native_little_endian() ==> r@ == value_of_pattern(reversed_bytes(pattern_of(self@, 64), 8), 64, true),
    {
        Si64::from_le(self)
    }

    /// Returns the memory representation as a byte array in big-endian order.
    pub fn to_be_bytes(self) -> (r: [u8; 8])
        ensures
            r@ == be_bytes(pattern_of(self@, 64), 8),
    {
        let v = le_bytes_pattern(to_pattern(self), 8);
        proof {
            lemma_le_bytes_len(pattern_of(self@, 64), 8);
        }
        let r = [v[7], v[6], v[5], v[4], v[3], v[2], v[1], v[0]];
        proof {
            assert(r@ =~= be_bytes(pattern_of(self@, 64), 8));
        }
        r
    }

    /// Returns the memory representation as a byte array in little-endian order.
    pub fn to_le_bytes(self) -> (r: [u8; 8])
        ensures
            r@ == le_bytes(pattern_of(self@, 64), 8),
    {
        let v = le_bytes_pattern(to_pattern(self), 8);
        proof {
            lemma_le_bytes_len(pattern_of(self@, 64), 8);
        }
        let r = [v[0], v[1], v[2], v[3], v[4], v[5], v[6], v[7]];
        proof {
            assert(r@ =~= le_bytes(pattern_of(self@, 64), 8));
        }
        r
    }

    /// Returns the memory representation as a byte array in the byte order that
    /// `little_endian` names.
    pub fn to_ne_bytes_for(self, little_endian: bool) -> (r: [u8; 8])
        ensures
            little_endian ==> r@ == le_bytes(pattern_of(self@, 64), 8),
            !little_endian ==> r@ == be_bytes(pattern_of(self@, 64), 8),
    {
        if little_endian {
            self.to_le_bytes()
        } else {
            self.to_be_bytes()
        }
    }

    /// Returns the memory representation as a byte array in native-endian order
    /// (see [`Si64::to_ne_bytes_for`]).
    pub fn to_ne_bytes(self) -> (r: [u8; 8])
        ensures
            r@ == le_bytes(pattern_of(self@, 64), 8) || r@ == be_bytes(pattern_of(self@, 64), 8),
            native_little_endian() ==> r@ == le_bytes(pattern_of(self@, 64), 8),
            !native_little_endian() ==> r@ == be_bytes(pattern_of(self@, 64), 8),
    {
        self.to_ne_bytes_for(target_is_little_endian())
    }

    /// Creates a scalar from a byte array in big-endian order.
    pub fn from_be_bytes(bytes: [u8; 8]) -> (r: Si64)
        ensures
            r@ == value_of_pattern(be_value(bytes@), 64, true),
    {
        let le = [bytes[7], bytes[6], bytes[5], bytes[4], bytes[3], bytes[2], bytes[1], bytes[0]];
        proof {
            assert(le@ =~= bytes@.reverse());
        }
        let p = le_value_of_bytes(le.as_slice());
        from_pattern(p)
    }

    /// Creates a scalar from a byte array in little-endian order.
    pub fn from_le_bytes(bytes: [u8; 8]) -> (r: Si64)
        ensures
            r@ == value_of_pattern(le_value(bytes@), 64, true),
    {
        let p = le_value_of_bytes(bytes.as_slice());
        from_pattern(p)
    }

    /// Creates a scalar from a byte array in the byte order that `little_endian` names.
    pub fn from_ne_bytes_for(bytes: [u8; 8], little_endian: bool) -> (r: Si64)
        ensures
            little_endian ==> r@ == value_of_pattern(le_value(bytes@), 64, true),
            !little_endian ==> r@ == value_of_pattern(be_value(bytes@), 64, true),
    {
        if little_endian {
            Si64::from_le_bytes(bytes)
        } else {
            Si64::from_be_bytes(bytes)
        }
    }

    /// Creates a scalar from a byte array in native-endian order (see
    /// [`Si64::from_ne_bytes_for`]).
    pub fn from_ne_bytes(bytes: [u8; 8]) -> (r: Si64)
        ensures
            r@ == value_of_pattern(le_value(bytes@), 64, true) || r@ == value_of_pattern(
                be_value(bytes@),
                64,
                true,
            ),
            native_little_endian() ==> r@ == value_of_pattern(le_value(bytes@), 64, true),
            !native_little_endian() ==> r@ == value_of_pattern(be_value(bytes@), 64, true),
    {
        Si64::from_ne_bytes_for(bytes, target_is_little_endian())
    }


    /// Divides two scalar values, returning `None` on division by zero or
    /// primitive signed overflow.
    ///
    /// Signed overflow can occur for `MIN / -1`.
    pub fn checked_div(self, rhs: Si64) -> (r: Option<Si64>)
        ensures
            r is None <==> rhs@ == 0 || !(i64::MIN <= trunc_div(self@, rhs@) <= i64::MAX),
            r matches Some(q) ==> q@ == trunc_div(self@, rhs@),
    {
        if rhs.0 == 0 {
            return None;
        }
        let (a_negative, a) = self.magnitude();
        let (b_negative, b) = rhs.magnitude();
        let (negative, q) = div_magnitudes(a_negative, a, b_negative, b);
        from_magnitude_checked(negative, q)
    }

    /// Calculates Euclidean division, returning `None` on division by zero or
    /// primitive signed overflow.
    pub fn checked_div_euclid(self, rhs: Si64) -> (r: Option<Si64>)
        ensures
            r is None <==> rhs@ == 0 || !(i64::MIN <= self@ / rhs@ <= i64::MAX),
            r matches Some(q) ==> q@ == self@ / rhs@,
    {
        if rhs.0 == 0 {
            return None;
        }
        let (a_negative, a) = self.magnitude();
        let (b_negative, b) = rhs.magnitude();
        let (negative, q) = div_euclid_magnitudes(a_negative, a, b_negative, b);
        from_magnitude_checked(negative, q)
    }

    /// Calculates the remainder of two scalar values, returning `None` on
    /// division by zero or primitive signed overflow.
    ///
    /// Signed overflow can occur for `MIN % -1`.
    pub fn checked_rem(self, rhs: Si64) -> (r: Option<Si64>)
        ensures
            r is None <==> rhs@ == 0 || (self@ == i64::MIN && rhs@ == -1),
            r matches Some(x) ==> x@ == trunc_rem(self@, rhs@),
    {
        if rhs.0 == 0 || (self.0 == i64::MIN && rhs.0 == -1) {
            return None;
        }
        let (a_negative, a) = self.magnitude();
        let (b_negative, b) = rhs.magnitude();
        let (negative, m) = rem_magnitudes(a_negative, a, b_negative, b);
        Some(Self::from_magnitude(negative, m))
    }

    /// Calculates the least nonnegative remainder, returning `None` on
    /// division by zero or primitive signed overflow.
    pub fn checked_rem_euclid(self, rhs: Si64) -> (r: Option<Si64>)
        ensures
            r is None <==> rhs@ == 0 || (self@ == i64::MIN && rhs@ == -1),
            r matches Some(x) ==> x@ == self@ % rhs@,
    {
        if rhs.0 == 0 || (self.0 == i64::MIN && rhs.0 == -1) {
            return None;
        }
        let (a_negative, a) = self.magnitude();
        let (b_negative, b) = rhs.magnitude();
        let m = rem_euclid_magnitudes(a_negative, a, b_negative, b);
        Some(Self::from_magnitude(false, m))
    }


    /// Raises `self` to the power of `exp`, saturating at numeric bounds.
    pub fn pow(self, exp: u32) -> (r: Si64)
        ensures
            r@ == clamp(pow(self@, exp as nat), i64::MIN as int, i64::MAX as int),
    {
        let (negative, a) = self.magnitude();
        let (n, m) = pow_magnitudes(negative, a, exp);
        proof {
            lemma_represents_clamp(n, m, pow(self@, exp as nat), i64::MIN as int, i64::MAX as int);
        }
        Self::from_magnitude(n, m)
    }

    /// Returns the base-`base` logarithm, or `None` if the logarithm is undefined.
    pub fn checked_ilog(self, base: i64) -> (r: Option<u32>)
        ensures
            r is None <==> self@ <= 0 || base < 2,
            r matches Some(k) ==> pow(base as int, k as nat) <= self@ < pow(base as int, (k + 1) as nat),
    {
        if self.0 <= 0 || base < 2 {
            None
        } else {
            Some(ilog_magnitude(self.0 as u128, base as u128))
        }
    }

    /// Returns the base-2 logarithm, or `None` if the logarithm is undefined.
    pub fn checked_ilog2(self) -> (r: Option<u32>)
        ensures
            r is None <==> self@ <= 0,
            r matches Some(k) ==> pow(2, k as nat) <= self@ < pow(2, (k + 1) as nat),
    {
        self.checked_ilog(2)
    }

    /// Returns the base-10 logarithm, or `None` if the logarithm is undefined.
    pub fn checked_ilog10(self) -> (r: Option<u32>)
        ensures
            r is None <==> self@ <= 0,
            r matches Some(k) ==> pow(10, k as nat) <= self@ < pow(10, (k + 1) as nat),
    {
        self.checked_ilog(10)
    }

    /// Returns `true` if `self` is the minimum representable value.
    pub fn is_min(self) -> (r: bool)
        ensures
            r == (self@ == i64::MIN),
    {
        self.0 == i64::MIN
    }

    /// Returns `true` if `self` is the maximum representable value.
    pub fn is_max(self) -> (r: bool)
        ensures
            r == (self@ == i64::MAX),
    {
        self.0 == i64::MAX
    }

    /// Returns `true` if `self` is zero.
    pub fn is_zero(self) -> (r: bool)
        ensures
            r == (self@ == 0),
    {
        self.0 == 0
    }

    /// Returns `true` if `self` is one.
    pub fn is_one(self) -> (r: bool)
        ensures
            r == (self@ == 1),
    {
        self.0 == 1
    }


    /// Computes the absolute value, saturating at [`Si64::MAX`].
    pub fn abs(self) -> (r: Si64)
        ensures
            r@ == clamp(abs_int(self@) as int, i64::MIN as int, i64::MAX as int),
    {
        let (_, a) = self.magnitude();
        Self::from_magnitude(false, a)
    }

    /// Computes the absolute value as an unsigned scalar.
    pub fn unsigned_abs(self) -> (r: Su64)
        ensures
            r@ == abs_int(self@),
    {
        let (_, a) = self.magnitude();
        Su64::from_magnitude(false, a)
    }

    /// Computes the absolute difference between `self` and `rhs`.
    pub fn abs_diff(self, rhs: Si64) -> (r: Su64)
        ensures
            r@ == abs_int(self@ - rhs@),
    {
        let (a_negative, a) = self.magnitude();
        let (b_negative, b) = rhs.magnitude();
        let (_, d) = add_magnitudes(a_negative, a, !b_negative, b);
        proof {
            Self::lemma_layout();
            Su64::lemma_layout();
            vstd::arithmetic::power2::lemma_pow2_unfold(64);
        }
        Su64::from_magnitude(false, d)
    }

    /// Computes the absolute value, returning `None` for [`Si64::MIN`].
    pub fn checked_abs(self) -> (r: Option<Si64>)
        ensures
            r is None <==> self@ == i64::MIN,
            r matches Some(x) ==> x@ == abs_int(self@),
    {
        if self.0 == i64::MIN {
            None
        } else {
            Some(self.abs())
        }
    }

    /// Returns a number representing the sign of `self`.
    pub fn signum(self) -> (r: Si64)
        ensures
            r@ == (if self@ > 0 {
                1
            } else if self@ < 0 {
                -1
            } else {
                0
            }),
    {
        if self.0 > 0 {
            Si64(1)
        } else if self.0 < 0 {
            Si64(-1)
        } else {
            Si64(0)
        }
    }

    /// Returns `true` if `self` is positive.
    pub fn is_positive(self) -> (r: bool)
        ensures
            r == (self@ > 0),
    {
        self.0 > 0
    }

    /// Returns `true` if `self` is negative.
    pub fn is_negative(self) -> (r: bool)
        ensures
            r == (self@ < 0),
    {
        self.0 < 0
    }

    /// Returns the integer square root, or `None` if `self` is negative.
    pub fn checked_isqrt(self) -> (r: Option<Si64>)
        ensures
            r is None <==> self@ < 0,
            r matches Some(x) ==> x@ * x@ <= self@ < (x@ + 1) * (x@ + 1),
    {
        if self.0 < 0 {
            return None;
        }
        let s = isqrt_magnitude(self.0 as u128);
        proof {
            lemma_isqrt_bound(s as int, self@);
        }
        Some(Self::from_magnitude(false, s))
    }

    /// Converts to the same-width unsigned wrapper, saturating negative values to zero.
    pub fn to_unsigned(self) -> (r: Su64)
        ensures
            r@ == (if self@ < 0 {
                0
            } else {
                self@
            }),
    {
        if self.is_negative() {
            return Su64::ZERO();
        }
        self.unsigned_abs()
    }

}

/// Creates a [`Si64`] from an inner [`i64`] value.
pub fn si64(value: i64) -> (r: Si64)
    ensures
        r@ == value,
{
    Si64::new(value)
}

impl Default for Si64 {
    fn default() -> (r: Si64)
        ensures
            r@ == 0,
    {
        Si64(0)
    }
}

impl From<i64> for Si64 {
    fn from(value: i64) -> (r: Si64)
        ensures
            r@ == value,
    {
        Si64(value)
    }
}

impl FromSpecImpl<i64> for Si64 {
    open spec fn obeys_from_spec() -> bool {
        true
    }

    open spec fn from_spec(v: i64) -> Si64 {
        Si64::new(v)
    }
}

impl From<Si64> for i64 {
    fn from(value: Si64) -> (r: i64)
        ensures
            r == value@,
    {
        value.0
    }
}

impl FromSpecImpl<Si64> for i64 {
    open spec fn obeys_from_spec() -> bool {
        true
    }

    open spec fn from_spec(v: Si64) -> i64 {
        v.into_inner()
    }
}

impl PartialEq<i64> for Si64 {
    fn eq(&self, other: &i64) -> (r: bool) {
        self.0 == *other
    }
}

impl PartialEqSpecImpl<i64> for Si64 {
    open spec fn obeys_eq_spec() -> bool {
        true
    }

    open spec fn eq_spec(&self, other: &i64) -> bool {
        self.into_inner() == *other
    }
}

impl PartialEq<Si64> for i64 {
    fn eq(&self, other: &Si64) -> (r: bool) {
        *self == other.0
    }
}

impl PartialEqSpecImpl<Si64> for i64 {
    open spec fn obeys_eq_spec() -> bool {
        true
    }

    open spec fn eq_spec(&self, other: &Si64) -> bool {
        *self == other.into_inner()
    }
}

impl PartialOrd<i64> for Si64 {
    fn partial_cmp(&self, other: &i64) -> (r: Option<Ordering>) {
        if self.0 < *other {
            Some(Ordering::Less)
        } else if self.0 > *other {
            Some(Ordering::Greater)
        } else {
            Some(Ordering::Equal)
        }
    }
}

impl PartialOrdSpecImpl<i64> for Si64 {
    open spec fn obeys_partial_cmp_spec() -> bool {
        true
    }

    open spec fn partial_cmp_spec(&self, other: &i64) -> Option<Ordering> {
        if self.into_inner() < *other {
            Some(Ordering::Less)
        } else if self.into_inner() > *other {
            Some(Ordering::Greater)
        } else {
            Some(Ordering::Equal)
        }
    }
}

impl PartialOrd<Si64> for i64 {
    fn partial_cmp(&self, other: &Si64) -> (r: Option<Ordering>) {
        if *self < other.0 {
            Some(Ordering::Less)
        } else if *self > other.0 {
            Some(Ordering::Greater)
        } else {
            Some(Ordering::Equal)
        }
    }
}

impl PartialOrdSpecImpl<Si64> for i64 {
    open spec fn obeys_partial_cmp_spec() -> bool {
        true
    }

    open spec fn partial_cmp_spec(&self, other: &Si64) -> Option<Ordering> {
        if *self < other.into_inner() {
            Some(Ordering::Less)
        } else if *self > other.into_inner() {
            Some(Ordering::Greater)
        } else {
            Some(Ordering::Equal)
        }
    }
}

impl BitAnd<Si64> for Si64 {
    type Output = Si64;

    fn bitand(self, rhs: Si64) -> (r: Si64)
        ensures
            r.into_inner() == self.into_inner() & rhs.into_inner(),
    {
        Si64(self.0 & rhs.0)
    }
}

impl BitAndSpecImpl<Si64> for Si64 {
    open spec fn obeys_bitand_spec() -> bool {
        true
    }

    open spec fn bitand_req(self, rhs: Si64) -> bool {
        true
    }

    open spec fn bitand_spec(self, rhs: Si64) -> Si64 {
        Si64::new(self.into_inner() & rhs.into_inner())
    }
}

impl BitAndAssign<Si64> for Si64 {
    fn bitand_assign(&mut self, rhs: Si64)
        ensures
            final(self).into_inner() == old(self).into_inner() & rhs.into_inner(),
    {
        *self = Si64(self.0 & rhs.0);
    }
}

impl BitAnd<i64> for Si64 {
    type Output = Si64;

    fn bitand(self, rhs: i64) -> (r: Si64)
        ensures
            r.into_inner() == self.into_inner() & rhs,
    {
        Si64(self.0 & rhs)
    }
}

impl BitAndSpecImpl<i64> for Si64 {
    open spec fn obeys_bitand_spec() -> bool {
        true
    }

    open spec fn bitand_req(self, rhs: i64) -> bool {
        true
    }

    open spec fn bitand_spec(self, rhs: i64) -> Si64 {
        Si64::new(self.into_inner() & rhs)
    }
}

impl BitAndAssign<i64> for Si64 {
    fn bitand_assign(&mut self, rhs: i64)
        ensures
            final(self).into_inner() == old(self).into_inner() & rhs,
    {
        *self = Si64(self.0 & rhs);
    }
}

impl BitOr<Si64> for Si64 {
    type Output = Si64;

    fn bitor(self, rhs: Si64) -> (r: Si64)
        ensures
            r.into_inner() == self.into_inner() | rhs.into_inner(),
    {
        Si64(self.0 | rhs.0)
    }
}

impl BitOrSpecImpl<Si64> for Si64 {
    open spec fn obeys_bitor_spec() -> bool {
        true
    }

    open spec fn bitor_req(self, rhs: Si64) -> bool {
        true
    }

    open spec fn bitor_spec(self, rhs: Si64) -> Si64 {
        Si64::new(self.into_inner() | rhs.into_inner())
    }
}

impl BitOrAssign<Si64> for Si64 {
    fn bitor_assign(&mut self, rhs: Si64)
        ensures
            final(self).into_inner() == old(self).into_inner() | rhs.into_inner(),
    {
        *self = Si64(self.0 | rhs.0);
    }
}

impl BitOr<i64> for Si64 {
    type Output = Si64;

    fn bitor(self, rhs: i64) -> (r: Si64)
        ensures
            r.into_inner() == self.into_inner() | rhs,
    {
        Si64(self.0 | rhs)
    }
}

impl BitOrSpecImpl<i64> for Si64 {
    open spec fn obeys_bitor_spec() -> bool {
        true
    }

    open spec fn bitor_req(self, rhs: i64) -> bool {
        true
    }

    open spec fn bitor_spec(self, rhs: i64) -> Si64 {
        Si64::new(self.into_inner() | rhs)
    }
}

impl BitOrAssign<i64> for Si64 {
    fn bitor_assign(&mut self, rhs: i64)
        ensures
            final(self).into_inner() == old(self).into_inner() | rhs,
    {
        *self = Si64(self.0 | rhs);
    }
}

impl BitXor<Si64> for Si64 {
    type Output = Si64;

    fn bitxor(self, rhs: Si64) -> (r: Si64)
        ensures
            r.into_inner() == self.into_inner() ^ rhs.into_inner(),
    {
        Si64(self.0 ^ rhs.0)
    }
}

impl BitXorSpecImpl<Si64> for Si64 {
    open spec fn obeys_bitxor_spec() -> bool {
        true
    }

    open spec fn bitxor_req(self, rhs: Si64) -> bool {
        true
    }

    open spec fn bitxor_spec(self, rhs: Si64) -> Si64 {
        Si64::new(self.into_inner() ^ rhs.into_inner())
    }
}

impl BitXorAssign<Si64> for Si64 {
    fn bitxor_assign(&mut self, rhs: Si64)
        ensures
            final(self).into_inner() == old(self).into_inner() ^ rhs.into_inner(),
    {
        *self = Si64(self.0 ^ rhs.0);
    }
}

impl BitXor<i64> for Si64 {
    type Output = Si64;

    fn bitxor(self, rhs: i64) -> (r: Si64)
        ensures
            r.into_inner() == self.into_inner() ^ rhs,
    {
        Si64(self.0 ^ rhs)
    }
}

impl BitXorSpecImpl<i64> for Si64 {
    open spec fn obeys_bitxor_spec() -> bool {
        true
    }

    open spec fn bitxor_req(self, rhs: i64) -> bool {
        true
    }

    open spec fn bitxor_spec(self, rhs: i64) -> Si64 {
        Si64::new(self.into_inner() ^ rhs)
    }
}

impl BitXorAssign<i64> for Si64 {
    fn bitxor_assign(&mut self, rhs: i64)
        ensures
            final(self).into_inner() == old(self).into_inner() ^ rhs,
    {
        *self = Si64(self.0 ^ rhs);
    }
}

impl Not for Si64 {
    type Output = Si64;

    fn not(self) -> (r: Si64)
        ensures
            r.into_inner() == !self.into_inner(),
    {
        Si64(!self.0)
    }
}

impl NotSpecImpl for Si64 {
    open spec fn obeys_not_spec() -> bool {
        true
    }

    open spec fn not_req(self) -> bool {
        true
    }

    open spec fn not_spec(self) -> Si64 {
        Si64::new(!self.into_inner())
    }
}

/// A saturating wrapper around [`i128`]: its arithmetic clamps to the range of
/// [`i128`] instead of overflowing.
#[derive(Clone, Copy, Debug, PartialEq, Eq, Structural, PartialOrd, Ord, Hash)]
pub struct Si128(i128);

impl View for Si128 {
    type V = int;

    closed spec fn view(&self) -> int {
        self.0 as int
    }
}

/// The inner value of a [`Si128`] is its view.
pub broadcast proof fn lemma_si128_inner(x: Si128)
    ensures
        #[trigger] x.into_inner() as int == x@,
{
}

/// A [`Si128`] is made of the value it was made from.
pub broadcast proof fn lemma_si128_new(v: i128)
    ensures
        #[trigger] Si128::new(v)@ == v as int,
{
}

impl Sealed for Si128 {
}

impl Integer for Si128 {
    open spec fn value(self) -> int {
        self@
    }

    open spec fn lower() -> int {
        i128::MIN as int
    }

    open spec fn upper() -> int {
        i128::MAX as int
    }

    open spec fn width() -> nat {
        128
    }

    open spec fn is_signed() -> bool {
        true
    }

    open spec fn of_value(v: int) -> Si128 {
        Si128::new(v as i128)
    }

    proof fn lemma_value(self) {
    }

    proof fn lemma_of_value(v: int) {
    }

    proof fn lemma_layout() {
        i128::lemma_layout();
    }

    fn bits() -> (r: u32) {
        i128::bits()
    }

    fn signed_type() -> (r: bool) {
        i128::signed_type()
    }

    fn magnitude(self) -> (r: (bool, u128)) {
        self.0.magnitude()
    }

    fn from_magnitude(negative: bool, magnitude: u128) -> (r: Si128) {
        Si128(i128::from_magnitude(negative, magnitude))
    }
}

impl SignedInteger for Si128 {
}

impl Si128 {
    /// The size of this scalar type in bits.
    pub const BITS: u32 = 128;

    /// The minimum representable value for this scalar type.
    #[allow(non_snake_case)]
    pub fn MIN() -> (r: Si128)
        ensures
            r@ == i128::MIN,
    {
        Si128(i128::MIN)
    }

    /// The maximum representable value for this scalar type.
    #[allow(non_snake_case)]
    pub fn MAX() -> (r: Si128)
        ensures
            r@ == i128::MAX,
    {
        Si128(i128::MAX)
    }

    /// The additive identity value.
    #[allow(non_snake_case)]
    pub fn ZERO() -> (r: Si128)
        ensures
            r@ == 0,
    {
        Si128(0)
    }

    /// The multiplicative identity value.
    #[allow(non_snake_case)]
    pub fn ONE() -> (r: Si128)
        ensures
            r@ == 1,
    {
        Si128(1)
    }

    /// The wrapper that holds `value`.
    pub closed spec fn spec_new(value: i128) -> Si128 {
        Si128(value)
    }

    /// Creates a new [`Si128`] from an inner [`i128`] value.
    #[verifier::when_used_as_spec(spec_new)]
    pub fn new(value: i128) -> (r: Si128)
        ensures
            r == Si128::spec_new(value),
            r@ == value,
    {
        Si128(value)
    }

    /// The wrapped value.
    pub closed spec fn spec_into_inner(self) -> i128 {
        self.0
    }

    /// Returns the wrapped [`i128`] value.
    #[verifier::when_used_as_spec(spec_into_inner)]
    pub fn into_inner(self) -> (r: i128)
        ensures
            r == self.spec_into_inner(),
            r == self@,
    {
        self.0
    }

    /// Returns the number of ones in the binary representation.
    pub fn count_ones(self) -> (r: u32)
        ensures
            r == popcount(pattern_of(self@, 128), 128),
    {
        count_ones_pattern(to_pattern(self), Self::bits())
    }

    /// Returns the number of zeros in the binary representation.
    pub fn count_zeros(self) -> (r: u32)
        ensures
            r == 128 - popcount(pattern_of(self@, 128), 128),
    {
        proof {
            lemma_popcount_bound(pattern_of(self@, 128), 128);
        }
        Self::bits() - count_ones_pattern(to_pattern(self), Self::bits())
    }

    /// Returns the number of leading zeros in the binary representation.
    pub fn leading_zeros(self) -> (r: u32)
        ensures
            r == 128 - bit_length(pattern_of(self@, 128)),
    {
        let p = to_pattern(self);
        proof {
            lemma_bit_length_bound(p as nat, 128);
        }
        Self::bits() - bit_length_pattern(p)
    }

    /// Returns the number of leading ones in the binary representation.
    pub fn leading_ones(self) -> (r: u32)
        ensures
            r == 128 - bit_length(complement(pattern_of(self@, 128), 128)),
    {
        let p = to_pattern(self);
        proof {
            Self::lemma_layout();
            lemma_complement_bound(p as nat, 128);
            lemma_bit_length_bound(complement(p as nat, 128), 128);
        }
        Self::bits() - bit_length_pattern(low_mask(Self::bits()) - p)
    }

    /// Returns the number of trailing zeros in the binary representation.
    pub fn trailing_zeros(self) -> (r: u32)
        ensures
            r == trailing_zero_count(pattern_of(self@, 128), 128),
    {
        trailing_zeros_pattern(to_pattern(self), Self::bits())
    }

    /// Returns the number of trailing ones in the binary representation.
    pub fn trailing_ones(self) -> (r: u32)
        ensures
            r == trailing_zero_count(complement(pattern_of(self@, 128), 128), 128),
    {
        let p = to_pattern(self);
        proof {
            Self::lemma_layout();
        }
        trailing_zeros_pattern(low_mask(Self::bits()) - p, Self::bits())
    }

    /// Reverses the order of bits.
    pub fn reverse_bits(self) -> (r: Si128)
        ensures
            r@ == value_of_pattern(reversed_bits(pattern_of(self@, 128), 128), 128, true),
    {
        proof {
            Self::lemma_layout();
        }
        from_pattern(reverse_bits_pattern(to_pattern(self), Self::bits()))
    }

    /// Shifts bits to the left by `n`, wrapping the truncated bits to the end of the result.
    pub fn rotate_left(self, n: u32) -> (r: Si128)
        ensures
            r@ == value_of_pattern(rotated_left(pattern_of(self@, 128), n as nat, 128), 128, true),
    {
        proof {
            Self::lemma_layout();
        }
        from_pattern(rotate_left_pattern(to_pattern(self), n, Self::bits()))
    }

    /// Shifts bits to the right by `n`, wrapping the truncated bits to the beginning of the result.
    pub fn rotate_right(self, n: u32) -> (r: Si128)
        ensures
            r@ == value_of_pattern(rotated_right(pattern_of(self@, 128), n as nat, 128), 128, true),
    {
        proof {
            Self::lemma_layout();
        }
        from_pattern(rotate_right_pattern(to_pattern(self), n, Self::bits()))
    }

    /// Reverses the byte order.
    pub fn swap_bytes(self) -> (r: Si128)
        ensures
            r@ == value_of_pattern(reversed_bytes(pattern_of(self@, 128), 16), 128, true),
    {
        proof {
            Self::lemma_layout();
        }
        from_pattern(swap_bytes_pattern(to_pattern(self), Self::bits() / 8))
    }


    /// Converts from big-endian to the byte order that `little_endian` names: for
    /// little-endian this reverses the bytes, for big-endian it changes nothing.
    pub fn from_be_for(value: Si128, little_endian: bool) -> (r: Si128)
        ensures
            little_endian ==> r@ == value_of_pattern(reversed_bytes(pattern_of(value@, 128), 16), 128, true),
            !little_endian ==> r == value,
    {
        if little_endian {
            value.swap_bytes()
        } else {
            value
        }
    }

    /// Converts from little-endian to the byte order that `little_endian` names: for
    /// big-endian this reverses the bytes, for little-endian it changes nothing.
    pub fn from_le_for(value: Si128, little_endian: bool) -> (r: Si128)
        ensures
            little_endian ==> r == value,
            !little_endian ==> r@ == value_of_pattern(reversed_bytes(pattern_of(value@, 128), 16), 128, true),
    {
        if little_endian {
            value
        } else {
            value.swap_bytes()
        }
    }

    /// Converts from big-endian to the target's native endian: on a little-endian
    /// target this reverses the bytes, on a big-endian one it changes nothing (see
    /// [`Si128::from_be_for`]). Which of the two the target is, is a property of the machine.
    pub fn from_be(value: Si128) -> (r: Si128)
        ensures
            r == value || r@ == value_of_pattern(reversed_bytes(pattern_of(value@, 128), 16), 128, true),
            native_little_endian() ==> r@ == value_of_pattern(reversed_bytes(pattern_of(value@, 128), 16), 128, true),
            !native_little_endian() ==> r == value,
    {
        Si128::from_be_for(value, target_is_little_endian())
    }

    /// Converts from little-endian to the target's native endian: on a big-endian
    /// target this reverses the bytes, on a little-endian one it changes nothing (see
    /// [`Si128::from_le_for`]).
    pub fn from_le(value: Si128) -> (r: Si128)
        ensures
            r == value || r@ == value_of_pattern(reversed_bytes(pattern_of(value@, 128), 16), 128, true),
            native_little_endian() ==> r == value,
            !native_little_endian() ==> r@ == value_of_pattern(reversed_bytes(pattern_of(value@, 128), 16), 128, true),
    {
        Si128::from_le_for(value, target_is_little_endian())
    }

    /// Converts `self` to big-endian from the target's native endian.
    pub fn to_be(self) -> (r: Si128)
        ensures
            r == self || r@ == value_of_pattern(reversed_bytes(pattern_of(self@, 128), 16), 128, true),
            native_little_endian() ==> r@ == value_of_pattern(reversed_bytes(pattern_of(self@, 128), 16), 128, true),
            !native_little_endian() ==> r == self,
    {
        Si128::from_be(self)
    }

    /// Converts `self` to little-endian from the target's native endian.
    pub fn to_le(self) -> (r: Si128)
        ensures
            r == self || r@ == value_of_pattern(reversed_bytes(pattern_of(self@, 128), 16), 128, true),
            native_little_endian() ==> r == self,
            !native_little_endian() ==> r@ == value_of_pattern(reversed_bytes(pattern_of(self@, 128), 16), 128, true),
    {
        Si128::from_le(self)
    }

    /// Returns the memory representation as a byte array in big-endian order.
    pub fn to_be_bytes(self) -> (r: [u8; 16])
        ensures
            r@ == be_bytes(pattern_of(self@, 128), 16),
    {
        let v = le_bytes_pattern(to_pattern(self), 16);
        proof {
            lemma_le_bytes_len(pattern_of(self@, 128), 16);
        }
        let r = [v[15], v[14], v[13], v[12], v[11], v[10], v[9], v[8], v[7], v[6], v[5], v[4], v[3], v[2], v[1], v[0]];
        proof {
            assert(r@ =~= be_bytes(pattern_of(self@, 128), 16));
        }
        r
    }

    /// Returns the memory representation as a byte array in little-endian order.
    pub fn to_le_bytes(self) -> (r: [u8; 16])
        ensures
            r@ == le_bytes(pattern_of(self@, 128), 16),
    {
        let v = le_bytes_pattern(to_pattern(self), 16);
        proof {
            lemma_le_bytes_len(pattern_of(self@, 128), 16);
        }
        let r = [v[0], v[1], v[2], v[3], v[4], v[5], v[6], v[7], v[8], v[9], v[10], v[11], v[12], v[13], v[14], v[15]];
        proof {
            assert(r@ =~= le_bytes(pattern_of(self@, 128), 16));
        }
        r
    }

    /// Returns the memory representation as a byte array in the byte order that
    /// `little_endian` names.
    pub fn to_ne_bytes_for(self, little_endian: bool) -> (r: [u8; 16])
        ensures
            little_endian ==> r@ == le_bytes(pattern_of(self@, 128), 16),
            !little_endian ==> r@ == be_bytes(pattern_of(self@, 128), 16),
    {
        if little_endian {
            self.to_le_bytes()
        } else {
            self.to_be_bytes()
        }
    }

    /// Returns the memory representation as a byte array in native-endian order
    /// (see [`Si128::to_ne_bytes_for`]).
    pub fn to_ne_bytes(self) -> (r: [u8; 16])
        ensures
            r@ == le_bytes(pattern_of(self@, 128), 16) || r@ == be_bytes(pattern_of(self@, 128), 16),
            native_little_endian() ==> r@ == le_bytes(pattern_of(self@, 128), 16),
            !native_little_endian() ==> r@ == be_bytes(pattern_of(self@, 128), 16),
    {
        self.to_ne_bytes_for(target_is_little_endian())
    }

    /// Creates a scalar from a byte array in big-endian order.
    pub fn from_be_bytes(bytes: [u8; 16]) -> (r: Si128)
        ensures
            r@ == value_of_pattern(be_value(bytes@), 128, true),
    {
        let le = [bytes[15], bytes[14], bytes[13], bytes[12], bytes[11], bytes[10], bytes[9], bytes[8], bytes[7], bytes[6], bytes[5], bytes[4], bytes[3], bytes[2], bytes[1], bytes[0]];
        proof {
            assert(le@ =~= bytes@.reverse());
        }
        let p = le_value_of_bytes(le.as_slice());
        from_pattern(p)
    }

    /// Creates a scalar from a byte array in little-endian order.
    pub fn from_le_bytes(bytes: [u8; 16]) -> (r: Si128)
        ensures
            r@ == value_of_pattern(le_value(bytes@), 128, true),
    {
        let p = le_value_of_bytes(bytes.as_slice());
        from_pattern(p)
    }

    /// Creates a scalar from a byte array in the byte order that `little_endian` names.
    pub fn from_ne_bytes_for(bytes: [u8; 16], little_endian: bool) -> (r: Si128)
        ensures
            little_endian ==> r@ == value_of_pattern(le_value(bytes@), 128, true),
            !little_endian ==> r@ == value_of_pattern(be_value(bytes@), 128, true),
    {
        if little_endian {
            Si128::from_le_bytes(bytes)
        } else {
            Si128::from_be_bytes(bytes)
        }
    }

    /// Creates a scalar from a byte array in native-endian order (see
    /// [`Si128::from_ne_bytes_for`]).
    pub fn from_ne_bytes(bytes: [u8; 16]) -> (r: Si128)
        ensures
            r@ == value_of_pattern(le_value(bytes@), 128, true) || r@ == value_of_pattern(
                be_value(bytes@),
                128,
                true,
            ),
            native_little_endian() ==> r@ == value_of_pattern(le_value(bytes@), 128, true),
            !native_little_endian() ==> r@ == value_of_pattern(be_value(bytes@), 128, true),
    {
        Si128::from_ne_bytes_for(bytes, target_is_little_endian())
    }


    /// Divides two scalar values, returning `None` on division by zero or
    /// primitive signed overflow.
    ///
    /// Signed overflow can occur for `MIN / -1`.
    pub fn checked_div(self, rhs: Si128) -> (r: Option<Si128>)
        ensures
            r is None <==> rhs@ == 0 || !(i128::MIN <= trunc_div(self@, rhs@) <= i128::MAX),
            r matches Some(q) ==> q@ == trunc_div(self@, rhs@),
    {
        if rhs.0 == 0 {
            return None;
        }
        let (a_negative, a) = self.magnitude();
        let (b_negative, b) = rhs.magnitude();
        let (negative, q) = div_magnitudes(a_negative, a, b_negative, b);
        from_magnitude_checked(negative, q)
    }

    /// Calculates Euclidean division, returning `None` on division by zero or
    /// primitive signed overflow.
    pub fn checked_div_euclid(self, rhs: Si128) -> (r: Option<Si128>)
        ensures
            r is None <==> rhs@ == 0 || !(i128::MIN <= self@ / rhs@ <= i128::MAX),
            r matches Some(q) ==> q@ == self@ / rhs@,
    {
        if rhs.0 == 0 {
            return None;
        }
        let (a_negative, a) = self.magnitude();
        let (b_negative, b) = rhs.magnitude();
        let (negative, q) = div_euclid_magnitudes(a_negative, a, b_negative, b);
        from_magnitude_checked(negative, q)
    }

    /// Calculates the remainder of two scalar values, returning `None` on
    /// division by zero or primitive signed overflow.
    ///
    /// Signed overflow can occur for `MIN % -1`.
    pub fn checked_rem(self, rhs: Si128) -> (r: Option<Si128>)
        ensures
            r is None <==> rhs@ == 0 || (self@ == i128::MIN && rhs@ == -1),
            r matches Some(x) ==> x@ == trunc_rem(self@, rhs@),
    {
        if rhs.0 == 0 || (self.0 == i128::MIN && rhs.0 == -1) {
            return None;
        }
        let (a_negative, a) = self.magnitude();
        let (b_negative, b) = rhs.magnitude();
        let (negative, m) = rem_magnitudes(a_negative, a, b_negative, b);
        Some(Self::from_magnitude(negative, m))
    }

    /// Calculates the least nonnegative remainder, returning `None` on
    /// division by zero or primitive signed overflow.
    pub fn checked_rem_euclid(self, rhs: Si128) -> (r: Option<Si128>)
        ensures
            r is None <==> rhs@ == 0 || (self@ == i128::MIN && rhs@ == -1),
            r matches Some(x) ==> x@ == self@ % rhs@,
    {
        if rhs.0 == 0 || (self.0 == i128::MIN && rhs.0 == -1) {
            return None;
        }
        let (a_negative, a) = self.magnitude();
        let (b_negative, b) = rhs.magnitude();
        let m = rem_euclid_magnitudes(a_negative, a, b_negative, b);
        Some(Self::from_magnitude(false, m))
    }


    /// Raises `self` to the power of `exp`, saturating at numeric bounds.
    pub fn pow(self, exp: u32) -> (r: Si128)
        ensures
            r@ == clamp(pow(self@, exp as nat), i128::MIN as int, i128::MAX as int),
    {
        let (negative, a) = self.magnitude();
        let (n, m) = pow_magnitudes(negative, a, exp);
        proof {
            lemma_represents_clamp(n, m, pow(self@, exp as nat), i128::MIN as int, i128::MAX as int);
        }
        Self::from_magnitude(n, m)
    }

    /// Returns the base-`base` logarithm, or `None` if the logarithm is undefined.
    pub fn checked_ilog(self, base: i128) -> (r: Option<u32>)
        ensures
            r is None <==> self@ <= 0 || base < 2,
            r matches Some(k) ==> pow(base as int, k as nat) <= self@ < pow(base as int, (k + 1) as nat),
    {
        if self.0 <= 0 || base < 2 {
            None
        } else {
            Some(ilog_magnitude(self.0 as u128, base as u128))
        }
    }

    /// Returns the base-2 logarithm, or `None` if the logarithm is undefined.
    pub fn checked_ilog2(self) -> (r: Option<u32>)
        ensures
            r is None <==> self@ <= 0,
            r matches Some(k) ==> pow(2, k as nat) <= self@ < pow(2, (k + 1) as nat),
    {
        self.checked_ilog(2)
    }

    /// Returns the base-10 logarithm, or `None` if the logarithm is undefined.
    pub fn checked_ilog10(self) -> (r: Option<u32>)
        ensures
            r is None <==> self@ <= 0,
            r matches Some(k) ==> pow(10, k as nat) <= self@ < pow(10, (k + 1) as nat),
    {
        self.checked_ilog(10)
    }

    /// Returns `true` if `self` is the minimum representable value.
    pub fn is_min(self) -> (r: bool)
        ensures
            r == (self@ == i128::MIN),
    {
        self.0 == i128::MIN
    }

    /// Returns `true` if `self` is the maximum representable value.
    pub fn is_max(self) -> (r: bool)
        ensures
            r == (self@ == i128::MAX),
    {
        self.0 == i128::MAX
    }

    /// Returns `true` if `self` is zero.
    pub fn is_zero(self) -> (r: bool)
        ensures
            r == (self@ == 0),
    {
        self.0 == 0
    }

    /// Returns `true` if `self` is one.
    pub fn is_one(self) -> (r: bool)
        ensures
            r == (self@ == 1),
    {
        self.0 == 1
    }


    /// Computes the absolute value, saturating at [`Si128::MAX`].
    pub fn abs(self) -> (r: Si128)
        ensures
            r@ == clamp(abs_int(self@) as int, i128::MIN as int, i128::MAX as int),
    {
        let (_, a) = self.magnitude();
        Self::from_magnitude(false, a)
    }

    /// Computes the absolute value as an unsigned scalar.
    pub fn unsigned_abs(self) -> (r: Su128)
        ensures
            r@ == abs_int(self@),
    {
        let (_, a) = self.magnitude();
        Su128::from_magnitude(false, a)
    }

    /// Computes the absolute difference between `self` and `rhs`.
    pub fn abs_diff(self, rhs: Si128) -> (r: Su128)
        ensures
            r@ == abs_int(self@ - rhs@),
    {
        let (a_negative, a) = self.magnitude();
        let (b_negative, b) = rhs.magnitude();
        let (_, d) = add_magnitudes(a_negative, a, !b_negative, b);
        proof {
            Self::lemma_layout();
            Su128::lemma_layout();
            vstd::arithmetic::power2::lemma_pow2_unfold(128);
        }
        Su128::from_magnitude(false, d)
    }

    /// Computes the absolute value, returning `None` for [`Si128::MIN`].
    pub fn checked_abs(self) -> (r: Option<Si128>)
        ensures
            r is None <==> self@ == i128::MIN,
            r matches Some(x) ==> x@ == abs_int(self@),
    {
        if self.0 == i128::MIN {
            None
        } else {
            Some(self.abs())
        }
    }

    /// Returns a number representing the sign of `self`.
    pub fn signum(self) -> (r: Si128)
        ensures
            r@ == (if self@ > 0 {
                1
            } else if self@ < 0 {
                -1
            } else {
                0
            }),
    {
        if self.0 > 0 {
            Si128(1)
        } else if self.0 < 0 {
            Si128(-1)
        } else {
            Si128(0)
        }
    }

    /// Returns `true` if `self` is positive.
    pub fn is_positive(self) -> (r: bool)
        ensures
            r == (self@ > 0),
    {
        self.0 > 0
    }

    /// Returns `true` if `self` is negative.
    pub fn is_negative(self) -> (r: bool)
        ensures
            r == (self@ < 0),
    {
        self.0 < 0
    }

    /// Returns the integer square root, or `None` if `self` is negative.
    pub fn checked_isqrt(self) -> (r: Option<Si128>)
        ensures
            r is None <==> self@ < 0,
            r matches Some(x) ==> x@ * x@ <= self@ < (x@ + 1) * (x@ + 1),
    {
        if self.0 < 0 {
            return None;
        }
        let s = isqrt_magnitude(self.0 as u128);
        proof {
            lemma_isqrt_bound(s as int, self@);
        }
        Some(Self::from_magnitude(false, s))
    }

    /// Converts to the same-width unsigned wrapper, saturating negative values to zero.
    pub fn to_unsigned(self) -> (r: Su128)
        ensures
            r@ == (if self@ < 0 {
                0
            } else {
                self@
            }),
    {
        if self.is_negative() {
            return Su128::ZERO();
        }
        self.unsigned_abs()
    }

}

/// Creates a [`Si128`] from an inner [`i128`] value.
pub fn si128(value: i128) -> (r: Si128)
    ensures
        r@ == value,
{
    Si128::new(value)
}

impl Default for Si128 {
    fn default() -> (r: Si128)
        ensures
            r@ == 0,
    {
        Si128(0)
    }
}

impl From<i128> for Si128 {
    fn from(value: i128) -> (r: Si128)
        ensures
            r@ == value,
    {
        Si128(value)
    }
}

impl FromSpecImpl<i128> for Si128 {
    open spec fn obeys_from_spec() -> bool {
        true
    }

    open spec fn from_spec(v: i128) -> Si128 {
        Si128::new(v)
    }
}

impl From<Si128> for i128 {
    fn from(value: Si128) -> (r: i128)
        ensures
            r == value@,
    {
        value.0
    }
}

impl FromSpecImpl<Si128> for i128 {
    open spec fn obeys_from_spec() -> bool {
        true
    }

    open spec fn from_spec(v: Si128) -> i128 {
        v.into_inner()
    }
}

impl PartialEq<i128> for Si128 {
    fn eq(&self, other: &i128) -> (r: bool) {
        self.0 == *other
    }
}

impl PartialEqSpecImpl<i128> for Si128 {
    open spec fn obeys_eq_spec() -> bool {
        true
    }

    open spec fn eq_spec(&self, other: &i128) -> bool {
        self.into_inner() == *other
    }
}

impl PartialEq<Si128> for i128 {
    fn eq(&self, other: &Si128) -> (r: bool) {
        *self == other.0
    }
}

impl PartialEqSpecImpl<Si128> for i128 {
    open spec fn obeys_eq_spec() -> bool {
        true
    }

    open spec fn eq_spec(&self, other: &Si128) -> bool {
        *self == other.into_inner()
    }
}

impl PartialOrd<i128> for Si128 {
    fn partial_cmp(&self, other: &i128) -> (r: Option<Ordering>) {
        if self.0 < *other {
            Some(Ordering::Less)
        } else if self.0 > *other {
            Some(Ordering::Greater)
        } else {
            Some(Ordering::Equal)
        }
    }
}

impl PartialOrdSpecImpl<i128> for Si128 {
    open spec fn obeys_partial_cmp_spec() -> bool {
        true
    }

    open spec fn partial_cmp_spec(&self, other: &i128) -> Option<Ordering> {
        if self.into_inner() < *other {
            Some(Ordering::Less)
        } else if self.into_inner() > *other {
            Some(Ordering::Greater)
        } else {
            Some(Ordering::Equal)
        }
    }
}

impl PartialOrd<Si128> for i128 {
    fn partial_cmp(&self, other: &Si128) -> (r: Option<Ordering>) {
        if *self < other.0 {
            Some(Ordering::Less)
        } else if *self > other.0 {
            Some(Ordering::Greater)
        } else {
            Some(Ordering::Equal)
        }
    }
}

impl PartialOrdSpecImpl<Si128> for i128 {
    open spec fn obeys_partial_cmp_spec() -> bool {
        true
    }

    open spec fn partial_cmp_spec(&self, other: &Si128) -> Option<Ordering> {
        if *self < other.into_inner() {
            Some(Ordering::Less)
        } else if *self > other.into_inner() {
            Some(Ordering::Greater)
        } else {
            Some(Ordering::Equal)
        }
    }
}

impl BitAnd<Si128> for Si128 {
    type Output = Si128;

    fn bitand(self, rhs: Si128) -> (r: Si128)
        ensures
            r.into_inner() == self.into_inner() & rhs.into_inner(),
    {
        Si128(self.0 & rhs.0)
    }
}

impl BitAndSpecImpl<Si128> for Si128 {
    open spec fn obeys_bitand_spec() -> bool {
        true
    }

    open spec fn bitand_req(self, rhs: Si128) -> bool {
        true
    }

    open spec fn bitand_spec(self, rhs: Si128) -> Si128 {
        Si128::new(self.into_inner() & rhs.into_inner())
    }
}

impl BitAndAssign<Si128> for Si128 {
    fn bitand_assign(&mut self, rhs: Si128)
        ensures
            final(self).into_inner() == old(self).into_inner() & rhs.into_inner(),
    {
        *self = Si128(self.0 & rhs.0);
    }
}

impl BitAnd<i128> for Si128 {
    type Output = Si128;

    fn bitand(self, rhs: i128) -> (r: Si128)
        ensures
            r.into_inner() == self.into_inner() & rhs,
    {
        Si128(self.0 & rhs)
    }
}

impl BitAndSpecImpl<i128> for Si128 {
    open spec fn obeys_bitand_spec() -> bool {
        true
    }

    open spec fn bitand_req(self, rhs: i128) -> bool {
        true
    }

    open spec fn bitand_spec(self, rhs: i128) -> Si128 {
        Si128::new(self.into_inner() & rhs)
    }
}

impl BitAndAssign<i128> for Si128 {
    fn bitand_assign(&mut self, rhs: i128)
        ensures
            final(self).into_inner() == old(self).into_inner() & rhs,
    {
        *self = Si128(self.0 & rhs);
    }
}

impl BitOr<Si128> for Si128 {
    type Output = Si128;

    fn bitor(self, rhs: Si128) -> (r: Si128)
        ensures
            r.into_inner() == self.into_inner() | rhs.into_inner(),
    {
        Si128(self.0 | rhs.0)
    }
}

impl BitOrSpecImpl<Si128> for Si128 {
    open spec fn obeys_bitor_spec() -> bool {
        true
    }

    open spec fn bitor_req(self, rhs: Si128) -> bool {
        true
    }

    open spec fn bitor_spec(self, rhs: Si128) -> Si128 {
        Si128::new(self.into_inner() | rhs.into_inner())
    }
}

impl BitOrAssign<Si128> for Si128 {
    fn bitor_assign(&mut self, rhs: Si128)
        ensures
            final(self).into_inner() == old(self).into_inner() | rhs.into_inner(),
    {
        *self = Si128(self.0 | rhs.0);
    }
}

impl BitOr<i128> for Si128 {
    type Output = Si128;

    fn bitor(self, rhs: i128) -> (r: Si128)
        ensures
            r.into_inner() == self.into_inner() | rhs,
    {
        Si128(self.0 | rhs)
    }
}

impl BitOrSpecImpl<i128> for Si128 {
    open spec fn obeys_bitor_spec() -> bool {
        true
    }

    open spec fn bitor_req(self, rhs: i128) -> bool {
        true
    }

    open spec fn bitor_spec(self, rhs: i128) -> Si128 {
        Si128::new(self.into_inner() | rhs)
    }
}

impl BitOrAssign<i128> for Si128 {
    fn bitor_assign(&mut self, rhs: i128)
        ensures
            final(self).into_inner() == old(self).into_inner() | rhs,
    {
        *self = Si128(self.0 | rhs);
    }
}

impl BitXor<Si128> for Si128 {
    type Output = Si128;

    fn bitxor(self, rhs: Si128) -> (r: Si128)
        ensures
            r.into_inner() == self.into_inner() ^ rhs.into_inner(),
    {
        Si128(self.0 ^ rhs.0)
    }
}

impl BitXorSpecImpl<Si128> for Si128 {
    open spec fn obeys_bitxor_spec() -> bool {
        true
    }

    open spec fn bitxor_req(self, rhs: Si128) -> bool {
        true
    }

    open spec fn bitxor_spec(self, rhs: Si128) -> Si128 {
        Si128::new(self.into_inner() ^ rhs.into_inner())
    }
}

impl BitXorAssign<Si128> for Si128 {
    fn bitxor_assign(&mut self, rhs: Si128)
        ensures
            final(self).into_inner() == old(self).into_inner() ^ rhs.into_inner(),
    {
        *self = Si128(self.0 ^ rhs.0);
    }
}

impl BitXor<i128> for Si128 {
    type Output = Si128;

    fn bitxor(self, rhs: i128) -> (r: Si128)
        ensures
            r.into_inner() == self.into_inner() ^ rhs,
    {
        Si128(self.0 ^ rhs)
    }
}

impl BitXorSpecImpl<i128> for Si128 {
    open spec fn obeys_bitxor_spec() -> bool {
        true
    }

    open spec fn bitxor_req(self, rhs: i128) -> bool {
        true
    }

    open spec fn bitxor_spec(self, rhs: i128) -> Si128 {
        Si128::new(self.into_inner() ^ rhs)
    }
}

impl BitXorAssign<i128> for Si128 {
    fn bitxor_assign(&mut self, rhs: i128)
        ensures
            final(self).into_inner() == old(self).into_inner() ^ rhs,
    {
        *self = Si128(self.0 ^ rhs);
    }
}

impl Not for Si128 {
    type Output = Si128;

    fn not(self) -> (r: Si128)
        ensures
            r.into_inner() == !self.into_inner(),
    {
        Si128(!self.0)
    }
}

impl NotSpecImpl for Si128 {
    open spec fn obeys_not_spec() -> bool {
        true
    }

    open spec fn not_req(self) -> bool {
        true
    }

    open spec fn not_spec(self) -> Si128 {
        Si128::new(!self.into_inner())
    }
}

/// A saturating wrapper around [`isize`]: its arithmetic clamps to the range of
/// [`isize`] instead of overflowing.
#[derive(Clone, Copy, Debug, PartialEq, Eq, Structural, PartialOrd, Ord, Hash)]
pub struct Sisize(isize);

impl View for Sisize {
    type V = int;

    closed spec fn view(&self) -> int {
        self.0 as int
    }
}

/// The inner value of a [`Sisize`] is its view.
pub broadcast proof fn lemma_sisize_inner(x: Sisize)
    ensures
        #[trigger] x.into_inner() as int == x@,
{
}

/// A [`Sisize`] is made of the value it was made from.
pub broadcast proof fn lemma_sisize_new(v: isize)
    ensures
        #[trigger] Sisize::new(v)@ == v as int,
{
}

impl Sealed for Sisize {
}

impl Integer for Sisize {
    open spec fn value(self) -> int {
        self@
    }

    open spec fn lower() -> int {
        isize::MIN as int
    }

    open spec fn upper() -> int {
        isize::MAX as int
    }

    open spec fn width() -> nat {
        usize::BITS as nat
    }

    open spec fn is_signed() -> bool {
        true
    }

    open spec fn of_value(v: int) -> Sisize {
        Sisize::new(v as isize)
    }

    proof fn lemma_value(self) {
    }

    proof fn lemma_of_value(v: int) {
    }

    proof fn lemma_layout() {
        isize::lemma_layout();
    }

    fn bits() -> (r: u32) {
        isize::bits()
    }

    fn signed_type() -> (r: bool) {
        isize::signed_type()
    }

    fn magnitude(self) -> (r: (bool, u128)) {
        self.0.magnitude()
    }

    fn from_magnitude(negative: bool, magnitude: u128) -> (r: Sisize) {
        Sisize(isize::from_magnitude(negative, magnitude))
    }
}

impl SignedInteger for Sisize {
}

impl Sisize {
    /// The size of this scalar type in bits.
    pub const BITS: u32 = usize::BITS;

    /// The minimum representable value for this scalar type.
    #[allow(non_snake_case)]
    pub fn MIN() -> (r: Sisize)
        ensures
            r@ == isize::MIN,
    {
        Sisize(isize::MIN)
    }

    /// The maximum representable value for this scalar type.
    #[allow(non_snake_case)]
    pub fn MAX() -> (r: Sisize)
        ensures
            r@ == isize::MAX,
    {
        Sisize(isize::MAX)
    }

    /// The additive identity value.
    #[allow(non_snake_case)]
    pub fn ZERO() -> (r: Sisize)
        ensures
            r@ == 0,
    {
        Sisize(0)
    }

    /// The multiplicative identity value.
    #[allow(non_snake_case)]
    pub fn ONE() -> (r: Sisize)
        ensures
            r@ == 1,
    {
        Sisize(1)
    }

    /// The wrapper that holds `value`.
    pub closed spec fn spec_new(value: isize) -> Sisize {
        Sisize(value)
    }

    /// Creates a new [`Sisize`] from an inner [`isize`] value.
    #[verifier::when_used_as_spec(spec_new)]
    pub fn new(value: isize) -> (r: Sisize)
        ensures
            r == Sisize::spec_new(value),
            r@ == value,
    {
        Sisize(value)
    }

    /// The wrapped value.
    pub closed spec fn spec_into_inner(self) -> isize {
        self.0
    }

    /// Returns the wrapped [`isize`] value.
    #[verifier::when_used_as_spec(spec_into_inner)]
    pub fn into_inner(self) -> (r: isize)
        ensures
            r == self.spec_into_inner(),
            r == self@,
    {
        self.0
    }

    /// Returns the number of ones in the binary representation.
    pub fn count_ones(self) -> (r: u32)
        ensures
            r == popcount(pattern_of(self@, usize::BITS as nat), usize::BITS as nat),
    {
        count_ones_pattern(to_pattern(self), Self::bits())
    }

    /// Returns the number of zeros in the binary representation.
    pub fn count_zeros(self) -> (r: u32)
        ensures
            r == usize::BITS as nat - popcount(pattern_of(self@, usize::BITS as nat), usize::BITS as nat),
    {
        proof {
            lemma_popcount_bound(pattern_of(self@, usize::BITS as nat), usize::BITS as nat);
        }
        Self::bits() - count_ones_pattern(to_pattern(self), Self::bits())
    }

    /// Returns the number of leading zeros in the binary representation.
    pub fn leading_zeros(self) -> (r: u32)
        ensures
            r == usize::BITS as nat - bit_length(pattern_of(self@, usize::BITS as nat)),
    {
        let p = to_pattern(self);
        proof {
            lemma_bit_length_bound(p as nat, usize::BITS as nat);
        }
        Self::bits() - bit_length_pattern(p)
    }

    /// Returns the number of leading ones in the binary representation.
    pub fn leading_ones(self) -> (r: u32)
        ensures
            r == usize::BITS as nat - bit_length(complement(pattern_of(self@, usize::BITS as nat), usize::BITS as nat)),
    {
        let p = to_pattern(self);
        proof {
            Self::lemma_layout();
            lemma_complement_bound(p as nat, usize::BITS as nat);
            lemma_bit_length_bound(complement(p as nat, usize::BITS as nat), usize::BITS as nat);
        }
        Self::bits() - bit_length_pattern(low_mask(Self::bits()) - p)
    }

    /// Returns the number of trailing zeros in the binary representation.
    pub fn trailing_zeros(self) -> (r: u32)
        ensures
            r == trailing_zero_count(pattern_of(self@, usize::BITS as nat), usize::BITS as nat),
    {
        trailing_zeros_pattern(to_pattern(self), Self::bits())
    }

    /// Returns the number of trailing ones in the binary representation.
    pub fn trailing_ones(self) -> (r: u32)
        ensures
            r == trailing_zero_count(complement(pattern_of(self@, usize::BITS as nat), usize::BITS as nat), usize::BITS as nat),
    {
        let p = to_pattern(self);
        proof {
            Self::lemma_layout();
        }
        trailing_zeros_pattern(low_mask(Self::bits()) - p, Self::bits())
    }

    /// Reverses the order of bits.
    pub fn reverse_bits(self) -> (r: Sisize)
        ensures
            r@ == value_of_pattern(reversed_bits(pattern_of(self@, usize::BITS as nat), usize::BITS as nat), usize::BITS as nat, true),
    {
        proof {
            Self::lemma_layout();
        }
        from_pattern(reverse_bits_pattern(to_pattern(self), Self::bits()))
    }

    /// Shifts bits to the left by `n`, wrapping the truncated bits to the end of the result.
    pub fn rotate_left(self, n: u32) -> (r: Sisize)
        ensures
            r@ == value_of_pattern(rotated_left(pattern_of(self@, usize::BITS as nat), n as nat, usize::BITS as nat), usize::BITS as nat, true),
    {
        proof {
            Self::lemma_layout();
        }
        from_pattern(rotate_left_pattern(to_pattern(self), n, Self::bits()))
    }

    /// Shifts bits to the right by `n`, wrapping the truncated bits to the beginning of the result.
    pub fn rotate_right(self, n: u32) -> (r: Sisize)
        ensures
            r@ == value_of_pattern(rotated_right(pattern_of(self@, usize::BITS as nat), n as nat, usize::BITS as nat), usize::BITS as nat, true),
    {
        proof {
            Self::lemma_layout();
        }
        from_pattern(rotate_right_pattern(to_pattern(self), n, Self::bits()))
    }

    /// Reverses the byte order.
    pub fn swap_bytes(self) -> (r: Sisize)
        ensures
            r@ == value_of_pattern(reversed_bytes(pattern_of(self@, usize::BITS as nat), (usize::BITS / 8) as nat), usize::BITS as nat, true),
    {
        proof {
            Self::lemma_layout();
        }
        from_pattern(swap_bytes_pattern(to_pattern(self), Self::bits() / 8))
    }


    /// Divides two scalar values, returning `None` on division by zero or
    /// primitive signed overflow.
    ///
    /// Signed overflow can occur for `MIN / -1`.
    pub fn checked_div(self, rhs: Sisize) -> (r: Option<Sisize>)
        ensures
            r is None <==> rhs@ == 0 || !(isize::MIN <= trunc_div(self@, rhs@) <= isize::MAX),
            r matches Some(q) ==> q@ == trunc_div(self@, rhs@),
    {
        if rhs.0 == 0 {
            return None;
        }
        let (a_negative, a) = self.magnitude();
        let (b_negative, b) = rhs.magnitude();
        let (negative, q) = div_magnitudes(a_negative, a, b_negative, b);
        from_magnitude_checked(negative, q)
    }

    /// Calculates Euclidean division, returning `None` on division by zero or
    /// primitive signed overflow.
    pub fn checked_div_euclid(self, rhs: Sisize) -> (r: Option<Sisize>)
        ensures
            r is None <==> rhs@ == 0 || !(isize::MIN <= self@ / rhs@ <= isize::MAX),
            r matches Some(q) ==> q@ == self@ / rhs@,
    {
        if rhs.0 == 0 {
            return None;
        }
        let (a_negative, a) = self.magnitude();
        let (b_negative, b) = rhs.magnitude();
        let (negative, q) = div_euclid_magnitudes(a_negative, a, b_negative, b);
        from_magnitude_checked(negative, q)
    }

    /// Calculates the remainder of two scalar values, returning `None` on
    /// division by zero or primitive signed overflow.
    ///
    /// Signed overflow can occur for `MIN % -1`.
    pub fn checked_rem(self, rhs: Sisize) -> (r: Option<Sisize>)
        ensures
            r is None <==> rhs@ == 0 || (self@ == isize::MIN && rhs@ == -1),
            r matches Some(x) ==> x@ == trunc_rem(self@, rhs@),
    {
        if rhs.0 == 0 || (self.0 == isize::MIN && rhs.0 == -1) {
            return None;
        }
        let (a_negative, a) = self.magnitude();
        let (b_negative, b) = rhs.magnitude();
        let (negative, m) = rem_magnitudes(a_negative, a, b_negative, b);
        Some(Self::from_magnitude(negative, m))
    }

    /// Calculates the least nonnegative remainder, returning `None` on
    /// division by zero or primitive signed overflow.
    pub fn checked_rem_euclid(self, rhs: Sisize) -> (r: Option<Sisize>)
        ensures
            r is None <==> rhs@ == 0 || (self@ == isize::MIN && rhs@ == -1),
            r matches Some(x) ==> x@ == self@ % rhs@,
    {
        if rhs.0 == 0 || (self.0 == isize::MIN && rhs.0 == -1) {
            return None;
        }
        let (a_negative, a) = self.magnitude();
        let (b_negative, b) = rhs.magnitude();
        let m = rem_euclid_magnitudes(a_negative, a, b_negative, b);
        Some(Self::from_magnitude(false, m))
    }


    /// Raises `self` to the power of `exp`, saturating at numeric bounds.
    pub fn pow(self, exp: u32) -> (r: Sisize)
        ensures
            r@ == clamp(pow(self@, exp as nat), isize::MIN as int, isize::MAX as int),
    {
        let (negative, a) = self.magnitude();
        let (n, m) = pow_magnitudes(negative, a, exp);
        proof {
            lemma_represents_clamp(n, m, pow(self@, exp as nat), isize::MIN as int, isize::MAX as int);
        }
        Self::from_magnitude(n, m)
    }

    /// Returns the base-`base` logarithm, or `None` if the logarithm is undefined.
    pub fn checked_ilog(self, base: isize) -> (r: Option<u32>)
        ensures
            r is None <==> self@ <= 0 || base < 2,
            r matches Some(k) ==> pow(base as int, k as nat) <= self@ < pow(base as int, (k + 1) as nat),
    {
        if self.0 <= 0 || base < 2 {
            None
        } else {
            Some(ilog_magnitude(self.0 as u128, base as u128))
        }
    }

    /// Returns the base-2 logarithm, or `None` if the logarithm is undefined.
    pub fn checked_ilog2(self) -> (r: Option<u32>)
        ensures
            r is None <==> self@ <= 0,
            r matches Some(k) ==> pow(2, k as nat) <= self@ < pow(2, (k + 1) as nat),
    {
        self.checked_ilog(2)
    }

    /// Returns the base-10 logarithm, or `None` if the logarithm is undefined.
    pub fn checked_ilog10(self) -> (r: Option<u32>)
        ensures
            r is None <==> self@ <= 0,
            r matches Some(k) ==> pow(10, k as nat) <= self@ < pow(10, (k + 1) as nat),
    {
        self.checked_ilog(10)
    }

    /// Returns `true` if `self` is the minimum representable value.
    pub fn is_min(self) -> (r: bool)
        ensures
            r == (self@ == isize::MIN),
    {
        self.0 == isize::MIN
    }

    /// Returns `true` if `self` is the maximum representable value.
    pub fn is_max(self) -> (r: bool)
        ensures
            r == (self@ == isize::MAX),
    {
        self.0 == isize::MAX
    }

    /// Returns `true` if `self` is zero.
    pub fn is_zero(self) -> (r: bool)
        ensures
            r == (self@ == 0),
    {
        self.0 == 0
    }

    /// Returns `true` if `self` is one.
    pub fn is_one(self) -> (r: bool)
        ensures
            r == (self@ == 1),
    {
        self.0 == 1
    }


    /// Computes the absolute value, saturating at [`Sisize::MAX`].
    pub fn abs(self) -> (r: Sisize)
        ensures
            r@ == clamp(abs_int(self@) as int, isize::MIN as int, isize::MAX as int),
    {
        let (_, a) = self.magnitude();
        Self::from_magnitude(false, a)
    }

    /// Computes the absolute value as an unsigned scalar.
    pub fn unsigned_abs(self) -> (r: Susize)
        ensures
            r@ == abs_int(self@),
    {
        let (_, a) = self.magnitude();
        Susize::from_magnitude(false, a)
    }

    /// Computes the absolute difference between `self` and `rhs`.
    pub fn abs_diff(self, rhs: Sisize) -> (r: Susize)
        ensures
            r@ == abs_int(self@ - rhs@),
    {
        let (a_negative, a) = self.magnitude();
        let (b_negative, b) = rhs.magnitude();
        let (_, d) = add_magnitudes(a_negative, a, !b_negative, b);
        proof {
            Self::lemma_layout();
            Susize::lemma_layout();
            vstd::arithmetic::power2::lemma_pow2_unfold(usize::BITS as nat);
        }
        Susize::from_magnitude(false, d)
    }

    /// Computes the absolute value, returning `None` for [`Sisize::MIN`].
    pub fn checked_abs(self) -> (r: Option<Sisize>)
        ensures
            r is None <==> self@ == isize::MIN,
            r matches Some(x) ==> x@ == abs_int(self@),
    {
        if self.0 == isize::MIN {
            None
        } else {
            Some(self.abs())
        }
    }

    /// Returns a number representing the sign of `self`.
    pub fn signum(self) -> (r: Sisize)
        ensures
            r@ == (if self@ > 0 {
                1
            } else if self@ < 0 {
                -1
            } else {
                0
            }),
    {
        if self.0 > 0 {
            Sisize(1)
        } else if self.0 < 0 {
            Sisize(-1)
        } else {
            Sisize(0)
        }
    }

    /// Returns `true` if `self` is positive.
    pub fn is_positive(self) -> (r: bool)
        ensures
            r == (self@ > 0),
    {
        self.0 > 0
    }

    /// Returns `true` if `self` is negative.
    pub fn is_negative(self) -> (r: bool)
        ensures
            r == (self@ < 0),
    {
        self.0 < 0
    }

    /// Returns the integer square root, or `None` if `self` is negative.
    pub fn checked_isqrt(self) -> (r: Option<Sisize>)
        ensures
            r is None <==> self@ < 0,
            r matches Some(x) ==> x@ * x@ <= self@ < (x@ + 1) * (x@ + 1),
    {
        if self.0 < 0 {
            return None;
        }
        let s = isqrt_magnitude(self.0 as u128);
        proof {
            lemma_isqrt_bound(s as int, self@);
        }
        Some(Self::from_magnitude(false, s))
    }

    /// Converts to the same-width unsigned wrapper, saturating negative values to zero.
    pub fn to_unsigned(self) -> (r: Susize)
        ensures
            r@ == (if self@ < 0 {
                0
            } else {
                self@
            }),
    {
        if self.is_negative() {
            return Susize::ZERO();
        }
        self.unsigned_abs()
    }

}

/// Creates a [`Sisize`] from an inner [`isize`] value.
pub fn sisize(value: isize) -> (r: Sisize)
    ensures
        r@ == value,
{
    Sisize::new(value)
}

impl Default for Sisize {
    fn default() -> (r: Sisize)
        ensures
            r@ == 0,
    {
        Sisize(0)
    }
}

impl From<isize> for Sisize {
    fn from(value: isize) -> (r: Sisize)
        ensures
            r@ == value,
    {
        Sisize(value)
    }
}

impl FromSpecImpl<isize> for Sisize {
    open spec fn obeys_from_spec() -> bool {
        true
    }

    open spec fn from_spec(v: isize) -> Sisize {
        Sisize::new(v)
    }
}

impl From<Sisize> for isize {
    fn from(value: Sisize) -> (r: isize)
        ensures
            r == value@,
    {
        value.0
    }
}

impl FromSpecImpl<Sisize> for isize {
    open spec fn obeys_from_spec() -> bool {
        true
    }

    open spec fn from_spec(v: Sisize) -> isize {
        v.into_inner()
    }
}

impl PartialEq<isize> for Sisize {
    fn eq(&self, other: &isize) -> (r: bool) {
        self.0 == *other
    }
}

impl PartialEqSpecImpl<isize> for Sisize {
    open spec fn obeys_eq_spec() -> bool {
        true
    }

    open spec fn eq_spec(&self, other: &isize) -> bool {
        self.into_inner() == *other
    }
}

impl PartialEq<Sisize> for isize {
    fn eq(&self, other: &Sisize) -> (r: bool) {
        *self == other.0
    }
}

impl PartialEqSpecImpl<Sisize> for isize {
    open spec fn obeys_eq_spec() -> bool {
        true
    }

    open spec fn eq_spec(&self, other: &Sisize) -> bool {
        *self == other.into_inner()
    }
}

impl PartialOrd<isize> for Sisize {
    fn partial_cmp(&self, other: &isize) -> (r: Option<Ordering>) {
        if self.0 < *other {
            Some(Ordering::Less)
        } else if self.0 > *other {
            Some(Ordering::Greater)
        } else {
            Some(Ordering::Equal)
        }
    }
}

impl PartialOrdSpecImpl<isize> for Sisize {
    open spec fn obeys_partial_cmp_spec() -> bool {
        true
    }

    open spec fn partial_cmp_spec(&self, other: &isize) -> Option<Ordering> {
        if self.into_inner() < *other {
            Some(Ordering::Less)
        } else if self.into_inner() > *other {
            Some(Ordering::Greater)
        } else {
            Some(Ordering::Equal)
        }
    }
}

impl PartialOrd<Sisize> for isize {
    fn partial_cmp(&self, other: &Sisize) -> (r: Option<Ordering>) {
        if *self < other.0 {
            Some(Ordering::Less)
        } else if *self > other.0 {
            Some(Ordering::Greater)
        } else {
            Some(Ordering::Equal)
        }
    }
}

impl PartialOrdSpecImpl<Sisize> for isize {
    open spec fn obeys_partial_cmp_spec() -> bool {
        true
    }

    open spec fn partial_cmp_spec(&self, other: &Sisize) -> Option<Ordering> {
        if *self < other.into_inner() {
            Some(Ordering::Less)
        } else if *self > other.into_inner() {
            Some(Ordering::Greater)
        } else {
            Some(Ordering::Equal)
        }
    }
}

impl BitAnd<Sisize> for Sisize {
    type Output = Sisize;

    fn bitand(self, rhs: Sisize) -> (r: Sisize)
        ensures
            r.into_inner() == self.into_inner() & rhs.into_inner(),
    {
        Sisize(self.0 & rhs.0)
    }
}

impl BitAndSpecImpl<Sisize> for Sisize {
    open spec fn obeys_bitand_spec() -> bool {
        true
    }

    open spec fn bitand_req(self, rhs: Sisize) -> bool {
        true
    }

    open spec fn bitand_spec(self, rhs: Sisize) -> Sisize {
        Sisize::new(self.into_inner() & rhs.into_inner())
    }
}

impl BitAndAssign<Sisize> for Sisize {
    fn bitand_assign(&mut self, rhs: Sisize)
        ensures
            final(self).into_inner() == old(self).into_inner() & rhs.into_inner(),
    {
        *self = Sisize(self.0 & rhs.0);
    }
}

impl BitAnd<isize> for Sisize {
    type Output = Sisize;

    fn bitand(self, rhs: isize) -> (r: Sisize)
        ensures
            r.into_inner() == self.into_inner() & rhs,
    {
        Sisize(self.0 & rhs)
    }
}

impl BitAndSpecImpl<isize> for Sisize {
    open spec fn obeys_bitand_spec() -> bool {
        true
    }

    open spec fn bitand_req(self, rhs: isize) -> bool {
        true
    }

    open spec fn bitand_spec(self, rhs: isize) -> Sisize {
        Sisize::new(self.into_inner() & rhs)
    }
}

impl BitAndAssign<isize> for Sisize {
    fn bitand_assign(&mut self, rhs: isize)
        ensures
            final(self).into_inner() == old(self).into_inner() & rhs,
    {
        *self = Sisize(self.0 & rhs);
    }
}

impl BitOr<Sisize> for Sisize {
    type Output = Sisize;

    fn bitor(self, rhs: Sisize) -> (r: Sisize)
        ensures
            r.into_inner() == self.into_inner() | rhs.into_inner(),
    {
        Sisize(self.0 | rhs.0)
    }
}

impl BitOrSpecImpl<Sisize> for Sisize {
    open spec fn obeys_bitor_spec() -> bool {
        true
    }

    open spec fn bitor_req(self, rhs: Sisize) -> bool {
        true
    }

    open spec fn bitor_spec(self, rhs: Sisize) -> Sisize {
        Sisize::new(self.into_inner() | rhs.into_inner())
    }
}

impl BitOrAssign<Sisize> for Sisize {
    fn bitor_assign(&mut self, rhs: Sisize)
        ensures
            final(self).into_inner() == old(self).into_inner() | rhs.into_inner(),
    {
        *self = Sisize(self.0 | rhs.0);
    }
}

impl BitOr<isize> for Sisize {
    type Output = Sisize;

    fn bitor(self, rhs: isize) -> (r: Sisize)
        ensures
            r.into_inner() == self.into_inner() | rhs,
    {
        Sisize(self.0 | rhs)
    }
}

impl BitOrSpecImpl<isize> for Sisize {
    open spec fn obeys_bitor_spec() -> bool {
        true
    }

    open spec fn bitor_req(self, rhs: isize) -> bool {
        true
    }

    open spec fn bitor_spec(self, rhs: isize) -> Sisize {
        Sisize::new(self.into_inner() | rhs)
    }
}

impl BitOrAssign<isize> for Sisize {
    fn bitor_assign(&mut self, rhs: isize)
        ensures
            final(self).into_inner() == old(self).into_inner() | rhs,
    {
        *self = Sisize(self.0 | rhs);
    }
}

impl BitXor<Sisize> for Sisize {
    type Output = Sisize;

    fn bitxor(self, rhs: Sisize) -> (r: Sisize)
        ensures
            r.into_inner() == self.into_inner() ^ rhs.into_inner(),
    {
        Sisize(self.0 ^ rhs.0)
    }
}

impl BitXorSpecImpl<Sisize> for Sisize {
    open spec fn obeys_bitxor_spec() -> bool {
        true
    }

    open spec fn bitxor_req(self, rhs: Sisize) -> bool {
        true
    }

    open spec fn bitxor_spec(self, rhs: Sisize) -> Sisize {
        Sisize::new(self.into_inner() ^ rhs.into_inner())
    }
}

impl BitXorAssign<Sisize> for Sisize {
    fn bitxor_assign(&mut self, rhs: Sisize)
        ensures
            final(self).into_inner() == old(self).into_inner() ^ rhs.into_inner(),
    {
        *self = Sisize(self.0 ^ rhs.0);
    }
}

impl BitXor<isize> for Sisize {
    type Output = Sisize;

    fn bitxor(self, rhs: isize) -> (r: Sisize)
        ensures
            r.into_inner() == self.into_inner() ^ rhs,
    {
        Sisize(self.0 ^ rhs)
    }
}

impl BitXorSpecImpl<isize> for Sisize {
    open spec fn obeys_bitxor_spec() -> bool {
        true
    }

    open spec fn bitxor_req(self, rhs: isize) -> bool {
        true
    }

    open spec fn bitxor_spec(self, rhs: isize) -> Sisize {
        Sisize::new(self.into_inner() ^ rhs)
    }
}

impl BitXorAssign<isize> for Sisize {
    fn bitxor_assign(&mut self, rhs: isize)
        ensures
            final(self).into_inner() == old(self).into_inner() ^ rhs,
    {
        *self = Sisize(self.0 ^ rhs);
    }
}

impl Not for Sisize {
    type Output = Sisize;

    fn not(self) -> (r: Sisize)
        ensures
            r.into_inner() == !self.into_inner(),
    {
        Sisize(!self.0)
    }
}

impl NotSpecImpl for Sisize {
    open spec fn obeys_not_spec() -> bool {
        true
    }

    open spec fn not_req(self) -> bool {
        true
    }

    open spec fn not_spec(self) -> Sisize {
        Sisize::new(!self.into_inner())
    }
}

} // verus!
