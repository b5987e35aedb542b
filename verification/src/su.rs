//! The unsigned saturating wrappers.
use vstd::prelude::*;
use vstd::arithmetic::power::pow;
use crate::bits::{bit_length, bit_length_pattern, complement, count_ones_pattern, lemma_bit_length_bound,
    lemma_complement_bound, lemma_popcount_bound, low_mask, popcount, reverse_bits_pattern,
    reversed_bits, reversed_bytes, rotate_left_pattern, rotate_right_pattern, rotated_left,
    rotated_right, swap_bytes_pattern, trailing_zero_count, trailing_zeros_pattern, be_bytes, be_value, le_bytes,
    le_bytes_pattern, le_value, le_value_of_bytes, lemma_le_bytes_len, native_little_endian, target_is_little_endian};
use crate::integer::{from_pattern, to_pattern, Integer, UnsignedInteger};
use crate::magnitude::{ilog_magnitude, is_power_of_two, is_power_of_two_magnitude, isqrt_magnitude,
    lemma_isqrt_bound, next_power_of_two, next_power_of_two_magnitude, pow_magnitudes};
use crate::math::{abs_int, clamp, lemma_represents_clamp, pattern_of, value_of_pattern};
use crate::sealed::Sealed;
use crate::si::{Si128, Si16, Si32, Si64, Si8, Sisize};
use core::cmp::Ordering;
use core::ops::{BitAnd, BitAndAssign, BitOr, BitOrAssign, BitXor, BitXorAssign, Not};
use vstd::std_specs::cmp::{PartialEqSpecImpl, PartialOrdSpecImpl};
use vstd::std_specs::convert::FromSpecImpl;
use vstd::std_specs::ops::{BitAndSpecImpl, BitOrSpecImpl, BitXorSpecImpl, NotSpecImpl};

verus! {

/// A saturating wrapper around [`u8`]: its arithmetic clamps to the range of
/// [`u8`] instead of overflowing.
#[derive(Clone, Copy, Debug, PartialEq, Eq, Structural, PartialOrd, Ord, Hash)]
pub struct Su8(u8);

impl View for Su8 {
    type V = int;

    closed spec fn view(&self) -> int {
        self.0 as int
    }
}

/// The inner value of a [`Su8`] is its view.
pub broadcast proof fn lemma_su8_inner(x: Su8)
    ensures
        #[trigger] x.into_inner() as int == x@,
{
}

/// A [`Su8`] is made of the value it was made from.
pub broadcast proof fn lemma_su8_new(v: u8)
    ensures
        #[trigger] Su8::new(v)@ == v as int,
{
}

impl Sealed for Su8 {
}

impl Integer for Su8 {
    open spec fn value(self) -> int {
        self@
    }

    open spec fn lower() -> int {
        u8::MIN as int
    }

    open spec fn upper() -> int {
        u8::MAX as int
    }

    open spec fn width() -> nat {
        8
    }

    open spec fn is_signed() -> bool {
        false
    }

    open spec fn of_value(v: int) -> Su8 {
        Su8::new(v as u8)
    }

    proof fn lemma_value(self) {
    }

    proof fn lemma_of_value(v: int) {
    }

    proof fn lemma_layout() {
        u8::lemma_layout();
    }

    fn bits() -> (r: u32) {
        u8::bits()
    }

    fn signed_type() -> (r: bool) {
        u8::signed_type()
    }

    fn magnitude(self) -> (r: (bool, u128)) {
        self.0.magnitude()
    }

    fn from_magnitude(negative: bool, magnitude: u128) -> (r: Su8) {
        Su8(u8::from_magnitude(negative, magnitude))
    }
}

impl UnsignedInteger for Su8 {
    proof fn lemma_nonnegative() {
    }
}

impl Su8 {
    /// The size of this scalar type in bits.
    pub const BITS: u32 = 8;

    /// The minimum representable value for this scalar type.
    #[allow(non_snake_case)]
    pub fn MIN() -> (r: Su8)
        ensures
            r@ == u8::MIN,
    {
        Su8(u8::MIN)
    }

    /// The maximum representable value for this scalar type.
    #[allow(non_snake_case)]
    pub fn MAX() -> (r: Su8)
        ensures
            r@ == u8::MAX,
    {
        Su8(u8::MAX)
    }

    /// The additive identity value.
    #[allow(non_snake_case)]
    pub fn ZERO() -> (r: Su8)
        ensures
            r@ == 0,
    {
        Su8(0)
    }

    /// The multiplicative identity value.
    #[allow(non_snake_case)]
    pub fn ONE() -> (r: Su8)
        ensures
            r@ == 1,
    {
        Su8(1)
    }

    /// The wrapper that holds `value`.
    pub closed spec fn spec_new(value: u8) -> Su8 {
        Su8(value)
    }

    /// Creates a new [`Su8`] from an inner [`u8`] value.
    #[verifier::when_used_as_spec(spec_new)]
    pub fn new(value: u8) -> (r: Su8)
        ensures
            r == Su8::spec_new(value),
            r@ == value,
    {
        Su8(value)
    }

    /// The wrapped value.
    pub closed spec fn spec_into_inner(self) -> u8 {
        self.0
    }

    /// Returns the wrapped [`u8`] value.
    #[verifier::when_used_as_spec(spec_into_inner)]
    pub fn into_inner(self) -> (r: u8)
        ensures
            r == self.spec_into_inner(),
            r == self@,
    {
        self.0
    }

    /// Returns the number of ones in the binary representation.
    pub fn count_ones(self) -> (r: u32)
        ensures
            r == popcount(pattern_of(self@, 8), 8),
    {
        count_ones_pattern(to_pattern(self), Self::bits())
    }

    /// Returns the number of zeros in the binary representation.
    pub fn count_zeros(self) -> (r: u32)
        ensures
            r == 8 - popcount(pattern_of(self@, 8), 8),
    {
        proof {
            lemma_popcount_bound(pattern_of(self@, 8), 8);
        }
        Self::bits() - count_ones_pattern(to_pattern(self), Self::bits())
    }

    /// Returns the number of leading zeros in the binary representation.
    pub fn leading_zeros(self) -> (r: u32)
        ensures
            r == 8 - bit_length(pattern_of(self@, 8)),
    {
        let p = to_pattern(self);
        proof {
            lemma_bit_length_bound(p as nat, 8);
        }
        Self::bits() - bit_length_pattern(p)
    }

    /// Returns the number of leading ones in the binary representation.
    pub fn leading_ones(self) -> (r: u32)
        ensures
            r == 8 - bit_length(complement(pattern_of(self@, 8), 8)),
    {
        let p = to_pattern(self);
        proof {
            Self::lemma_layout();
            lemma_complement_bound(p as nat, 8);
            lemma_bit_length_bound(complement(p as nat, 8), 8);
        }
        Self::bits() - bit_length_pattern(low_mask(Self::bits()) - p)
    }

    /// Returns the number of trailing zeros in the binary representation.
    pub fn trailing_zeros(self) -> (r: u32)
        ensures
            r == trailing_zero_count(pattern_of(self@, 8), 8),
    {
        trailing_zeros_pattern(to_pattern(self), Self::bits())
    }

    /// Returns the number of trailing ones in the binary representation.
    pub fn trailing_ones(self) -> (r: u32)
        ensures
            r == trailing_zero_count(complement(pattern_of(self@, 8), 8), 8),
    {
        let p = to_pattern(self);
        proof {
            Self::lemma_layout();
        }
        trailing_zeros_pattern(low_mask(Self::bits()) - p, Self::bits())
    }

    /// Reverses the order of bits.
    pub fn reverse_bits(self) -> (r: Su8)
        ensures
            r@ == value_of_pattern(reversed_bits(pattern_of(self@, 8), 8), 8, false),
    {
        proof {
            Self::lemma_layout();
        }
        from_pattern(reverse_bits_pattern(to_pattern(self), Self::bits()))
    }

    /// Shifts bits to the left by `n`, wrapping the truncated bits to the end of the result.
    pub fn rotate_left(self, n: u32) -> (r: Su8)
        ensures
            r@ == value_of_pattern(rotated_left(pattern_of(self@, 8), n as nat, 8), 8, false),
    {
        proof {
            Self::lemma_layout();
        }
        from_pattern(rotate_left_pattern(to_pattern(self), n, Self::bits()))
    }

    /// Shifts bits to the right by `n`, wrapping the truncated bits to the beginning of the result.
    pub fn rotate_right(self, n: u32) -> (r: Su8)
        ensures
            r@ == value_of_pattern(rotated_right(pattern_of(self@, 8), n as nat, 8), 8, false),
    {
        proof {
            Self::lemma_layout();
        }
        from_pattern(rotate_right_pattern(to_pattern(self), n, Self::bits()))
    }

    /// Reverses the byte order.
    pub fn swap_bytes(self) -> (r: Su8)
        ensures
            r@ == value_of_pattern(reversed_bytes(pattern_of(self@, 8), 1), 8, false),
    {
        proof {
            Self::lemma_layout();
        }
        from_pattern(swap_bytes_pattern(to_pattern(self), Self::bits() / 8))
    }


    /// Converts from big-endian to the byte order that `little_endian` names: for
    /// little-endian this reverses the bytes, for big-endian it changes nothing.
    pub fn from_be_for(value: Su8, little_endian: bool) -> (r: Su8)
        ensures
            little_endian ==> r@ == value_of_pattern(reversed_bytes(pattern_of(value@, 8), 1), 8, false),
            !little_endian ==> r == value,
    {
        if little_endian {
            value.swap_bytes()
        } else {
            value
        }
    }

    /// Converts from little-endian to the byte order that `little_endian` names: for
    /// big-endian this reverses the bytes, for little-endian it changes nothing.
    pub fn from_le_for(value: Su8, little_endian: bool) -> (r: Su8)
        ensures
            little_endian ==> r == value,
            !little_endian ==> r@ == value_of_pattern(reversed_bytes(pattern_of(value@, 8), 1), 8, false),
    {
        if little_endian {
            value
        } else {
            value.swap_bytes()
        }
    }

    /// Converts from big-endian to the target's native endian: on a little-endian
    /// target this reverses the bytes, on a big-endian one it changes nothing (see
    /// [`Su8::from_be_for`]). Which of the two the target is, is a property of the machine.
    pub fn from_be(value: Su8) -> (r: Su8)
        ensures
            r == value || r@ == value_of_pattern(reversed_bytes(pattern_of(value@, 8), 1), 8, false),
            native_little_endian() ==> r@ == value_of_pattern(reversed_bytes(pattern_of(value@, 8), 1), 8, false),
            !native_little_endian() ==> r == value,
    {
        Su8::from_be_for(value, target_is_little_endian())
    }

    /// Converts from little-endian to the target's native endian: on a big-endian
    /// target this reverses the bytes, on a little-endian one it changes nothing (see
    /// [`Su8::from_le_for`]).
    pub fn from_le(value: Su8) -> (r: Su8)
        ensures
            r == value || r@ == value_of_pattern(reversed_bytes(pattern_of(value@, 8), 1), 8, false),
            native_little_endian() ==> r == value,
            !native_little_endian() ==> r@ == value_of_pattern(reversed_bytes(pattern_of(value@, 8), 1), 8, false),
    {
        Su8::from_le_for(value, target_is_little_endian())
    }

    /// Converts `self` to big-endian from the target's native endian.
    pub fn to_be(self) -> (r: Su8)
        ensures
            r == self || r@ == value_of_pattern(reversed_bytes(pattern_of(self@, 8), 1), 8, false),
            native_little_endian() ==> r@ == value_of_pattern(reversed_bytes(pattern_of(self@, 8), 1), 8, false),
            !native_little_endian() ==> r == self,
    {
        Su8::from_be(self)
    }

    /// Converts `self` to little-endian from the target's native endian.
    pub fn to_le(self) -> (r: Su8)
        ensures
            r == self || r@ == value_of_pattern(reversed_bytes(pattern_of(self@, 8), 1), 8, false),
            native_little_endian() ==> r == self,
            !native_little_endian() ==> r@ == value_of_pattern(reversed_bytes(pattern_of(self@, 8), 1), 8, false),
    {
        Su8::from_le(self)
    }

    /// Returns the memory representation as a byte array in big-endian order.
    pub fn to_be_bytes(self) -> (r: [u8; 1])
        ensures
            r@ == be_bytes(pattern_of(self@, 8), 1),
    {
        let v = le_bytes_pattern(to_pattern(self), 1);
        proof {
            lemma_le_bytes_len(pattern_of(self@, 8), 1);
        }
        let r = [v[0]];
        proof {
            assert(r@ =~= be_bytes(pattern_of(self@, 8), 1));
        }
        r
    }

    /// Returns the memory representation as a byte array in little-endian order.
    pub fn to_le_bytes(self) -> (r: [u8; 1])
        ensures
            r@ == le_bytes(pattern_of(self@, 8), 1),
    {
        let v = le_bytes_pattern(to_pattern(self), 1);
        proof {
            lemma_le_bytes_len(pattern_of(self@, 8), 1);
        }
        let r = [v[0]];
        proof {
            assert(r@ =~= le_bytes(pattern_of(self@, 8), 1));
        }
        r
    }

    /// Returns the memory representation as a byte array in the byte order that
    /// `little_endian` names.
    pub fn to_ne_bytes_for(self, little_endian: bool) -> (r: [u8; 1])
        ensures
            little_endian ==> r@ == le_bytes(pattern_of(self@, 8), 1),
            !little_endian ==> r@ == be_bytes(pattern_of(self@, 8), 1),
    {
        if little_endian {
            self.to_le_bytes()
        } else {
            self.to_be_bytes()
        }
    }

    /// Returns the memory representation as a byte array in native-endian order
    /// (see [`Su8::to_ne_bytes_for`]).
    pub fn to_ne_bytes(self) -> (r: [u8; 1])
        ensures
            r@ == le_bytes(pattern_of(self@, 8), 1) || r@ == be_bytes(pattern_of(self@, 8), 1),
            native_little_endian() ==> r@ == le_bytes(pattern_of(self@, 8), 1),
            !native_little_endian() ==> r@ == be_bytes(pattern_of(self@, 8), 1),
    {
        self.to_ne_bytes_for(target_is_little_endian())
    }

    /// Creates a scalar from a byte array in big-endian order.
    pub fn from_be_bytes(bytes: [u8; 1]) -> (r: Su8)
        ensures
            r@ == value_of_pattern(be_value(bytes@), 8, false),
    {
        let le = [bytes[0]];
        proof {
            assert(le@ =~= bytes@.reverse());
        }
        let p = le_value_of_bytes(le.as_slice());
        from_pattern(p)
    }

    /// Creates a scalar from a byte array in little-endian order.
    pub fn from_le_bytes(bytes: [u8; 1]) -> (r: Su8)
        ensures
            r@ == value_of_pattern(le_value(bytes@), 8, false),
    {
        let p = le_value_of_bytes(bytes.as_slice());
        from_pattern(p)
    }

    /// Creates a scalar from a byte array in the byte order that `little_endian` names.
    pub fn from_ne_bytes_for(bytes: [u8; 1], little_endian: bool) -> (r: Su8)
        ensures
            little_endian ==> r@ == value_of_pattern(le_value(bytes@), 8, false),
            !little_endian ==> r@ == value_of_pattern(be_value(bytes@), 8, false),
    {
        if little_endian {
            Su8::from_le_bytes(bytes)
        } else {
            Su8::from_be_bytes(bytes)
        }
    }

    /// Creates a scalar from a byte array in native-endian order (see
    /// [`Su8::from_ne_bytes_for`]).
    pub fn from_ne_bytes(bytes: [u8; 1]) -> (r: Su8)
        ensures
            r@ == value_of_pattern(le_value(bytes@), 8, false) || r@ == value_of_pattern(
                be_value(bytes@),
                8,
                false,
            ),
            native_little_endian() ==> r@ == value_of_pattern(le_value(bytes@), 8, false),
            !native_little_endian() ==> r@ == value_of_pattern(be_value(bytes@), 8, false),
    {
        Su8::from_ne_bytes_for(bytes, target_is_little_endian())
    }


    /// Divides two scalar values, returning `None` on division by zero.
    pub fn checked_div(self, rhs: Su8) -> (r: Option<Su8>)
        ensures
            r is None <==> rhs@ == 0,
            r matches Some(q) ==> q@ == self@ / rhs@,
    {
        if rhs.0 == 0 {
            None
        } else {
            Some(Su8(self.0 / rhs.0))
        }
    }

    /// Calculates Euclidean division, returning `None` on division by zero.
    pub fn checked_div_euclid(self, rhs: Su8) -> (r: Option<Su8>)
        ensures
            r is None <==> rhs@ == 0,
            r matches Some(q) ==> q@ == self@ / rhs@,
    {
        self.checked_div(rhs)
    }

    /// Calculates the remainder of two scalar values, returning `None` on division by zero.
    pub fn checked_rem(self, rhs: Su8) -> (r: Option<Su8>)
        ensures
            r is None <==> rhs@ == 0,
            r matches Some(x) ==> x@ == self@ % rhs@,
    {
        if rhs.0 == 0 {
            None
        } else {
            Some(Su8(self.0 % rhs.0))
        }
    }

    /// Calculates the least nonnegative remainder, returning `None` on division by zero.
    pub fn checked_rem_euclid(self, rhs: Su8) -> (r: Option<Su8>)
        ensures
            r is None <==> rhs@ == 0,
            r matches Some(x) ==> x@ == self@ % rhs@,
    {
        self.checked_rem(rhs)
    }


    /// Raises `self` to the power of `exp`, saturating at numeric bounds.
    pub fn pow(self, exp: u32) -> (r: Su8)
        ensures
            r@ == clamp(pow(self@, exp as nat), u8::MIN as int, u8::MAX as int),
    {
        let (negative, a) = self.magnitude();
        let (n, m) = pow_magnitudes(negative, a, exp);
        proof {
            lemma_represents_clamp(n, m, pow(self@, exp as nat), u8::MIN as int, u8::MAX as int);
        }
        Self::from_magnitude(n, m)
    }

    /// Returns the base-`base` logarithm, or `None` if the logarithm is undefined.
    pub fn checked_ilog(self, base: u8) -> (r: Option<u32>)
        ensures
            r is None <==> self@ <= 0 || base < 2,
            r matches Some(k) ==> pow(base as int, k as nat) <= self@ < pow(base as int, (k + 1) as nat),
    {
        if self.0 <= 0 || base < 2 {
            None
        } else {
            Some(ilog_magnitude(self.0 as u128, base as u128))
        }
    }

    /// Returns the base-2 logarithm, or `None` if the logarithm is undefined.
    pub fn checked_ilog2(self) -> (r: Option<u32>)
        ensures
            r is None <==> self@ <= 0,
            r matches Some(k) ==> pow(2, k as nat) <= self@ < pow(2, (k + 1) as nat),
    {
        self.checked_ilog(2)
    }

    /// Returns the base-10 logarithm, or `None` if the logarithm is undefined.
    pub fn checked_ilog10(self) -> (r: Option<u32>)
        ensures
            r is None <==> self@ <= 0,
            r matches Some(k) ==> pow(10, k as nat) <= self@ < pow(10, (k + 1) as nat),
    {
        self.checked_ilog(10)
    }

    /// Returns `true` if `self` is the minimum representable value.
    pub fn is_min(self) -> (r: bool)
        ensures
            r == (self@ == u8::MIN),
    {
        self.0 == u8::MIN
    }

    /// Returns `true` if `self` is the maximum representable value.
    pub fn is_max(self) -> (r: bool)
        ensures
            r == (self@ == u8::MAX),
    {
        self.0 == u8::MAX
    }

    /// Returns `true` if `self` is zero.
    pub fn is_zero(self) -> (r: bool)
        ensures
            r == (self@ == 0),
    {
        self.0 == 0
    }

    /// Returns `true` if `self` is one.
    pub fn is_one(self) -> (r: bool)
        ensures
            r == (self@ == 1),
    {
        self.0 == 1
    }


    /// Computes the absolute difference between `self` and `rhs`.
    pub fn abs_diff(self, rhs: Su8) -> (r: Su8)
        ensures
            r@ == abs_int(self@ - rhs@),
    {
        if self.0 >= rhs.0 {
            Su8(self.0 - rhs.0)
        } else {
            Su8(rhs.0 - self.0)
        }
    }

    /// Returns `true` if `self` is a power of two.
    pub fn is_power_of_two(self) -> (r: bool)
        ensures
            r == is_power_of_two(self@ as nat),
    {
        is_power_of_two_magnitude(self.0 as u128)
    }

    /// Returns the smallest power of two greater than or equal to `self`,
    /// saturating at `MAX` if the primitive operation would overflow.
    pub fn next_power_of_two(self) -> (r: Su8)
        ensures
            r@ == (if next_power_of_two(self@ as nat) <= u8::MAX {
                next_power_of_two(self@ as nat) as int
            } else {
                u8::MAX as int
            }),
    {
        match self.checked_next_power_of_two() {
            Some(v) => v,
            None => Self::MAX(),
        }
    }

    /// Returns the smallest power of two greater than or equal to `self`,
    /// or `None` if the primitive operation would overflow.
    pub fn checked_next_power_of_two(self) -> (r: Option<Su8>)
        ensures
            r is None <==> next_power_of_two(self@ as nat) > u8::MAX,
            r matches Some(x) ==> x@ == next_power_of_two(self@ as nat),
    {
        match next_power_of_two_magnitude(self.0 as u128, u8::MAX as u128) {
            Some(p) => Some(Self::from_magnitude(false, p)),
            None => None,
        }
    }

    /// Returns the integer square root.
    pub fn isqrt(self) -> (r: Su8)
        ensures
            r@ * r@ <= self@ < (r@ + 1) * (r@ + 1),
    {
        let s = isqrt_magnitude(self.0 as u128);
        proof {
            lemma_isqrt_bound(s as int, self@);
        }
        Self::from_magnitude(false, s)
    }

    /// Converts to the same-width signed wrapper, saturating values above its `MAX`.
    pub fn to_signed(self) -> (r: Si8)
        ensures
            r@ == (if self@ > i8::MAX {
                i8::MAX as int
            } else {
                self@
            }),
    {
        Si8::from_magnitude(false, self.0 as u128)
    }

}

/// Creates a [`Su8`] from an inner [`u8`] value.
pub fn su8(value: u8) -> (r: Su8)
    ensures
        r@ == value,
{
    Su8::new(value)
}

impl Default for Su8 {
    fn default() -> (r: Su8)
        ensures
            r@ == 0,
    {
        Su8(0)
    }
}

impl From<u8> for Su8 {
    fn from(value: u8) -> (r: Su8)
        ensures
            r@ == value,
    {
        Su8(value)
    }
}

impl FromSpecImpl<u8> for Su8 {
    open spec fn obeys_from_spec() -> bool {
        true
    }

    open spec fn from_spec(v: u8) -> Su8 {
        Su8::new(v)
    }
}

impl From<Su8> for u8 {
    fn from(value: Su8) -> (r: u8)
        ensures
            r == value@,
    {
        value.0
    }
}

impl FromSpecImpl<Su8> for u8 {
    open spec fn obeys_from_spec() -> bool {
        true
    }

    open spec fn from_spec(v: Su8) -> u8 {
        v.into_inner()
    }
}

impl PartialEq<u8> for Su8 {
    fn eq(&self, other: &u8) -> (r: bool) {
        self.0 == *other
    }
}

impl PartialEqSpecImpl<u8> for Su8 {
    open spec fn obeys_eq_spec() -> bool {
        true
    }

    open spec fn eq_spec(&self, other: &u8) -> bool {
        self.into_inner() == *other
    }
}

impl PartialEq<Su8> for u8 {
    fn eq(&self, other: &Su8) -> (r: bool) {
        *self == other.0
    }
}

impl PartialEqSpecImpl<Su8> for u8 {
    open spec fn obeys_eq_spec() -> bool {
        true
    }

    open spec fn eq_spec(&self, other: &Su8) -> bool {
        *self == other.into_inner()
    }
}

impl PartialOrd<u8> for Su8 {
    fn partial_cmp(&self, other: &u8) -> (r: Option<Ordering>) {
        if self.0 < *other {
            Some(Ordering::Less)
        } else if self.0 > *other {
            Some(Ordering::Greater)
        } else {
            Some(Ordering::Equal)
        }
    }
}

impl PartialOrdSpecImpl<u8> for Su8 {
    open spec fn obeys_partial_cmp_spec() -> bool {
        true
    }

    open spec fn partial_cmp_spec(&self, other: &u8) -> Option<Ordering> {
        if self.into_inner() < *other {
            Some(Ordering::Less)
        } else if self.into_inner() > *other {
            Some(Ordering::Greater)
        } else {
            Some(Ordering::Equal)
        }
    }
}

impl PartialOrd<Su8> for u8 {
    fn partial_cmp(&self, other: &Su8) -> (r: Option<Ordering>) {
        if *self < other.0 {
            Some(Ordering::Less)
        } else if *self > other.0 {
            Some(Ordering::Greater)
        } else {
            Some(Ordering::Equal)
        }
    }
}

impl PartialOrdSpecImpl<Su8> for u8 {
    open spec fn obeys_partial_cmp_spec() -> bool {
        true
    }

    open spec fn partial_cmp_spec(&self, other: &Su8) -> Option<Ordering> {
        if *self < other.into_inner() {
            Some(Ordering::Less)
        } else if *self > other.into_inner() {
            Some(Ordering::Greater)
        } else {
            Some(Ordering::Equal)
        }
    }
}

impl BitAnd<Su8> for Su8 {
    type Output = Su8;

    fn bitand(self, rhs: Su8) -> (r: Su8)
        ensures
            r.into_inner() == self.into_inner() & rhs.into_inner(),
    {
        Su8(self.0 & rhs.0)
    }
}

impl BitAndSpecImpl<Su8> for Su8 {
    open spec fn obeys_bitand_spec() -> bool {
        true
    }

    open spec fn bitand_req(self, rhs: Su8) -> bool {
        true
    }

    open spec fn bitand_spec(self, rhs: Su8) -> Su8 {
        Su8::new(self.into_inner() & rhs.into_inner())
    }
}

impl BitAndAssign<Su8> for Su8 {
    fn bitand_assign(&mut self, rhs: Su8)
        ensures
            final(self).into_inner() == old(self).into_inner() & rhs.into_inner(),
    {
        *self = Su8(self.0 & rhs.0);
    }
}

impl BitAnd<u8> for Su8 {
    type Output = Su8;

    fn bitand(self, rhs: u8) -> (r: Su8)
        ensures
            r.into_inner() == self.into_inner() & rhs,
    {
        Su8(self.0 & rhs)
    }
}

impl BitAndSpecImpl<u8> for Su8 {
    open spec fn obeys_bitand_spec() -> bool {
        true
    }

    open spec fn bitand_req(self, rhs: u8) -> bool {
        true
    }

    open spec fn bitand_spec(self, rhs: u8) -> Su8 {
        Su8::new(self.into_inner() & rhs)
    }
}

impl BitAndAssign<u8> for Su8 {
    fn bitand_assign(&mut self, rhs: u8)
        ensures
            final(self).into_inner() == old(self).into_inner() & rhs,
    {
        *self = Su8(self.0 & rhs);
    }
}

impl BitOr<Su8> for Su8 {
    type Output = Su8;

    fn bitor(self, rhs: Su8) -> (r: Su8)
        ensures
            r.into_inner() == self.into_inner() | rhs.into_inner(),
    {
        Su8(self.0 | rhs.0)
    }
}

impl BitOrSpecImpl<Su8> for Su8 {
    open spec fn obeys_bitor_spec() -> bool {
        true
    }

    open spec fn bitor_req(self, rhs: Su8) -> bool {
        true
    }

    open spec fn bitor_spec(self, rhs: Su8) -> Su8 {
        Su8::new(self.into_inner() | rhs.into_inner())
    }
}

impl BitOrAssign<Su8> for Su8 {
    fn bitor_assign(&mut self, rhs: Su8)
        ensures
            final(self).into_inner() == old(self).into_inner() | rhs.into_inner(),
    {
        *self = Su8(self.0 | rhs.0);
    }
}

impl BitOr<u8> for Su8 {
    type Output = Su8;

    fn bitor(self, rhs: u8) -> (r: Su8)
        ensures
            r.into_inner() == self.into_inner() | rhs,
    {
        Su8(self.0 | rhs)
    }
}

impl BitOrSpecImpl<u8> for Su8 {
    open spec fn obeys_bitor_spec() -> bool {
        true
    }

    open spec fn bitor_req(self, rhs: u8) -> bool {
        true
    }

    open spec fn bitor_spec(self, rhs: u8) -> Su8 {
        Su8::new(self.into_inner() | rhs)
    }
}

impl BitOrAssign<u8> for Su8 {
    fn bitor_assign(&mut self, rhs: u8)
        ensures
            final(self).into_inner() == old(self).into_inner() | rhs,
    {
        *self = Su8(self.0 | rhs);
    }
}

impl BitXor<Su8> for Su8 {
    type Output = Su8;

    fn bitxor(self, rhs: Su8) -> (r: Su8)
        ensures
            r.into_inner() == self.into_inner() ^ rhs.into_inner(),
    {
        Su8(self.0 ^ rhs.0)
    }
}

impl BitXorSpecImpl<Su8> for Su8 {
    open spec fn obeys_bitxor_spec() -> bool {
        true
    }

    open spec fn bitxor_req(self, rhs: Su8) -> bool {
        true
    }

    open spec fn bitxor_spec(self, rhs: Su8) -> Su8 {
        Su8::new(self.into_inner() ^ rhs.into_inner())
    }
}

impl BitXorAssign<Su8> for Su8 {
    fn bitxor_assign(&mut self, rhs: Su8)
        ensures
            final(self).into_inner() == old(self).into_inner() ^ rhs.into_inner(),
    {
        *self = Su8(self.0 ^ rhs.0);
    }
}

impl BitXor<u8> for Su8 {
    type Output = Su8;

    fn bitxor(self, rhs: u8) -> (r: Su8)
        ensures
            r.into_inner() == self.into_inner() ^ rhs,
    {
        Su8(self.0 ^ rhs)
    }
}

impl BitXorSpecImpl<u8> for Su8 {
    open spec fn obeys_bitxor_spec() -> bool {
        true
    }

    open spec fn bitxor_req(self, rhs: u8) -> bool {
        true
    }

    open spec fn bitxor_spec(self, rhs: u8) -> Su8 {
        Su8::new(self.into_inner() ^ rhs)
    }
}

impl BitXorAssign<u8> for Su8 {
    fn bitxor_assign(&mut self, rhs: u8)
        ensures
            final(self).into_inner() == old(self).into_inner() ^ rhs,
    {
        *self = Su8(self.0 ^ rhs);
    }
}

impl Not for Su8 {
    type Output = Su8;

    fn not(self) -> (r: Su8)
        ensures
            r.into_inner() == !self.into_inner(),
    {
        Su8(!self.0)
    }
}

impl NotSpecImpl for Su8 {
    open spec fn obeys_not_spec() -> bool {
        true
    }

    open spec fn not_req(self) -> bool {
        true
    }

    open spec fn not_spec(self) -> Su8 {
        Su8::new(!self.into_inner())
    }
}

/// A saturating wrapper around [`u16`]: its arithmetic clamps to the range of
/// [`u16`] instead of overflowing.
#[derive(Clone, Copy, Debug, PartialEq, Eq, Structural, PartialOrd, Ord, Hash)]
pub struct Su16(u16);

impl View for Su16 {
    type V = int;

    closed spec fn view(&self) -> int {
        self.0 as int
    }
}

/// The inner value of a [`Su16`] is its view.
pub broadcast proof fn lemma_su16_inner(x: Su16)
    ensures
        #[trigger] x.into_inner() as int == x@,
{
}

/// A [`Su16`] is made of the value it was made from.
pub broadcast proof fn lemma_su16_new(v: u16)
    ensures
        #[trigger] Su16::new(v)@ == v as int,
{
}

impl Sealed for Su16 {
}

impl Integer for Su16 {
    open spec fn value(self) -> int {
        self@
    }

    open spec fn lower() -> int {
        u16::MIN as int
    }

    open spec fn upper() -> int {
        u16::MAX as int
    }

    open spec fn width() -> nat {
        16
    }

    open spec fn is_signed() -> bool {
        false
    }

    open spec fn of_value(v: int) -> Su16 {
        Su16::new(v as u16)
    }

    proof fn lemma_value(self) {
    }

    proof fn lemma_of_value(v: int) {
    }

    proof fn lemma_layout() {
        u16::lemma_layout();
    }

    fn bits() -> (r: u32) {
        u16::bits()
    }

    fn signed_type() -> (r: bool) {
        u16::signed_type()
    }

    fn magnitude(self) -> (r: (bool, u128)) {
        self.0.magnitude()
    }

    fn from_magnitude(negative: bool, magnitude: u128) -> (r: Su16) {
        Su16(u16::from_magnitude(negative, magnitude))
    }
}

impl UnsignedInteger for Su16 {
    proof fn lemma_nonnegative() {
    }
}

impl Su16 {
    /// The size of this scalar type in bits.
    pub const BITS: u32 = 16;

    /// The minimum representable value for this scalar type.
    #[allow(non_snake_case)]
    pub fn MIN() -> (r: Su16)
        ensures
            r@ == u16::MIN,
    {
        Su16(u16::MIN)
    }

    /// The maximum representable value for this scalar type.
    #[allow(non_snake_case)]
    pub fn MAX() -> (r: Su16)
        ensures
            r@ == u16::MAX,
    {
        Su16(u16::MAX)
    }

    /// The additive identity value.
    #[allow(non_snake_case)]
    pub fn ZERO() -> (r: Su16)
        ensures
            r@ == 0,
    {
        Su16(0)
    }

    /// The multiplicative identity value.
    #[allow(non_snake_case)]
    pub fn ONE() -> (r: Su16)
        ensures
            r@ == 1,
    {
        Su16(1)
    }

    /// The wrapper that holds `value`.
    pub closed spec fn spec_new(value: u16) -> Su16 {
        Su16(value)
    }

    /// Creates a new [`Su16`] from an inner [`u16`] value.
    #[verifier::when_used_as_spec(spec_new)]
    pub fn new(value: u16) -> (r: Su16)
        ensures
            r == Su16::spec_new(value),
            r@ == value,
    {
        Su16(value)
    }

    /// The wrapped value.
    pub closed spec fn spec_into_inner(self) -> u16 {
        self.0
    }

    /// Returns the wrapped [`u16`] value.
    #[verifier::when_used_as_spec(spec_into_inner)]
    pub fn into_inner(self) -> (r: u16)
        ensures
            r == self.spec_into_inner(),
            r == self@,
    {
        self.0
    }

    /// Returns the number of ones in the binary representation.
    pub fn count_ones(self) -> (r: u32)
        ensures
            r == popcount(pattern_of(self@, 16), 16),
    {
        count_ones_pattern(to_pattern(self), Self::bits())
    }

    /// Returns the number of zeros in the binary representation.
    pub fn count_zeros(self) -> (r: u32)
        ensures
            r == 16 - popcount(pattern_of(self@, 16), 16),
    {
        proof {
            lemma_popcount_bound(pattern_of(self@, 16), 16);
        }
        Self::bits() - count_ones_pattern(to_pattern(self), Self::bits())
    }

    /// Returns the number of leading zeros in the binary representation.
    pub fn leading_zeros(self) -> (r: u32)
        ensures
            r == 16 - bit_length(pattern_of(self@, 16)),
    {
        let p = to_pattern(self);
        proof {
            lemma_bit_length_bound(p as nat, 16);
        }
        Self::bits() - bit_length_pattern(p)
    }

    /// Returns the number of leading ones in the binary representation.
    pub fn leading_ones(self) -> (r: u32)
        ensures
            r == 16 - bit_length(complement(pattern_of(self@, 16), 16)),
    {
        let p = to_pattern(self);
        proof {
            Self::lemma_layout();
            lemma_complement_bound(p as nat, 16);
            lemma_bit_length_bound(complement(p as nat, 16), 16);
        }
        Self::bits() - bit_length_pattern(low_mask(Self::bits()) - p)
    }

    /// Returns the number of trailing zeros in the binary representation.
    pub fn trailing_zeros(self) -> (r: u32)
        ensures
            r == trailing_zero_count(pattern_of(self@, 16), 16),
    {
        trailing_zeros_pattern(to_pattern(self), Self::bits())
    }

    /// Returns the number of trailing ones in the binary representation.
    pub fn trailing_ones(self) -> (r: u32)
        ensures
            r == trailing_zero_count(complement(pattern_of(self@, 16), 16), 16),
    {
        let p = to_pattern(self);
        proof {
            Self::lemma_layout();
        }
        trailing_zeros_pattern(low_mask(Self::bits()) - p, Self::bits())
    }

    /// Reverses the order of bits.
    pub fn reverse_bits(self) -> (r: Su16)
        ensures
            r@ == value_of_pattern(reversed_bits(pattern_of(self@, 16), 16), 16, false),
    {
        proof {
            Self::lemma_layout();
        }
        from_pattern(reverse_bits_pattern(to_pattern(self), Self::bits()))
    }

    /// Shifts bits to the left by `n`, wrapping the truncated bits to the end of the result.
    pub fn rotate_left(self, n: u32) -> (r: Su16)
        ensures
            r@ == value_of_pattern(rotated_left(pattern_of(self@, 16), n as nat, 16), 16, false),
    {
        proof {
            Self::lemma_layout();
        }
        from_pattern(rotate_left_pattern(to_pattern(self), n, Self::bits()))
    }

    /// Shifts bits to the right by `n`, wrapping the truncated bits to the beginning of the result.
    pub fn rotate_right(self, n: u32) -> (r: Su16)
        ensures
            r@ == value_of_pattern(rotated_right(pattern_of(self@, 16), n as nat, 16), 16, false),
    {
        proof {
            Self::lemma_layout();
        }
        from_pattern(rotate_right_pattern(to_pattern(self), n, Self::bits()))
    }

    /// Reverses the byte order.
    pub fn swap_bytes(self) -> (r: Su16)
        ensures
            r@ == value_of_pattern(reversed_bytes(pattern_of(self@, 16), 2), 16, false),
    {
        proof {
            Self::lemma_layout();
        }
        from_pattern(swap_bytes_pattern(to_pattern(self), Self::bits() / 8))
    }


    /// Converts from big-endian to the byte order that `little_endian` names: for
    /// little-endian this reverses the bytes, for big-endian it changes nothing.
    pub fn from_be_for(value: Su16, little_endian: bool) -> (r: Su16)
        ensures
            little_endian ==> r@ == value_of_pattern(reversed_bytes(pattern_of(value@, 16), 2), 16, false),
            !little_endian ==> r == value,
    {
        if little_endian {
            value.swap_bytes()
        } else {
            value
        }
    }

    /// Converts from little-endian to the byte order that `little_endian` names: for
    /// big-endian this reverses the bytes, for little-endian it changes nothing.
    pub fn from_le_for(value: Su16, little_endian: bool) -> (r: Su16)
        ensures
            little_endian ==> r == value,
            !little_endian ==> r@ == value_of_pattern(reversed_bytes(pattern_of(value@, 16), 2), 16, false),
    {
        if little_endian {
            value
        } else {
            value.swap_bytes()
        }
    }

    /// Converts from big-endian to the target's native endian: on a little-endian
    /// target this reverses the bytes, on a big-endian one it changes nothing (see
    /// [`Su16::from_be_for`]). Which of the two the target is, is a property of the machine.
    pub fn from_be(value: Su16) -> (r: Su16)
        ensures
            r == value || r@ == value_of_pattern(reversed_bytes(pattern_of(value@, 16), 2), 16, false),
            native_little_endian() ==> r@ == value_of_pattern(reversed_bytes(pattern_of(value@, 16), 2), 16, false),
            !native_little_endian() ==> r == value,
    {
        Su16::from_be_for(value, target_is_little_endian())
    }

    /// Converts from little-endian to the target's native endian: on a big-endian
    /// target this reverses the bytes, on a little-endian one it changes nothing (see
    /// [`Su16::from_le_for`]).
    pub fn from_le(value: Su16) -> (r: Su16)
        ensures
            r == value || r@ == value_of_pattern(reversed_bytes(pattern_of(value@, 16), 2), 16, false),
            native_little_endian() ==> r == value,
            !native_little_endian() ==> r@ == value_of_pattern(reversed_bytes(pattern_of(value@, 16), 2), 16, false),
    {
        Su16::from_le_for(value, target_is_little_endian())
    }

    /// Converts `self` to big-endian from the target's native endian.
    pub fn to_be(self) -> (r: Su16)
        ensures
            r == self || r@ == value_of_pattern(reversed_bytes(pattern_of(self@, 16), 2), 16, false),
            native_little_endian() ==> r@ == value_of_pattern(reversed_bytes(pattern_of(self@, 16), 2), 16, false),
            !native_little_endian() ==> r == self,
    {
        Su16::from_be(self)
    }

    /// Converts `self` to little-endian from the target's native endian.
    pub fn to_le(self) -> (r: Su16)
        ensures
            r == self || r@ == value_of_pattern(reversed_bytes(pattern_of(self@, 16), 2), 16, false),
            native_little_endian() ==> r == self,
            !native_little_endian() ==> r@ == value_of_pattern(reversed_bytes(pattern_of(self@, 16), 2), 16, false),
    {
        Su16::from_le(self)
    }

    /// Returns the memory representation as a byte array in big-endian order.
    pub fn to_be_bytes(self) -> (r: [u8; 2])
        ensures
            r@ == be_bytes(pattern_of(self@, 16), 2),
    {
        let v = le_bytes_pattern(to_pattern(self), 2);
        proof {
            lemma_le_bytes_len(pattern_of(self@, 16), 2);
        }
        let r = [v[1], v[0]];
        proof {
            assert(r@ =~= be_bytes(pattern_of(self@, 16), 2));
        }
        r
    }

    /// Returns the memory representation as a byte array in little-endian order.
    pub fn to_le_bytes(self) -> (r: [u8; 2])
        ensures
            r@ == le_bytes(pattern_of(self@, 16), 2),
    {
        let v = le_bytes_pattern(to_pattern(self), 2);
        proof {
            lemma_le_bytes_len(pattern_of(self@, 16), 2);
        }
        let r = [v[0], v[1]];
        proof {
            assert(r@ =~= le_bytes(pattern_of(self@, 16), 2));
        }
        r
    }

    /// Returns the memory representation as a byte array in the byte order that
    /// `little_endian` names.
    pub fn to_ne_bytes_for(self, little_endian: bool) -> (r: [u8; 2])
        ensures
            little_endian ==> r@ == le_bytes(pattern_of(self@, 16), 2),
            !little_endian ==> r@ == be_bytes(pattern_of(self@, 16), 2),
    {
        if little_endian {
            self.to_le_bytes()
        } else {
            self.to_be_bytes()
        }
    }

    /// Returns the memory representation as a byte array in native-endian order
    /// (see [`Su16::to_ne_bytes_for`]).
    pub fn to_ne_bytes(self) -> (r: [u8; 2])
        ensures
            r@ == le_bytes(pattern_of(self@, 16), 2) || r@ == be_bytes(pattern_of(self@, 16), 2),
            native_little_endian() ==> r@ == le_bytes(pattern_of(self@, 16), 2),
            !native_little_endian() ==> r@ == be_bytes(pattern_of(self@, 16), 2),
    {
        self.to_ne_bytes_for(target_is_little_endian())
    }

    /// Creates a scalar from a byte array in big-endian order.
    pub fn from_be_bytes(bytes: [u8; 2]) -> (r: Su16)
        ensures
            r@ == value_of_pattern(be_value(bytes@), 16, false),
    {
        let le = [bytes[1], bytes[0]];
        proof {
            assert(le@ =~= bytes@.reverse());
        }
        let p = le_value_of_bytes(le.as_slice());
        from_pattern(p)
    }

    /// Creates a scalar from a byte array in little-endian order.
    pub fn from_le_bytes(bytes: [u8; 2]) -> (r: Su16)
        ensures
            r@ == value_of_pattern(le_value(bytes@), 16, false),
    {
        let p = le_value_of_bytes(bytes.as_slice());
        from_pattern(p)
    }

    /// Creates a scalar from a byte array in the byte order that `little_endian` names.
    pub fn from_ne_bytes_for(bytes: [u8; 2], little_endian: bool) -> (r: Su16)
        ensures
            little_endian ==> r@ == value_of_pattern(le_value(bytes@), 16, false),
            !little_endian ==> r@ == value_of_pattern(be_value(bytes@), 16, false),
    {
        if little_endian {
            Su16::from_le_bytes(bytes)
        } else {
            Su16::from_be_bytes(bytes)
        }
    }

    /// Creates a scalar from a byte array in native-endian order (see
    /// [`Su16::from_ne_bytes_for`]).
    pub fn from_ne_bytes(bytes: [u8; 2]) -> (r: Su16)
        ensures
            r@ == value_of_pattern(le_value(bytes@), 16, false) || r@ == value_of_pattern(
                be_value(bytes@),
                16,
                false,
            ),
            native_little_endian() ==> r@ == value_of_pattern(le_value(bytes@), 16, false),
            !native_little_endian() ==> r@ == value_of_pattern(be_value(bytes@), 16, false),
    {
        Su16::from_ne_bytes_for(bytes, target_is_little_endian())
    }


    /// Divides two scalar values, returning `None` on division by zero.
    pub fn checked_div(self, rhs: Su16) -> (r: Option<Su16>)
        ensures
            r is None <==> rhs@ == 0,
            r matches Some(q) ==> q@ == self@ / rhs@,
    {
        if rhs.0 == 0 {
            None
        } else {
            Some(Su16(self.0 / rhs.0))
        }
    }

    /// Calculates Euclidean division, returning `None` on division by zero.
    pub fn checked_div_euclid(self, rhs: Su16) -> (r: Option<Su16>)
        ensures
            r is None <==> rhs@ == 0,
            r matches Some(q) ==> q@ == self@ / rhs@,
    {
        self.checked_div(rhs)
    }

    /// Calculates the remainder of two scalar values, returning `None` on division by zero.
    pub fn checked_rem(self, rhs: Su16) -> (r: Option<Su16>)
        ensures
            r is None <==> rhs@ == 0,
            r matches Some(x) ==> x@ == self@ % rhs@,
    {
        if rhs.0 == 0 {
            None
        } else {
            Some(Su16(self.0 % rhs.0))
        }
    }

    /// Calculates the least nonnegative remainder, returning `None` on division by zero.
    pub fn checked_rem_euclid(self, rhs: Su16) -> (r: Option<Su16>)
        ensures
            r is None <==> rhs@ == 0,
            r matches Some(x) ==> x@ == self@ % rhs@,
    {
        self.checked_rem(rhs)
    }


    /// Raises `self` to the power of `exp`, saturating at numeric bounds.
    pub fn pow(self, exp: u32) -> (r: Su16)
        ensures
            r@ == clamp(pow(self@, exp as nat), u16::MIN as int, u16::MAX as int),
    {
        let (negative, a) = self.magnitude();
        let (n, m) = pow_magnitudes(negative, a, exp);
        proof {
            lemma_represents_clamp(n, m, pow(self@, exp as nat), u16::MIN as int, u16::MAX as int);
        }
        Self::from_magnitude(n, m)
    }

    /// Returns the base-`base` logarithm, or `None` if the logarithm is undefined.
    pub fn checked_ilog(self, base: u16) -> (r: Option<u32>)
        ensures
            r is None <==> self@ <= 0 || base < 2,
            r matches Some(k) ==> pow(base as int, k as nat) <= self@ < pow(base as int, (k + 1) as nat),
    {
        if self.0 <= 0 || base < 2 {
            None
        } else {
            Some(ilog_magnitude(self.0 as u128, base as u128))
        }
    }

    /// Returns the base-2 logarithm, or `None` if the logarithm is undefined.
    pub fn checked_ilog2(self) -> (r: Option<u32>)
        ensures
            r is None <==> self@ <= 0,
            r matches Some(k) ==> pow(2, k as nat) <= self@ < pow(2, (k + 1) as nat),
    {
        self.checked_ilog(2)
    }

    /// Returns the base-10 logarithm, or `None` if the logarithm is undefined.
    pub fn checked_ilog10(self) -> (r: Option<u32>)
        ensures
            r is None <==> self@ <= 0,
            r matches Some(k) ==> pow(10, k as nat) <= self@ < pow(10, (k + 1) as nat),
    {
        self.checked_ilog(10)
    }

    /// Returns `true` if `self` is the minimum representable value.
    pub fn is_min(self) -> (r: bool)
        ensures
            r == (self@ == u16::MIN),
    {
        self.0 == u16::MIN
    }

    /// Returns `true` if `self` is the maximum representable value.
    pub fn is_max(self) -> (r: bool)
        ensures
            r == (self@ == u16::MAX),
    {
        self.0 == u16::MAX
    }

    /// Returns `true` if `self` is zero.
    pub fn is_zero(self) -> (r: bool)
        ensures
            r == (self@ == 0),
    {
        self.0 == 0
    }

    /// Returns `true` if `self` is one.
    pub fn is_one(self) -> (r: bool)
        ensures
            r == (self@ == 1),
    {
        self.0 == 1
    }


    /// Computes the absolute difference between `self` and `rhs`.
    pub fn abs_diff(self, rhs: Su16) -> (r: Su16)
        ensures
            r@ == abs_int(self@ - rhs@),
    {
        if self.0 >= rhs.0 {
            Su16(self.0 - rhs.0)
        } else {
            Su16(rhs.0 - self.0)
        }
    }

    /// Returns `true` if `self` is a power of two.
    pub fn is_power_of_two(self) -> (r: bool)
        ensures
            r == is_power_of_two(self@ as nat),
    {
        is_power_of_two_magnitude(self.0 as u128)
    }

    /// Returns the smallest power of two greater than or equal to `self`,
    /// saturating at `MAX` if the primitive operation would overflow.
    pub fn next_power_of_two(self) -> (r: Su16)
        ensures
            r@ == (if next_power_of_two(self@ as nat) <= u16::MAX {
                next_power_of_two(self@ as nat) as int
            } else {
                u16::MAX as int
            }),
    {
        match self.checked_next_power_of_two() {
            Some(v) => v,
            None => Self::MAX(),
        }
    }

    /// Returns the smallest power of two greater than or equal to `self`,
    /// or `None` if the primitive operation would overflow.
    pub fn checked_next_power_of_two(self) -> (r: Option<Su16>)
        ensures
            r is None <==> next_power_of_two(self@ as nat) > u16::MAX,
            r matches Some(x) ==> x@ == next_power_of_two(self@ as nat),
    {
        match next_power_of_two_magnitude(self.0 as u128, u16::MAX as u128) {
            Some(p) => Some(Self::from_magnitude(false, p)),
            None => None,
        }
    }

    /// Returns the integer square root.
    pub fn isqrt(self) -> (r: Su16)
        ensures
            r@ * r@ <= self@ < (r@ + 1) * (r@ + 1),
    {
        let s = isqrt_magnitude(self.0 as u128);
        proof {
            lemma_isqrt_bound(s as int, self@);
        }
        Self::from_magnitude(false, s)
    }

    /// Converts to the same-width signed wrapper, saturating values above its `MAX`.
    pub fn to_signed(self) -> (r: Si16)
        ensures
            r@ == (if self@ > i16::MAX {
                i16::MAX as int
            } else {
                self@
            }),
    {
        Si16::from_magnitude(false, self.0 as u128)
    }

}

/// Creates a [`Su16`] from an inner [`u16`] value.
pub fn su16(value: u16) -> (r: Su16)
    ensures
        r@ == value,
{
    Su16::new(value)
}

impl Default for Su16 {
    fn default() -> (r: Su16)
        ensures
            r@ == 0,
    {
        Su16(0)
    }
}

impl From<u16> for Su16 {
    fn from(value: u16) -> (r: Su16)
        ensures
            r@ == value,
    {
        Su16(value)
    }
}

impl FromSpecImpl<u16> for Su16 {
    open spec fn obeys_from_spec() -> bool {
        true
    }

    open spec fn from_spec(v: u16) -> Su16 {
        Su16::new(v)
    }
}

impl From<Su16> for u16 {
    fn from(value: Su16) -> (r: u16)
        ensures
            r == value@,
    {
        value.0
    }
}

impl FromSpecImpl<Su16> for u16 {
    open spec fn obeys_from_spec() -> bool {
        true
    }

    open spec fn from_spec(v: Su16) -> u16 {
        v.into_inner()
    }
}

impl PartialEq<u16> for Su16 {
    fn eq(&self, other: &u16) -> (r: bool) {
        self.0 == *other
    }
}

impl PartialEqSpecImpl<u16> for Su16 {
    open spec fn obeys_eq_spec() -> bool {
        true
    }

    open spec fn eq_spec(&self, other: &u16) -> bool {
        self.into_inner() == *other
    }
}

impl PartialEq<Su16> for u16 {
    fn eq(&self, other: &Su16) -> (r: bool) {
        *self == other.0
    }
}

impl PartialEqSpecImpl<Su16> for u16 {
    open spec fn obeys_eq_spec() -> bool {
        true
    }

    open spec fn eq_spec(&self, other: &Su16) -> bool {
        *self == other.into_inner()
    }
}

impl PartialOrd<u16> for Su16 {
    fn partial_cmp(&self, other: &u16) -> (r: Option<Ordering>) {
        if self.0 < *other {
            Some(Ordering::Less)
        } else if self.0 > *other {
            Some(Ordering::Greater)
        } else {
            Some(Ordering::Equal)
        }
    }
}

impl PartialOrdSpecImpl<u16> for Su16 {
    open spec fn obeys_partial_cmp_spec() -> bool {
        true
    }

    open spec fn partial_cmp_spec(&self, other: &u16) -> Option<Ordering> {
        if self.into_inner() < *other {
            Some(Ordering::Less)
        } else if self.into_inner() > *other {
            Some(Ordering::Greater)
        } else {
            Some(Ordering::Equal)
        }
    }
}

impl PartialOrd<Su16> for u16 {
    fn partial_cmp(&self, other: &Su16) -> (r: Option<Ordering>) {
        if *self < other.0 {
            Some(Ordering::Less)
        } else if *self > other.0 {
            Some(Ordering::Greater)
        } else {
            Some(Ordering::Equal)
        }
    }
}

impl PartialOrdSpecImpl<Su16> for u16 {
    open spec fn obeys_partial_cmp_spec() -> bool {
        true
    }

    open spec fn partial_cmp_spec(&self, other: &Su16) -> Option<Ordering> {
        if *self < other.into_inner() {
            Some(Ordering::Less)
        } else if *self > other.into_inner() {
            Some(Ordering::Greater)
        } else {
            Some(Ordering::Equal)
        }
    }
}

impl BitAnd<Su16> for Su16 {
    type Output = Su16;

    fn bitand(self, rhs: Su16) -> (r: Su16)
        ensures
            r.into_inner() == self.into_inner() & rhs.into_inner(),
    {
        Su16(self.0 & rhs.0)
    }
}

impl BitAndSpecImpl<Su16> for Su16 {
    open spec fn obeys_bitand_spec() -> bool {
        true
    }

    open spec fn bitand_req(self, rhs: Su16) -> bool {
        true
    }

    open spec fn bitand_spec(self, rhs: Su16) -> Su16 {
        Su16::new(self.into_inner() & rhs.into_inner())
    }
}

impl BitAndAssign<Su16> for Su16 {
    fn bitand_assign(&mut self, rhs: Su16)
        ensures
            final(self).into_inner() == old(self).into_inner() & rhs.into_inner(),
    {
        *self = Su16(self.0 & rhs.0);
    }
}

impl BitAnd<u16> for Su16 {
    type Output = Su16;

    fn bitand(self, rhs: u16) -> (r: Su16)
        ensures
            r.into_inner() == self.into_inner() & rhs,
    {
        Su16(self.0 & rhs)
    }
}

impl BitAndSpecImpl<u16> for Su16 {
    open spec fn obeys_bitand_spec() -> bool {
        true
    }

    open spec fn bitand_req(self, rhs: u16) -> bool {
        true
    }

    open spec fn bitand_spec(self, rhs: u16) -> Su16 {
        Su16::new(self.into_inner() & rhs)
    }
}

impl BitAndAssign<u16> for Su16 {
    fn bitand_assign(&mut self, rhs: u16)
        ensures
            final(self).into_inner() == old(self).into_inner() & rhs,
    {
        *self = Su16(self.0 & rhs);
    }
}

impl BitOr<Su16> for Su16 {
    type Output = Su16;

    fn bitor(self, rhs: Su16) -> (r: Su16)
        ensures
            r.into_inner() == self.into_inner() | rhs.into_inner(),
    {
        Su16(self.0 | rhs.0)
    }
}

impl BitOrSpecImpl<Su16> for Su16 {
    open spec fn obeys_bitor_spec() -> bool {
        true
    }

    open spec fn bitor_req(self, rhs: Su16) -> bool {
        true
    }

    open spec fn bitor_spec(self, rhs: Su16) -> Su16 {
        Su16::new(self.into_inner() | rhs.into_inner())
    }
}

impl BitOrAssign<Su16> for Su16 {
    fn bitor_assign(&mut self, rhs: Su16)
        ensures
            final(self).into_inner() == old(self).into_inner() | rhs.into_inner(),
    {
        *self = Su16(self.0 | rhs.0);
    }
}

impl BitOr<u16> for Su16 {
    type Output = Su16;

    fn bitor(self, rhs: u16) -> (r: Su16)
        ensures
            r.into_inner() == self.into_inner() | rhs,
    {
        Su16(self.0 | rhs)
    }
}

impl BitOrSpecImpl<u16> for Su16 {
    open spec fn obeys_bitor_spec() -> bool {
        true
    }

    open spec fn bitor_req(self, rhs: u16) -> bool {
        true
    }

    open spec fn bitor_spec(self, rhs: u16) -> Su16 {
        Su16::new(self.into_inner() | rhs)
    }
}

impl BitOrAssign<u16> for Su16 {
    fn bitor_assign(&mut self, rhs: u16)
        ensures
            final(self).into_inner() == old(self).into_inner() | rhs,
    {
        *self = Su16(self.0 | rhs);
    }
}

impl BitXor<Su16> for Su16 {
    type Output = Su16;

    fn bitxor(self, rhs: Su16) -> (r: Su16)
        ensures
            r.into_inner() == self.into_inner() ^ rhs.into_inner(),
    {
        Su16(self.0 ^ rhs.0)
    }
}

impl BitXorSpecImpl<Su16> for Su16 {
    open spec fn obeys_bitxor_spec() -> bool {
        true
    }

    open spec fn bitxor_req(self, rhs: Su16) -> bool {
        true
    }

    open spec fn bitxor_spec(self, rhs: Su16) -> Su16 {
        Su16::new(self.into_inner() ^ rhs.into_inner())
    }
}

impl BitXorAssign<Su16> for Su16 {
    fn bitxor_assign(&mut self, rhs: Su16)
        ensures
            final(self).into_inner() == old(self).into_inner() ^ rhs.into_inner(),
    {
        *self = Su16(self.0 ^ rhs.0);
    }
}

impl BitXor<u16> for Su16 {
    type Output = Su16;

    fn bitxor(self, rhs: u16) -> (r: Su16)
        ensures
            r.into_inner() == self.into_inner() ^ rhs,
    {
        Su16(self.0 ^ rhs)
    }
}

impl BitXorSpecImpl<u16> for Su16 {
    open spec fn obeys_bitxor_spec() -> bool {
        true
    }

    open spec fn bitxor_req(self, rhs: u16) -> bool {
        true
    }

    open spec fn bitxor_spec(self, rhs: u16) -> Su16 {
        Su16::new(self.into_inner() ^ rhs)
    }
}

impl BitXorAssign<u16> for Su16 {
    fn bitxor_assign(&mut self, rhs: u16)
        ensures
            final(self).into_inner() == old(self).into_inner() ^ rhs,
    {
        *self = Su16(self.0 ^ rhs);
    }
}

impl Not for Su16 {
    type Output = Su16;

    fn not(self) -> (r: Su16)
        ensures
            r.into_inner() == !self.into_inner(),
    {
        Su16(!self.0)
    }
}

impl NotSpecImpl for Su16 {
    open spec fn obeys_not_spec() -> bool {
        true
    }

    open spec fn not_req(self) -> bool {
        true
    }

    open spec fn not_spec(self) -> Su16 {
        Su16::new(!self.into_inner())
    }
}

/// A saturating wrapper around [`u32`]: its arithmetic clamps to the range of
/// [`u32`] instead of overflowing.
#[derive(Clone, Copy, Debug, PartialEq, Eq, Structural, PartialOrd, Ord, Hash)]
pub struct Su32(u32);

impl View for Su32 {
    type V = int;

    closed spec fn view(&self) -> int {
        self.0 as int
    }
}

/// The inner value of a [`Su32`] is its view.
pub broadcast proof fn lemma_su32_inner(x: Su32)
    ensures
        #[trigger] x.into_inner() as int == x@,
{
}

/// A [`Su32`] is made of the value it was made from.
pub broadcast proof fn lemma_su32_new(v: u32)
    ensures
        #[trigger] Su32::new(v)@ == v as int,
{
}

impl Sealed for Su32 {
}

impl Integer for Su32 {
    open spec fn value(self) -> int {
        self@
    }

    open spec fn lower() -> int {
        u32::MIN as int
    }

    open spec fn upper() -> int {
        u32::MAX as int
    }

    open spec fn width() -> nat {
        32
    }

    open spec fn is_signed() -> bool {
        false
    }

    open spec fn of_value(v: int) -> Su32 {
        Su32::new(v as u32)
    }

    proof fn lemma_value(self) {
    }

    proof fn lemma_of_value(v: int) {
    }

    proof fn lemma_layout() {
        u32::lemma_layout();
    }

    fn bits() -> (r: u32) {
        u32::bits()
    }

    fn signed_type() -> (r: bool) {
        u32::signed_type()
    }

    fn magnitude(self) -> (r: (bool, u128)) {
        self.0.magnitude()
    }

    fn from_magnitude(negative: bool, magnitude: u128) -> (r: Su32) {
        Su32(u32::from_magnitude(negative, magnitude))
    }
}

impl UnsignedInteger for Su32 {
    proof fn lemma_nonnegative() {
    }
}

impl Su32 {
    /// The size of this scalar type in bits.
    pub const BITS: u32 = 32;

    /// The minimum representable value for this scalar type.
    #[allow(non_snake_case)]
    pub fn MIN() -> (r: Su32)
        ensures
            r@ == u32::MIN,
    {
        Su32(u32::MIN)
    }

    /// The maximum representable value for this scalar type.
    #[allow(non_snake_case)]
    pub fn MAX() -> (r: Su32)
        ensures
            r@ == u32::MAX,
    {
        Su32(u32::MAX)
    }

    /// The additive identity value.
    #[allow(non_snake_case)]
    pub fn ZERO() -> (r: Su32)
        ensures
            r@ == 0,
    {
        Su32(0)
    }

    /// The multiplicative identity value.
    #[allow(non_snake_case)]
    pub fn ONE() -> (r: Su32)
        ensures
            r@ == 1,
    {
        Su32(1)
    }

    /// The wrapper that holds `value`.
    pub closed spec fn spec_new(value: u32) -> Su32 {
        Su32(value)
    }

    /// Creates a new [`Su32`] from an inner [`u32`] value.
    #[verifier::when_used_as_spec(spec_new)]
    pub fn new(value: u32) -> (r: Su32)
        ensures
            r == Su32::spec_new(value),
            r@ == value,
    {
        Su32(value)
    }

    /// The wrapped value.
    pub closed spec fn spec_into_inner(self) -> u32 {
        self.0
    }

    /// Returns the wrapped [`u32`] value.
    #[verifier::when_used_as_spec(spec_into_inner)]
    pub fn into_inner(self) -> (r: u32)
        ensures
            r == self.spec_into_inner(),
            r == self@,
    {
        self.0
    }

    /// Returns the number of ones in the binary representation.
    pub fn count_ones(self) -> (r: u32)
        ensures
            r == popcount(pattern_of(self@, 32), 32),
    {
        count_ones_pattern(to_pattern(self), Self::bits())
    }

    /// Returns the number of zeros in the binary representation.
    pub fn count_zeros(self) -> (r: u32)
        ensures
            r == 32 - popcount(pattern_of(self@, 32), 32),
    {
        proof {
            lemma_popcount_bound(pattern_of(self@, 32), 32);
        }
        Self::bits() - count_ones_pattern(to_pattern(self), Self::bits())
    }

    /// Returns the number of leading zeros in the binary representation.
    pub fn leading_zeros(self) -> (r: u32)
        ensures
            r == 32 - bit_length(pattern_of(self@, 32)),
    {
        let p = to_pattern(self);
        proof {
            lemma_bit_length_bound(p as nat, 32);
        }
        Self::bits() - bit_length_pattern(p)
    }

    /// Returns the number of leading ones in the binary representation.
    pub fn leading_ones(self) -> (r: u32)
        ensures
            r == 32 - bit_length(complement(pattern_of(self@, 32), 32)),
    {
        let p = to_pattern(self);
        proof {
            Self::lemma_layout();
            lemma_complement_bound(p as nat, 32);
            lemma_bit_length_bound(complement(p as nat, 32), 32);
        }
        Self::bits() - bit_length_pattern(low_mask(Self::bits()) - p)
    }

    /// Returns the number of trailing zeros in the binary representation.
    pub fn trailing_zeros(self) -> (r: u32)
        ensures
            r == trailing_zero_count(pattern_of(self@, 32), 32),
    {
        trailing_zeros_pattern(to_pattern(self), Self::bits())
    }

    /// Returns the number of trailing ones in the binary representation.
    pub fn trailing_ones(self) -> (r: u32)
        ensures
            r == trailing_zero_count(complement(pattern_of(self@, 32), 32), 32),
    {
        let p = to_pattern(self);
        proof {
            Self::lemma_layout();
        }
        trailing_zeros_pattern(low_mask(Self::bits()) - p, Self::bits())
    }

    /// Reverses the order of bits.
    pub fn reverse_bits(self) -> (r: Su32)
        ensures
            r@ == value_of_pattern(reversed_bits(pattern_of(self@, 32), 32), 32, false),
    {
        proof {
            Self::lemma_layout();
        }
        from_pattern(reverse_bits_pattern(to_pattern(self), Self::bits()))
    }

    /// Shifts bits to the left by `n`, wrapping the truncated bits to the end of the result.
    pub fn rotate_left(self, n: u32) -> (r: Su32)
        ensures
            r@ == value_of_pattern(rotated_left(pattern_of(self@, 32), n as nat, 32), 32, false),
    {
        proof {
            Self::lemma_layout();
        }
        from_pattern(rotate_left_pattern(to_pattern(self), n, Self::bits()))
    }

    /// Shifts bits to the right by `n`, wrapping the truncated bits to the beginning of the result.
    pub fn rotate_right(self, n: u32) -> (r: Su32)
        ensures
            r@ == value_of_pattern(rotated_right(pattern_of(self@, 32), n as nat, 32), 32, false),
    {
        proof {
            Self::lemma_layout();
        }
        from_pattern(rotate_right_pattern(to_pattern(self), n, Self::bits()))
    }

    /// Reverses the byte order.
    pub fn swap_bytes(self) -> (r: Su32)
        ensures
            r@ == value_of_pattern(reversed_bytes(pattern_of(self@, 32), 4), 32, false),
    {
        proof {
            Self::lemma_layout();
        }
        from_pattern(swap_bytes_pattern(to_pattern(self), Self::bits() / 8))
    }


    /// Converts from big-endian to the byte order that `little_endian` names: for
    /// little-endian this reverses the bytes, for big-endian it changes nothing.
    pub fn from_be_for(value: Su32, little_endian: bool) -> (r: Su32)
        ensures
            little_endian ==> r@ == value_of_pattern(reversed_bytes(pattern_of(value@, 32), 4), 32, false),
            !little_endian ==> r == value,
    {
        if little_endian {
            value.swap_bytes()
        } else {
            value
        }
    }

    /// Converts from little-endian to the byte order that `little_endian` names: for
    /// big-endian this reverses the bytes, for little-endian it changes nothing.
    pub fn from_le_for(value: Su32, little_endian: bool) -> (r: Su32)
        ensures
            little_endian ==> r == value,
            !little_endian ==> r@ == value_of_pattern(reversed_bytes(pattern_of(value@, 32), 4), 32, false),
    {
        if little_endian {
            value
        } else {
            value.swap_bytes()
        }
    }

    /// Converts from big-endian to the target's native endian: on a little-endian
    /// target this reverses the bytes, on a big-endian one it changes nothing (see
    /// [`Su32::from_be_for`]). Which of the two the target is, is a property of the machine.
    pub fn from_be(value: Su32) -> (r: Su32)
        ensures
            r == value || r@ == value_of_pattern(reversed_bytes(pattern_of(value@, 32), 4), 32, false),
            native_little_endian() ==> r@ == value_of_pattern(reversed_bytes(pattern_of(value@, 32), 4), 32, false),
            !native_little_endian() ==> r == value,
    {
        Su32::from_be_for(value, target_is_little_endian())
    }

    /// Converts from little-endian to the target's native endian: on a big-endian
    /// target this reverses the bytes, on a little-endian one it changes nothing (see
    /// [`Su32::from_le_for`]).
    pub fn from_le(value: Su32) -> (r: Su32)
        ensures
            r == value || r@ == value_of_pattern(reversed_bytes(pattern_of(value@, 32), 4), 32, false),
            native_little_endian() ==> r == value,
            !native_little_endian() ==> r@ == value_of_pattern(reversed_bytes(pattern_of(value@, 32), 4), 32, false),
    {
        Su32::from_le_for(value, target_is_little_endian())
    }

    /// Converts `self` to big-endian from the target's native endian.
    pub fn to_be(self) -> (r: Su32)
        ensures
            r == self || r@ == value_of_pattern(reversed_bytes(pattern_of(self@, 32), 4), 32, false),
            native_little_endian() ==> r@ == value_of_pattern(reversed_bytes(pattern_of(self@, 32), 4), 32, false),
            !native_little_endian() ==> r == self,
    {
        Su32::from_be(self)
    }

    /// Converts `self` to little-endian from the target's native endian.
    pub fn to_le(self) -> (r: Su32)
        ensures
            r == self || r@ == value_of_pattern(reversed_bytes(pattern_of(self@, 32), 4), 32, false),
            native_little_endian() ==> r == self,
            !native_little_endian() ==> r@ == value_of_pattern(reversed_bytes(pattern_of(self@, 32), 4), 32, false),
    {
        Su32::from_le(self)
    }

    /// Returns the memory representation as a byte array in big-endian order.
    pub fn to_be_bytes(self) -> (r: [u8; 4])
        ensures
            r@ == be_bytes(pattern_of(self@, 32), 4),
    {
        let v = le_bytes_pattern(to_pattern(self), 4);
        proof {
            lemma_le_bytes_len(pattern_of(self@, 32), 4);
        }
        let r = [v[3], v[2], v[1], v[0]];
        proof {
            assert(r@ =~= be_bytes(pattern_of(self@, 32), 4));
        }
        r
    }

    /// Returns the memory representation as a byte array in little-endian order.
    pub fn to_le_bytes(self) -> (r: [u8; 4])
        ensures
            r@ == le_bytes(pattern_of(self@, 32), 4),
    {
        let v = le_bytes_pattern(to_pattern(self), 4);
        proof {
            lemma_le_bytes_len(pattern_of(self@, 32), 4);
        }
        let r = [v[0], v[1], v[2], v[3]];
        proof {
            assert(r@ =~= le_bytes(pattern_of(self@, 32), 4));
        }
        r
    }

    /// Returns the memory representation as a byte array in the byte order that
    /// `little_endian` names.
    pub fn to_ne_bytes_for(self, little_endian: bool) -> (r: [u8; 4])
        ensures
            little_endian ==> r@ == le_bytes(pattern_of(self@, 32), 4),
            !little_endian ==> r@ == be_bytes(pattern_of(self@, 32), 4),
    {
        if little_endian {
            self.to_le_bytes()
        } else {
            self.to_be_bytes()
        }
    }

    /// Returns the memory representation as a byte array in native-endian order
    /// (see [`Su32::to_ne_bytes_for`]).
    pub fn to_ne_bytes(self) -> (r: [u8; 4])
        ensures
            r@ == le_bytes(pattern_of(self@, 32), 4) || r@ == be_bytes(pattern_of(self@, 32), 4),
            native_little_endian() ==> r@ == le_bytes(pattern_of(self@, 32), 4),
            !native_little_endian() ==> r@ == be_bytes(pattern_of(self@, 32), 4),
    {
        self.to_ne_bytes_for(target_is_little_endian())
    }

    /// Creates a scalar from a byte array in big-endian order.
    pub fn from_be_bytes(bytes: [u8; 4]) -> (r: Su32)
        ensures
            r@ == value_of_pattern(be_value(bytes@), 32, false),
    {
        let le = [bytes[3], bytes[2], bytes[1], bytes[0]];
        proof {
            assert(le@ =~= bytes@.reverse());
        }
        let p = le_value_of_bytes(le.as_slice());
        from_pattern(p)
    }

    /// Creates a scalar from a byte array in little-endian order.
    pub fn from_le_bytes(bytes: [u8; 4]) -> (r: Su32)
        ensures
            r@ == value_of_pattern(le_value(bytes@), 32, false),
    {
        let p = le_value_of_bytes(bytes.as_slice());
        from_pattern(p)
    }

    /// Creates a scalar from a byte array in the byte order that `little_endian` names.
    pub fn from_ne_bytes_for(bytes: [u8; 4], little_endian: bool) -> (r: Su32)
        ensures
            little_endian ==> r@ == value_of_pattern(le_value(bytes@), 32, false),
            !little_endian ==> r@ == value_of_pattern(be_value(bytes@), 32, false),
    {
        if little_endian {
            Su32::from_le_bytes(bytes)
        } else {
            Su32::from_be_bytes(bytes)
        }
    }

    /// Creates a scalar from a byte array in native-endian order (see
    /// [`Su32::from_ne_bytes_for`]).
    pub fn from_ne_bytes(bytes: [u8; 4]) -> (r: Su32)
        ensures
            r@ == value_of_pattern(le_value(bytes@), 32, false) || r@ == value_of_pattern(
                be_value(bytes@),
                32,
                false,
            ),
            native_little_endian() ==> r@ == value_of_pattern(le_value(bytes@), 32, false),
            !native_little_endian() ==> r@ == value_of_pattern(be_value(bytes@), 32, false),
    {
        Su32::from_ne_bytes_for(bytes, target_is_little_endian())
    }


    /// Divides two scalar values, returning `None` on division by zero.
    pub fn checked_div(self, rhs: Su32) -> (r: Option<Su32>)
        ensures
            r is None <==> rhs@ == 0,
            r matches Some(q) ==> q@ == self@ / rhs@,
    {
        if rhs.0 == 0 {
            None
        } else {
            Some(Su32(self.0 / rhs.0))
        }
    }

    /// Calculates Euclidean division, returning `None` on division by zero.
    pub fn checked_div_euclid(self, rhs: Su32) -> (r: Option<Su32>)
        ensures
            r is None <==> rhs@ == 0,
            r matches Some(q) ==> q@ == self@ / rhs@,
    {
        self.checked_div(rhs)
    }

    /// Calculates the remainder of two scalar values, returning `None` on division by zero.
    pub fn checked_rem(self, rhs: Su32) -> (r: Option<Su32>)
        ensures
            r is None <==> rhs@ == 0,
            r matches Some(x) ==> x@ == self@ % rhs@,
    {
        if rhs.0 == 0 {
            None
        } else {
            Some(Su32(self.0 % rhs.0))
        }
    }

    /// Calculates the least nonnegative remainder, returning `None` on division by zero.
    pub fn checked_rem_euclid(self, rhs: Su32) -> (r: Option<Su32>)
        ensures
            r is None <==> rhs@ == 0,
            r matches Some(x) ==> x@ == self@ % rhs@,
    {
        self.checked_rem(rhs)
    }


    /// Raises `self` to the power of `exp`, saturating at numeric bounds.
    pub fn pow(self, exp: u32) -> (r: Su32)
        ensures
            r@ == clamp(pow(self@, exp as nat), u32::MIN as int, u32::MAX as int),
    {
        let (negative, a) = self.magnitude();
        let (n, m) = pow_magnitudes(negative, a, exp);
        proof {
            lemma_represents_clamp(n, m, pow(self@, exp as nat), u32::MIN as int, u32::MAX as int);
        }
        Self::from_magnitude(n, m)
    }

    /// Returns the base-`base` logarithm, or `None` if the logarithm is undefined.
    pub fn checked_ilog(self, base: u32) -> (r: Option<u32>)
        ensures
            r is None <==> self@ <= 0 || base < 2,
            r matches Some(k) ==> pow(base as int, k as nat) <= self@ < pow(base as int, (k + 1) as nat),
    {
        if self.0 <= 0 || base < 2 {
            None
        } else {
            Some(ilog_magnitude(self.0 as u128, base as u128))
        }
    }

    /// Returns the base-2 logarithm, or `None` if the logarithm is undefined.
    pub fn checked_ilog2(self) -> (r: Option<u32>)
        ensures
            r is None <==> self@ <= 0,
            r matches Some(k) ==> pow(2, k as nat) <= self@ < pow(2, (k + 1) as nat),
    {
        self.checked_ilog(2)
    }

    /// Returns the base-10 logarithm, or `None` if the logarithm is undefined.
    pub fn checked_ilog10(self) -> (r: Option<u32>)
        ensures
            r is None <==> self@ <= 0,
            r matches Some(k) ==> pow(10, k as nat) <= self@ < pow(10, (k + 1) as nat),
    {
        self.checked_ilog(10)
    }

    /// Returns `true` if `self` is the minimum representable value.
    pub fn is_min(self) -> (r: bool)
        ensures
            r == (self@ == u32::MIN),
    {
        self.0 == u32::MIN
    }

    /// Returns `true` if `self` is the maximum representable value.
    pub fn is_max(self) -> (r: bool)
        ensures
            r == (self@ == u32::MAX),
    {
        self.0 == u32::MAX
    }

    /// Returns `true` if `self` is zero.
    pub fn is_zero(self) -> (r: bool)
        ensures
            r == (self@ == 0),
    {
        self.0 == 0
    }

    /// Returns `true` if `self` is one.
    pub fn is_one(self) -> (r: bool)
        ensures
            r == (self@ == 1),
    {
        self.0 == 1
    }


    /// Computes the absolute difference between `self` and `rhs`.
    pub fn abs_diff(self, rhs: Su32) -> (r: Su32)
        ensures
            r@ == abs_int(self@ - rhs@),
    {
        if self.0 >= rhs.0 {
            Su32(self.0 - rhs.0)
        } else {
            Su32(rhs.0 - self.0)
        }
    }

    /// Returns `true` if `self` is a power of two.
    pub fn is_power_of_two(self) -> (r: bool)
        ensures
            r == is_power_of_two(self@ as nat),
    {
        is_power_of_two_magnitude(self.0 as u128)
    }

    /// Returns the smallest power of two greater than or equal to `self`,
    /// saturating at `MAX` if the primitive operation would overflow.
    pub fn next_power_of_two(self) -> (r: Su32)
        ensures
            r@ == (if next_power_of_two(self@ as nat) <= u32::MAX {
                next_power_of_two(self@ as nat) as int
            } else {
                u32::MAX as int
            }),
    {
        match self.checked_next_power_of_two() {
            Some(v) => v,
            None => Self::MAX(),
        }
    }

    /// Returns the smallest power of two greater than or equal to `self`,
    /// or `None` if the primitive operation would overflow.
    pub fn checked_next_power_of_two(self) -> (r: Option<Su32>)
        ensures
            r is None <==> next_power_of_two(self@ as nat) > u32::MAX,
            r matches Some(x) ==> x@ == next_power_of_two(self@ as nat),
    {
        match next_power_of_two_magnitude(self.0 as u128, u32::MAX as u128) {
            Some(p) => Some(Self::from_magnitude(false, p)),
            None => None,
        }
    }

    /// Returns the integer square root.
    pub fn isqrt(self) -> (r: Su32)
        ensures
            r@ * r@ <= self@ < (r@ + 1) * (r@ + 1),
    {
        let s = isqrt_magnitude(self.0 as u128);
        proof {
            lemma_isqrt_bound(s as int, self@);
        }
        Self::from_magnitude(false, s)
    }

    /// Converts to the same-width signed wrapper, saturating values above its `MAX`.
    pub fn to_signed(self) -> (r: Si32)
        ensures
            r@ == (if self@ > i32::MAX {
                i32::MAX as int
            } else {
                self@
            }),
    {
        Si32::from_magnitude(false, self.0 as u128)
    }

}

/// Creates a [`Su32`] from an inner [`u32`] value.
pub fn su32(value: u32) -> (r: Su32)
    ensures
        r@ == value,
{
    Su32::new(value)
}

impl Default for Su32 {
    fn default() -> (r: Su32)
        ensures
            r@ == 0,
    {
        Su32(0)
    }
}

impl From<u32> for Su32 {
    fn from(value: u32) -> (r: Su32)
        ensures
            r@ == value,
    {
        Su32(value)
    }
}

impl FromSpecImpl<u32> for Su32 {
    open spec fn obeys_from_spec() -> bool {
        true
    }

    open spec fn from_spec(v: u32) -> Su32 {
        Su32::new(v)
    }
}

impl From<Su32> for u32 {
    fn from(value: Su32) -> (r: u32)
        ensures
            r == value@,
    {
        value.0
    }
}

impl FromSpecImpl<Su32> for u32 {
    open spec fn obeys_from_spec() -> bool {
        true
    }

    open spec fn from_spec(v: Su32) -> u32 {
        v.into_inner()
    }
}

impl PartialEq<u32> for Su32 {
    fn eq(&self, other: &u32) -> (r: bool) {
        self.0 == *other
    }
}

impl PartialEqSpecImpl<u32> for Su32 {
    open spec fn obeys_eq_spec() -> bool {
        true
    }

    open spec fn eq_spec(&self, other: &u32) -> bool {
        self.into_inner() == *other
    }
}

impl PartialEq<Su32> for u32 {
    fn eq(&self, other: &Su32) -> (r: bool) {
        *self == other.0
    }
}

impl PartialEqSpecImpl<Su32> for u32 {
    open spec fn obeys_eq_spec() -> bool {
        true
    }

    open spec fn eq_spec(&self, other: &Su32) -> bool {
        *self == other.into_inner()
    }
}

impl PartialOrd<u32> for Su32 {
    fn partial_cmp(&self, other: &u32) -> (r: Option<Ordering>) {
        if self.0 < *other {
            Some(Ordering::Less)
        } else if self.0 > *other {
            Some(Ordering::Greater)
        } else {
            Some(Ordering::Equal)
        }
    }
}

impl PartialOrdSpecImpl<u32> for Su32 {
    open spec fn obeys_partial_cmp_spec() -> bool {
        true
    }

    open spec fn partial_cmp_spec(&self, other: &u32) -> Option<Ordering> {
        if self.into_inner() < *other {
            Some(Ordering::Less)
        } else if self.into_inner() > *other {
            Some(Ordering::Greater)
        } else {
            Some(Ordering::Equal)
        }
    }
}

impl PartialOrd<Su32> for u32 {
    fn partial_cmp(&self, other: &Su32) -> (r: Option<Ordering>) {
        if *self < other.0 {
            Some(Ordering::Less)
        } else if *self > other.0 {
            Some(Ordering::Greater)
        } else {
            Some(Ordering::Equal)
        }
    }
}

impl PartialOrdSpecImpl<Su32> for u32 {
    open spec fn obeys_partial_cmp_spec() -> bool {
        true
    }

    open spec fn partial_cmp_spec(&self, other: &Su32) -> Option<Ordering> {
        if *self < other.into_inner() {
            Some(Ordering::Less)
        } else if *self > other.into_inner() {
            Some(Ordering::Greater)
        } else {
            Some(Ordering::Equal)
        }
    }
}

impl BitAnd<Su32> for Su32 {
    type Output = Su32;

    fn bitand(self, rhs: Su32) -> (r: Su32)
        ensures
            r.into_inner() == self.into_inner() & rhs.into_inner(),
    {
        Su32(self.0 & rhs.0)
    }
}

impl BitAndSpecImpl<Su32> for Su32 {
    open spec fn obeys_bitand_spec() -> bool {
        true
    }

    open spec fn bitand_req(self, rhs: Su32) -> bool {
        true
    }

    open spec fn bitand_spec(self, rhs: Su32) -> Su32 {
        Su32::new(self.into_inner() & rhs.into_inner())
    }
}

impl BitAndAssign<Su32> for Su32 {
    fn bitand_assign(&mut self, rhs: Su32)
        ensures
            final(self).into_inner() == old(self).into_inner() & rhs.into_inner(),
    {
        *self = Su32(self.0 & rhs.0);
    }
}

impl BitAnd<u32> for Su32 {
    type Output = Su32;

    fn bitand(self, rhs: u32) -> (r: Su32)
        ensures
            r.into_inner() == self.into_inner() & rhs,
    {
        Su32(self.0 & rhs)
    }
}

impl BitAndSpecImpl<u32> for Su32 {
    open spec fn obeys_bitand_spec() -> bool {
        true
    }

    open spec fn bitand_req(self, rhs: u32) -> bool {
        true
    }

    open spec fn bitand_spec(self, rhs: u32) -> Su32 {
        Su32::new(self.into_inner() & rhs)
    }
}

impl BitAndAssign<u32> for Su32 {
    fn bitand_assign(&mut self, rhs: u32)
        ensures
            final(self).into_inner() == old(self).into_inner() & rhs,
    {
        *self = Su32(self.0 & rhs);
    }
}

impl BitOr<Su32> for Su32 {
    type Output = Su32;

    fn bitor(self, rhs: Su32) -> (r: Su32)
        ensures
            r.into_inner() == self.into_inner() | rhs.into_inner(),
    {
        Su32(self.0 | rhs.0)
    }
}

impl BitOrSpecImpl<Su32> for Su32 {
    open spec fn obeys_bitor_spec() -> bool {
        true
    }

    open spec fn bitor_req(self, rhs: Su32) -> bool {
        true
    }

    open spec fn bitor_spec(self, rhs: Su32) -> Su32 {
        Su32::new(self.into_inner() | rhs.into_inner())
    }
}

impl BitOrAssign<Su32> for Su32 {
    fn bitor_assign(&mut self, rhs: Su32)
        ensures
            final(self).into_inner() == old(self).into_inner() | rhs.into_inner(),
    {
        *self = Su32(self.0 | rhs.0);
    }
}

impl BitOr<u32> for Su32 {
    type Output = Su32;

    fn bitor(self, rhs: u32) -> (r: Su32)
        ensures
            r.into_inner() == self.into_inner() | rhs,
    {
        Su32(self.0 | rhs)
    }
}

impl BitOrSpecImpl<u32> for Su32 {
    open spec fn obeys_bitor_spec() -> bool {
        true
    }

    open spec fn bitor_req(self, rhs: u32) -> bool {
        true
    }

    open spec fn bitor_spec(self, rhs: u32) -> Su32 {
        Su32::new(self.into_inner() | rhs)
    }
}

impl BitOrAssign<u32> for Su32 {
    fn bitor_assign(&mut self, rhs: u32)
        ensures
            final(self).into_inner() == old(self).into_inner() | rhs,
    {
        *self = Su32(self.0 | rhs);
    }
}

impl BitXor<Su32> for Su32 {
    type Output = Su32;

    fn bitxor(self, rhs: Su32) -> (r: Su32)
        ensures
            r.into_inner() == self.into_inner() ^ rhs.into_inner(),
    {
        Su32(self.0 ^ rhs.0)
    }
}

impl BitXorSpecImpl<Su32> for Su32 {
    open spec fn obeys_bitxor_spec() -> bool {
        true
    }

    open spec fn bitxor_req(self, rhs: Su32) -> bool {
        true
    }

    open spec fn bitxor_spec(self, rhs: Su32) -> Su32 {
        Su32::new(self.into_inner() ^ rhs.into_inner())
    }
}

impl BitXorAssign<Su32> for Su32 {
    fn bitxor_assign(&mut self, rhs: Su32)
        ensures
            final(self).into_inner() == old(self).into_inner() ^ rhs.into_inner(),
    {
        *self = Su32(self.0 ^ rhs.0);
    }
}

impl BitXor<u32> for Su32 {
    type Output = Su32;

    fn bitxor(self, rhs: u32) -> (r: Su32)
        ensures
            r.into_inner() == self.into_inner() ^ rhs,
    {
        Su32(self.0 ^ rhs)
    }
}

impl BitXorSpecImpl<u32> for Su32 {
    open spec fn obeys_bitxor_spec() -> bool {
        true
    }

    open spec fn bitxor_req(self, rhs: u32) -> bool {
        true
    }

    open spec fn bitxor_spec(self, rhs: u32) -> Su32 {
        Su32::new(self.into_inner() ^ rhs)
    }
}

impl BitXorAssign<u32> for Su32 {
    fn bitxor_assign(&mut self, rhs: u32)
        ensures
            final(self).into_inner() == old(self).into_inner() ^ rhs,
    {
        *self = Su32(self.0 ^ rhs);
    }
}

impl Not for Su32 {
    type Output = Su32;

    fn not(self) -> (r: Su32)
        ensures
            r.into_inner() == !self.into_inner(),
    {
        Su32(!self.0)
    }
}

impl NotSpecImpl for Su32 {
    open spec fn obeys_not_spec() -> bool {
        true
    }

    open spec fn not_req(self) -> bool {
        true
    }

    open spec fn not_spec(self) -> Su32 {
        Su32::new(!self.into_inner())
    }
}

/// A saturating wrapper around [`u64`]: its arithmetic clamps to the range of
/// [`u64`] instead of overflowing.
#[derive(Clone, Copy, Debug, PartialEq, Eq, Structural, PartialOrd, Ord, Hash)]
pub struct Su64(u64);

impl View for Su64 {
    type V = int;

    closed spec fn view(&self) -> int {
        self.0 as int
    }
}

/// The inner value of a [`Su64`] is its view.
pub broadcast proof fn lemma_su64_inner(x: Su64)
    ensures
        #[trigger] x.into_inner() as int == x@,
{
}

/// A [`Su64`] is made of the value it was made from.
pub broadcast proof fn lemma_su64_new(v: u64)
    ensures
        #[trigger] Su64::new(v)@ == v as int,
{
}

impl Sealed for Su64 {
}

impl Integer for Su64 {
    open spec fn value(self) -> int {
        self@
    }

    open spec fn lower() -> int {
        u64::MIN as int
    }

    open spec fn upper() -> int {
        u64::MAX as int
    }

    open spec fn width() -> nat {
        64
    }

    open spec fn is_signed() -> bool {
        false
    }

    open spec fn of_value(v: int) -> Su64 {
        Su64::new(v as u64)
    }

    proof fn lemma_value(self) {
    }

    proof fn lemma_of_value(v: int) {
    }

    proof fn lemma_layout() {
        u64::lemma_layout();
    }

    fn bits() -> (r: u32) {
        u64::bits()
    }

    fn signed_type() -> (r: bool) {
        u64::signed_type()
    }

    fn magnitude(self) -> (r: (bool, u128)) {
        self.0.magnitude()
    }

    fn from_magnitude(negative: bool, magnitude: u128) -> (r: Su64) {
        Su64(u64::from_magnitude(negative, magnitude))
    }
}

impl UnsignedInteger for Su64 {
    proof fn lemma_nonnegative() {
    }
}

impl Su64 {
    /// The size of this scalar type in bits.
    pub const BITS: u32 = 64;

    /// The minimum representable value for this scalar type.
    #[allow(non_snake_case)]
    pub fn MIN() -> (r: Su64)
        ensures
            r@ == u64::MIN,
    {
        Su64(u64::MIN)
    }

    /// The maximum representable value for this scalar type.
    #[allow(non_snake_case)]
    pub fn MAX() -> (r: Su64)
        ensures
            r@ == u64::MAX,
    {
        Su64(u64::MAX)
    }

    /// The additive identity value.
    #[allow(non_snake_case)]
    pub fn ZERO() -> (r: Su64)
        ensures
            r@ == 0,
    {
        Su64(0)
    }

    /// The multiplicative identity value.
    #[allow(non_snake_case)]
    pub fn ONE() -> (r: Su64)
        ensures
            r@ == 1,
    {
        Su64(1)
    }

    /// The wrapper that holds `value`.
    pub closed spec fn spec_new(value: u64) -> Su64 {
        Su64(value)
    }

    /// Creates a new [`Su64`] from an inner [`u64`] value.
    #[verifier::when_used_as_spec(spec_new)]
    pub fn new(value: u64) -> (r: Su64)
        ensures
            r == Su64::spec_new(value),
            r@ == value,
    {
        Su64(value)
    }

    /// The wrapped value.
    pub closed spec fn spec_into_inner(self) -> u64 {
        self.0
    }

    /// Returns the wrapped [`u64`] value.
    #[verifier::when_used_as_spec(spec_into_inner)]
    pub fn into_inner(self) -> (r: u64)
        ensures
            r == self.spec_into_inner(),
            r == self@,
    {
        self.0
    }

    /// Returns the number of ones in the binary representation.
    pub fn count_ones(self) -> (r: u32)
        ensures
            r == popcount(pattern_of(self@, 64), 64),
    {
        count_ones_pattern(to_pattern(self), Self::bits())
    }

    /// Returns the number of zeros in the binary representation.
    pub fn count_zeros(self) -> (r: u32)
        ensures
            r == 64 - popcount(pattern_of(self@, 64), 64),
    {
        proof {
            lemma_popcount_bound(pattern_of(self@, 64), 64);
        }
        Self::bits() - count_ones_pattern(to_pattern(self), Self::bits())
    }

    /// Returns the number of leading zeros in the binary representation.
    pub fn leading_zeros(self) -> (r: u32)
        ensures
            r == 64 - bit_length(pattern_of(self@, 64)),
    {
        let p = to_pattern(self);
        proof {
            lemma_bit_length_bound(p as nat, 64);
        }
        Self::bits() - bit_length_pattern(p)
    }

    /// Returns the number of leading ones in the binary representation.
    pub fn leading_ones(self) -> (r: u32)
        ensures
            r == 64 - bit_length(complement(pattern_of(self@, 64), 64)),
    {
        let p = to_pattern(self);
        proof {
            Self::lemma_layout();
            lemma_complement_bound(p as nat, 64);
            lemma_bit_length_bound(complement(p as nat, 64), 64);
        }
        Self::bits() - bit_length_pattern(low_mask(Self::bits()) - p)
    }

    /// Returns the number of trailing zeros in the binary representation.
    pub fn trailing_zeros(self) -> (r: u32)
        ensures
            r == trailing_zero_count(pattern_of(self@, 64), 64),
    {
        trailing_zeros_pattern(to_pattern(self), Self::bits())
    }

    /// Returns the number of trailing ones in the binary representation.
    pub fn trailing_ones(self) -> (r: u32)
        ensures
            r == trailing_zero_count(complement(pattern_of(self@, 64), 64), 64),
    {
        let p = to_pattern(self);
        proof {
            Self::lemma_layout();
        }
        trailing_zeros_pattern(low_mask(Self::bits()) - p, Self::bits())
    }

    /// Reverses the order of bits.
    pub fn reverse_bits(self) -> (r: Su64)
        ensures
            r@ == value_of_pattern(reversed_bits(pattern_of(self@, 64), 64), 64, false),
    {
        proof {
            Self::lemma_layout();
        }
        from_pattern(reverse_bits_pattern(to_pattern(self), Self::bits()))
    }

    /// Shifts bits to the left by `n`, wrapping the truncated bits to the end of the result.
    pub fn rotate_left(self, n: u32) -> (r: Su64)
        ensures
            r@ == value_of_pattern(rotated_left(pattern_of(self@, 64), n as nat, 64), 64, false),
    {
        proof {
            Self::lemma_layout();
        }
        from_pattern(rotate_left_pattern(to_pattern(self), n, Self::bits()))
    }

    /// Shifts bits to the right by `n`, wrapping the truncated bits to the beginning of the result.
    pub fn rotate_right(self, n: u32) -> (r: Su64)
        ensures
            r@ == value_of_pattern(rotated_right(pattern_of(self@, 64), n as nat, 64), 64, false),
    {
        proof {
            Self::lemma_layout();
        }
        from_pattern(rotate_right_pattern(to_pattern(self), n, Self::bits()))
    }

    /// Reverses the byte order.
    pub fn swap_bytes(self) -> (r: Su64)
        ensures
            r@ == value_of_pattern(reversed_bytes(pattern_of(self@, 64), 8), 64, false),
    {
        proof {
            Self::lemma_layout();
        }
        from_pattern(swap_bytes_pattern(to_pattern(self), Self::bits() / 8))
    }


    /// Converts from big-endian to the byte order that `little_endian` names: for
    /// little-endian this reverses the bytes, for big-endian it changes nothing.
    pub fn from_be_for(value: Su64, little_endian: bool) -> (r: Su64)
        ensures
            little_endian ==> r@ == value_of_pattern(reversed_bytes(pattern_of(value@, 64), 8), 64, false),
            !little_endian ==> r == value,
    {
        if little_endian {
            value.swap_bytes()
        } else {
            value
        }
    }

    /// Converts from little-endian to the byte order that `little_endian` names: for
    /// big-endian this reverses the bytes, for little-endian it changes nothing.
    pub fn from_le_for(value: Su64, little_endian: bool) -> (r: Su64)
        ensures
            little_endian ==> r == value,
            !little_endian ==> r@ == value_of_pattern(reversed_bytes(pattern_of(value@, 64), 8), 64, false),
    {
        if little_endian {
            value
        } else {
            value.swap_bytes()
        }
    }

    /// Converts from big-endian to the target's native endian: on a little-endian
    /// target this reverses the bytes, on a big-endian one it changes nothing (see
    /// [`Su64::from_be_for`]). Which of the two the target is, is a property of the machine.
    pub fn from_be(value: Su64) -> (r: Su64)
        ensures
            r == value || r@ == value_of_pattern(reversed_bytes(pattern_of(value@, 64), 8), 64, false),
            native_little_endian() ==> r@ == value_of_pattern(reversed_bytes(pattern_of(value@, 64), 8), 64, false),
            !native_little_endian() ==> r == value,
    {
        Su64::from_be_for(value, target_is_little_endian())
    }

    /// Converts from little-endian to the target's native endian: on a big-endian
    /// target this reverses the bytes, on a little-endian one it changes nothing (see
    /// [`Su64::from_le_for`]).
    pub fn from_le(value: Su64) -> (r: Su64)
        ensures
            r == value || r@ == value_of_pattern(reversed_bytes(pattern_of(value@, 64), 8), 64, false),
            native_little_endian() ==> r == value,
            !native_little_endian() ==> r@ == value_of_pattern(reversed_bytes(pattern_of(value@, 64), 8), 64, false),
    {
        Su64::from_le_for(value, target_is_little_endian())
    }

    /// Converts `self` to big-endian from the target's native endian.
    pub fn to_be(self) -> (r: Su64)
        ensures
            r == self || r@ == value_of_pattern(reversed_bytes(pattern_of(self@, 64), 8), 64, false),
            native_little_endian() ==> r@ == value_of_pattern(reversed_bytes(pattern_of(self@, 64), 8), 64, false),
            !native_little_endian() ==> r == self,
    {
        Su64::from_be(self)
    }

    /// Converts `self` to little-endian from the target's native endian.
    pub fn to_le(self) -> (r: Su64)
        ensures
            r == self || r@ == value_of_pattern(reversed_bytes(pattern_of(self@, 64), 8), 64, false),
            native_little_endian() ==> r == self,
            !native_little_endian() ==> r@ == value_of_pattern(reversed_bytes(pattern_of(self@, 64), 8), 64, false),
    {
        Su64::from_le(self)
    }

    /// Returns the memory representation as a byte array in big-endian order.
    pub fn to_be_bytes(self) -> (r: [u8; 8])
        ensures
            r@ == be_bytes(pattern_of(self@, 64), 8),
    {
        let v = le_bytes_pattern(to_pattern(self), 8);
        proof {
            lemma_le_bytes_len(pattern_of(self@, 64), 8);
        }
        let r = [v[7], v[6], v[5], v[4], v[3], v[2], v[1], v[0]];
        proof {
            assert(r@ =~= be_bytes(pattern_of(self@, 64), 8));
        }
        r
    }

    /// Returns the memory representation as a byte array in little-endian order.
    pub fn to_le_bytes(self) -> (r: [u8; 8])
        ensures
            r@ == le_bytes(pattern_of(self@, 64), 8),
    {
        let v = le_bytes_pattern(to_pattern(self), 8);
        proof {
            lemma_le_bytes_len(pattern_of(self@, 64), 8);
        }
        let r = [v[0], v[1], v[2], v[3], v[4], v[5], v[6], v[7]];
        proof {
            assert(r@ =~= le_bytes(pattern_of(self@, 64), 8));
        }
        r
    }

    /// Returns the memory representation as a byte array in the byte order that
    /// `little_endian` names.
    pub fn to_ne_bytes_for(self, little_endian: bool) -> (r: [u8; 8])
        ensures
            little_endian ==> r@ == le_bytes(pattern_of(self@, 64), 8),
            !little_endian ==> r@ == be_bytes(pattern_of(self@, 64), 8),
    {
        if little_endian {
            self.to_le_bytes()
        } else {
            self.to_be_bytes()
        }
    }

    /// Returns the memory representation as a byte array in native-endian order
    /// (see [`Su64::to_ne_bytes_for`]).
    pub fn to_ne_bytes(self) -> (r: [u8; 8])
        ensures
            r@ == le_bytes(pattern_of(self@, 64), 8) || r@ == be_bytes(pattern_of(self@, 64), 8),
            native_little_endian() ==> r@ == le_bytes(pattern_of(self@, 64), 8),
            !native_little_endian() ==> r@ == be_bytes(pattern_of(self@, 64), 8),
    {
        self.to_ne_bytes_for(target_is_little_endian())
    }

    /// Creates a scalar from a byte array in big-endian order.
    pub fn from_be_bytes(bytes: [u8; 8]) -> (r: Su64)
        ensures
            r@ == value_of_pattern(be_value(bytes@), 64, false),
    {
        let le = [bytes[7], bytes[6], bytes[5], bytes[4], bytes[3], bytes[2], bytes[1], bytes[0]];
        proof {
            assert(le@ =~= bytes@.reverse());
        }
        let p = le_value_of_bytes(le.as_slice());
        from_pattern(p)
    }

    /// Creates a scalar from a byte array in little-endian order.
    pub fn from_le_bytes(bytes: [u8; 8]) -> (r: Su64)
        ensures
            r@ == value_of_pattern(le_value(bytes@), 64, false),
    {
        let p = le_value_of_bytes(bytes.as_slice());
        from_pattern(p)
    }

    /// Creates a scalar from a byte array in the byte order that `little_endian` names.
    pub fn from_ne_bytes_for(bytes: [u8; 8], little_endian: bool) -> (r: Su64)
        ensures
            little_endian ==> r@ == value_of_pattern(le_value(bytes@), 64, false),
            !little_endian ==> r@ == value_of_pattern(be_value(bytes@), 64, false),
    {
        if little_endian {
            Su64::from_le_bytes(bytes)
        } else {
            Su64::from_be_bytes(bytes)
        }
    }

    /// Creates a scalar from a byte array in native-endian order (see
    /// [`Su64::from_ne_bytes_for`]).
    pub fn from_ne_bytes(bytes: [u8; 8]) -> (r: Su64)
        ensures
            r@ == value_of_pattern(le_value(bytes@), 64, false) || r@ == value_of_pattern(
                be_value(bytes@),
                64,
                false,
            ),
            native_little_endian() ==> r@ == value_of_pattern(le_value(bytes@), 64, false),
            !native_little_endian() ==> r@ == value_of_pattern(be_value(bytes@), 64, false),
    {
        Su64::from_ne_bytes_for(bytes, target_is_little_endian())
    }


    /// Divides two scalar values, returning `None` on division by zero.
    pub fn checked_div(self, rhs: Su64) -> (r: Option<Su64>)
        ensures
            r is None <==> rhs@ == 0,
            r matches Some(q) ==> q@ == self@ / rhs@,
    {
        if rhs.0 == 0 {
            None
        } else {
            Some(Su64(self.0 / rhs.0))
        }
    }

    /// Calculates Euclidean division, returning `None` on division by zero.
    pub fn checked_div_euclid(self, rhs: Su64) -> (r: Option<Su64>)
        ensures
            r is None <==> rhs@ == 0,
            r matches Some(q) ==> q@ == self@ / rhs@,
    {
        self.checked_div(rhs)
    }

    /// Calculates the remainder of two scalar values, returning `None` on division by zero.
    pub fn checked_rem(self, rhs: Su64) -> (r: Option<Su64>)
        ensures
            r is None <==> rhs@ == 0,
            r matches Some(x) ==> x@ == self@ % rhs@,
    {
        if rhs.0 == 0 {
            None
        } else {
            Some(Su64(self.0 % rhs.0))
        }
    }

    /// Calculates the least nonnegative remainder, returning `None` on division by zero.
    pub fn checked_rem_euclid(self, rhs: Su64) -> (r: Option<Su64>)
        ensures
            r is None <==> rhs@ == 0,
            r matches Some(x) ==> x@ == self@ % rhs@,
    {
        self.checked_rem(rhs)
    }


    /// Raises `self` to the power of `exp`, saturating at numeric bounds.
    pub fn pow(self, exp: u32) -> (r: Su64)
        ensures
            r@ == clamp(pow(self@, exp as nat), u64::MIN as int, u64::MAX as int),
    {
        let (negative, a) = self.magnitude();
        let (n, m) = pow_magnitudes(negative, a, exp);
        proof {
            lemma_represents_clamp(n, m, pow(self@, exp as nat), u64::MIN as int, u64::MAX as int);
        }
        Self::from_magnitude(n, m)
    }

    /// Returns the base-`base` logarithm, or `None` if the logarithm is undefined.
    pub fn checked_ilog(self, base: u64) -> (r: Option<u32>)
        ensures
            r is None <==> self@ <= 0 || base < 2,
            r matches Some(k) ==> pow(base as int, k as nat) <= self@ < pow(base as int, (k + 1) as nat),
    {
        if self.0 <= 0 || base < 2 {
            None
        } else {
            Some(ilog_magnitude(self.0 as u128, base as u128))
        }
    }

    /// Returns the base-2 logarithm, or `None` if the logarithm is undefined.
    pub fn checked_ilog2(self) -> (r: Option<u32>)
        ensures
            r is None <==> self@ <= 0,
            r matches Some(k) ==> pow(2, k as nat) <= self@ < pow(2, (k + 1) as nat),
    {
        self.checked_ilog(2)
    }

    /// Returns the base-10 logarithm, or `None` if the logarithm is undefined.
    pub fn checked_ilog10(self) -> (r: Option<u32>)
        ensures
            r is None <==> self@ <= 0,
            r matches Some(k) ==> pow(10, k as nat) <= self@ < pow(10, (k + 1) as nat),
    {
        self.checked_ilog(10)
    }

    /// Returns `true` if `self` is the minimum representable value.
    pub fn is_min(self) -> (r: bool)
        ensures
            r == (self@ == u64::MIN),
    {
        self.0 == u64::MIN
    }

    /// Returns `true` if `self` is the maximum representable value.
    pub fn is_max(self) -> (r: bool)
        ensures
            r == (self@ == u64::MAX),
    {
        self.0 == u64::MAX
    }

    /// Returns `true` if `self` is zero.
    pub fn is_zero(self) -> (r: bool)
        ensures
            r == (self@ == 0),
    {
        self.0 == 0
    }

    /// Returns `true` if `self` is one.
    pub fn is_one(self) -> (r: bool)
        ensures
            r == (self@ == 1),
    {
        self.0 == 1
    }


    /// Computes the absolute difference between `self` and `rhs`.
    pub fn abs_diff(self, rhs: Su64) -> (r: Su64)
        ensures
            r@ == abs_int(self@ - rhs@),
    {
        if self.0 >= rhs.0 {
            Su64(self.0 - rhs.0)
        } else {
            Su64(rhs.0 - self.0)
        }
    }

    /// Returns `true` if `self` is a power of two.
    pub fn is_power_of_two(self) -> (r: bool)
        ensures
            r == is_power_of_two(self@ as nat),
    {
        is_power_of_two_magnitude(self.0 as u128)
    }

    /// Returns the smallest power of two greater than or equal to `self`,
    /// saturating at `MAX` if the primitive operation would overflow.
    pub fn next_power_of_two(self) -> (r: Su64)
        ensures
            r@ == (if next_power_of_two(self@ as nat) <= u64::MAX {
                next_power_of_two(self@ as nat) as int
            } else {
                u64::MAX as int
            }),
    {
        match self.checked_next_power_of_two() {
            Some(v) => v,
            None => Self::MAX(),
        }
    }

    /// Returns the smallest power of two greater than or equal to `self`,
    /// or `None` if the primitive operation would overflow.
    pub fn checked_next_power_of_two(self) -> (r: Option<Su64>)
        ensures
            r is None <==> next_power_of_two(self@ as nat) > u64::MAX,
            r matches Some(x) ==> x@ == next_power_of_two(self@ as nat),
    {
        match next_power_of_two_magnitude(self.0 as u128, u64::MAX as u128) {
            Some(p) => Some(Self::from_magnitude(false, p)),
            None => None,
        }
    }

    /// Returns the integer square root.
    pub fn isqrt(self) -> (r: Su64)
        ensures
            r@ * r@ <= self@ < (r@ + 1) * (r@ + 1),
    {
        let s = isqrt_magnitude(self.0 as u128);
        proof {
            lemma_isqrt_bound(s as int, self@);
        }
        Self::from_magnitude(false, s)
    }

    /// Converts to the same-width signed wrapper, saturating values above its `MAX`.
    pub fn to_signed(self) -> (r: Si64)
        ensures
            r@ == (if self@ > i64::MAX {
                i64::MAX as int
            } else {
                self@
            }),
    {
        Si64::from_magnitude(false, self.0 as u128)
    }

}

/// Creates a [`Su64`] from an inner [`u64`] value.
pub fn su64(value: u64) -> (r: Su64)
    ensures
        r@ == value,
{
    Su64::new(value)
}

impl Default for Su64 {
    fn default() -> (r: Su64)
        ensures
            r@ == 0,
    {
        Su64(0)
    }
}

impl From<u64> for Su64 {
    fn from(value: u64) -> (r: Su64)
        ensures
            r@ == value,
    {
        Su64(value)
    }
}

impl FromSpecImpl<u64> for Su64 {
    open spec fn obeys_from_spec() -> bool {
        true
    }

    open spec fn from_spec(v: u64) -> Su64 {
        Su64::new(v)
    }
}

impl From<Su64> for u64 {
    fn from(value: Su64) -> (r: u64)
        ensures
            r == value@,
    {
        value.0
    }
}

impl FromSpecImpl<Su64> for u64 {
    open spec fn obeys_from_spec() -> bool {
        true
    }

    open spec fn from_spec(v: Su64) -> u64 {
        v.into_inner()
    }
}

impl PartialEq<u64> for Su64 {
    fn eq(&self, other: &u64) -> (r: bool) {
        self.0 == *other
    }
}

impl PartialEqSpecImpl<u64> for Su64 {
    open spec fn obeys_eq_spec() -> bool {
        true
    }

    open spec fn eq_spec(&self, other: &u64) -> bool {
        self.into_inner() == *other
    }
}

impl PartialEq<Su64> for u64 {
    fn eq(&self, other: &Su64) -> (r: bool) {
        *self == other.0
    }
}

impl PartialEqSpecImpl<Su64> for u64 {
    open spec fn obeys_eq_spec() -> bool {
        true
    }

    open spec fn eq_spec(&self, other: &Su64) -> bool {
        *self == other.into_inner()
    }
}

impl PartialOrd<u64> for Su64 {
    fn partial_cmp(&self, other: &u64) -> (r: Option<Ordering>) {
        if self.0 < *other {
            Some(Ordering::Less)
        } else if self.0 > *other {
            Some(Ordering::Greater)
        } else {
            Some(Ordering::Equal)
        }
    }
}

impl PartialOrdSpecImpl<u64> for Su64 {
    open spec fn obeys_partial_cmp_spec() -> bool {
        true
    }

    open spec fn partial_cmp_spec(&self, other: &u64) -> Option<Ordering> {
        if self.into_inner() < *other {
            Some(Ordering::Less)
        } else if self.into_inner() > *other {
            Some(Ordering::Greater)
        } else {
            Some(Ordering::Equal)
        }
    }
}

impl PartialOrd<Su64> for u64 {
    fn partial_cmp(&self, other: &Su64) -> (r: Option<Ordering>) {
        if *self < other.0 {
            Some(Ordering::Less)
        } else if *self > other.0 {
            Some(Ordering::Greater)
        } else {
            Some(Ordering::Equal)
        }
    }
}

impl PartialOrdSpecImpl<Su64> for u64 {
    open spec fn obeys_partial_cmp_spec() -> bool {
        true
    }

    open spec fn partial_cmp_spec(&self, other: &Su64) -> Option<Ordering> {
        if *self < other.into_inner() {
            Some(Ordering::Less)
        } else if *self > other.into_inner() {
            Some(Ordering::Greater)
        } else {
            Some(Ordering::Equal)
        }
    }
}

impl BitAnd<Su64> for Su64 {
    type Output = Su64;

    fn bitand(self, rhs: Su64) -> (r: Su64)
        ensures
            r.into_inner() == self.into_inner() & rhs.into_inner(),
    {
        Su64(self.0 & rhs.0)
    }
}

impl BitAndSpecImpl<Su64> for Su64 {
    open spec fn obeys_bitand_spec() -> bool {
        true
    }

    open spec fn bitand_req(self, rhs: Su64) -> bool {
        true
    }

    open spec fn bitand_spec(self, rhs: Su64) -> Su64 {
        Su64::new(self.into_inner() & rhs.into_inner())
    }
}

impl BitAndAssign<Su64> for Su64 {
    fn bitand_assign(&mut self, rhs: Su64)
        ensures
            final(self).into_inner() == old(self).into_inner() & rhs.into_inner(),
    {
        *self = Su64(self.0 & rhs.0);
    }
}

impl BitAnd<u64> for Su64 {
    type Output = Su64;

    fn bitand(self, rhs: u64) -> (r: Su64)
        ensures
            r.into_inner() == self.into_inner() & rhs,
    {
        Su64(self.0 & rhs)
    }
}

impl BitAndSpecImpl<u64> for Su64 {
    open spec fn obeys_bitand_spec() -> bool {
        true
    }

    open spec fn bitand_req(self, rhs: u64) -> bool {
        true
    }

    open spec fn bitand_spec(self, rhs: u64) -> Su64 {
        Su64::new(self.into_inner() & rhs)
    }
}

impl BitAndAssign<u64> for Su64 {
    fn bitand_assign(&mut self, rhs: u64)
        ensures
            final(self).into_inner() == old(self).into_inner() & rhs,
    {
        *self = Su64(self.0 & rhs);
    }
}

impl BitOr<Su64> for Su64 {
    type Output = Su64;

    fn bitor(self, rhs: Su64) -> (r: Su64)
        ensures
            r.into_inner() == self.into_inner() | rhs.into_inner(),
    {
        Su64(self.0 | rhs.0)
    }
}

impl BitOrSpecImpl<Su64> for Su64 {
    open spec fn obeys_bitor_spec() -> bool {
        true
    }

    open spec fn bitor_req(self, rhs: Su64) -> bool {
        true
    }

    open spec fn bitor_spec(self, rhs: Su64) -> Su64 {
        Su64::new(self.into_inner() | rhs.into_inner())
    }
}

impl BitOrAssign<Su64> for Su64 {
    fn bitor_assign(&mut self, rhs: Su64)
        ensures
            final(self).into_inner() == old(self).into_inner() | rhs.into_inner(),
    {
        *self = Su64(self.0 | rhs.0);
    }
}

impl BitOr<u64> for Su64 {
    type Output = Su64;

    fn bitor(self, rhs: u64) -> (r: Su64)
        ensures
            r.into_inner() == self.into_inner() | rhs,
    {
        Su64(self.0 | rhs)
    }
}

impl BitOrSpecImpl<u64> for Su64 {
    open spec fn obeys_bitor_spec() -> bool {
        true
    }

    open spec fn bitor_req(self, rhs: u64) -> bool {
        true
    }

    open spec fn bitor_spec(self, rhs: u64) -> Su64 {
        Su64::new(self.into_inner() | rhs)
    }
}

impl BitOrAssign<u64> for Su64 {
    fn bitor_assign(&mut self, rhs: u64)
        ensures
            final(self).into_inner() == old(self).into_inner() | rhs,
    {
        *self = Su64(self.0 | rhs);
    }
}

impl BitXor<Su64> for Su64 {
    type Output = Su64;

    fn bitxor(self, rhs: Su64) -> (r: Su64)
        ensures
            r.into_inner() == self.into_inner() ^ rhs.into_inner(),
    {
        Su64(self.0 ^ rhs.0)
    }
}

impl BitXorSpecImpl<Su64> for Su64 {
    open spec fn obeys_bitxor_spec() -> bool {
        true
    }

    open spec fn bitxor_req(self, rhs: Su64) -> bool {
        true
    }

    open spec fn bitxor_spec(self, rhs: Su64) -> Su64 {
        Su64::new(self.into_inner() ^ rhs.into_inner())
    }
}

impl BitXorAssign<Su64> for Su64 {
    fn bitxor_assign(&mut self, rhs: Su64)
        ensures
            final(self).into_inner() == old(self).into_inner() ^ rhs.into_inner(),
    {
        *self = Su64(self.0 ^ rhs.0);
    }
}

impl BitXor<u64> for Su64 {
    type Output = Su64;

    fn bitxor(self, rhs: u64) -> (r: Su64)
        ensures
            r.into_inner() == self.into_inner() ^ rhs,
    {
        Su64(self.0 ^ rhs)
    }
}

impl BitXorSpecImpl<u64> for Su64 {
    open spec fn obeys_bitxor_spec() -> bool {
        true
    }

    open spec fn bitxor_req(self, rhs: u64) -> bool {
        true
    }

    open spec fn bitxor_spec(self, rhs: u64) -> Su64 {
        Su64::new(self.into_inner() ^ rhs)
    }
}

impl BitXorAssign<u64> for Su64 {
    fn bitxor_assign(&mut self, rhs: u64)
        ensures
            final(self).into_inner() == old(self).into_inner() ^ rhs,
    {
        *self = Su64(self.0 ^ rhs);
    }
}

impl Not for Su64 {
    type Output = Su64;

    fn not(self) -> (r: Su64)
        ensures
            r.into_inner() == !self.into_inner(),
    {
        Su64(!self.0)
    }
}

impl NotSpecImpl for Su64 {
    open spec fn obeys_not_spec() -> bool {
        true
    }

    open spec fn not_req(self) -> bool {
        true
    }

    open spec fn not_spec(self) -> Su64 {
        Su64::new(!self.into_inner())
    }
}

/// A saturating wrapper around [`u128`]: its arithmetic clamps to the range of
/// [`u128`] instead of overflowing.
#[derive(Clone, Copy, Debug, PartialEq, Eq, Structural, PartialOrd, Ord, Hash)]
pub struct Su128(u128);

impl View for Su128 {
    type V = int;

    closed spec fn view(&self) -> int {
        self.0 as int
    }
}

/// The inner value of a [`Su128`] is its view.
pub broadcast proof fn lemma_su128_inner(x: Su128)
    ensures
        #[trigger] x.into_inner() as int == x@,
{
}

/// A [`Su128`] is made of the value it was made from.
pub broadcast proof fn lemma_su128_new(v: u128)
    ensures
        #[trigger] Su128::new(v)@ == v as int,
{
}

impl Sealed for Su128 {
}

impl Integer for Su128 {
    open spec fn value(self) -> int {
        self@
    }

    open spec fn lower() -> int {
        u128::MIN as int
    }

    open spec fn upper() -> int {
        u128::MAX as int
    }

    open spec fn width() -> nat {
        128
    }

    open spec fn is_signed() -> bool {
        false
    }

    open spec fn of_value(v: int) -> Su128 {
        Su128::new(v as u128)
    }

    proof fn lemma_value(self) {
    }

    proof fn lemma_of_value(v: int) {
    }

    proof fn lemma_layout() {
        u128::lemma_layout();
    }

    fn bits() -> (r: u32) {
        u128::bits()
    }

    fn signed_type() -> (r: bool) {
        u128::signed_type()
    }

    fn magnitude(self) -> (r: (bool, u128)) {
        self.0.magnitude()
    }

    fn from_magnitude(negative: bool, magnitude: u128) -> (r: Su128) {
        Su128(u128::from_magnitude(negative, magnitude))
    }
}

impl UnsignedInteger for Su128 {
    proof fn lemma_nonnegative() {
    }
}

impl Su128 {
    /// The size of this scalar type in bits.
    pub const BITS: u32 = 128;

    /// The minimum representable value for this scalar type.
    #[allow(non_snake_case)]
    pub fn MIN() -> (r: Su128)
        ensures
            r@ == u128::MIN,
    {
        Su128(u128::MIN)
    }

    /// The maximum representable value for this scalar type.
    #[allow(non_snake_case)]
    pub fn MAX() -> (r: Su128)
        ensures
            r@ == u128::MAX,
    {
        Su128(u128::MAX)
    }

    /// The additive identity value.
    #[allow(non_snake_case)]
    pub fn ZERO() -> (r: Su128)
        ensures
            r@ == 0,
    {
        Su128(0)
    }

    /// The multiplicative identity value.
    #[allow(non_snake_case)]
    pub fn ONE() -> (r: Su128)
        ensures
            r@ == 1,
    {
        Su128(1)
    }

    /// The wrapper that holds `value`.
    pub closed spec fn spec_new(value: u128) -> Su128 {
        Su128(value)
    }

    /// Creates a new [`Su128`] from an inner [`u128`] value.
    #[verifier::when_used_as_spec(spec_new)]
    pub fn new(value: u128) -> (r: Su128)
        ensures
            r == Su128::spec_new(value),
            r@ == value,
    {
        Su128(value)
    }

    /// The wrapped value.
    pub closed spec fn spec_into_inner(self) -> u128 {
        self.0
    }

    /// Returns the wrapped [`u128`] value.
    #[verifier::when_used_as_spec(spec_into_inner)]
    pub fn into_inner(self) -> (r: u128)
        ensures
            r == self.spec_into_inner(),
            r == self@,
    {
        self.0
    }

    /// Returns the number of ones in the binary representation.
    pub fn count_ones(self) -> (r: u32)
        ensures
            r == popcount(pattern_of(self@, 128), 128),
    {
        count_ones_pattern(to_pattern(self), Self::bits())
    }

    /// Returns the number of zeros in the binary representation.
    pub fn count_zeros(self) -> (r: u32)
        ensures
            r == 128 - popcount(pattern_of(self@, 128), 128),
    {
        proof {
            lemma_popcount_bound(pattern_of(self@, 128), 128);
        }
        Self::bits() - count_ones_pattern(to_pattern(self), Self::bits())
    }

    /// Returns the number of leading zeros in the binary representation.
    pub fn leading_zeros(self) -> (r: u32)
        ensures
            r == 128 - bit_length(pattern_of(self@, 128)),
    {
        let p = to_pattern(self);
        proof {
            lemma_bit_length_bound(p as nat, 128);
        }
        Self::bits() - bit_length_pattern(p)
    }

    /// Returns the number of leading ones in the binary representation.
    pub fn leading_ones(self) -> (r: u32)
        ensures
            r == 128 - bit_length(complement(pattern_of(self@, 128), 128)),
    {
        let p = to_pattern(self);
        proof {
            Self::lemma_layout();
            lemma_complement_bound(p as nat, 128);
            lemma_bit_length_bound(complement(p as nat, 128), 128);
        }
        Self::bits() - bit_length_pattern(low_mask(Self::bits()) - p)
    }

    /// Returns the number of trailing zeros in the binary representation.
    pub fn trailing_zeros(self) -> (r: u32)
        ensures
            r == trailing_zero_count(pattern_of(self@, 128), 128),
    {
        trailing_zeros_pattern(to_pattern(self), Self::bits())
    }

    /// Returns the number of trailing ones in the binary representation.
    pub fn trailing_ones(self) -> (r: u32)
        ensures
            r == trailing_zero_count(complement(pattern_of(self@, 128), 128), 128),
    {
        let p = to_pattern(self);
        proof {
            Self::lemma_layout();
        }
        trailing_zeros_pattern(low_mask(Self::bits()) - p, Self::bits())
    }

    /// Reverses the order of bits.
    pub fn reverse_bits(self) -> (r: Su128)
        ensures
            r@ == value_of_pattern(reversed_bits(pattern_of(self@, 128), 128), 128, false),
    {
        proof {
            Self::lemma_layout();
        }
        from_pattern(reverse_bits_pattern(to_pattern(self), Self::bits()))
    }

    /// Shifts bits to the left by `n`, wrapping the truncated bits to the end of the result.
    pub fn rotate_left(self, n: u32) -> (r: Su128)
        ensures
            r@ == value_of_pattern(rotated_left(pattern_of(self@, 128), n as nat, 128), 128, false),
    {
        proof {
            Self::lemma_layout();
        }
        from_pattern(rotate_left_pattern(to_pattern(self), n, Self::bits()))
    }

    /// Shifts bits to the right by `n`, wrapping the truncated bits to the beginning of the result.
    pub fn rotate_right(self, n: u32) -> (r: Su128)
        ensures
            r@ == value_of_pattern(rotated_right(pattern_of(self@, 128), n as nat, 128), 128, false),
    {
        proof {
            Self::lemma_layout();
        }
        from_pattern(rotate_right_pattern(to_pattern(self), n, Self::bits()))
    }

    /// Reverses the byte order.
    pub fn swap_bytes(self) -> (r: Su128)
        ensures
            r@ == value_of_pattern(reversed_bytes(pattern_of(self@, 128), 16), 128, false),
    {
        proof {
            Self::lemma_layout();
        }
        from_pattern(swap_bytes_pattern(to_pattern(self), Self::bits() / 8))
    }


    /// Converts from big-endian to the byte order that `little_endian` names: for
    /// little-endian this reverses the bytes, for big-endian it changes nothing.
    pub fn from_be_for(value: Su128, little_endian: bool) -> (r: Su128)
        ensures
            little_endian ==> r@ == value_of_pattern(reversed_bytes(pattern_of(value@, 128), 16), 128, false),
            !little_endian ==> r == value,
    {
        if little_endian {
            value.swap_bytes()
        } else {
            value
        }
    }

    /// Converts from little-endian to the byte order that `little_endian` names: for
    /// big-endian this reverses the bytes, for little-endian it changes nothing.
    pub fn from_le_for(value: Su128, little_endian: bool) -> (r: Su128)
        ensures
            little_endian ==> r == value,
            !little_endian ==> r@ == value_of_pattern(reversed_bytes(pattern_of(value@, 128), 16), 128, false),
    {
        if little_endian {
            value
        } else {
            value.swap_bytes()
        }
    }

    /// Converts from big-endian to the target's native endian: on a little-endian
    /// target this reverses the bytes, on a big-endian one it changes nothing (see
    /// [`Su128::from_be_for`]). Which of the two the target is, is a property of the machine.
    pub fn from_be(value: Su128) -> (r: Su128)
        ensures
            r == value || r@ == value_of_pattern(reversed_bytes(pattern_of(value@, 128), 16), 128, false),
            native_little_endian() ==> r@ == value_of_pattern(reversed_bytes(pattern_of(value@, 128), 16), 128, false),
            !native_little_endian() ==> r == value,
    {
        Su128::from_be_for(value, target_is_little_endian())
    }

    /// Converts from little-endian to the target's native endian: on a big-endian
    /// target this reverses the bytes, on a little-endian one it changes nothing (see
    /// [`Su128::from_le_for`]).
    pub fn from_le(value: Su128) -> (r: Su128)
        ensures
            r == value || r@ == value_of_pattern(reversed_bytes(pattern_of(value@, 128), 16), 128, false),
            native_little_endian() ==> r == value,
            !native_little_endian() ==> r@ == value_of_pattern(reversed_bytes(pattern_of(value@, 128), 16), 128, false),
    {
        Su128::from_le_for(value, target_is_little_endian())
    }

    /// Converts `self` to big-endian from the target's native endian.
    pub fn to_be(self) -> (r: Su128)
        ensures
            r == self || r@ == value_of_pattern(reversed_bytes(pattern_of(self@, 128), 16), 128, false),
            native_little_endian() ==> r@ == value_of_pattern(reversed_bytes(pattern_of(self@, 128), 16), 128, false),
            !native_little_endian() ==> r == self,
    {
        Su128::from_be(self)
    }

    /// Converts `self` to little-endian from the target's native endian.
    pub fn to_le(self) -> (r: Su128)
        ensures
            r == self || r@ == value_of_pattern(reversed_bytes(pattern_of(self@, 128), 16), 128, false),
            native_little_endian() ==> r == self,
            !native_little_endian() ==> r@ == value_of_pattern(reversed_bytes(pattern_of(self@, 128), 16), 128, false),
    {
        Su128::from_le(self)
    }

    /// Returns the memory representation as a byte array in big-endian order.
    pub fn to_be_bytes(self) -> (r: [u8; 16])
        ensures
            r@ == be_bytes(pattern_of(self@, 128), 16),
    {
        let v = le_bytes_pattern(to_pattern(self), 16);
        proof {
            lemma_le_bytes_len(pattern_of(self@, 128), 16);
        }
        let r = [v[15], v[14], v[13], v[12], v[11], v[10], v[9], v[8], v[7], v[6], v[5], v[4], v[3], v[2], v[1], v[0]];
        proof {
            assert(r@ =~= be_bytes(pattern_of(self@, 128), 16));
        }
        r
    }

    /// Returns the memory representation as a byte array in little-endian order.
    pub fn to_le_bytes(self) -> (r: [u8; 16])
        ensures
            r@ == le_bytes(pattern_of(self@, 128), 16),
    {
        let v = le_bytes_pattern(to_pattern(self), 16);
        proof {
            lemma_le_bytes_len(pattern_of(self@, 128), 16);
        }
        let r = [v[0], v[1], v[2], v[3], v[4], v[5], v[6], v[7], v[8], v[9], v[10], v[11], v[12], v[13], v[14], v[15]];
        proof {
            assert(r@ =~= le_bytes(pattern_of(self@, 128), 16));
        }
        r
    }

    /// Returns the memory representation as a byte array in the byte order that
    /// `little_endian` names.
    pub fn to_ne_bytes_for(self, little_endian: bool) -> (r: [u8; 16])
        ensures
            little_endian ==> r@ == le_bytes(pattern_of(self@, 128), 16),
            !little_endian ==> r@ == be_bytes(pattern_of(self@, 128), 16),
    {
        if little_endian {
            self.to_le_bytes()
        } else {
            self.to_be_bytes()
        }
    }

    /// Returns the memory representation as a byte array in native-endian order
    /// (see [`Su128::to_ne_bytes_for`]).
    pub fn to_ne_bytes(self) -> (r: [u8; 16])
        ensures
            r@ == le_bytes(pattern_of(self@, 128), 16) || r@ == be_bytes(pattern_of(self@, 128), 16),
            native_little_endian() ==> r@ == le_bytes(pattern_of(self@, 128), 16),
            !native_little_endian() ==> r@ == be_bytes(pattern_of(self@, 128), 16),
    {
        self.to_ne_bytes_for(target_is_little_endian())
    }

    /// Creates a scalar from a byte array in big-endian order.
    pub fn from_be_bytes(bytes: [u8; 16]) -> (r: Su128)
        ensures
            r@ == value_of_pattern(be_value(bytes@), 128, false),
    {
        let le = [bytes[15], bytes[14], bytes[13], bytes[12], bytes[11], bytes[10], bytes[9], bytes[8], bytes[7], bytes[6], bytes[5], bytes[4], bytes[3], bytes[2], bytes[1], bytes[0]];
        proof {
            assert(le@ =~= bytes@.reverse());
        }
        let p = le_value_of_bytes(le.as_slice());
        from_pattern(p)
    }

    /// Creates a scalar from a byte array in little-endian order.
    pub fn from_le_bytes(bytes: [u8; 16]) -> (r: Su128)
        ensures
            r@ == value_of_pattern(le_value(bytes@), 128, false),
    {
        let p = le_value_of_bytes(bytes.as_slice());
        from_pattern(p)
    }

    /// Creates a scalar from a byte array in the byte order that `little_endian` names.
    pub fn from_ne_bytes_for(bytes: [u8; 16], little_endian: bool) -> (r: Su128)
        ensures
            little_endian ==> r@ == value_of_pattern(le_value(bytes@), 128, false),
            !little_endian ==> r@ == value_of_pattern(be_value(bytes@), 128, false),
    {
        if little_endian {
            Su128::from_le_bytes(bytes)
        } else {
            Su128::from_be_bytes(bytes)
        }
    }

    /// Creates a scalar from a byte array in native-endian order (see
    /// [`Su128::from_ne_bytes_for`]).
    pub fn from_ne_bytes(bytes: [u8; 16]) -> (r: Su128)
        ensures
            r@ == value_of_pattern(le_value(bytes@), 128, false) || r@ == value_of_pattern(
                be_value(bytes@),
                128,
                false,
            ),
            native_little_endian() ==> r@ == value_of_pattern(le_value(bytes@), 128, false),
            !native_little_endian() ==> r@ == value_of_pattern(be_value(bytes@), 128, false),
    {
        Su128::from_ne_bytes_for(bytes, target_is_little_endian())
    }


    /// Divides two scalar values, returning `None` on division by zero.
    pub fn checked_div(self, rhs: Su128) -> (r: Option<Su128>)
        ensures
            r is None <==> rhs@ == 0,
            r matches Some(q) ==> q@ == self@ / rhs@,
    {
        if rhs.0 == 0 {
            None
        } else {
            Some(Su128(self.0 / rhs.0))
        }
    }

    /// Calculates Euclidean division, returning `None` on division by zero.
    pub fn checked_div_euclid(self, rhs: Su128) -> (r: Option<Su128>)
        ensures
            r is None <==> rhs@ == 0,
            r matches Some(q) ==> q@ == self@ / rhs@,
    {
        self.checked_div(rhs)
    }

    /// Calculates the remainder of two scalar values, returning `None` on division by zero.
    pub fn checked_rem(self, rhs: Su128) -> (r: Option<Su128>)
        ensures
            r is None <==> rhs@ == 0,
            r matches Some(x) ==> x@ == self@ % rhs@,
    {
        if rhs.0 == 0 {
            None
        } else {
            Some(Su128(self.0 % rhs.0))
        }
    }

    /// Calculates the least nonnegative remainder, returning `None` on division by zero.
    pub fn checked_rem_euclid(self, rhs: Su128) -> (r: Option<Su128>)
        ensures
            r is None <==> rhs@ == 0,
            r matches Some(x) ==> x@ == self@ % rhs@,
    {
        self.checked_rem(rhs)
    }


    /// Raises `self` to the power of `exp`, saturating at numeric bounds.
    pub fn pow(self, exp: u32) -> (r: Su128)
        ensures
            r@ == clamp(pow(self@, exp as nat), u128::MIN as int, u128::MAX as int),
    {
        let (negative, a) = self.magnitude();
        let (n, m) = pow_magnitudes(negative, a, exp);
        proof {
            lemma_represents_clamp(n, m, pow(self@, exp as nat), u128::MIN as int, u128::MAX as int);
        }
        Self::from_magnitude(n, m)
    }

    /// Returns the base-`base` logarithm, or `None` if the logarithm is undefined.
    pub fn checked_ilog(self, base: u128) -> (r: Option<u32>)
        ensures
            r is None <==> self@ <= 0 || base < 2,
            r matches Some(k) ==> pow(base as int, k as nat) <= self@ < pow(base as int, (k + 1) as nat),
    {
        if self.0 <= 0 || base < 2 {
            None
        } else {
            Some(ilog_magnitude(self.0 as u128, base as u128))
        }
    }

    /// Returns the base-2 logarithm, or `None` if the logarithm is undefined.
    pub fn checked_ilog2(self) -> (r: Option<u32>)
        ensures
            r is None <==> self@ <= 0,
            r matches Some(k) ==> pow(2, k as nat) <= self@ < pow(2, (k + 1) as nat),
    {
        self.checked_ilog(2)
    }

    /// Returns the base-10 logarithm, or `None` if the logarithm is undefined.
    pub fn checked_ilog10(self) -> (r: Option<u32>)
        ensures
            r is None <==> self@ <= 0,
            r matches Some(k) ==> pow(10, k as nat) <= self@ < pow(10, (k + 1) as nat),
    {
        self.checked_ilog(10)
    }

    /// Returns `true` if `self` is the minimum representable value.
    pub fn is_min(self) -> (r: bool)
        ensures
            r == (self@ == u128::MIN),
    {
        self.0 == u128::MIN
    }

    /// Returns `true` if `self` is the maximum representable value.
    pub fn is_max(self) -> (r: bool)
        ensures
            r == (self@ == u128::MAX),
    {
        self.0 == u128::MAX
    }

    /// Returns `true` if `self` is zero.
    pub fn is_zero(self) -> (r: bool)
        ensures
            r == (self@ == 0),
    {
        self.0 == 0
    }

    /// Returns `true` if `self` is one.
    pub fn is_one(self) -> (r: bool)
        ensures
            r == (self@ == 1),
    {
        self.0 == 1
    }


    /// Computes the absolute difference between `self` and `rhs`.
    pub fn abs_diff(self, rhs: Su128) -> (r: Su128)
        ensures
            r@ == abs_int(self@ - rhs@),
    {
        if self.0 >= rhs.0 {
            Su128(self.0 - rhs.0)
        } else {
            Su128(rhs.0 - self.0)
        }
    }

    /// Returns `true` if `self` is a power of two.
    pub fn is_power_of_two(self) -> (r: bool)
        ensures
            r == is_power_of_two(self@ as nat),
    {
        is_power_of_two_magnitude(self.0 as u128)
    }

    /// Returns the smallest power of two greater than or equal to `self`,
    /// saturating at `MAX` if the primitive operation would overflow.
    pub fn next_power_of_two(self) -> (r: Su128)
        ensures
            r@ == (if next_power_of_two(self@ as nat) <= u128::MAX {
                next_power_of_two(self@ as nat) as int
            } else {
                u128::MAX as int
            }),
    {
        match self.checked_next_power_of_two() {
            Some(v) => v,
            None => Self::MAX(),
        }
    }

    /// Returns the smallest power of two greater than or equal to `self`,
    /// or `None` if the primitive operation would overflow.
    pub fn checked_next_power_of_two(self) -> (r: Option<Su128>)
        ensures
            r is None <==> next_power_of_two(self@ as nat) > u128::MAX,
            r matches Some(x) ==> x@ == next_power_of_two(self@ as nat),
    {
        match next_power_of_two_magnitude(self.0 as u128, u128::MAX as u128) {
            Some(p) => Some(Self::from_magnitude(false, p)),
            None => None,
        }
    }

    /// Returns the integer square root.
    pub fn isqrt(self) -> (r: Su128)
        ensures
            r@ * r@ <= self@ < (r@ + 1) * (r@ + 1),
    {
        let s = isqrt_magnitude(self.0 as u128);
        proof {
            lemma_isqrt_bound(s as int, self@);
        }
        Self::from_magnitude(false, s)
    }

    /// Converts to the same-width signed wrapper, saturating values above its `MAX`.
    pub fn to_signed(self) -> (r: Si128)
        ensures
            r@ == (if self@ > i128::MAX {
                i128::MAX as int
            } else {
                self@
            }),
    {
        Si128::from_magnitude(false, self.0 as u128)
    }

}

/// Creates a [`Su128`] from an inner [`u128`] value.
pub fn su128(value: u128) -> (r: Su128)
    ensures
        r@ == value,
{
    Su128::new(value)
}

impl Default for Su128 {
    fn default() -> (r: Su128)
        ensures
            r@ == 0,
    {
        Su128(0)
    }
}

impl From<u128> for Su128 {
    fn from(value: u128) -> (r: Su128)
        ensures
            r@ == value,
    {
        Su128(value)
    }
}

impl FromSpecImpl<u128> for Su128 {
    open spec fn obeys_from_spec() -> bool {
        true
    }

    open spec fn from_spec(v: u128) -> Su128 {
        Su128::new(v)
    }
}

impl From<Su128> for u128 {
    fn from(value: Su128) -> (r: u128)
        ensures
            r == value@,
    {
        value.0
    }
}

impl FromSpecImpl<Su128> for u128 {
    open spec fn obeys_from_spec() -> bool {
        true
    }

    open spec fn from_spec(v: Su128) -> u128 {
        v.into_inner()
    }
}

impl PartialEq<u128> for Su128 {
    fn eq(&self, other: &u128) -> (r: bool) {
        self.0 == *other
    }
}

impl PartialEqSpecImpl<u128> for Su128 {
    open spec fn obeys_eq_spec() -> bool {
        true
    }

    open spec fn eq_spec(&self, other: &u128) -> bool {
        self.into_inner() == *other
    }
}

impl PartialEq<Su128> for u128 {
    fn eq(&self, other: &Su128) -> (r: bool) {
        *self == other.0
    }
}

impl PartialEqSpecImpl<Su128> for u128 {
    open spec fn obeys_eq_spec() -> bool {
        true
    }

    open spec fn eq_spec(&self, other: &Su128) -> bool {
        *self == other.into_inner()
    }
}

impl PartialOrd<u128> for Su128 {
    fn partial_cmp(&self, other: &u128) -> (r: Option<Ordering>) {
        if self.0 < *other {
            Some(Ordering::Less)
        } else if self.0 > *other {
            Some(Ordering::Greater)
        } else {
            Some(Ordering::Equal)
        }
    }
}

impl PartialOrdSpecImpl<u128> for Su128 {
    open spec fn obeys_partial_cmp_spec() -> bool {
        true
    }

    open spec fn partial_cmp_spec(&self, other: &u128) -> Option<Ordering> {
        if self.into_inner() < *other {
            Some(Ordering::Less)
        } else if self.into_inner() > *other {
            Some(Ordering::Greater)
        } else {
            Some(Ordering::Equal)
        }
    }
}

impl PartialOrd<Su128> for u128 {
    fn partial_cmp(&self, other: &Su128) -> (r: Option<Ordering>) {
        if *self < other.0 {
            Some(Ordering::Less)
        } else if *self > other.0 {
            Some(Ordering::Greater)
        } else {
            Some(Ordering::Equal)
        }
    }
}

impl PartialOrdSpecImpl<Su128> for u128 {
    open spec fn obeys_partial_cmp_spec() -> bool {
        true
    }

    open spec fn partial_cmp_spec(&self, other: &Su128) -> Option<Ordering> {
        if *self < other.into_inner() {
            Some(Ordering::Less)
        } else if *self > other.into_inner() {
            Some(Ordering::Greater)
        } else {
            Some(Ordering::Equal)
        }
    }
}

impl BitAnd<Su128> for Su128 {
    type Output = Su128;

    fn bitand(self, rhs: Su128) -> (r: Su128)
        ensures
            r.into_inner() == self.into_inner() & rhs.into_inner(),
    {
        Su128(self.0 & rhs.0)
    }
}

impl BitAndSpecImpl<Su128> for Su128 {
    open spec fn obeys_bitand_spec() -> bool {
        true
    }

    open spec fn bitand_req(self, rhs: Su128) -> bool {
        true
    }

    open spec fn bitand_spec(self, rhs: Su128) -> Su128 {
        Su128::new(self.into_inner() & rhs.into_inner())
    }
}

impl BitAndAssign<Su128> for Su128 {
    fn bitand_assign(&mut self, rhs: Su128)
        ensures
            final(self).into_inner() == old(self).into_inner() & rhs.into_inner(),
    {
        *self = Su128(self.0 & rhs.0);
    }
}

impl BitAnd<u128> for Su128 {
    type Output = Su128;

    fn bitand(self, rhs: u128) -> (r: Su128)
        ensures
            r.into_inner() == self.into_inner() & rhs,
    {
        Su128(self.0 & rhs)
    }
}

impl BitAndSpecImpl<u128> for Su128 {
    open spec fn obeys_bitand_spec() -> bool {
        true
    }

    open spec fn bitand_req(self, rhs: u128) -> bool {
        true
    }

    open spec fn bitand_spec(self, rhs: u128) -> Su128 {
        Su128::new(self.into_inner() & rhs)
    }
}

impl BitAndAssign<u128> for Su128 {
    fn bitand_assign(&mut self, rhs: u128)
        ensures
            final(self).into_inner() == old(self).into_inner() & rhs,
    {
        *self = Su128(self.0 & rhs);
    }
}

impl BitOr<Su128> for Su128 {
    type Output = Su128;

    fn bitor(self, rhs: Su128) -> (r: Su128)
        ensures
            r.into_inner() == self.into_inner() | rhs.into_inner(),
    {
        Su128(self.0 | rhs.0)
    }
}

impl BitOrSpecImpl<Su128> for Su128 {
    open spec fn obeys_bitor_spec() -> bool {
        true
    }

    open spec fn bitor_req(self, rhs: Su128) -> bool {
        true
    }

    open spec fn bitor_spec(self, rhs: Su128) -> Su128 {
        Su128::new(self.into_inner() | rhs.into_inner())
    }
}

impl BitOrAssign<Su128> for Su128 {
    fn bitor_assign(&mut self, rhs: Su128)
        ensures
            final(self).into_inner() == old(self).into_inner() | rhs.into_inner(),
    {
        *self = Su128(self.0 | rhs.0);
    }
}

impl BitOr<u128> for Su128 {
    type Output = Su128;

    fn bitor(self, rhs: u128) -> (r: Su128)
        ensures
            r.into_inner() == self.into_inner() | rhs,
    {
        Su128(self.0 | rhs)
    }
}

impl BitOrSpecImpl<u128> for Su128 {
    open spec fn obeys_bitor_spec() -> bool {
        true
    }

    open spec fn bitor_req(self, rhs: u128) -> bool {
        true
    }

    open spec fn bitor_spec(self, rhs: u128) -> Su128 {
        Su128::new(self.into_inner() | rhs)
    }
}

impl BitOrAssign<u128> for Su128 {
    fn bitor_assign(&mut self, rhs: u128)
        ensures
            final(self).into_inner() == old(self).into_inner() | rhs,
    {
        *self = Su128(self.0 | rhs);
    }
}

impl BitXor<Su128> for Su128 {
    type Output = Su128;

    fn bitxor(self, rhs: Su128) -> (r: Su128)
        ensures
            r.into_inner() == self.into_inner() ^ rhs.into_inner(),
    {
        Su128(self.0 ^ rhs.0)
    }
}

impl BitXorSpecImpl<Su128> for Su128 {
    open spec fn obeys_bitxor_spec() -> bool {
        true
    }

    open spec fn bitxor_req(self, rhs: Su128) -> bool {
        true
    }

    open spec fn bitxor_spec(self, rhs: Su128) -> Su128 {
        Su128::new(self.into_inner() ^ rhs.into_inner())
    }
}

impl BitXorAssign<Su128> for Su128 {
    fn bitxor_assign(&mut self, rhs: Su128)
        ensures
            final(self).into_inner() == old(self).into_inner() ^ rhs.into_inner(),
    {
        *self = Su128(self.0 ^ rhs.0);
    }
}

impl BitXor<u128> for Su128 {
    type Output = Su128;

    fn bitxor(self, rhs: u128) -> (r: Su128)
        ensures
            r.into_inner() == self.into_inner() ^ rhs,
    {
        Su128(self.0 ^ rhs)
    }
}

impl BitXorSpecImpl<u128> for Su128 {
    open spec fn obeys_bitxor_spec() -> bool {
        true
    }

    open spec fn bitxor_req(self, rhs: u128) -> bool {
        true
    }

    open spec fn bitxor_spec(self, rhs: u128) -> Su128 {
        Su128::new(self.into_inner() ^ rhs)
    }
}

impl BitXorAssign<u128> for Su128 {
    fn bitxor_assign(&mut self, rhs: u128)
        ensures
            final(self).into_inner() == old(self).into_inner() ^ rhs,
    {
        *self = Su128(self.0 ^ rhs);
    }
}

impl Not for Su128 {
    type Output = Su128;

    fn not(self) -> (r: Su128)
        ensures
            r.into_inner() == !self.into_inner(),
    {
        Su128(!self.0)
    }
}

impl NotSpecImpl for Su128 {
    open spec fn obeys_not_spec() -> bool {
        true
    }

    open spec fn not_req(self) -> bool {
        true
    }

    open spec fn not_spec(self) -> Su128 {
        Su128::new(!self.into_inner())
    }
}

/// A saturating wrapper around [`usize`]: its arithmetic clamps to the range of
/// [`usize`] instead of overflowing.
#[derive(Clone, Copy, Debug, PartialEq, Eq, Structural, PartialOrd, Ord, Hash)]
pub struct Susize(usize);

impl View for Susize {
    type V = int;

    closed spec fn view(&self) -> int {
        self.0 as int
    }
}

/// The inner value of a [`Susize`] is its view.
pub broadcast proof fn lemma_susize_inner(x: Susize)
    ensures
        #[trigger] x.into_inner() as int == x@,
{
}

/// A [`Susize`] is made of the value it was made from.
pub broadcast proof fn lemma_susize_new(v: usize)
    ensures
        #[trigger] Susize::new(v)@ == v as int,
{
}

impl Sealed for Susize {
}

impl Integer for Susize {
    open spec fn value(self) -> int {
        self@
    }

    open spec fn lower() -> int {
        usize::MIN as int
    }

    open spec fn upper() -> int {
        usize::MAX as int
    }

    open spec fn width() -> nat {
        usize::BITS as nat
    }

    open spec fn is_signed() -> bool {
        false
    }

    open spec fn of_value(v: int) -> Susize {
        Susize::new(v as usize)
    }

    proof fn lemma_value(self) {
    }

    proof fn lemma_of_value(v: int) {
    }

    proof fn lemma_layout() {
        usize::lemma_layout();
    }

    fn bits() -> (r: u32) {
        usize::bits()
    }

    fn signed_type() -> (r: bool) {
        usize::signed_type()
    }

    fn magnitude(self) -> (r: (bool, u128)) {
        self.0.magnitude()
    }

    fn from_magnitude(negative: bool, magnitude: u128) -> (r: Susize) {
        Susize(usize::from_magnitude(negative, magnitude))
    }
}

impl UnsignedInteger for Susize {
    proof fn lemma_nonnegative() {
    }
}

impl Susize {
    /// The size of this scalar type in bits.
    pub const BITS: u32 = usize::BITS;

    /// The minimum representable value for this scalar type.
    #[allow(non_snake_case)]
    pub fn MIN() -> (r: Susize)
        ensures
            r@ == usize::MIN,
    {
        Susize(usize::MIN)
    }

    /// The maximum representable value for this scalar type.
    #[allow(non_snake_case)]
    pub fn MAX() -> (r: Susize)
        ensures
            r@ == usize::MAX,
    {
        Susize(usize::MAX)
    }

    /// The additive identity value.
    #[allow(non_snake_case)]
    pub fn ZERO() -> (r: Susize)
        ensures
            r@ == 0,
    {
        Susize(0)
    }

    /// The multiplicative identity value.
    #[allow(non_snake_case)]
    pub fn ONE() -> (r: Susize)
        ensures
            r@ == 1,
    {
        Susize(1)
    }

    /// The wrapper that holds `value`.
    pub closed spec fn spec_new(value: usize) -> Susize {
        Susize(value)
    }

    /// Creates a new [`Susize`] from an inner [`usize`] value.
    #[verifier::when_used_as_spec(spec_new)]
    pub fn new(value: usize) -> (r: Susize)
        ensures
            r == Susize::spec_new(value),
            r@ == value,
    {
        Susize(value)
    }

    /// The wrapped value.
    pub closed spec fn spec_into_inner(self) -> usize {
        self.0
    }

    /// Returns the wrapped [`usize`] value.
    #[verifier::when_used_as_spec(spec_into_inner)]
    pub fn into_inner(self) -> (r: usize)
        ensures
            r == self.spec_into_inner(),
            r == self@,
    {
        self.0
    }

    /// Returns the number of ones in the binary representation.
    pub fn count_ones(self) -> (r: u32)
        ensures
            r == popcount(pattern_of(self@, usize::BITS as nat), usize::BITS as nat),
    {
        count_ones_pattern(to_pattern(self), Self::bits())
    }

    /// Returns the number of zeros in the binary representation.
    pub fn count_zeros(self) -> (r: u32)
        ensures
            r == usize::BITS as nat - popcount(pattern_of(self@, usize::BITS as nat), usize::BITS as nat),
    {
        proof {
            lemma_popcount_bound(pattern_of(self@, usize::BITS as nat), usize::BITS as nat);
        }
        Self::bits() - count_ones_pattern(to_pattern(self), Self::bits())
    }

    /// Returns the number of leading zeros in the binary representation.
    pub fn leading_zeros(self) -> (r: u32)
        ensures
            r == usize::BITS as nat - bit_length(pattern_of(self@, usize::BITS as nat)),
    {
        let p = to_pattern(self);
        proof {
            lemma_bit_length_bound(p as nat, usize::BITS as nat);
        }
        Self::bits() - bit_length_pattern(p)
    }

    /// Returns the number of leading ones in the binary representation.
    pub fn leading_ones(self) -> (r: u32)
        ensures
            r == usize::BITS as nat - bit_length(complement(pattern_of(self@, usize::BITS as nat), usize::BITS as nat)),
    {
        let p = to_pattern(self);
        proof {
            Self::lemma_layout();
            lemma_complement_bound(p as nat, usize::BITS as nat);
            lemma_bit_length_bound(complement(p as nat, usize::BITS as nat), usize::BITS as nat);
        }
        Self::bits() - bit_length_pattern(low_mask(Self::bits()) - p)
    }

    /// Returns the number of trailing zeros in the binary representation.
    pub fn trailing_zeros(self) -> (r: u32)
        ensures
            r == trailing_zero_count(pattern_of(self@, usize::BITS as nat), usize::BITS as nat),
    {
        trailing_zeros_pattern(to_pattern(self), Self::bits())
    }

    /// Returns the number of trailing ones in the binary representation.
    pub fn trailing_ones(self) -> (r: u32)
        ensures
            r == trailing_zero_count(complement(pattern_of(self@, usize::BITS as nat), usize::BITS as nat), usize::BITS as nat),
    {
        let p = to_pattern(self);
        proof {
            Self::lemma_layout();
        }
        trailing_zeros_pattern(low_mask(Self::bits()) - p, Self::bits())
    }

    /// Reverses the order of bits.
    pub fn reverse_bits(self) -> (r: Susize)
        ensures
            r@ == value_of_pattern(reversed_bits(pattern_of(self@, usize::BITS as nat), usize::BITS as nat), usize::BITS as nat, false),
    {
        proof {
            Self::lemma_layout();
        }
        from_pattern(reverse_bits_pattern(to_pattern(self), Self::bits()))
    }

    /// Shifts bits to the left by `n`, wrapping the truncated bits to the end of the result.
    pub fn rotate_left(self, n: u32) -> (r: Susize)
        ensures
            r@ == value_of_pattern(rotated_left(pattern_of(self@, usize::BITS as nat), n as nat, usize::BITS as nat), usize::BITS as nat, false),
    {
        proof {
            Self::lemma_layout();
        }
        from_pattern(rotate_left_pattern(to_pattern(self), n, Self::bits()))
    }

    /// Shifts bits to the right by `n`, wrapping the truncated bits to the beginning of the result.
    pub fn rotate_right(self, n: u32) -> (r: Susize)
        ensures
            r@ == value_of_pattern(rotated_right(pattern_of(self@, usize::BITS as nat), n as nat, usize::BITS as nat), usize::BITS as nat, false),
    {
        proof {
            Self::lemma_layout();
        }
        from_pattern(rotate_right_pattern(to_pattern(self), n, Self::bits()))
    }

    /// Reverses the byte order.
    pub fn swap_bytes(self) -> (r: Susize)
        ensures
            r@ == value_of_pattern(reversed_bytes(pattern_of(self@, usize::BITS as nat), (usize::BITS / 8) as nat), usize::BITS as nat, false),
    {
        proof {
            Self::lemma_layout();
        }
        from_pattern(swap_bytes_pattern(to_pattern(self), Self::bits() / 8))
    }


    /// Divides two scalar values, returning `None` on division by zero.
    pub fn checked_div(self, rhs: Susize) -> (r: Option<Susize>)
        ensures
            r is None <==> rhs@ == 0,
            r matches Some(q) ==> q@ == self@ / rhs@,
    {
        if rhs.0 == 0 {
            None
        } else {
            Some(Susize(self.0 / rhs.0))
        }
    }

    /// Calculates Euclidean division, returning `None` on division by zero.
    pub fn checked_div_euclid(self, rhs: Susize) -> (r: Option<Susize>)
        ensures
            r is None <==> rhs@ == 0,
            r matches Some(q) ==> q@ == self@ / rhs@,
    {
        self.checked_div(rhs)
    }

    /// Calculates the remainder of two scalar values, returning `None` on division by zero.
    pub fn checked_rem(self, rhs: Susize) -> (r: Option<Susize>)
        ensures
            r is None <==> rhs@ == 0,
            r matches Some(x) ==> x@ == self@ % rhs@,
    {
        if rhs.0 == 0 {
            None
        } else {
            Some(Susize(self.0 % rhs.0))
        }
    }

    /// Calculates the least nonnegative remainder, returning `None` on division by zero.
    pub fn checked_rem_euclid(self, rhs: Susize) -> (r: Option<Susize>)
        ensures
            r is None <==> rhs@ == 0,
            r matches Some(x) ==> x@ == self@ % rhs@,
    {
        self.checked_rem(rhs)
    }


    /// Raises `self` to the power of `exp`, saturating at numeric bounds.
    pub fn pow(self, exp: u32) -> (r: Susize)
        ensures
            r@ == clamp(pow(self@, exp as nat), usize::MIN as int, usize::MAX as int),
    {
        let (negative, a) = self.magnitude();
        let (n, m) = pow_magnitudes(negative, a, exp);
        proof {
            lemma_represents_clamp(n, m, pow(self@, exp as nat), usize::MIN as int, usize::MAX as int);
        }
        Self::from_magnitude(n, m)
    }

    /// Returns the base-`base` logarithm, or `None` if the logarithm is undefined.
    pub fn checked_ilog(self, base: usize) -> (r: Option<u32>)
        ensures
            r is None <==> self@ <= 0 || base < 2,
            r matches Some(k) ==> pow(base as int, k as nat) <= self@ < pow(base as int, (k + 1) as nat),
    {
        if self.0 <= 0 || base < 2 {
            None
        } else {
            Some(ilog_magnitude(self.0 as u128, base as u128))
        }
    }

    /// Returns the base-2 logarithm, or `None` if the logarithm is undefined.
    pub fn checked_ilog2(self) -> (r: Option<u32>)
        ensures
            r is None <==> self@ <= 0,
            r matches Some(k) ==> pow(2, k as nat) <= self@ < pow(2, (k + 1) as nat),
    {
        self.checked_ilog(2)
    }

    /// Returns the base-10 logarithm, or `None` if the logarithm is undefined.
    pub fn checked_ilog10(self) -> (r: Option<u32>)
        ensures
            r is None <==> self@ <= 0,
            r matches Some(k) ==> pow(10, k as nat) <= self@ < pow(10, (k + 1) as nat),
    {
        self.checked_ilog(10)
    }

    /// Returns `true` if `self` is the minimum representable value.
    pub fn is_min(self) -> (r: bool)
        ensures
            r == (self@ == usize::MIN),
    {
        self.0 == usize::MIN
    }

    /// Returns `true` if `self` is the maximum representable value.
    pub fn is_max(self) -> (r: bool)
        ensures
            r == (self@ == usize::MAX),
    {
        self.0 == usize::MAX
    }

    /// Returns `true` if `self` is zero.
    pub fn is_zero(self) -> (r: bool)
        ensures
            r == (self@ == 0),
    {
        self.0 == 0
    }

    /// Returns `true` if `self` is one.
    pub fn is_one(self) -> (r: bool)
        ensures
            r == (self@ == 1),
    {
        self.0 == 1
    }


    /// Computes the absolute difference between `self` and `rhs`.
    pub fn abs_diff(self, rhs: Susize) -> (r: Susize)
        ensures
            r@ == abs_int(self@ - rhs@),
    {
        if self.0 >= rhs.0 {
            Susize(self.0 - rhs.0)
        } else {
            Susize(rhs.0 - self.0)
        }
    }

    /// Returns `true` if `self` is a power of two.
    pub fn is_power_of_two(self) -> (r: bool)
        ensures
            r == is_power_of_two(self@ as nat),
    {
        is_power_of_two_magnitude(self.0 as u128)
    }

    /// Returns the smallest power of two greater than or equal to `self`,
    /// saturating at `MAX` if the primitive operation would overflow.
    pub fn next_power_of_two(self) -> (r: Susize)
        ensures
            r@ == (if next_power_of_two(self@ as nat) <= usize::MAX {
                next_power_of_two(self@ as nat) as int
            } else {
                usize::MAX as int
            }),
    {
        match self.checked_next_power_of_two() {
            Some(v) => v,
            None => Self::MAX(),
        }
    }

    /// Returns the smallest power of two greater than or equal to `self`,
    /// or `None` if the primitive operation would overflow.
    pub fn checked_next_power_of_two(self) -> (r: Option<Susize>)
        ensures
            r is None <==> next_power_of_two(self@ as nat) > usize::MAX,
            r matches Some(x) ==> x@ == next_power_of_two(self@ as nat),
    {
        match next_power_of_two_magnitude(self.0 as u128, usize::MAX as u128) {
            Some(p) => Some(Self::from_magnitude(false, p)),
            None => None,
        }
    }

    /// Returns the integer square root.
    pub fn isqrt(self) -> (r: Susize)
        ensures
            r@ * r@ <= self@ < (r@ + 1) * (r@ + 1),
    {
        let s = isqrt_magnitude(self.0 as u128);
        proof {
            lemma_isqrt_bound(s as int, self@);
        }
        Self::from_magnitude(false, s)
    }

    /// Converts to the same-width signed wrapper, saturating values above its `MAX`.
    pub fn to_signed(self) -> (r: Sisize)
        ensures
            r@ == (if self@ > isize::MAX {
                isize::MAX as int
            } else {
                self@
            }),
    {
        Sisize::from_magnitude(false, self.0 as u128)
    }

}

/// Creates a [`Susize`] from an inner [`usize`] value.
pub fn susize(value: usize) -> (r: Susize)
    ensures
        r@ == value,
{
    Susize::new(value)
}

impl Default for Susize {
    fn default() -> (r: Susize)
        ensures
            r@ == 0,
    {
        Susize(0)
    }
}

impl From<usize> for Susize {
    fn from(value: usize) -> (r: Susize)
        ensures
            r@ == value,
    {
        Susize(value)
    }
}

impl FromSpecImpl<usize> for Susize {
    open spec fn obeys_from_spec() -> bool {
        true
    }

    open spec fn from_spec(v: usize) -> Susize {
        Susize::new(v)
    }
}

impl From<Susize> for usize {
    fn from(value: Susize) -> (r: usize)
        ensures
            r == value@,
    {
        value.0
    }
}

impl FromSpecImpl<Susize> for usize {
    open spec fn obeys_from_spec() -> bool {
        true
    }

    open spec fn from_spec(v: Susize) -> usize {
        v.into_inner()
    }
}

impl PartialEq<usize> for Susize {
    fn eq(&self, other: &usize) -> (r: bool) {
        self.0 == *other
    }
}

impl PartialEqSpecImpl<usize> for Susize {
    open spec fn obeys_eq_spec() -> bool {
        true
    }

    open spec fn eq_spec(&self, other: &usize) -> bool {
        self.into_inner() == *other
    }
}

impl PartialEq<Susize> for usize {
    fn eq(&self, other: &Susize) -> (r: bool) {
        *self == other.0
    }
}

impl PartialEqSpecImpl<Susize> for usize {
    open spec fn obeys_eq_spec() -> bool {
        true
    }

    open spec fn eq_spec(&self, other: &Susize) -> bool {
        *self == other.into_inner()
    }
}

impl PartialOrd<usize> for Susize {
    fn partial_cmp(&self, other: &usize) -> (r: Option<Ordering>) {
        if self.0 < *other {
            Some(Ordering::Less)
        } else if self.0 > *other {
            Some(Ordering::Greater)
        } else {
            Some(Ordering::Equal)
        }
    }
}

impl PartialOrdSpecImpl<usize> for Susize {
    open spec fn obeys_partial_cmp_spec() -> bool {
        true
    }

    open spec fn partial_cmp_spec(&self, other: &usize) -> Option<Ordering> {
        if self.into_inner() < *other {
            Some(Ordering::Less)
        } else if self.into_inner() > *other {
            Some(Ordering::Greater)
        } else {
            Some(Ordering::Equal)
        }
    }
}

impl PartialOrd<Susize> for usize {
    fn partial_cmp(&self, other: &Susize) -> (r: Option<Ordering>) {
        if *self < other.0 {
            Some(Ordering::Less)
        } else if *self > other.0 {
            Some(Ordering::Greater)
        } else {
            Some(Ordering::Equal)
        }
    }
}

impl PartialOrdSpecImpl<Susize> for usize {
    open spec fn obeys_partial_cmp_spec() -> bool {
        true
    }

    open spec fn partial_cmp_spec(&self, other: &Susize) -> Option<Ordering> {
        if *self < other.into_inner() {
            Some(Ordering::Less)
        } else if *self > other.into_inner() {
            Some(Ordering::Greater)
        } else {
            Some(Ordering::Equal)
        }
    }
}

impl BitAnd<Susize> for Susize {
    type Output = Susize;

    fn bitand(self, rhs: Susize) -> (r: Susize)
        ensures
            r.into_inner() == self.into_inner() & rhs.into_inner(),
    {
        Susize(self.0 & rhs.0)
    }
}

impl BitAndSpecImpl<Susize> for Susize {
    open spec fn obeys_bitand_spec() -> bool {
        true
    }

    open spec fn bitand_req(self, rhs: Susize) -> bool {
        true
    }

    open spec fn bitand_spec(self, rhs: Susize) -> Susize {
        Susize::new(self.into_inner() & rhs.into_inner())
    }
}

impl BitAndAssign<Susize> for Susize {
    fn bitand_assign(&mut self, rhs: Susize)
        ensures
            final(self).into_inner() == old(self).into_inner() & rhs.into_inner(),
    {
        *self = Susize(self.0 & rhs.0);
    }
}

impl BitAnd<usize> for Susize {
    type Output = Susize;

    fn bitand(self, rhs: usize) -> (r: Susize)
        ensures
            r.into_inner() == self.into_inner() & rhs,
    {
        Susize(self.0 & rhs)
    }
}

impl BitAndSpecImpl<usize> for Susize {
    open spec fn obeys_bitand_spec() -> bool {
        true
    }

    open spec fn bitand_req(self, rhs: usize) -> bool {
        true
    }

    open spec fn bitand_spec(self, rhs: usize) -> Susize {
        Susize::new(self.into_inner() & rhs)
    }
}

impl BitAndAssign<usize> for Susize {
    fn bitand_assign(&mut self, rhs: usize)
        ensures
            final(self).into_inner() == old(self).into_inner() & rhs,
    {
        *self = Susize(self.0 & rhs);
    }
}

impl BitOr<Susize> for Susize {
    type Output = Susize;

    fn bitor(self, rhs: Susize) -> (r: Susize)
        ensures
            r.into_inner() == self.into_inner() | rhs.into_inner(),
    {
        Susize(self.0 | rhs.0)
    }
}

impl BitOrSpecImpl<Susize> for Susize {
    open spec fn obeys_bitor_spec() -> bool {
        true
    }

    open spec fn bitor_req(self, rhs: Susize) -> bool {
        true
    }

    open spec fn bitor_spec(self, rhs: Susize) -> Susize {
        Susize::new(self.into_inner() | rhs.into_inner())
    }
}

impl BitOrAssign<Susize> for Susize {
    fn bitor_assign(&mut self, rhs: Susize)
        ensures
            final(self).into_inner() == old(self).into_inner() | rhs.into_inner(),
    {
        *self = Susize(self.0 | rhs.0);
    }
}

impl BitOr<usize> for Susize {
    type Output = Susize;

    fn bitor(self, rhs: usize) -> (r: Susize)
        ensures
            r.into_inner() == self.into_inner() | rhs,
    {
        Susize(self.0 | rhs)
    }
}

impl BitOrSpecImpl<usize> for Susize {
    open spec fn obeys_bitor_spec() -> bool {
        true
    }

    open spec fn bitor_req(self, rhs: usize) -> bool {
        true
    }

    open spec fn bitor_spec(self, rhs: usize) -> Susize {
        Susize::new(self.into_inner() | rhs)
    }
}

impl BitOrAssign<usize> for Susize {
    fn bitor_assign(&mut self, rhs: usize)
        ensures
            final(self).into_inner() == old(self).into_inner() | rhs,
    {
        *self = Susize(self.0 | rhs);
    }
}

impl BitXor<Susize> for Susize {
    type Output = Susize;

    fn bitxor(self, rhs: Susize) -> (r: Susize)
        ensures
            r.into_inner() == self.into_inner() ^ rhs.into_inner(),
    {
        Susize(self.0 ^ rhs.0)
    }
}

impl BitXorSpecImpl<Susize> for Susize {
    open spec fn obeys_bitxor_spec() -> bool {
        true
    }

    open spec fn bitxor_req(self, rhs: Susize) -> bool {
        true
    }

    open spec fn bitxor_spec(self, rhs: Susize) -> Susize {
        Susize::new(self.into_inner() ^ rhs.into_inner())
    }
}

impl BitXorAssign<Susize> for Susize {
    fn bitxor_assign(&mut self, rhs: Susize)
        ensures
            final(self).into_inner() == old(self).into_inner() ^ rhs.into_inner(),
    {
        *self = Susize(self.0 ^ rhs.0);
    }
}

impl BitXor<usize> for Susize {
    type Output = Susize;

    fn bitxor(self, rhs: usize) -> (r: Susize)
        ensures
            r.into_inner() == self.into_inner() ^ rhs,
    {
        Susize(self.0 ^ rhs)
    }
}

impl BitXorSpecImpl<usize> for Susize {
    open spec fn obeys_bitxor_spec() -> bool {
        true
    }

    open spec fn bitxor_req(self, rhs: usize) -> bool {
        true
    }

    open spec fn bitxor_spec(self, rhs: usize) -> Susize {
        Susize::new(self.into_inner() ^ rhs)
    }
}

impl BitXorAssign<usize> for Susize {
    fn bitxor_assign(&mut self, rhs: usize)
        ensures
            final(self).into_inner() == old(self).into_inner() ^ rhs,
    {
        *self = Susize(self.0 ^ rhs);
    }
}

impl Not for Susize {
    type Output = Susize;

    fn not(self) -> (r: Susize)
        ensures
            r.into_inner() == !self.into_inner(),
    {
        Susize(!self.0)
    }
}

impl NotSpecImpl for Susize {
    open spec fn obeys_not_spec() -> bool {
        true
    }

    open spec fn not_req(self) -> bool {
        true
    }

    open spec fn not_spec(self) -> Susize {
        Susize::new(!self.into_inner())
    }
}

} // verus!
