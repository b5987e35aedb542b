//! The integers this crate works with, seen through one interface: their value,
//! their range, their bit width, and a lossless passage to and from a sign and a
//! `u128` magnitude.
use vstd::prelude::*;
use vstd::arithmetic::power2::{pow2, lemma2_to64, lemma2_to64_rest, lemma_pow2_pos};
use crate::bits::{lemma_pow2_le, lemma_pow2_top, magnitude_of_pattern, pattern_of_magnitude};
use crate::math::{abs_int, clamp, pattern_of, signed, value_of_pattern};
use crate::sealed::Sealed;

verus! {

/// A primitive integer or one of the saturating wrappers of this crate.
///
/// The arithmetic of the wrappers accepts any such integer on the right-hand side,
/// and the saturating conversions go between any two of them.
pub trait Integer: Copy + Sealed {
    /// The mathematical value.
    spec fn value(self) -> int;

    /// The least value of the type.
    spec fn lower() -> int;

    /// The greatest value of the type.
    spec fn upper() -> int;

    /// The number of bits in the type's representation.
    spec fn width() -> nat;

    /// Whether the type has negative values.
    spec fn is_signed() -> bool;

    /// The element of the type that has the value `v`, for `v` in range.
    spec fn of_value(v: int) -> Self;

    proof fn lemma_value(self)
        ensures
            Self::lower() <= self.value() <= Self::upper(),
            Self::of_value(self.value()) == self,
    ;

    proof fn lemma_of_value(v: int)
        requires
            Self::lower() <= v <= Self::upper(),
        ensures
            Self::of_value(v).value() == v,
    ;

    proof fn lemma_layout()
        ensures
            1 <= Self::width() <= 128,
            Self::is_signed() ==> Self::lower() == -pow2((Self::width() - 1) as nat) && Self::upper()
                == pow2((Self::width() - 1) as nat) - 1,
            !Self::is_signed() ==> Self::lower() == 0 && Self::upper() == pow2(Self::width()) - 1,
    ;

    /// The number of bits in the type's representation.
    fn bits() -> (r: u32)
        ensures
            r == Self::width(),
    ;

    /// Whether the type has negative values.
    fn signed_type() -> (r: bool)
        ensures
            r == Self::is_signed(),
    ;

    /// The sign and the magnitude of the value.
    fn magnitude(self) -> (r: (bool, u128))
        ensures
            r.0 == (self.value() < 0),
            r.1 == abs_int(self.value()),
    ;

    /// The element nearest to the integer with the given sign and magnitude.
    fn from_magnitude(negative: bool, magnitude: u128) -> (r: Self)
        ensures
            r.value() == clamp(signed(negative, magnitude as nat), Self::lower(), Self::upper()),
    ;
}

/// An [`Integer`] with negative values.
pub trait SignedInteger: Integer {
}

/// An [`Integer`] without negative values.
pub trait UnsignedInteger: Integer {
    proof fn lemma_nonnegative()
        ensures
            Self::lower() == 0,
    ;
}

/// The two's complement bit pattern of `x`.
pub fn to_pattern<T: Integer>(x: T) -> (r: u128)
    ensures
        r == pattern_of(x.value(), T::width()),
        r < pow2(T::width()),
{
    proof {
        x.lemma_value();
        T::lemma_layout();
        lemma_pow2_pos((T::width() - 1) as nat);
        vstd::arithmetic::power2::lemma_pow2_unfold(T::width());
    }
    let (negative, magnitude) = x.magnitude();
    pattern_of_magnitude(negative, magnitude, T::bits())
}

/// The element of `T` whose two's complement bit pattern is `p`.
pub fn from_pattern<T: Integer>(p: u128) -> (r: T)
    requires
        p < pow2(T::width()),
    ensures
        r.value() == value_of_pattern(p as nat, T::width(), T::is_signed()),
{
    proof {
        T::lemma_layout();
        lemma_pow2_pos((T::width() - 1) as nat);
        vstd::arithmetic::power2::lemma_pow2_unfold(T::width());
    }
    let (negative, magnitude) = magnitude_of_pattern(p, T::bits(), T::signed_type());
    T::from_magnitude(negative, magnitude)
}

/// The element of `T` with the given sign and magnitude, when `T` has it.
pub fn from_magnitude_checked<T: Integer>(negative: bool, magnitude: u128) -> (r: Option<T>)
    ensures
        r is None <==> !(T::lower() <= signed(negative, magnitude as nat) <= T::upper()),
        r matches Some(x) ==> x.value() == signed(negative, magnitude as nat),
{
    let x = T::from_magnitude(negative, magnitude);
    let (x_negative, x_magnitude) = x.magnitude();
    if x_magnitude == magnitude && (x_negative == negative || magnitude == 0) {
        Some(x)
    } else {
        None
    }
}

impl Sealed for i8 {}

impl Integer for i8 {
    open spec fn value(self) -> int {
        self as int
    }

    open spec fn lower() -> int {
        i8::MIN as int
    }

    open spec fn upper() -> int {
        i8::MAX as int
    }

    open spec fn width() -> nat {
        8
    }

    open spec fn is_signed() -> bool {
        true
    }

    open spec fn of_value(v: int) -> i8 {
        v as i8
    }

    proof fn lemma_value(self) {
    }

    proof fn lemma_of_value(v: int) {
    }

    proof fn lemma_layout() {
        lemma2_to64();
    }

    fn bits() -> (r: u32) {
        8
    }

    fn signed_type() -> (r: bool) {
        true
    }

    fn magnitude(self) -> (r: (bool, u128)) {
        if self < 0 {
            (true, (-(self + 1)) as u128 + 1)
        } else {
            (false, self as u128)
        }
    }

    fn from_magnitude(negative: bool, magnitude: u128) -> (r: i8) {
        if magnitude > i8::MAX as u128 {
            if negative {
                i8::MIN
            } else {
                i8::MAX
            }
        } else if negative {
            -(magnitude as i8)
        } else {
            magnitude as i8
        }
    }
}

impl SignedInteger for i8 {
}

impl Sealed for i16 {}

impl Integer for i16 {
    open spec fn value(self) -> int {
        self as int
    }

    open spec fn lower() -> int {
        i16::MIN as int
    }

    open spec fn upper() -> int {
        i16::MAX as int
    }

    open spec fn width() -> nat {
        16
    }

    open spec fn is_signed() -> bool {
        true
    }

    open spec fn of_value(v: int) -> i16 {
        v as i16
    }

    proof fn lemma_value(self) {
    }

    proof fn lemma_of_value(v: int) {
    }

    proof fn lemma_layout() {
        lemma2_to64();
    }

    fn bits() -> (r: u32) {
        16
    }

    fn signed_type() -> (r: bool) {
        true
    }

    fn magnitude(self) -> (r: (bool, u128)) {
        if self < 0 {
            (true, (-(self + 1)) as u128 + 1)
        } else {
            (false, self as u128)
        }
    }

    fn from_magnitude(negative: bool, magnitude: u128) -> (r: i16) {
        if magnitude > i16::MAX as u128 {
            if negative {
                i16::MIN
            } else {
                i16::MAX
            }
        } else if negative {
            -(magnitude as i16)
        } else {
            magnitude as i16
        }
    }
}

impl SignedInteger for i16 {
}

impl Sealed for i32 {}

impl Integer for i32 {
    open spec fn value(self) -> int {
        self as int
    }

    open spec fn lower() -> int {
        i32::MIN as int
    }

    open spec fn upper() -> int {
        i32::MAX as int
    }

    open spec fn width() -> nat {
        32
    }

    open spec fn is_signed() -> bool {
        true
    }

    open spec fn of_value(v: int) -> i32 {
        v as i32
    }

    proof fn lemma_value(self) {
    }

    proof fn lemma_of_value(v: int) {
    }

    proof fn lemma_layout() {
        lemma2_to64();
    }

    fn bits() -> (r: u32) {
        32
    }

    fn signed_type() -> (r: bool) {
        true
    }

    fn magnitude(self) -> (r: (bool, u128)) {
        if self < 0 {
            (true, (-(self + 1)) as u128 + 1)
        } else {
            (false, self as u128)
        }
    }

    fn from_magnitude(negative: bool, magnitude: u128) -> (r: i32) {
        if magnitude > i32::MAX as u128 {
            if negative {
                i32::MIN
            } else {
                i32::MAX
            }
        } else if negative {
            -(magnitude as i32)
        } else {
            magnitude as i32
        }
    }
}

impl SignedInteger for i32 {
}

impl Sealed for i64 {}

impl Integer for i64 {
    open spec fn value(self) -> int {
        self as int
    }

    open spec fn lower() -> int {
        i64::MIN as int
    }

    open spec fn upper() -> int {
        i64::MAX as int
    }

    open spec fn width() -> nat {
        64
    }

    open spec fn is_signed() -> bool {
        true
    }

    open spec fn of_value(v: int) -> i64 {
        v as i64
    }

    proof fn lemma_value(self) {
    }

    proof fn lemma_of_value(v: int) {
    }

    proof fn lemma_layout() {
        lemma2_to64();
        lemma2_to64_rest();
    }

    fn bits() -> (r: u32) {
        64
    }

    fn signed_type() -> (r: bool) {
        true
    }

    fn magnitude(self) -> (r: (bool, u128)) {
        if self < 0 {
            (true, (-(self + 1)) as u128 + 1)
        } else {
            (false, self as u128)
        }
    }

    fn from_magnitude(negative: bool, magnitude: u128) -> (r: i64) {
        if magnitude > i64::MAX as u128 {
            if negative {
                i64::MIN
            } else {
                i64::MAX
            }
        } else if negative {
            -(magnitude as i64)
        } else {
            magnitude as i64
        }
    }
}

impl SignedInteger for i64 {
}

impl Sealed for i128 {}

impl Integer for i128 {
    open spec fn value(self) -> int {
        self as int
    }

    open spec fn lower() -> int {
        i128::MIN as int
    }

    open spec fn upper() -> int {
        i128::MAX as int
    }

    open spec fn width() -> nat {
        128
    }

    open spec fn is_signed() -> bool {
        true
    }

    open spec fn of_value(v: int) -> i128 {
        v as i128
    }

    proof fn lemma_value(self) {
    }

    proof fn lemma_of_value(v: int) {
    }

    proof fn lemma_layout() {
        lemma_pow2_top();
    }

    fn bits() -> (r: u32) {
        128
    }

    fn signed_type() -> (r: bool) {
        true
    }

    fn magnitude(self) -> (r: (bool, u128)) {
        if self < 0 {
            (true, (-(self + 1)) as u128 + 1)
        } else {
            (false, self as u128)
        }
    }

    fn from_magnitude(negative: bool, magnitude: u128) -> (r: i128) {
        if magnitude > i128::MAX as u128 {
            if negative {
                i128::MIN
            } else {
                i128::MAX
            }
        } else if negative {
            -(magnitude as i128)
        } else {
            magnitude as i128
        }
    }
}

impl SignedInteger for i128 {
}

impl Sealed for isize {}

impl Integer for isize {
    open spec fn value(self) -> int {
        self as int
    }

    open spec fn lower() -> int {
        isize::MIN as int
    }

    open spec fn upper() -> int {
        isize::MAX as int
    }

    open spec fn width() -> nat {
        usize::BITS as nat
    }

    open spec fn is_signed() -> bool {
        true
    }

    open spec fn of_value(v: int) -> isize {
        v as isize
    }

    proof fn lemma_value(self) {
    }

    proof fn lemma_of_value(v: int) {
    }

    proof fn lemma_layout() {
        lemma2_to64();
        lemma2_to64_rest();
    }

    fn bits() -> (r: u32) {
        usize::BITS
    }

    fn signed_type() -> (r: bool) {
        true
    }

    fn magnitude(self) -> (r: (bool, u128)) {
        if self < 0 {
            (true, (-(self + 1)) as u128 + 1)
        } else {
            (false, self as u128)
        }
    }

    fn from_magnitude(negative: bool, magnitude: u128) -> (r: isize) {
        if magnitude > isize::MAX as u128 {
            if negative {
                isize::MIN
            } else {
                isize::MAX
            }
        } else if negative {
            -(magnitude as isize)
        } else {
            magnitude as isize
        }
    }
}

impl SignedInteger for isize {
}

impl Sealed for u8 {}

impl Integer for u8 {
    open spec fn value(self) -> int {
        self as int
    }

    open spec fn lower() -> int {
        u8::MIN as int
    }

    open spec fn upper() -> int {
        u8::MAX as int
    }

    open spec fn width() -> nat {
        8
    }

    open spec fn is_signed() -> bool {
        false
    }

    open spec fn of_value(v: int) -> u8 {
        v as u8
    }

    proof fn lemma_value(self) {
    }

    proof fn lemma_of_value(v: int) {
    }

    proof fn lemma_layout() {
        lemma2_to64();
    }

    fn bits() -> (r: u32) {
        8
    }

    fn signed_type() -> (r: bool) {
        false
    }

    fn magnitude(self) -> (r: (bool, u128)) {
        (false, self as u128)
    }

    fn from_magnitude(negative: bool, magnitude: u128) -> (r: u8) {
        if negative {
            0
        } else if magnitude > u8::MAX as u128 {
            u8::MAX
        } else {
            magnitude as u8
        }
    }
}

impl UnsignedInteger for u8 {
    proof fn lemma_nonnegative() {
    }
}

impl Sealed for u16 {}

impl Integer for u16 {
    open spec fn value(self) -> int {
        self as int
    }

    open spec fn lower() -> int {
        u16::MIN as int
    }

    open spec fn upper() -> int {
        u16::MAX as int
    }

    open spec fn width() -> nat {
        16
    }

    open spec fn is_signed() -> bool {
        false
    }

    open spec fn of_value(v: int) -> u16 {
        v as u16
    }

    proof fn lemma_value(self) {
    }

    proof fn lemma_of_value(v: int) {
    }

    proof fn lemma_layout() {
        lemma2_to64();
    }

    fn bits() -> (r: u32) {
        16
    }

    fn signed_type() -> (r: bool) {
        false
    }

    fn magnitude(self) -> (r: (bool, u128)) {
        (false, self as u128)
    }

    fn from_magnitude(negative: bool, magnitude: u128) -> (r: u16) {
        if negative {
            0
        } else if magnitude > u16::MAX as u128 {
            u16::MAX
        } else {
            magnitude as u16
        }
    }
}

impl UnsignedInteger for u16 {
    proof fn lemma_nonnegative() {
    }
}

impl Sealed for u32 {}

impl Integer for u32 {
    open spec fn value(self) -> int {
        self as int
    }

    open spec fn lower() -> int {
        u32::MIN as int
    }

    open spec fn upper() -> int {
        u32::MAX as int
    }

    open spec fn width() -> nat {
        32
    }

    open spec fn is_signed() -> bool {
        false
    }

    open spec fn of_value(v: int) -> u32 {
        v as u32
    }

    proof fn lemma_value(self) {
    }

    proof fn lemma_of_value(v: int) {
    }

    proof fn lemma_layout() {
        lemma2_to64();
    }

    fn bits() -> (r: u32) {
        32
    }

    fn signed_type() -> (r: bool) {
        false
    }

    fn magnitude(self) -> (r: (bool, u128)) {
        (false, self as u128)
    }

    fn from_magnitude(negative: bool, magnitude: u128) -> (r: u32) {
        if negative {
            0
        } else if magnitude > u32::MAX as u128 {
            u32::MAX
        } else {
            magnitude as u32
        }
    }
}

impl UnsignedInteger for u32 {
    proof fn lemma_nonnegative() {
    }
}

impl Sealed for u64 {}

impl Integer for u64 {
    open spec fn value(self) -> int {
        self as int
    }

    open spec fn lower() -> int {
        u64::MIN as int
    }

    open spec fn upper() -> int {
        u64::MAX as int
    }

    open spec fn width() -> nat {
        64
    }

    open spec fn is_signed() -> bool {
        false
    }

    open spec fn of_value(v: int) -> u64 {
        v as u64
    }

    proof fn lemma_value(self) {
    }

    proof fn lemma_of_value(v: int) {
    }

    proof fn lemma_layout() {
        lemma2_to64();
        lemma2_to64_rest();
    }

    fn bits() -> (r: u32) {
        64
    }

    fn signed_type() -> (r: bool) {
        false
    }

    fn magnitude(self) -> (r: (bool, u128)) {
        (false, self as u128)
    }

    fn from_magnitude(negative: bool, magnitude: u128) -> (r: u64) {
        if negative {
            0
        } else if magnitude > u64::MAX as u128 {
            u64::MAX
        } else {
            magnitude as u64
        }
    }
}

impl UnsignedInteger for u64 {
    proof fn lemma_nonnegative() {
    }
}

impl Sealed for u128 {}

impl Integer for u128 {
    open spec fn value(self) -> int {
        self as int
    }

    open spec fn lower() -> int {
        u128::MIN as int
    }

    open spec fn upper() -> int {
        u128::MAX as int
    }

    open spec fn width() -> nat {
        128
    }

    open spec fn is_signed() -> bool {
        false
    }

    open spec fn of_value(v: int) -> u128 {
        v as u128
    }

    proof fn lemma_value(self) {
    }

    proof fn lemma_of_value(v: int) {
    }

    proof fn lemma_layout() {
        lemma_pow2_top();
    }

    fn bits() -> (r: u32) {
        128
    }

    fn signed_type() -> (r: bool) {
        false
    }

    fn magnitude(self) -> (r: (bool, u128)) {
        (false, self as u128)
    }

    fn from_magnitude(negative: bool, magnitude: u128) -> (r: u128) {
        if negative {
            0
        } else {
            magnitude
        }
    }
}

impl UnsignedInteger for u128 {
    proof fn lemma_nonnegative() {
    }
}

impl Sealed for usize {}

impl Integer for usize {
    open spec fn value(self) -> int {
        self as int
    }

    open spec fn lower() -> int {
        usize::MIN as int
    }

    open spec fn upper() -> int {
        usize::MAX as int
    }

    open spec fn width() -> nat {
        usize::BITS as nat
    }

    open spec fn is_signed() -> bool {
        false
    }

    open spec fn of_value(v: int) -> usize {
        v as usize
    }

    proof fn lemma_value(self) {
    }

    proof fn lemma_of_value(v: int) {
    }

    proof fn lemma_layout() {
        lemma2_to64();
        lemma2_to64_rest();
    }

    fn bits() -> (r: u32) {
        usize::BITS
    }

    fn signed_type() -> (r: bool) {
        false
    }

    fn magnitude(self) -> (r: (bool, u128)) {
        (false, self as u128)
    }

    fn from_magnitude(negative: bool, magnitude: u128) -> (r: usize) {
        if negative {
            0
        } else if magnitude > usize::MAX as u128 {
            usize::MAX
        } else {
            magnitude as usize
        }
    }
}

impl UnsignedInteger for usize {
    proof fn lemma_nonnegative() {
    }
}

} // verus!
