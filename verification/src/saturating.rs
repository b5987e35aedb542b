//! The saturating conversions between two different integer types, primitive or
//! wrapper. Each clamps the source value to the destination's range; the conversion
//! of a type into itself is the identity (see [`SaturatingFrom`]).
use vstd::prelude::*;
use crate::common::{saturate, saturated, SaturatingFrom};
use crate::math::clamp;
use crate::si::{Si8, Si16, Si32, Si64, Si128, Sisize};
use crate::su::{Su8, Su16, Su32, Su64, Su128, Susize};

verus! {

impl SaturatingFrom<Si8> for Si16 {
    open spec fn spec_saturating_from(value: Si8) -> Si16 {
        saturated::<Si8, Si16>(value)
    }

    fn saturating_from(value: Si8) -> (r: Si16)
        ensures
            r@ == clamp(value@, i16::MIN as int, i16::MAX as int),
    {
        saturate(value)
    }
}

impl SaturatingFrom<Si8> for Si32 {
    open spec fn spec_saturating_from(value: Si8) -> Si32 {
        saturated::<Si8, Si32>(value)
    }

    fn saturating_from(value: Si8) -> (r: Si32)
        ensures
            r@ == clamp(value@, i32::MIN as int, i32::MAX as int),
    {
        saturate(value)
    }
}

impl SaturatingFrom<Si8> for Si64 {
    open spec fn spec_saturating_from(value: Si8) -> Si64 {
        saturated::<Si8, Si64>(value)
    }

    fn saturating_from(value: Si8) -> (r: Si64)
        ensures
            r@ == clamp(value@, i64::MIN as int, i64::MAX as int),
    {
        saturate(value)
    }
}

impl SaturatingFrom<Si8> for Si128 {
    open spec fn spec_saturating_from(value: Si8) -> Si128 {
        saturated::<Si8, Si128>(value)
    }

    fn saturating_from(value: Si8) -> (r: Si128)
        ensures
            r@ == clamp(value@, i128::MIN as int, i128::MAX as int),
    {
        saturate(value)
    }
}

impl SaturatingFrom<Si8> for Sisize {
    open spec fn spec_saturating_from(value: Si8) -> Sisize {
        saturated::<Si8, Sisize>(value)
    }

    fn saturating_from(value: Si8) -> (r: Sisize)
        ensures
            r@ == clamp(value@, isize::MIN as int, isize::MAX as int),
    {
        saturate(value)
    }
}

impl SaturatingFrom<Si8> for Su8 {
    open spec fn spec_saturating_from(value: Si8) -> Su8 {
        saturated::<Si8, Su8>(value)
    }

    fn saturating_from(value: Si8) -> (r: Su8)
        ensures
            r@ == clamp(value@, u8::MIN as int, u8::MAX as int),
    {
        saturate(value)
    }
}

impl SaturatingFrom<Si8> for Su16 {
    open spec fn spec_saturating_from(value: Si8) -> Su16 {
        saturated::<Si8, Su16>(value)
    }

    fn saturating_from(value: Si8) -> (r: Su16)
        ensures
            r@ == clamp(value@, u16::MIN as int, u16::MAX as int),
    {
        saturate(value)
    }
}

impl SaturatingFrom<Si8> for Su32 {
    open spec fn spec_saturating_from(value: Si8) -> Su32 {
        saturated::<Si8, Su32>(value)
    }

    fn saturating_from(value: Si8) -> (r: Su32)
        ensures
            r@ == clamp(value@, u32::MIN as int, u32::MAX as int),
    {
        saturate(value)
    }
}

impl SaturatingFrom<Si8> for Su64 {
    open spec fn spec_saturating_from(value: Si8) -> Su64 {
        saturated::<Si8, Su64>(value)
    }

    fn saturating_from(value: Si8) -> (r: Su64)
        ensures
            r@ == clamp(value@, u64::MIN as int, u64::MAX as int),
    {
        saturate(value)
    }
}

impl SaturatingFrom<Si8> for Su128 {
    open spec fn spec_saturating_from(value: Si8) -> Su128 {
        saturated::<Si8, Su128>(value)
    }

    fn saturating_from(value: Si8) -> (r: Su128)
        ensures
            r@ == clamp(value@, u128::MIN as int, u128::MAX as int),
    {
        saturate(value)
    }
}

impl SaturatingFrom<Si8> for Susize {
    open spec fn spec_saturating_from(value: Si8) -> Susize {
        saturated::<Si8, Susize>(value)
    }

    fn saturating_from(value: Si8) -> (r: Susize)
        ensures
            r@ == clamp(value@, usize::MIN as int, usize::MAX as int),
    {
        saturate(value)
    }
}

impl SaturatingFrom<Si8> for i8 {
    open spec fn spec_saturating_from(value: Si8) -> i8 {
        saturated::<Si8, i8>(value)
    }

    fn saturating_from(value: Si8) -> (r: i8)
        ensures
            r as int == clamp(value@, i8::MIN as int, i8::MAX as int),
    {
        saturate(value)
    }
}

impl SaturatingFrom<Si8> for i16 {
    open spec fn spec_saturating_from(value: Si8) -> i16 {
        saturated::<Si8, i16>(value)
    }

    fn saturating_from(value: Si8) -> (r: i16)
        ensures
            r as int == clamp(value@, i16::MIN as int, i16::MAX as int),
    {
        saturate(value)
    }
}

impl SaturatingFrom<Si8> for i32 {
    open spec fn spec_saturating_from(value: Si8) -> i32 {
        saturated::<Si8, i32>(value)
    }

    fn saturating_from(value: Si8) -> (r: i32)
        ensures
            r as int == clamp(value@, i32::MIN as int, i32::MAX as int),
    {
        saturate(value)
    }
}

impl SaturatingFrom<Si8> for i64 {
    open spec fn spec_saturating_from(value: Si8) -> i64 {
        saturated::<Si8, i64>(value)
    }

    fn saturating_from(value: Si8) -> (r: i64)
        ensures
            r as int == clamp(value@, i64::MIN as int, i64::MAX as int),
    {
        saturate(value)
    }
}

impl SaturatingFrom<Si8> for i128 {
    open spec fn spec_saturating_from(value: Si8) -> i128 {
        saturated::<Si8, i128>(value)
    }

    fn saturating_from(value: Si8) -> (r: i128)
        ensures
            r as int == clamp(value@, i128::MIN as int, i128::MAX as int),
    {
        saturate(value)
    }
}

impl SaturatingFrom<Si8> for isize {
    open spec fn spec_saturating_from(value: Si8) -> isize {
        saturated::<Si8, isize>(value)
    }

    fn saturating_from(value: Si8) -> (r: isize)
        ensures
            r as int == clamp(value@, isize::MIN as int, isize::MAX as int),
    {
        saturate(value)
    }
}

impl SaturatingFrom<Si8> for u8 {
    open spec fn spec_saturating_from(value: Si8) -> u8 {
        saturated::<Si8, u8>(value)
    }

    fn saturating_from(value: Si8) -> (r: u8)
        ensures
            r as int == clamp(value@, u8::MIN as int, u8::MAX as int),
    {
        saturate(value)
    }
}

impl SaturatingFrom<Si8> for u16 {
    open spec fn spec_saturating_from(value: Si8) -> u16 {
        saturated::<Si8, u16>(value)
    }

    fn saturating_from(value: Si8) -> (r: u16)
        ensures
            r as int == clamp(value@, u16::MIN as int, u16::MAX as int),
    {
        saturate(value)
    }
}

impl SaturatingFrom<Si8> for u32 {
    open spec fn spec_saturating_from(value: Si8) -> u32 {
        saturated::<Si8, u32>(value)
    }

    fn saturating_from(value: Si8) -> (r: u32)
        ensures
            r as int == clamp(value@, u32::MIN as int, u32::MAX as int),
    {
        saturate(value)
    }
}

impl SaturatingFrom<Si8> for u64 {
    open spec fn spec_saturating_from(value: Si8) -> u64 {
        saturated::<Si8, u64>(value)
    }

    fn saturating_from(value: Si8) -> (r: u64)
        ensures
            r as int == clamp(value@, u64::MIN as int, u64::MAX as int),
    {
        saturate(value)
    }
}

impl SaturatingFrom<Si8> for u128 {
    open spec fn spec_saturating_from(value: Si8) -> u128 {
        saturated::<Si8, u128>(value)
    }

    fn saturating_from(value: Si8) -> (r: u128)
        ensures
            r as int == clamp(value@, u128::MIN as int, u128::MAX as int),
    {
        saturate(value)
    }
}

impl SaturatingFrom<Si8> for usize {
    open spec fn spec_saturating_from(value: Si8) -> usize {
        saturated::<Si8, usize>(value)
    }

    fn saturating_from(value: Si8) -> (r: usize)
        ensures
            r as int == clamp(value@, usize::MIN as int, usize::MAX as int),
    {
        saturate(value)
    }
}

impl SaturatingFrom<Si16> for Si8 {
    open spec fn spec_saturating_from(value: Si16) -> Si8 {
        saturated::<Si16, Si8>(value)
    }

    fn saturating_from(value: Si16) -> (r: Si8)
        ensures
            r@ == clamp(value@, i8::MIN as int, i8::MAX as int),
    {
        saturate(value)
    }
}

impl SaturatingFrom<Si16> for Si32 {
    open spec fn spec_saturating_from(value: Si16) -> Si32 {
        saturated::<Si16, Si32>(value)
    }

    fn saturating_from(value: Si16) -> (r: Si32)
        ensures
            r@ == clamp(value@, i32::MIN as int, i32::MAX as int),
    {
        saturate(value)
    }
}

impl SaturatingFrom<Si16> for Si64 {
    open spec fn spec_saturating_from(value: Si16) -> Si64 {
        saturated::<Si16, Si64>(value)
    }

    fn saturating_from(value: Si16) -> (r: Si64)
        ensures
            r@ == clamp(value@, i64::MIN as int, i64::MAX as int),
    {
        saturate(value)
    }
}

impl SaturatingFrom<Si16> for Si128 {
    open spec fn spec_saturating_from(value: Si16) -> Si128 {
        saturated::<Si16, Si128>(value)
    }

    fn saturating_from(value: Si16) -> (r: Si128)
        ensures
            r@ == clamp(value@, i128::MIN as int, i128::MAX as int),
    {
        saturate(value)
    }
}

impl SaturatingFrom<Si16> for Sisize {
    open spec fn spec_saturating_from(value: Si16) -> Sisize {
        saturated::<Si16, Sisize>(value)
    }

    fn saturating_from(value: Si16) -> (r: Sisize)
        ensures
            r@ == clamp(value@, isize::MIN as int, isize::MAX as int),
    {
        saturate(value)
    }
}

impl SaturatingFrom<Si16> for Su8 {
    open spec fn spec_saturating_from(value: Si16) -> Su8 {
        saturated::<Si16, Su8>(value)
    }

    fn saturating_from(value: Si16) -> (r: Su8)
        ensures
            r@ == clamp(value@, u8::MIN as int, u8::MAX as int),
    {
        saturate(value)
    }
}

impl SaturatingFrom<Si16> for Su16 {
    open spec fn spec_saturating_from(value: Si16) -> Su16 {
        saturated::<Si16, Su16>(value)
    }

    fn saturating_from(value: Si16) -> (r: Su16)
        ensures
            r@ == clamp(value@, u16::MIN as int, u16::MAX as int),
    {
        saturate(value)
    }
}

impl SaturatingFrom<Si16> for Su32 {
    open spec fn spec_saturating_from(value: Si16) -> Su32 {
        saturated::<Si16, Su32>(value)
    }

    fn saturating_from(value: Si16) -> (r: Su32)
        ensures
            r@ == clamp(value@, u32::MIN as int, u32::MAX as int),
    {
        saturate(value)
    }
}

impl SaturatingFrom<Si16> for Su64 {
    open spec fn spec_saturating_from(value: Si16) -> Su64 {
        saturated::<Si16, Su64>(value)
    }

    fn saturating_from(value: Si16) -> (r: Su64)
        ensures
            r@ == clamp(value@, u64::MIN as int, u64::MAX as int),
    {
        saturate(value)
    }
}

impl SaturatingFrom<Si16> for Su128 {
    open spec fn spec_saturating_from(value: Si16) -> Su128 {
        saturated::<Si16, Su128>(value)
    }

    fn saturating_from(value: Si16) -> (r: Su128)
        ensures
            r@ == clamp(value@, u128::MIN as int, u128::MAX as int),
    {
        saturate(value)
    }
}

impl SaturatingFrom<Si16> for Susize {
    open spec fn spec_saturating_from(value: Si16) -> Susize {
        saturated::<Si16, Susize>(value)
    }

    fn saturating_from(value: Si16) -> (r: Susize)
        ensures
            r@ == clamp(value@, usize::MIN as int, usize::MAX as int),
    {
        saturate(value)
    }
}

impl SaturatingFrom<Si16> for i8 {
    open spec fn spec_saturating_from(value: Si16) -> i8 {
        saturated::<Si16, i8>(value)
    }

    fn saturating_from(value: Si16) -> (r: i8)
        ensures
            r as int == clamp(value@, i8::MIN as int, i8::MAX as int),
    {
        saturate(value)
    }
}

impl SaturatingFrom<Si16> for i16 {
    open spec fn spec_saturating_from(value: Si16) -> i16 {
        saturated::<Si16, i16>(value)
    }

    fn saturating_from(value: Si16) -> (r: i16)
        ensures
            r as int == clamp(value@, i16::MIN as int, i16::MAX as int),
    {
        saturate(value)
    }
}

impl SaturatingFrom<Si16> for i32 {
    open spec fn spec_saturating_from(value: Si16) -> i32 {
        saturated::<Si16, i32>(value)
    }

    fn saturating_from(value: Si16) -> (r: i32)
        ensures
            r as int == clamp(value@, i32::MIN as int, i32::MAX as int),
    {
        saturate(value)
    }
}

impl SaturatingFrom<Si16> for i64 {
    open spec fn spec_saturating_from(value: Si16) -> i64 {
        saturated::<Si16, i64>(value)
    }

    fn saturating_from(value: Si16) -> (r: i64)
        ensures
            r as int == clamp(value@, i64::MIN as int, i64::MAX as int),
    {
        saturate(value)
    }
}

impl SaturatingFrom<Si16> for i128 {
    open spec fn spec_saturating_from(value: Si16) -> i128 {
        saturated::<Si16, i128>(value)
    }

    fn saturating_from(value: Si16) -> (r: i128)
        ensures
            r as int == clamp(value@, i128::MIN as int, i128::MAX as int),
    {
        saturate(value)
    }
}

impl SaturatingFrom<Si16> for isize {
    open spec fn spec_saturating_from(value: Si16) -> isize {
        saturated::<Si16, isize>(value)
    }

    fn saturating_from(value: Si16) -> (r: isize)
        ensures
            r as int == clamp(value@, isize::MIN as int, isize::MAX as int),
    {
        saturate(value)
    }
}

impl SaturatingFrom<Si16> for u8 {
    open spec fn spec_saturating_from(value: Si16) -> u8 {
        saturated::<Si16, u8>(value)
    }

    fn saturating_from(value: Si16) -> (r: u8)
        ensures
            r as int == clamp(value@, u8::MIN as int, u8::MAX as int),
    {
        saturate(value)
    }
}

impl SaturatingFrom<Si16> for u16 {
    open spec fn spec_saturating_from(value: Si16) -> u16 {
        saturated::<Si16, u16>(value)
    }

    fn saturating_from(value: Si16) -> (r: u16)
        ensures
            r as int == clamp(value@, u16::MIN as int, u16::MAX as int),
    {
        saturate(value)
    }
}

impl SaturatingFrom<Si16> for u32 {
    open spec fn spec_saturating_from(value: Si16) -> u32 {
        saturated::<Si16, u32>(value)
    }

    fn saturating_from(value: Si16) -> (r: u32)
        ensures
            r as int == clamp(value@, u32::MIN as int, u32::MAX as int),
    {
        saturate(value)
    }
}

impl SaturatingFrom<Si16> for u64 {
    open spec fn spec_saturating_from(value: Si16) -> u64 {
        saturated::<Si16, u64>(value)
    }

    fn saturating_from(value: Si16) -> (r: u64)
        ensures
            r as int == clamp(value@, u64::MIN as int, u64::MAX as int),
    {
        saturate(value)
    }
}

impl SaturatingFrom<Si16> for u128 {
    open spec fn spec_saturating_from(value: Si16) -> u128 {
        saturated::<Si16, u128>(value)
    }

    fn saturating_from(value: Si16) -> (r: u128)
        ensures
            r as int == clamp(value@, u128::MIN as int, u128::MAX as int),
    {
        saturate(value)
    }
}

impl SaturatingFrom<Si16> for usize {
    open spec fn spec_saturating_from(value: Si16) -> usize {
        saturated::<Si16, usize>(value)
    }

    fn saturating_from(value: Si16) -> (r: usize)
        ensures
            r as int == clamp(value@, usize::MIN as int, usize::MAX as int),
    {
        saturate(value)
    }
}

impl SaturatingFrom<Si32> for Si8 {
    open spec fn spec_saturating_from(value: Si32) -> Si8 {
        saturated::<Si32, Si8>(value)
    }

    fn saturating_from(value: Si32) -> (r: Si8)
        ensures
            r@ == clamp(value@, i8::MIN as int, i8::MAX as int),
    {
        saturate(value)
    }
}

impl SaturatingFrom<Si32> for Si16 {
    open spec fn spec_saturating_from(value: Si32) -> Si16 {
        saturated::<Si32, Si16>(value)
    }

    fn saturating_from(value: Si32) -> (r: Si16)
        ensures
            r@ == clamp(value@, i16::MIN as int, i16::MAX as int),
    {
        saturate(value)
    }
}

impl SaturatingFrom<Si32> for Si64 {
    open spec fn spec_saturating_from(value: Si32) -> Si64 {
        saturated::<Si32, Si64>(value)
    }

    fn saturating_from(value: Si32) -> (r: Si64)
        ensures
            r@ == clamp(value@, i64::MIN as int, i64::MAX as int),
    {
        saturate(value)
    }
}

impl SaturatingFrom<Si32> for Si128 {
    open spec fn spec_saturating_from(value: Si32) -> Si128 {
        saturated::<Si32, Si128>(value)
    }

    fn saturating_from(value: Si32) -> (r: Si128)
        ensures
            r@ == clamp(value@, i128::MIN as int, i128::MAX as int),
    {
        saturate(value)
    }
}

impl SaturatingFrom<Si32> for Sisize {
    open spec fn spec_saturating_from(value: Si32) -> Sisize {
        saturated::<Si32, Sisize>(value)
    }

    fn saturating_from(value: Si32) -> (r: Sisize)
        ensures
            r@ == clamp(value@, isize::MIN as int, isize::MAX as int),
    {
        saturate(value)
    }
}

impl SaturatingFrom<Si32> for Su8 {
    open spec fn spec_saturating_from(value: Si32) -> Su8 {
        saturated::<Si32, Su8>(value)
    }

    fn saturating_from(value: Si32) -> (r: Su8)
        ensures
            r@ == clamp(value@, u8::MIN as int, u8::MAX as int),
    {
        saturate(value)
    }
}

impl SaturatingFrom<Si32> for Su16 {
    open spec fn spec_saturating_from(value: Si32) -> Su16 {
        saturated::<Si32, Su16>(value)
    }

    fn saturating_from(value: Si32) -> (r: Su16)
        ensures
            r@ == clamp(value@, u16::MIN as int, u16::MAX as int),
    {
        saturate(value)
    }
}

impl SaturatingFrom<Si32> for Su32 {
    open spec fn spec_saturating_from(value: Si32) -> Su32 {
        saturated::<Si32, Su32>(value)
    }

    fn saturating_from(value: Si32) -> (r: Su32)
        ensures
            r@ == clamp(value@, u32::MIN as int, u32::MAX as int),
    {
        saturate(value)
    }
}

impl SaturatingFrom<Si32> for Su64 {
    open spec fn spec_saturating_from(value: Si32) -> Su64 {
        saturated::<Si32, Su64>(value)
    }

    fn saturating_from(value: Si32) -> (r: Su64)
        ensures
            r@ == clamp(value@, u64::MIN as int, u64::MAX as int),
    {
        saturate(value)
    }
}

impl SaturatingFrom<Si32> for Su128 {
    open spec fn spec_saturating_from(value: Si32) -> Su128 {
        saturated::<Si32, Su128>(value)
    }

    fn saturating_from(value: Si32) -> (r: Su128)
        ensures
            r@ == clamp(value@, u128::MIN as int, u128::MAX as int),
    {
        saturate(value)
    }
}

impl SaturatingFrom<Si32> for Susize {
    open spec fn spec_saturating_from(value: Si32) -> Susize {
        saturated::<Si32, Susize>(value)
    }

    fn saturating_from(value: Si32) -> (r: Susize)
        ensures
            r@ == clamp(value@, usize::MIN as int, usize::MAX as int),
    {
        saturate(value)
    }
}

impl SaturatingFrom<Si32> for i8 {
    open spec fn spec_saturating_from(value: Si32) -> i8 {
        saturated::<Si32, i8>(value)
    }

    fn saturating_from(value: Si32) -> (r: i8)
        ensures
            r as int == clamp(value@, i8::MIN as int, i8::MAX as int),
    {
        saturate(value)
    }
}

impl SaturatingFrom<Si32> for i16 {
    open spec fn spec_saturating_from(value: Si32) -> i16 {
        saturated::<Si32, i16>(value)
    }

    fn saturating_from(value: Si32) -> (r: i16)
        ensures
            r as int == clamp(value@, i16::MIN as int, i16::MAX as int),
    {
        saturate(value)
    }
}

impl SaturatingFrom<Si32> for i32 {
    open spec fn spec_saturating_from(value: Si32) -> i32 {
        saturated::<Si32, i32>(value)
    }

    fn saturating_from(value: Si32) -> (r: i32)
        ensures
            r as int == clamp(value@, i32::MIN as int, i32::MAX as int),
    {
        saturate(value)
    }
}

impl SaturatingFrom<Si32> for i64 {
    open spec fn spec_saturating_from(value: Si32) -> i64 {
        saturated::<Si32, i64>(value)
    }

    fn saturating_from(value: Si32) -> (r: i64)
        ensures
            r as int == clamp(value@, i64::MIN as int, i64::MAX as int),
    {
        saturate(value)
    }
}

impl SaturatingFrom<Si32> for i128 {
    open spec fn spec_saturating_from(value: Si32) -> i128 {
        saturated::<Si32, i128>(value)
    }

    fn saturating_from(value: Si32) -> (r: i128)
        ensures
            r as int == clamp(value@, i128::MIN as int, i128::MAX as int),
    {
        saturate(value)
    }
}

impl SaturatingFrom<Si32> for isize {
    open spec fn spec_saturating_from(value: Si32) -> isize {
        saturated::<Si32, isize>(value)
    }

    fn saturating_from(value: Si32) -> (r: isize)
        ensures
            r as int == clamp(value@, isize::MIN as int, isize::MAX as int),
    {
        saturate(value)
    }
}

impl SaturatingFrom<Si32> for u8 {
    open spec fn spec_saturating_from(value: Si32) -> u8 {
        saturated::<Si32, u8>(value)
    }

    fn saturating_from(value: Si32) -> (r: u8)
        ensures
            r as int == clamp(value@, u8::MIN as int, u8::MAX as int),
    {
        saturate(value)
    }
}

impl SaturatingFrom<Si32> for u16 {
    open spec fn spec_saturating_from(value: Si32) -> u16 {
        saturated::<Si32, u16>(value)
    }

    fn saturating_from(value: Si32) -> (r: u16)
        ensures
            r as int == clamp(value@, u16::MIN as int, u16::MAX as int),
    {
        saturate(value)
    }
}

impl SaturatingFrom<Si32> for u32 {
    open spec fn spec_saturating_from(value: Si32) -> u32 {
        saturated::<Si32, u32>(value)
    }

    fn saturating_from(value: Si32) -> (r: u32)
        ensures
            r as int == clamp(value@, u32::MIN as int, u32::MAX as int),
    {
        saturate(value)
    }
}

impl SaturatingFrom<Si32> for u64 {
    open spec fn spec_saturating_from(value: Si32) -> u64 {
        saturated::<Si32, u64>(value)
    }

    fn saturating_from(value: Si32) -> (r: u64)
        ensures
            r as int == clamp(value@, u64::MIN as int, u64::MAX as int),
    {
        saturate(value)
    }
}

impl SaturatingFrom<Si32> for u128 {
    open spec fn spec_saturating_from(value: Si32) -> u128 {
        saturated::<Si32, u128>(value)
    }

    fn saturating_from(value: Si32) -> (r: u128)
        ensures
            r as int == clamp(value@, u128::MIN as int, u128::MAX as int),
    {
        saturate(value)
    }
}

impl SaturatingFrom<Si32> for usize {
    open spec fn spec_saturating_from(value: Si32) -> usize {
        saturated::<Si32, usize>(value)
    }

    fn saturating_from(value: Si32) -> (r: usize)
        ensures
            r as int == clamp(value@, usize::MIN as int, usize::MAX as int),
    {
        saturate(value)
    }
}

impl SaturatingFrom<Si64> for Si8 {
    open spec fn spec_saturating_from(value: Si64) -> Si8 {
        saturated::<Si64, Si8>(value)
    }

    fn saturating_from(value: Si64) -> (r: Si8)
        ensures
            r@ == clamp(value@, i8::MIN as int, i8::MAX as int),
    {
        saturate(value)
    }
}

impl SaturatingFrom<Si64> for Si16 {
    open spec fn spec_saturating_from(value: Si64) -> Si16 {
        saturated::<Si64, Si16>(value)
    }

    fn saturating_from(value: Si64) -> (r: Si16)
        ensures
            r@ == clamp(value@, i16::MIN as int, i16::MAX as int),
    {
        saturate(value)
    }
}

impl SaturatingFrom<Si64> for Si32 {
    open spec fn spec_saturating_from(value: Si64) -> Si32 {
        saturated::<Si64, Si32>(value)
    }

    fn saturating_from(value: Si64) -> (r: Si32)
        ensures
            r@ == clamp(value@, i32::MIN as int, i32::MAX as int),
    {
        saturate(value)
    }
}

impl SaturatingFrom<Si64> for Si128 {
    open spec fn spec_saturating_from(value: Si64) -> Si128 {
        saturated::<Si64, Si128>(value)
    }

    fn saturating_from(value: Si64) -> (r: Si128)
        ensures
            r@ == clamp(value@, i128::MIN as int, i128::MAX as int),
    {
        saturate(value)
    }
}

impl SaturatingFrom<Si64> for Sisize {
    open spec fn spec_saturating_from(value: Si64) -> Sisize {
        saturated::<Si64, Sisize>(value)
    }

    fn saturating_from(value: Si64) -> (r: Sisize)
        ensures
            r@ == clamp(value@, isize::MIN as int, isize::MAX as int),
    {
        saturate(value)
    }
}

impl SaturatingFrom<Si64> for Su8 {
    open spec fn spec_saturating_from(value: Si64) -> Su8 {
        saturated::<Si64, Su8>(value)
    }

    fn saturating_from(value: Si64) -> (r: Su8)
        ensures
            r@ == clamp(value@, u8::MIN as int, u8::MAX as int),
    {
        saturate(value)
    }
}

impl SaturatingFrom<Si64> for Su16 {
    open spec fn spec_saturating_from(value: Si64) -> Su16 {
        saturated::<Si64, Su16>(value)
    }

    fn saturating_from(value: Si64) -> (r: Su16)
        ensures
            r@ == clamp(value@, u16::MIN as int, u16::MAX as int),
    {
        saturate(value)
    }
}

impl SaturatingFrom<Si64> for Su32 {
    open spec fn spec_saturating_from(value: Si64) -> Su32 {
        saturated::<Si64, Su32>(value)
    }

    fn saturating_from(value: Si64) -> (r: Su32)
        ensures
            r@ == clamp(value@, u32::MIN as int, u32::MAX as int),
    {
        saturate(value)
    }
}

impl SaturatingFrom<Si64> for Su64 {
    open spec fn spec_saturating_from(value: Si64) -> Su64 {
        saturated::<Si64, Su64>(value)
    }

    fn saturating_from(value: Si64) -> (r: Su64)
        ensures
            r@ == clamp(value@, u64::MIN as int, u64::MAX as int),
    {
        saturate(value)
    }
}

impl SaturatingFrom<Si64> for Su128 {
    open spec fn spec_saturating_from(value: Si64) -> Su128 {
        saturated::<Si64, Su128>(value)
    }

    fn saturating_from(value: Si64) -> (r: Su128)
        ensures
            r@ == clamp(value@, u128::MIN as int, u128::MAX as int),
    {
        saturate(value)
    }
}

impl SaturatingFrom<Si64> for Susize {
    open spec fn spec_saturating_from(value: Si64) -> Susize {
        saturated::<Si64, Susize>(value)
    }

    fn saturating_from(value: Si64) -> (r: Susize)
        ensures
            r@ == clamp(value@, usize::MIN as int, usize::MAX as int),
    {
        saturate(value)
    }
}

impl SaturatingFrom<Si64> for i8 {
    open spec fn spec_saturating_from(value: Si64) -> i8 {
        saturated::<Si64, i8>(value)
    }

    fn saturating_from(value: Si64) -> (r: i8)
        ensures
            r as int == clamp(value@, i8::MIN as int, i8::MAX as int),
    {
        saturate(value)
    }
}

impl SaturatingFrom<Si64> for i16 {
    open spec fn spec_saturating_from(value: Si64) -> i16 {
        saturated::<Si64, i16>(value)
    }

    fn saturating_from(value: Si64) -> (r: i16)
        ensures
            r as int == clamp(value@, i16::MIN as int, i16::MAX as int),
    {
        saturate(value)
    }
}

impl SaturatingFrom<Si64> for i32 {
    open spec fn spec_saturating_from(value: Si64) -> i32 {
        saturated::<Si64, i32>(value)
    }

    fn saturating_from(value: Si64) -> (r: i32)
        ensures
            r as int == clamp(value@, i32::MIN as int, i32::MAX as int),
    {
        saturate(value)
    }
}

impl SaturatingFrom<Si64> for i64 {
    open spec fn spec_saturating_from(value: Si64) -> i64 {
        saturated::<Si64, i64>(value)
    }

    fn saturating_from(value: Si64) -> (r: i64)
        ensures
            r as int == clamp(value@, i64::MIN as int, i64::MAX as int),
    {
        saturate(value)
    }
}

impl SaturatingFrom<Si64> for i128 {
    open spec fn spec_saturating_from(value: Si64) -> i128 {
        saturated::<Si64, i128>(value)
    }

    fn saturating_from(value: Si64) -> (r: i128)
        ensures
            r as int == clamp(value@, i128::MIN as int, i128::MAX as int),
    {
        saturate(value)
    }
}

impl SaturatingFrom<Si64> for isize {
    open spec fn spec_saturating_from(value: Si64) -> isize {
        saturated::<Si64, isize>(value)
    }

    fn saturating_from(value: Si64) -> (r: isize)
        ensures
            r as int == clamp(value@, isize::MIN as int, isize::MAX as int),
    {
        saturate(value)
    }
}

impl SaturatingFrom<Si64> for u8 {
    open spec fn spec_saturating_from(value: Si64) -> u8 {
        saturated::<Si64, u8>(value)
    }

    fn saturating_from(value: Si64) -> (r: u8)
        ensures
            r as int == clamp(value@, u8::MIN as int, u8::MAX as int),
    {
        saturate(value)
    }
}

impl SaturatingFrom<Si64> for u16 {
    open spec fn spec_saturating_from(value: Si64) -> u16 {
        saturated::<Si64, u16>(value)
    }

    fn saturating_from(value: Si64) -> (r: u16)
        ensures
            r as int == clamp(value@, u16::MIN as int, u16::MAX as int),
    {
        saturate(value)
    }
}

impl SaturatingFrom<Si64> for u32 {
    open spec fn spec_saturating_from(value: Si64) -> u32 {
        saturated::<Si64, u32>(value)
    }

    fn saturating_from(value: Si64) -> (r: u32)
        ensures
            r as int == clamp(value@, u32::MIN as int, u32::MAX as int),
    {
        saturate(value)
    }
}

impl SaturatingFrom<Si64> for u64 {
    open spec fn spec_saturating_from(value: Si64) -> u64 {
        saturated::<Si64, u64>(value)
    }

    fn saturating_from(value: Si64) -> (r: u64)
        ensures
            r as int == clamp(value@, u64::MIN as int, u64::MAX as int),
    {
        saturate(value)
    }
}

impl SaturatingFrom<Si64> for u128 {
    open spec fn spec_saturating_from(value: Si64) -> u128 {
        saturated::<Si64, u128>(value)
    }

    fn saturating_from(value: Si64) -> (r: u128)
        ensures
            r as int == clamp(value@, u128::MIN as int, u128::MAX as int),
    {
        saturate(value)
    }
}

impl SaturatingFrom<Si64> for usize {
    open spec fn spec_saturating_from(value: Si64) -> usize {
        saturated::<Si64, usize>(value)
    }

    fn saturating_from(value: Si64) -> (r: usize)
        ensures
            r as int == clamp(value@, usize::MIN as int, usize::MAX as int),
    {
        saturate(value)
    }
}

impl SaturatingFrom<Si128> for Si8 {
    open spec fn spec_saturating_from(value: Si128) -> Si8 {
        saturated::<Si128, Si8>(value)
    }

    fn saturating_from(value: Si128) -> (r: Si8)
        ensures
            r@ == clamp(value@, i8::MIN as int, i8::MAX as int),
    {
        saturate(value)
    }
}

impl SaturatingFrom<Si128> for Si16 {
    open spec fn spec_saturating_from(value: Si128) -> Si16 {
        saturated::<Si128, Si16>(value)
    }

    fn saturating_from(value: Si128) -> (r: Si16)
        ensures
            r@ == clamp(value@, i16::MIN as int, i16::MAX as int),
    {
        saturate(value)
    }
}

impl SaturatingFrom<Si128> for Si32 {
    open spec fn spec_saturating_from(value: Si128) -> Si32 {
        saturated::<Si128, Si32>(value)
    }

    fn saturating_from(value: Si128) -> (r: Si32)
        ensures
            r@ == clamp(value@, i32::MIN as int, i32::MAX as int),
    {
        saturate(value)
    }
}

impl SaturatingFrom<Si128> for Si64 {
    open spec fn spec_saturating_from(value: Si128) -> Si64 {
        saturated::<Si128, Si64>(value)
    }

    fn saturating_from(value: Si128) -> (r: Si64)
        ensures
            r@ == clamp(value@, i64::MIN as int, i64::MAX as int),
    {
        saturate(value)
    }
}

impl SaturatingFrom<Si128> for Sisize {
    open spec fn spec_saturating_from(value: Si128) -> Sisize {
        saturated::<Si128, Sisize>(value)
    }

    fn saturating_from(value: Si128) -> (r: Sisize)
        ensures
            r@ == clamp(value@, isize::MIN as int, isize::MAX as int),
    {
        saturate(value)
    }
}

impl SaturatingFrom<Si128> for Su8 {
    open spec fn spec_saturating_from(value: Si128) -> Su8 {
        saturated::<Si128, Su8>(value)
    }

    fn saturating_from(value: Si128) -> (r: Su8)
        ensures
            r@ == clamp(value@, u8::MIN as int, u8::MAX as int),
    {
        saturate(value)
    }
}

impl SaturatingFrom<Si128> for Su16 {
    open spec fn spec_saturating_from(value: Si128) -> Su16 {
        saturated::<Si128, Su16>(value)
    }

    fn saturating_from(value: Si128) -> (r: Su16)
        ensures
            r@ == clamp(value@, u16::MIN as int, u16::MAX as int),
    {
        saturate(value)
    }
}

impl SaturatingFrom<Si128> for Su32 {
    open spec fn spec_saturating_from(value: Si128) -> Su32 {
        saturated::<Si128, Su32>(value)
    }

    fn saturating_from(value: Si128) -> (r: Su32)
        ensures
            r@ == clamp(value@, u32::MIN as int, u32::MAX as int),
    {
        saturate(value)
    }
}

impl SaturatingFrom<Si128> for Su64 {
    open spec fn spec_saturating_from(value: Si128) -> Su64 {
        saturated::<Si128, Su64>(value)
    }

    fn saturating_from(value: Si128) -> (r: Su64)
        ensures
            r@ == clamp(value@, u64::MIN as int, u64::MAX as int),
    {
        saturate(value)
    }
}

impl SaturatingFrom<Si128> for Su128 {
    open spec fn spec_saturating_from(value: Si128) -> Su128 {
        saturated::<Si128, Su128>(value)
    }

    fn saturating_from(value: Si128) -> (r: Su128)
        ensures
            r@ == clamp(value@, u128::MIN as int, u128::MAX as int),
    {
        saturate(value)
    }
}

impl SaturatingFrom<Si128> for Susize {
    open spec fn spec_saturating_from(value: Si128) -> Susize {
        saturated::<Si128, Susize>(value)
    }

    fn saturating_from(value: Si128) -> (r: Susize)
        ensures
            r@ == clamp(value@, usize::MIN as int, usize::MAX as int),
    {
        saturate(value)
    }
}

impl SaturatingFrom<Si128> for i8 {
    open spec fn spec_saturating_from(value: Si128) -> i8 {
        saturated::<Si128, i8>(value)
    }

    fn saturating_from(value: Si128) -> (r: i8)
        ensures
            r as int == clamp(value@, i8::MIN as int, i8::MAX as int),
    {
        saturate(value)
    }
}

impl SaturatingFrom<Si128> for i16 {
    open spec fn spec_saturating_from(value: Si128) -> i16 {
        saturated::<Si128, i16>(value)
    }

    fn saturating_from(value: Si128) -> (r: i16)
        ensures
            r as int == clamp(value@, i16::MIN as int, i16::MAX as int),
    {
        saturate(value)
    }
}

impl SaturatingFrom<Si128> for i32 {
    open spec fn spec_saturating_from(value: Si128) -> i32 {
        saturated::<Si128, i32>(value)
    }

    fn saturating_from(value: Si128) -> (r: i32)
        ensures
            r as int == clamp(value@, i32::MIN as int, i32::MAX as int),
    {
        saturate(value)
    }
}

impl SaturatingFrom<Si128> for i64 {
    open spec fn spec_saturating_from(value: Si128) -> i64 {
        saturated::<Si128, i64>(value)
    }

    fn saturating_from(value: Si128) -> (r: i64)
        ensures
            r as int == clamp(value@, i64::MIN as int, i64::MAX as int),
    {
        saturate(value)
    }
}

impl SaturatingFrom<Si128> for i128 {
    open spec fn spec_saturating_from(value: Si128) -> i128 {
        saturated::<Si128, i128>(value)
    }

    fn saturating_from(value: Si128) -> (r: i128)
        ensures
            r as int == clamp(value@, i128::MIN as int, i128::MAX as int),
    {
        saturate(value)
    }
}

impl SaturatingFrom<Si128> for isize {
    open spec fn spec_saturating_from(value: Si128) -> isize {
        saturated::<Si128, isize>(value)
    }

    fn saturating_from(value: Si128) -> (r: isize)
        ensures
            r as int == clamp(value@, isize::MIN as int, isize::MAX as int),
    {
        saturate(value)
    }
}

impl SaturatingFrom<Si128> for u8 {
    open spec fn spec_saturating_from(value: Si128) -> u8 {
        saturated::<Si128, u8>(value)
    }

    fn saturating_from(value: Si128) -> (r: u8)
        ensures
            r as int == clamp(value@, u8::MIN as int, u8::MAX as int),
    {
        saturate(value)
    }
}

impl SaturatingFrom<Si128> for u16 {
    open spec fn spec_saturating_from(value: Si128) -> u16 {
        saturated::<Si128, u16>(value)
    }

    fn saturating_from(value: Si128) -> (r: u16)
        ensures
            r as int == clamp(value@, u16::MIN as int, u16::MAX as int),
    {
        saturate(value)
    }
}

impl SaturatingFrom<Si128> for u32 {
    open spec fn spec_saturating_from(value: Si128) -> u32 {
        saturated::<Si128, u32>(value)
    }

    fn saturating_from(value: Si128) -> (r: u32)
        ensures
            r as int == clamp(value@, u32::MIN as int, u32::MAX as int),
    {
        saturate(value)
    }
}

impl SaturatingFrom<Si128> for u64 {
    open spec fn spec_saturating_from(value: Si128) -> u64 {
        saturated::<Si128, u64>(value)
    }

    fn saturating_from(value: Si128) -> (r: u64)
        ensures
            r as int == clamp(value@, u64::MIN as int, u64::MAX as int),
    {
        saturate(value)
    }
}

impl SaturatingFrom<Si128> for u128 {
    open spec fn spec_saturating_from(value: Si128) -> u128 {
        saturated::<Si128, u128>(value)
    }

    fn saturating_from(value: Si128) -> (r: u128)
        ensures
            r as int == clamp(value@, u128::MIN as int, u128::MAX as int),
    {
        saturate(value)
    }
}

impl SaturatingFrom<Si128> for usize {
    open spec fn spec_saturating_from(value: Si128) -> usize {
        saturated::<Si128, usize>(value)
    }

    fn saturating_from(value: Si128) -> (r: usize)
        ensures
            r as int == clamp(value@, usize::MIN as int, usize::MAX as int),
    {
        saturate(value)
    }
}

impl SaturatingFrom<Sisize> for Si8 {
    open spec fn spec_saturating_from(value: Sisize) -> Si8 {
        saturated::<Sisize, Si8>(value)
    }

    fn saturating_from(value: Sisize) -> (r: Si8)
        ensures
            r@ == clamp(value@, i8::MIN as int, i8::MAX as int),
    {
        saturate(value)
    }
}

impl SaturatingFrom<Sisize> for Si16 {
    open spec fn spec_saturating_from(value: Sisize) -> Si16 {
        saturated::<Sisize, Si16>(value)
    }

    fn saturating_from(value: Sisize) -> (r: Si16)
        ensures
            r@ == clamp(value@, i16::MIN as int, i16::MAX as int),
    {
        saturate(value)
    }
}

impl SaturatingFrom<Sisize> for Si32 {
    open spec fn spec_saturating_from(value: Sisize) -> Si32 {
        saturated::<Sisize, Si32>(value)
    }

    fn saturating_from(value: Sisize) -> (r: Si32)
        ensures
            r@ == clamp(value@, i32::MIN as int, i32::MAX as int),
    {
        saturate(value)
    }
}

impl SaturatingFrom<Sisize> for Si64 {
    open spec fn spec_saturating_from(value: Sisize) -> Si64 {
        saturated::<Sisize, Si64>(value)
    }

    fn saturating_from(value: Sisize) -> (r: Si64)
        ensures
            r@ == clamp(value@, i64::MIN as int, i64::MAX as int),
    {
        saturate(value)
    }
}

impl SaturatingFrom<Sisize> for Si128 {
    open spec fn spec_saturating_from(value: Sisize) -> Si128 {
        saturated::<Sisize, Si128>(value)
    }

    fn saturating_from(value: Sisize) -> (r: Si128)
        ensures
            r@ == clamp(value@, i128::MIN as int, i128::MAX as int),
    {
        saturate(value)
    }
}

impl SaturatingFrom<Sisize> for Su8 {
    open spec fn spec_saturating_from(value: Sisize) -> Su8 {
        saturated::<Sisize, Su8>(value)
    }

    fn saturating_from(value: Sisize) -> (r: Su8)
        ensures
            r@ == clamp(value@, u8::MIN as int, u8::MAX as int),
    {
        saturate(value)
    }
}

impl SaturatingFrom<Sisize> for Su16 {
    open spec fn spec_saturating_from(value: Sisize) -> Su16 {
        saturated::<Sisize, Su16>(value)
    }

    fn saturating_from(value: Sisize) -> (r: Su16)
        ensures
            r@ == clamp(value@, u16::MIN as int, u16::MAX as int),
    {
        saturate(value)
    }
}

impl SaturatingFrom<Sisize> for Su32 {
    open spec fn spec_saturating_from(value: Sisize) -> Su32 {
        saturated::<Sisize, Su32>(value)
    }

    fn saturating_from(value: Sisize) -> (r: Su32)
        ensures
            r@ == clamp(value@, u32::MIN as int, u32::MAX as int),
    {
        saturate(value)
    }
}

impl SaturatingFrom<Sisize> for Su64 {
    open spec fn spec_saturating_from(value: Sisize) -> Su64 {
        saturated::<Sisize, Su64>(value)
    }

    fn saturating_from(value: Sisize) -> (r: Su64)
        ensures
            r@ == clamp(value@, u64::MIN as int, u64::MAX as int),
    {
        saturate(value)
    }
}

impl SaturatingFrom<Sisize> for Su128 {
    open spec fn spec_saturating_from(value: Sisize) -> Su128 {
        saturated::<Sisize, Su128>(value)
    }

    fn saturating_from(value: Sisize) -> (r: Su128)
        ensures
            r@ == clamp(value@, u128::MIN as int, u128::MAX as int),
    {
        saturate(value)
    }
}

impl SaturatingFrom<Sisize> for Susize {
    open spec fn spec_saturating_from(value: Sisize) -> Susize {
        saturated::<Sisize, Susize>(value)
    }

    fn saturating_from(value: Sisize) -> (r: Susize)
        ensures
            r@ == clamp(value@, usize::MIN as int, usize::MAX as int),
    {
        saturate(value)
    }
}

impl SaturatingFrom<Sisize> for i8 {
    open spec fn spec_saturating_from(value: Sisize) -> i8 {
        saturated::<Sisize, i8>(value)
    }

    fn saturating_from(value: Sisize) -> (r: i8)
        ensures
            r as int == clamp(value@, i8::MIN as int, i8::MAX as int),
    {
        saturate(value)
    }
}

impl SaturatingFrom<Sisize> for i16 {
    open spec fn spec_saturating_from(value: Sisize) -> i16 {
        saturated::<Sisize, i16>(value)
    }

    fn saturating_from(value: Sisize) -> (r: i16)
        ensures
            r as int == clamp(value@, i16::MIN as int, i16::MAX as int),
    {
        saturate(value)
    }
}

impl SaturatingFrom<Sisize> for i32 {
    open spec fn spec_saturating_from(value: Sisize) -> i32 {
        saturated::<Sisize, i32>(value)
    }

    fn saturating_from(value: Sisize) -> (r: i32)
        ensures
            r as int == clamp(value@, i32::MIN as int, i32::MAX as int),
    {
        saturate(value)
    }
}

impl SaturatingFrom<Sisize> for i64 {
    open spec fn spec_saturating_from(value: Sisize) -> i64 {
        saturated::<Sisize, i64>(value)
    }

    fn saturating_from(value: Sisize) -> (r: i64)
        ensures
            r as int == clamp(value@, i64::MIN as int, i64::MAX as int),
    {
        saturate(value)
    }
}

impl SaturatingFrom<Sisize> for i128 {
    open spec fn spec_saturating_from(value: Sisize) -> i128 {
        saturated::<Sisize, i128>(value)
    }

    fn saturating_from(value: Sisize) -> (r: i128)
        ensures
            r as int == clamp(value@, i128::MIN as int, i128::MAX as int),
    {
        saturate(value)
    }
}

impl SaturatingFrom<Sisize> for isize {
    open spec fn spec_saturating_from(value: Sisize) -> isize {
        saturated::<Sisize, isize>(value)
    }

    fn saturating_from(value: Sisize) -> (r: isize)
        ensures
            r as int == clamp(value@, isize::MIN as int, isize::MAX as int),
    {
        saturate(value)
    }
}

impl SaturatingFrom<Sisize> for u8 {
    open spec fn spec_saturating_from(value: Sisize) -> u8 {
        saturated::<Sisize, u8>(value)
    }

    fn saturating_from(value: Sisize) -> (r: u8)
        ensures
            r as int == clamp(value@, u8::MIN as int, u8::MAX as int),
    {
        saturate(value)
    }
}

impl SaturatingFrom<Sisize> for u16 {
    open spec fn spec_saturating_from(value: Sisize) -> u16 {
        saturated::<Sisize, u16>(value)
    }

    fn saturating_from(value: Sisize) -> (r: u16)
        ensures
            r as int == clamp(value@, u16::MIN as int, u16::MAX as int),
    {
        saturate(value)
    }
}

impl SaturatingFrom<Sisize> for u32 {
    open spec fn spec_saturating_from(value: Sisize) -> u32 {
        saturated::<Sisize, u32>(value)
    }

    fn saturating_from(value: Sisize) -> (r: u32)
        ensures
            r as int == clamp(value@, u32::MIN as int, u32::MAX as int),
    {
        saturate(value)
    }
}

impl SaturatingFrom<Sisize> for u64 {
    open spec fn spec_saturating_from(value: Sisize) -> u64 {
        saturated::<Sisize, u64>(value)
    }

    fn saturating_from(value: Sisize) -> (r: u64)
        ensures
            r as int == clamp(value@, u64::MIN as int, u64::MAX as int),
    {
        saturate(value)
    }
}

impl SaturatingFrom<Sisize> for u128 {
    open spec fn spec_saturating_from(value: Sisize) -> u128 {
        saturated::<Sisize, u128>(value)
    }

    fn saturating_from(value: Sisize) -> (r: u128)
        ensures
            r as int == clamp(value@, u128::MIN as int, u128::MAX as int),
    {
        saturate(value)
    }
}

impl SaturatingFrom<Sisize> for usize {
    open spec fn spec_saturating_from(value: Sisize) -> usize {
        saturated::<Sisize, usize>(value)
    }

    fn saturating_from(value: Sisize) -> (r: usize)
        ensures
            r as int == clamp(value@, usize::MIN as int, usize::MAX as int),
    {
        saturate(value)
    }
}

impl SaturatingFrom<Su8> for Si8 {
    open spec fn spec_saturating_from(value: Su8) -> Si8 {
        saturated::<Su8, Si8>(value)
    }

    fn saturating_from(value: Su8) -> (r: Si8)
        ensures
            r@ == clamp(value@, i8::MIN as int, i8::MAX as int),
    {
        saturate(value)
    }
}

impl SaturatingFrom<Su8> for Si16 {
    open spec fn spec_saturating_from(value: Su8) -> Si16 {
        saturated::<Su8, Si16>(value)
    }

    fn saturating_from(value: Su8) -> (r: Si16)
        ensures
            r@ == clamp(value@, i16::MIN as int, i16::MAX as int),
    {
        saturate(value)
    }
}

impl SaturatingFrom<Su8> for Si32 {
    open spec fn spec_saturating_from(value: Su8) -> Si32 {
        saturated::<Su8, Si32>(value)
    }

    fn saturating_from(value: Su8) -> (r: Si32)
        ensures
            r@ == clamp(value@, i32::MIN as int, i32::MAX as int),
    {
        saturate(value)
    }
}

impl SaturatingFrom<Su8> for Si64 {
    open spec fn spec_saturating_from(value: Su8) -> Si64 {
        saturated::<Su8, Si64>(value)
    }

    fn saturating_from(value: Su8) -> (r: Si64)
        ensures
            r@ == clamp(value@, i64::MIN as int, i64::MAX as int),
    {
        saturate(value)
    }
}

impl SaturatingFrom<Su8> for Si128 {
    open spec fn spec_saturating_from(value: Su8) -> Si128 {
        saturated::<Su8, Si128>(value)
    }

    fn saturating_from(value: Su8) -> (r: Si128)
        ensures
            r@ == clamp(value@, i128::MIN as int, i128::MAX as int),
    {
        saturate(value)
    }
}

impl SaturatingFrom<Su8> for Sisize {
    open spec fn spec_saturating_from(value: Su8) -> Sisize {
        saturated::<Su8, Sisize>(value)
    }

    fn saturating_from(value: Su8) -> (r: Sisize)
        ensures
            r@ == clamp(value@, isize::MIN as int, isize::MAX as int),
    {
        saturate(value)
    }
}

impl SaturatingFrom<Su8> for Su16 {
    open spec fn spec_saturating_from(value: Su8) -> Su16 {
        saturated::<Su8, Su16>(value)
    }

    fn saturating_from(value: Su8) -> (r: Su16)
        ensures
            r@ == clamp(value@, u16::MIN as int, u16::MAX as int),
    {
        saturate(value)
    }
}

impl SaturatingFrom<Su8> for Su32 {
    open spec fn spec_saturating_from(value: Su8) -> Su32 {
        saturated::<Su8, Su32>(value)
    }

    fn saturating_from(value: Su8) -> (r: Su32)
        ensures
            r@ == clamp(value@, u32::MIN as int, u32::MAX as int),
    {
        saturate(value)
    }
}

impl SaturatingFrom<Su8> for Su64 {
    open spec fn spec_saturating_from(value: Su8) -> Su64 {
        saturated::<Su8, Su64>(value)
    }

    fn saturating_from(value: Su8) -> (r: Su64)
        ensures
            r@ == clamp(value@, u64::MIN as int, u64::MAX as int),
    {
        saturate(value)
    }
}

impl SaturatingFrom<Su8> for Su128 {
    open spec fn spec_saturating_from(value: Su8) -> Su128 {
        saturated::<Su8, Su128>(value)
    }

    fn saturating_from(value: Su8) -> (r: Su128)
        ensures
            r@ == clamp(value@, u128::MIN as int, u128::MAX as int),
    {
        saturate(value)
    }
}

impl SaturatingFrom<Su8> for Susize {
    open spec fn spec_saturating_from(value: Su8) -> Susize {
        saturated::<Su8, Susize>(value)
    }

    fn saturating_from(value: Su8) -> (r: Susize)
        ensures
            r@ == clamp(value@, usize::MIN as int, usize::MAX as int),
    {
        saturate(value)
    }
}

impl SaturatingFrom<Su8> for i8 {
    open spec fn spec_saturating_from(value: Su8) -> i8 {
        saturated::<Su8, i8>(value)
    }

    fn saturating_from(value: Su8) -> (r: i8)
        ensures
            r as int == clamp(value@, i8::MIN as int, i8::MAX as int),
    {
        saturate(value)
    }
}

impl SaturatingFrom<Su8> for i16 {
    open spec fn spec_saturating_from(value: Su8) -> i16 {
        saturated::<Su8, i16>(value)
    }

    fn saturating_from(value: Su8) -> (r: i16)
        ensures
            r as int == clamp(value@, i16::MIN as int, i16::MAX as int),
    {
        saturate(value)
    }
}

impl SaturatingFrom<Su8> for i32 {
    open spec fn spec_saturating_from(value: Su8) -> i32 {
        saturated::<Su8, i32>(value)
    }

    fn saturating_from(value: Su8) -> (r: i32)
        ensures
            r as int == clamp(value@, i32::MIN as int, i32::MAX as int),
    {
        saturate(value)
    }
}

impl SaturatingFrom<Su8> for i64 {
    open spec fn spec_saturating_from(value: Su8) -> i64 {
        saturated::<Su8, i64>(value)
    }

    fn saturating_from(value: Su8) -> (r: i64)
        ensures
            r as int == clamp(value@, i64::MIN as int, i64::MAX as int),
    {
        saturate(value)
    }
}

impl SaturatingFrom<Su8> for i128 {
    open spec fn spec_saturating_from(value: Su8) -> i128 {
        saturated::<Su8, i128>(value)
    }

    fn saturating_from(value: Su8) -> (r: i128)
        ensures
            r as int == clamp(value@, i128::MIN as int, i128::MAX as int),
    {
        saturate(value)
    }
}

impl SaturatingFrom<Su8> for isize {
    open spec fn spec_saturating_from(value: Su8) -> isize {
        saturated::<Su8, isize>(value)
    }

    fn saturating_from(value: Su8) -> (r: isize)
        ensures
            r as int == clamp(value@, isize::MIN as int, isize::MAX as int),
    {
        saturate(value)
    }
}

impl SaturatingFrom<Su8> for u8 {
    open spec fn spec_saturating_from(value: Su8) -> u8 {
        saturated::<Su8, u8>(value)
    }

    fn saturating_from(value: Su8) -> (r: u8)
        ensures
            r as int == clamp(value@, u8::MIN as int, u8::MAX as int),
    {
        saturate(value)
    }
}

impl SaturatingFrom<Su8> for u16 {
    open spec fn spec_saturating_from(value: Su8) -> u16 {
        saturated::<Su8, u16>(value)
    }

    fn saturating_from(value: Su8) -> (r: u16)
        ensures
            r as int == clamp(value@, u16::MIN as int, u16::MAX as int),
    {
        saturate(value)
    }
}

impl SaturatingFrom<Su8> for u32 {
    open spec fn spec_saturating_from(value: Su8) -> u32 {
        saturated::<Su8, u32>(value)
    }

    fn saturating_from(value: Su8) -> (r: u32)
        ensures
            r as int == clamp(value@, u32::MIN as int, u32::MAX as int),
    {
        saturate(value)
    }
}

impl SaturatingFrom<Su8> for u64 {
    open spec fn spec_saturating_from(value: Su8) -> u64 {
        saturated::<Su8, u64>(value)
    }

    fn saturating_from(value: Su8) -> (r: u64)
        ensures
            r as int == clamp(value@, u64::MIN as int, u64::MAX as int),
    {
        saturate(value)
    }
}

impl SaturatingFrom<Su8> for u128 {
    open spec fn spec_saturating_from(value: Su8) -> u128 {
        saturated::<Su8, u128>(value)
    }

    fn saturating_from(value: Su8) -> (r: u128)
        ensures
            r as int == clamp(value@, u128::MIN as int, u128::MAX as int),
    {
        saturate(value)
    }
}

impl SaturatingFrom<Su8> for usize {
    open spec fn spec_saturating_from(value: Su8) -> usize {
        saturated::<Su8, usize>(value)
    }

    fn saturating_from(value: Su8) -> (r: usize)
        ensures
            r as int == clamp(value@, usize::MIN as int, usize::MAX as int),
    {
        saturate(value)
    }
}

impl SaturatingFrom<Su16> for Si8 {
    open spec fn spec_saturating_from(value: Su16) -> Si8 {
        saturated::<Su16, Si8>(value)
    }

    fn saturating_from(value: Su16) -> (r: Si8)
        ensures
            r@ == clamp(value@, i8::MIN as int, i8::MAX as int),
    {
        saturate(value)
    }
}

impl SaturatingFrom<Su16> for Si16 {
    open spec fn spec_saturating_from(value: Su16) -> Si16 {
        saturated::<Su16, Si16>(value)
    }

    fn saturating_from(value: Su16) -> (r: Si16)
        ensures
            r@ == clamp(value@, i16::MIN as int, i16::MAX as int),
    {
        saturate(value)
    }
}

impl SaturatingFrom<Su16> for Si32 {
    open spec fn spec_saturating_from(value: Su16) -> Si32 {
        saturated::<Su16, Si32>(value)
    }

    fn saturating_from(value: Su16) -> (r: Si32)
        ensures
            r@ == clamp(value@, i32::MIN as int, i32::MAX as int),
    {
        saturate(value)
    }
}

impl SaturatingFrom<Su16> for Si64 {
    open spec fn spec_saturating_from(value: Su16) -> Si64 {
        saturated::<Su16, Si64>(value)
    }

    fn saturating_from(value: Su16) -> (r: Si64)
        ensures
            r@ == clamp(value@, i64::MIN as int, i64::MAX as int),
    {
        saturate(value)
    }
}

impl SaturatingFrom<Su16> for Si128 {
    open spec fn spec_saturating_from(value: Su16) -> Si128 {
        saturated::<Su16, Si128>(value)
    }

    fn saturating_from(value: Su16) -> (r: Si128)
        ensures
            r@ == clamp(value@, i128::MIN as int, i128::MAX as int),
    {
        saturate(value)
    }
}

impl SaturatingFrom<Su16> for Sisize {
    open spec fn spec_saturating_from(value: Su16) -> Sisize {
        saturated::<Su16, Sisize>(value)
    }

    fn saturating_from(value: Su16) -> (r: Sisize)
        ensures
            r@ == clamp(value@, isize::MIN as int, isize::MAX as int),
    {
        saturate(value)
    }
}

impl SaturatingFrom<Su16> for Su8 {
    open spec fn spec_saturating_from(value: Su16) -> Su8 {
        saturated::<Su16, Su8>(value)
    }

    fn saturating_from(value: Su16) -> (r: Su8)
        ensures
            r@ == clamp(value@, u8::MIN as int, u8::MAX as int),
    {
        saturate(value)
    }
}

impl SaturatingFrom<Su16> for Su32 {
    open spec fn spec_saturating_from(value: Su16) -> Su32 {
        saturated::<Su16, Su32>(value)
    }

    fn saturating_from(value: Su16) -> (r: Su32)
        ensures
            r@ == clamp(value@, u32::MIN as int, u32::MAX as int),
    {
        saturate(value)
    }
}

impl SaturatingFrom<Su16> for Su64 {
    open spec fn spec_saturating_from(value: Su16) -> Su64 {
        saturated::<Su16, Su64>(value)
    }

    fn saturating_from(value: Su16) -> (r: Su64)
        ensures
            r@ == clamp(value@, u64::MIN as int, u64::MAX as int),
    {
        saturate(value)
    }
}

impl SaturatingFrom<Su16> for Su128 {
    open spec fn spec_saturating_from(value: Su16) -> Su128 {
        saturated::<Su16, Su128>(value)
    }

    fn saturating_from(value: Su16) -> (r: Su128)
        ensures
            r@ == clamp(value@, u128::MIN as int, u128::MAX as int),
    {
        saturate(value)
    }
}

impl SaturatingFrom<Su16> for Susize {
    open spec fn spec_saturating_from(value: Su16) -> Susize {
        saturated::<Su16, Susize>(value)
    }

    fn saturating_from(value: Su16) -> (r: Susize)
        ensures
            r@ == clamp(value@, usize::MIN as int, usize::MAX as int),
    {
        saturate(value)
    }
}

impl SaturatingFrom<Su16> for i8 {
    open spec fn spec_saturating_from(value: Su16) -> i8 {
        saturated::<Su16, i8>(value)
    }

    fn saturating_from(value: Su16) -> (r: i8)
        ensures
            r as int == clamp(value@, i8::MIN as int, i8::MAX as int),
    {
        saturate(value)
    }
}

impl SaturatingFrom<Su16> for i16 {
    open spec fn spec_saturating_from(value: Su16) -> i16 {
        saturated::<Su16, i16>(value)
    }

    fn saturating_from(value: Su16) -> (r: i16)
        ensures
            r as int == clamp(value@, i16::MIN as int, i16::MAX as int),
    {
        saturate(value)
    }
}

impl SaturatingFrom<Su16> for i32 {
    open spec fn spec_saturating_from(value: Su16) -> i32 {
        saturated::<Su16, i32>(value)
    }

    fn saturating_from(value: Su16) -> (r: i32)
        ensures
            r as int == clamp(value@, i32::MIN as int, i32::MAX as int),
    {
        saturate(value)
    }
}

impl SaturatingFrom<Su16> for i64 {
    open spec fn spec_saturating_from(value: Su16) -> i64 {
        saturated::<Su16, i64>(value)
    }

    fn saturating_from(value: Su16) -> (r: i64)
        ensures
            r as int == clamp(value@, i64::MIN as int, i64::MAX as int),
    {
        saturate(value)
    }
}

impl SaturatingFrom<Su16> for i128 {
    open spec fn spec_saturating_from(value: Su16) -> i128 {
        saturated::<Su16, i128>(value)
    }

    fn saturating_from(value: Su16) -> (r: i128)
        ensures
            r as int == clamp(value@, i128::MIN as int, i128::MAX as int),
    {
        saturate(value)
    }
}

impl SaturatingFrom<Su16> for isize {
    open spec fn spec_saturating_from(value: Su16) -> isize {
        saturated::<Su16, isize>(value)
    }

    fn saturating_from(value: Su16) -> (r: isize)
        ensures
            r as int == clamp(value@, isize::MIN as int, isize::MAX as int),
    {
        saturate(value)
    }
}

impl SaturatingFrom<Su16> for u8 {
    open spec fn spec_saturating_from(value: Su16) -> u8 {
        saturated::<Su16, u8>(value)
    }

    fn saturating_from(value: Su16) -> (r: u8)
        ensures
            r as int == clamp(value@, u8::MIN as int, u8::MAX as int),
    {
        saturate(value)
    }
}

impl SaturatingFrom<Su16> for u16 {
    open spec fn spec_saturating_from(value: Su16) -> u16 {
        saturated::<Su16, u16>(value)
    }

    fn saturating_from(value: Su16) -> (r: u16)
        ensures
            r as int == clamp(value@, u16::MIN as int, u16::MAX as int),
    {
        saturate(value)
    }
}

impl SaturatingFrom<Su16> for u32 {
    open spec fn spec_saturating_from(value: Su16) -> u32 {
        saturated::<Su16, u32>(value)
    }

    fn saturating_from(value: Su16) -> (r: u32)
        ensures
            r as int == clamp(value@, u32::MIN as int, u32::MAX as int),
    {
        saturate(value)
    }
}

impl SaturatingFrom<Su16> for u64 {
    open spec fn spec_saturating_from(value: Su16) -> u64 {
        saturated::<Su16, u64>(value)
    }

    fn saturating_from(value: Su16) -> (r: u64)
        ensures
            r as int == clamp(value@, u64::MIN as int, u64::MAX as int),
    {
        saturate(value)
    }
}

impl SaturatingFrom<Su16> for u128 {
    open spec fn spec_saturating_from(value: Su16) -> u128 {
        saturated::<Su16, u128>(value)
    }

    fn saturating_from(value: Su16) -> (r: u128)
        ensures
            r as int == clamp(value@, u128::MIN as int, u128::MAX as int),
    {
        saturate(value)
    }
}

impl SaturatingFrom<Su16> for usize {
    open spec fn spec_saturating_from(value: Su16) -> usize {
        saturated::<Su16, usize>(value)
    }

    fn saturating_from(value: Su16) -> (r: usize)
        ensures
            r as int == clamp(value@, usize::MIN as int, usize::MAX as int),
    {
        saturate(value)
    }
}

impl SaturatingFrom<Su32> for Si8 {
    open spec fn spec_saturating_from(value: Su32) -> Si8 {
        saturated::<Su32, Si8>(value)
    }

    fn saturating_from(value: Su32) -> (r: Si8)
        ensures
            r@ == clamp(value@, i8::MIN as int, i8::MAX as int),
    {
        saturate(value)
    }
}

impl SaturatingFrom<Su32> for Si16 {
    open spec fn spec_saturating_from(value: Su32) -> Si16 {
        saturated::<Su32, Si16>(value)
    }

    fn saturating_from(value: Su32) -> (r: Si16)
        ensures
            r@ == clamp(value@, i16::MIN as int, i16::MAX as int),
    {
        saturate(value)
    }
}

impl SaturatingFrom<Su32> for Si32 {
    open spec fn spec_saturating_from(value: Su32) -> Si32 {
        saturated::<Su32, Si32>(value)
    }

    fn saturating_from(value: Su32) -> (r: Si32)
        ensures
            r@ == clamp(value@, i32::MIN as int, i32::MAX as int),
    {
        saturate(value)
    }
}

impl SaturatingFrom<Su32> for Si64 {
    open spec fn spec_saturating_from(value: Su32) -> Si64 {
        saturated::<Su32, Si64>(value)
    }

    fn saturating_from(value: Su32) -> (r: Si64)
        ensures
            r@ == clamp(value@, i64::MIN as int, i64::MAX as int),
    {
        saturate(value)
    }
}

impl SaturatingFrom<Su32> for Si128 {
    open spec fn spec_saturating_from(value: Su32) -> Si128 {
        saturated::<Su32, Si128>(value)
    }

    fn saturating_from(value: Su32) -> (r: Si128)
        ensures
            r@ == clamp(value@, i128::MIN as int, i128::MAX as int),
    {
        saturate(value)
    }
}

impl SaturatingFrom<Su32> for Sisize {
    open spec fn spec_saturating_from(value: Su32) -> Sisize {
        saturated::<Su32, Sisize>(value)
    }

    fn saturating_from(value: Su32) -> (r: Sisize)
        ensures
            r@ == clamp(value@, isize::MIN as int, isize::MAX as int),
    {
        saturate(value)
    }
}

impl SaturatingFrom<Su32> for Su8 {
    open spec fn spec_saturating_from(value: Su32) -> Su8 {
        saturated::<Su32, Su8>(value)
    }

    fn saturating_from(value: Su32) -> (r: Su8)
        ensures
            r@ == clamp(value@, u8::MIN as int, u8::MAX as int),
    {
        saturate(value)
    }
}

impl SaturatingFrom<Su32> for Su16 {
    open spec fn spec_saturating_from(value: Su32) -> Su16 {
        saturated::<Su32, Su16>(value)
    }

    fn saturating_from(value: Su32) -> (r: Su16)
        ensures
            r@ == clamp(value@, u16::MIN as int, u16::MAX as int),
    {
        saturate(value)
    }
}

impl SaturatingFrom<Su32> for Su64 {
    open spec fn spec_saturating_from(value: Su32) -> Su64 {
        saturated::<Su32, Su64>(value)
    }

    fn saturating_from(value: Su32) -> (r: Su64)
        ensures
            r@ == clamp(value@, u64::MIN as int, u64::MAX as int),
    {
        saturate(value)
    }
}

impl SaturatingFrom<Su32> for Su128 {
    open spec fn spec_saturating_from(value: Su32) -> Su128 {
        saturated::<Su32, Su128>(value)
    }

    fn saturating_from(value: Su32) -> (r: Su128)
        ensures
            r@ == clamp(value@, u128::MIN as int, u128::MAX as int),
    {
        saturate(value)
    }
}

impl SaturatingFrom<Su32> for Susize {
    open spec fn spec_saturating_from(value: Su32) -> Susize {
        saturated::<Su32, Susize>(value)
    }

    fn saturating_from(value: Su32) -> (r: Susize)
        ensures
            r@ == clamp(value@, usize::MIN as int, usize::MAX as int),
    {
        saturate(value)
    }
}

impl SaturatingFrom<Su32> for i8 {
    open spec fn spec_saturating_from(value: Su32) -> i8 {
        saturated::<Su32, i8>(value)
    }

    fn saturating_from(value: Su32) -> (r: i8)
        ensures
            r as int == clamp(value@, i8::MIN as int, i8::MAX as int),
    {
        saturate(value)
    }
}

impl SaturatingFrom<Su32> for i16 {
    open spec fn spec_saturating_from(value: Su32) -> i16 {
        saturated::<Su32, i16>(value)
    }

    fn saturating_from(value: Su32) -> (r: i16)
        ensures
            r as int == clamp(value@, i16::MIN as int, i16::MAX as int),
    {
        saturate(value)
    }
}

impl SaturatingFrom<Su32> for i32 {
    open spec fn spec_saturating_from(value: Su32) -> i32 {
        saturated::<Su32, i32>(value)
    }

    fn saturating_from(value: Su32) -> (r: i32)
        ensures
            r as int == clamp(value@, i32::MIN as int, i32::MAX as int),
    {
        saturate(value)
    }
}

impl SaturatingFrom<Su32> for i64 {
    open spec fn spec_saturating_from(value: Su32) -> i64 {
        saturated::<Su32, i64>(value)
    }

    fn saturating_from(value: Su32) -> (r: i64)
        ensures
            r as int == clamp(value@, i64::MIN as int, i64::MAX as int),
    {
        saturate(value)
    }
}

impl SaturatingFrom<Su32> for i128 {
    open spec fn spec_saturating_from(value: Su32) -> i128 {
        saturated::<Su32, i128>(value)
    }

    fn saturating_from(value: Su32) -> (r: i128)
        ensures
            r as int == clamp(value@, i128::MIN as int, i128::MAX as int),
    {
        saturate(value)
    }
}

impl SaturatingFrom<Su32> for isize {
    open spec fn spec_saturating_from(value: Su32) -> isize {
        saturated::<Su32, isize>(value)
    }

    fn saturating_from(value: Su32) -> (r: isize)
        ensures
            r as int == clamp(value@, isize::MIN as int, isize::MAX as int),
    {
        saturate(value)
    }
}

impl SaturatingFrom<Su32> for u8 {
    open spec fn spec_saturating_from(value: Su32) -> u8 {
        saturated::<Su32, u8>(value)
    }

    fn saturating_from(value: Su32) -> (r: u8)
        ensures
            r as int == clamp(value@, u8::MIN as int, u8::MAX as int),
    {
        saturate(value)
    }
}

impl SaturatingFrom<Su32> for u16 {
    open spec fn spec_saturating_from(value: Su32) -> u16 {
        saturated::<Su32, u16>(value)
    }

    fn saturating_from(value: Su32) -> (r: u16)
        ensures
            r as int == clamp(value@, u16::MIN as int, u16::MAX as int),
    {
        saturate(value)
    }
}

impl SaturatingFrom<Su32> for u32 {
    open spec fn spec_saturating_from(value: Su32) -> u32 {
        saturated::<Su32, u32>(value)
    }

    fn saturating_from(value: Su32) -> (r: u32)
        ensures
            r as int == clamp(value@, u32::MIN as int, u32::MAX as int),
    {
        saturate(value)
    }
}

impl SaturatingFrom<Su32> for u64 {
    open spec fn spec_saturating_from(value: Su32) -> u64 {
        saturated::<Su32, u64>(value)
    }

    fn saturating_from(value: Su32) -> (r: u64)
        ensures
            r as int == clamp(value@, u64::MIN as int, u64::MAX as int),
    {
        saturate(value)
    }
}

impl SaturatingFrom<Su32> for u128 {
    open spec fn spec_saturating_from(value: Su32) -> u128 {
        saturated::<Su32, u128>(value)
    }

    fn saturating_from(value: Su32) -> (r: u128)
        ensures
            r as int == clamp(value@, u128::MIN as int, u128::MAX as int),
    {
        saturate(value)
    }
}

impl SaturatingFrom<Su32> for usize {
    open spec fn spec_saturating_from(value: Su32) -> usize {
        saturated::<Su32, usize>(value)
    }

    fn saturating_from(value: Su32) -> (r: usize)
        ensures
            r as int == clamp(value@, usize::MIN as int, usize::MAX as int),
    {
        saturate(value)
    }
}

impl SaturatingFrom<Su64> for Si8 {
    open spec fn spec_saturating_from(value: Su64) -> Si8 {
        saturated::<Su64, Si8>(value)
    }

    fn saturating_from(value: Su64) -> (r: Si8)
        ensures
            r@ == clamp(value@, i8::MIN as int, i8::MAX as int),
    {
        saturate(value)
    }
}

impl SaturatingFrom<Su64> for Si16 {
    open spec fn spec_saturating_from(value: Su64) -> Si16 {
        saturated::<Su64, Si16>(value)
    }

    fn saturating_from(value: Su64) -> (r: Si16)
        ensures
            r@ == clamp(value@, i16::MIN as int, i16::MAX as int),
    {
        saturate(value)
    }
}

impl SaturatingFrom<Su64> for Si32 {
    open spec fn spec_saturating_from(value: Su64) -> Si32 {
        saturated::<Su64, Si32>(value)
    }

    fn saturating_from(value: Su64) -> (r: Si32)
        ensures
            r@ == clamp(value@, i32::MIN as int, i32::MAX as int),
    {
        saturate(value)
    }
}

impl SaturatingFrom<Su64> for Si64 {
    open spec fn spec_saturating_from(value: Su64) -> Si64 {
        saturated::<Su64, Si64>(value)
    }

    fn saturating_from(value: Su64) -> (r: Si64)
        ensures
            r@ == clamp(value@, i64::MIN as int, i64::MAX as int),
    {
        saturate(value)
    }
}

impl SaturatingFrom<Su64> for Si128 {
    open spec fn spec_saturating_from(value: Su64) -> Si128 {
        saturated::<Su64, Si128>(value)
    }

    fn saturating_from(value: Su64) -> (r: Si128)
        ensures
            r@ == clamp(value@, i128::MIN as int, i128::MAX as int),
    {
        saturate(value)
    }
}

impl SaturatingFrom<Su64> for Sisize {
    open spec fn spec_saturating_from(value: Su64) -> Sisize {
        saturated::<Su64, Sisize>(value)
    }

    fn saturating_from(value: Su64) -> (r: Sisize)
        ensures
            r@ == clamp(value@, isize::MIN as int, isize::MAX as int),
    {
        saturate(value)
    }
}

impl SaturatingFrom<Su64> for Su8 {
    open spec fn spec_saturating_from(value: Su64) -> Su8 {
        saturated::<Su64, Su8>(value)
    }

    fn saturating_from(value: Su64) -> (r: Su8)
        ensures
            r@ == clamp(value@, u8::MIN as int, u8::MAX as int),
    {
        saturate(value)
    }
}

impl SaturatingFrom<Su64> for Su16 {
    open spec fn spec_saturating_from(value: Su64) -> Su16 {
        saturated::<Su64, Su16>(value)
    }

    fn saturating_from(value: Su64) -> (r: Su16)
        ensures
            r@ == clamp(value@, u16::MIN as int, u16::MAX as int),
    {
        saturate(value)
    }
}

impl SaturatingFrom<Su64> for Su32 {
    open spec fn spec_saturating_from(value: Su64) -> Su32 {
        saturated::<Su64, Su32>(value)
    }

    fn saturating_from(value: Su64) -> (r: Su32)
        ensures
            r@ == clamp(value@, u32::MIN as int, u32::MAX as int),
    {
        saturate(value)
    }
}

impl SaturatingFrom<Su64> for Su128 {
    open spec fn spec_saturating_from(value: Su64) -> Su128 {
        saturated::<Su64, Su128>(value)
    }

    fn saturating_from(value: Su64) -> (r: Su128)
        ensures
            r@ == clamp(value@, u128::MIN as int, u128::MAX as int),
    {
        saturate(value)
    }
}

impl SaturatingFrom<Su64> for Susize {
    open spec fn spec_saturating_from(value: Su64) -> Susize {
        saturated::<Su64, Susize>(value)
    }

    fn saturating_from(value: Su64) -> (r: Susize)
        ensures
            r@ == clamp(value@, usize::MIN as int, usize::MAX as int),
    {
        saturate(value)
    }
}

impl SaturatingFrom<Su64> for i8 {
    open spec fn spec_saturating_from(value: Su64) -> i8 {
        saturated::<Su64, i8>(value)
    }

    fn saturating_from(value: Su64) -> (r: i8)
        ensures
            r as int == clamp(value@, i8::MIN as int, i8::MAX as int),
    {
        saturate(value)
    }
}

impl SaturatingFrom<Su64> for i16 {
    open spec fn spec_saturating_from(value: Su64) -> i16 {
        saturated::<Su64, i16>(value)
    }

    fn saturating_from(value: Su64) -> (r: i16)
        ensures
            r as int == clamp(value@, i16::MIN as int, i16::MAX as int),
    {
        saturate(value)
    }
}

impl SaturatingFrom<Su64> for i32 {
    open spec fn spec_saturating_from(value: Su64) -> i32 {
        saturated::<Su64, i32>(value)
    }

    fn saturating_from(value: Su64) -> (r: i32)
        ensures
            r as int == clamp(value@, i32::MIN as int, i32::MAX as int),
    {
        saturate(value)
    }
}

impl SaturatingFrom<Su64> for i64 {
    open spec fn spec_saturating_from(value: Su64) -> i64 {
        saturated::<Su64, i64>(value)
    }

    fn saturating_from(value: Su64) -> (r: i64)
        ensures
            r as int == clamp(value@, i64::MIN as int, i64::MAX as int),
    {
        saturate(value)
    }
}

impl SaturatingFrom<Su64> for i128 {
    open spec fn spec_saturating_from(value: Su64) -> i128 {
        saturated::<Su64, i128>(value)
    }

    fn saturating_from(value: Su64) -> (r: i128)
        ensures
            r as int == clamp(value@, i128::MIN as int, i128::MAX as int),
    {
        saturate(value)
    }
}

impl SaturatingFrom<Su64> for isize {
    open spec fn spec_saturating_from(value: Su64) -> isize {
        saturated::<Su64, isize>(value)
    }

    fn saturating_from(value: Su64) -> (r: isize)
        ensures
            r as int == clamp(value@, isize::MIN as int, isize::MAX as int),
    {
        saturate(value)
    }
}

impl SaturatingFrom<Su64> for u8 {
    open spec fn spec_saturating_from(value: Su64) -> u8 {
        saturated::<Su64, u8>(value)
    }

    fn saturating_from(value: Su64) -> (r: u8)
        ensures
            r as int == clamp(value@, u8::MIN as int, u8::MAX as int),
    {
        saturate(value)
    }
}

impl SaturatingFrom<Su64> for u16 {
    open spec fn spec_saturating_from(value: Su64) -> u16 {
        saturated::<Su64, u16>(value)
    }

    fn saturating_from(value: Su64) -> (r: u16)
        ensures
            r as int == clamp(value@, u16::MIN as int, u16::MAX as int),
    {
        saturate(value)
    }
}

impl SaturatingFrom<Su64> for u32 {
    open spec fn spec_saturating_from(value: Su64) -> u32 {
        saturated::<Su64, u32>(value)
    }

    fn saturating_from(value: Su64) -> (r: u32)
        ensures
            r as int == clamp(value@, u32::MIN as int, u32::MAX as int),
    {
        saturate(value)
    }
}

impl SaturatingFrom<Su64> for u64 {
    open spec fn spec_saturating_from(value: Su64) -> u64 {
        saturated::<Su64, u64>(value)
    }

    fn saturating_from(value: Su64) -> (r: u64)
        ensures
            r as int == clamp(value@, u64::MIN as int, u64::MAX as int),
    {
        saturate(value)
    }
}

impl SaturatingFrom<Su64> for u128 {
    open spec fn spec_saturating_from(value: Su64) -> u128 {
        saturated::<Su64, u128>(value)
    }

    fn saturating_from(value: Su64) -> (r: u128)
        ensures
            r as int == clamp(value@, u128::MIN as int, u128::MAX as int),
    {
        saturate(value)
    }
}

impl SaturatingFrom<Su64> for usize {
    open spec fn spec_saturating_from(value: Su64) -> usize {
        saturated::<Su64, usize>(value)
    }

    fn saturating_from(value: Su64) -> (r: usize)
        ensures
            r as int == clamp(value@, usize::MIN as int, usize::MAX as int),
    {
        saturate(value)
    }
}

impl SaturatingFrom<Su128> for Si8 {
    open spec fn spec_saturating_from(value: Su128) -> Si8 {
        saturated::<Su128, Si8>(value)
    }

    fn saturating_from(value: Su128) -> (r: Si8)
        ensures
            r@ == clamp(value@, i8::MIN as int, i8::MAX as int),
    {
        saturate(value)
    }
}

impl SaturatingFrom<Su128> for Si16 {
    open spec fn spec_saturating_from(value: Su128) -> Si16 {
        saturated::<Su128, Si16>(value)
    }

    fn saturating_from(value: Su128) -> (r: Si16)
        ensures
            r@ == clamp(value@, i16::MIN as int, i16::MAX as int),
    {
        saturate(value)
    }
}

impl SaturatingFrom<Su128> for Si32 {
    open spec fn spec_saturating_from(value: Su128) -> Si32 {
        saturated::<Su128, Si32>(value)
    }

    fn saturating_from(value: Su128) -> (r: Si32)
        ensures
            r@ == clamp(value@, i32::MIN as int, i32::MAX as int),
    {
        saturate(value)
    }
}

impl SaturatingFrom<Su128> for Si64 {
    open spec fn spec_saturating_from(value: Su128) -> Si64 {
        saturated::<Su128, Si64>(value)
    }

    fn saturating_from(value: Su128) -> (r: Si64)
        ensures
            r@ == clamp(value@, i64::MIN as int, i64::MAX as int),
    {
        saturate(value)
    }
}

impl SaturatingFrom<Su128> for Si128 {
    open spec fn spec_saturating_from(value: Su128) -> Si128 {
        saturated::<Su128, Si128>(value)
    }

    fn saturating_from(value: Su128) -> (r: Si128)
        ensures
            r@ == clamp(value@, i128::MIN as int, i128::MAX as int),
    {
        saturate(value)
    }
}

impl SaturatingFrom<Su128> for Sisize {
    open spec fn spec_saturating_from(value: Su128) -> Sisize {
        saturated::<Su128, Sisize>(value)
    }

    fn saturating_from(value: Su128) -> (r: Sisize)
        ensures
            r@ == clamp(value@, isize::MIN as int, isize::MAX as int),
    {
        saturate(value)
    }
}

impl SaturatingFrom<Su128> for Su8 {
    open spec fn spec_saturating_from(value: Su128) -> Su8 {
        saturated::<Su128, Su8>(value)
    }

    fn saturating_from(value: Su128) -> (r: Su8)
        ensures
            r@ == clamp(value@, u8::MIN as int, u8::MAX as int),
    {
        saturate(value)
    }
}

impl SaturatingFrom<Su128> for Su16 {
    open spec fn spec_saturating_from(value: Su128) -> Su16 {
        saturated::<Su128, Su16>(value)
    }

    fn saturating_from(value: Su128) -> (r: Su16)
        ensures
            r@ == clamp(value@, u16::MIN as int, u16::MAX as int),
    {
        saturate(value)
    }
}

impl SaturatingFrom<Su128> for Su32 {
    open spec fn spec_saturating_from(value: Su128) -> Su32 {
        saturated::<Su128, Su32>(value)
    }

    fn saturating_from(value: Su128) -> (r: Su32)
        ensures
            r@ == clamp(value@, u32::MIN as int, u32::MAX as int),
    {
        saturate(value)
    }
}

impl SaturatingFrom<Su128> for Su64 {
    open spec fn spec_saturating_from(value: Su128) -> Su64 {
        saturated::<Su128, Su64>(value)
    }

    fn saturating_from(value: Su128) -> (r: Su64)
        ensures
            r@ == clamp(value@, u64::MIN as int, u64::MAX as int),
    {
        saturate(value)
    }
}

impl SaturatingFrom<Su128> for Susize {
    open spec fn spec_saturating_from(value: Su128) -> Susize {
        saturated::<Su128, Susize>(value)
    }

    fn saturating_from(value: Su128) -> (r: Susize)
        ensures
            r@ == clamp(value@, usize::MIN as int, usize::MAX as int),
    {
        saturate(value)
    }
}

impl SaturatingFrom<Su128> for i8 {
    open spec fn spec_saturating_from(value: Su128) -> i8 {
        saturated::<Su128, i8>(value)
    }

    fn saturating_from(value: Su128) -> (r: i8)
        ensures
            r as int == clamp(value@, i8::MIN as int, i8::MAX as int),
    {
        saturate(value)
    }
}

impl SaturatingFrom<Su128> for i16 {
    open spec fn spec_saturating_from(value: Su128) -> i16 {
        saturated::<Su128, i16>(value)
    }

    fn saturating_from(value: Su128) -> (r: i16)
        ensures
            r as int == clamp(value@, i16::MIN as int, i16::MAX as int),
    {
        saturate(value)
    }
}

impl SaturatingFrom<Su128> for i32 {
    open spec fn spec_saturating_from(value: Su128) -> i32 {
        saturated::<Su128, i32>(value)
    }

    fn saturating_from(value: Su128) -> (r: i32)
        ensures
            r as int == clamp(value@, i32::MIN as int, i32::MAX as int),
    {
        saturate(value)
    }
}

impl SaturatingFrom<Su128> for i64 {
    open spec fn spec_saturating_from(value: Su128) -> i64 {
        saturated::<Su128, i64>(value)
    }

    fn saturating_from(value: Su128) -> (r: i64)
        ensures
            r as int == clamp(value@, i64::MIN as int, i64::MAX as int),
    {
        saturate(value)
    }
}

impl SaturatingFrom<Su128> for i128 {
    open spec fn spec_saturating_from(value: Su128) -> i128 {
        saturated::<Su128, i128>(value)
    }

    fn saturating_from(value: Su128) -> (r: i128)
        ensures
            r as int == clamp(value@, i128::MIN as int, i128::MAX as int),
    {
        saturate(value)
    }
}

impl SaturatingFrom<Su128> for isize {
    open spec fn spec_saturating_from(value: Su128) -> isize {
        saturated::<Su128, isize>(value)
    }

    fn saturating_from(value: Su128) -> (r: isize)
        ensures
            r as int == clamp(value@, isize::MIN as int, isize::MAX as int),
    {
        saturate(value)
    }
}

impl SaturatingFrom<Su128> for u8 {
    open spec fn spec_saturating_from(value: Su128) -> u8 {
        saturated::<Su128, u8>(value)
    }

    fn saturating_from(value: Su128) -> (r: u8)
        ensures
            r as int == clamp(value@, u8::MIN as int, u8::MAX as int),
    {
        saturate(value)
    }
}

impl SaturatingFrom<Su128> for u16 {
    open spec fn spec_saturating_from(value: Su128) -> u16 {
        saturated::<Su128, u16>(value)
    }

    fn saturating_from(value: Su128) -> (r: u16)
        ensures
            r as int == clamp(value@, u16::MIN as int, u16::MAX as int),
    {
        saturate(value)
    }
}

impl SaturatingFrom<Su128> for u32 {
    open spec fn spec_saturating_from(value: Su128) -> u32 {
        saturated::<Su128, u32>(value)
    }

    fn saturating_from(value: Su128) -> (r: u32)
        ensures
            r as int == clamp(value@, u32::MIN as int, u32::MAX as int),
    {
        saturate(value)
    }
}

impl SaturatingFrom<Su128> for u64 {
    open spec fn spec_saturating_from(value: Su128) -> u64 {
        saturated::<Su128, u64>(value)
    }

    fn saturating_from(value: Su128) -> (r: u64)
        ensures
            r as int == clamp(value@, u64::MIN as int, u64::MAX as int),
    {
        saturate(value)
    }
}

impl SaturatingFrom<Su128> for u128 {
    open spec fn spec_saturating_from(value: Su128) -> u128 {
        saturated::<Su128, u128>(value)
    }

    fn saturating_from(value: Su128) -> (r: u128)
        ensures
            r as int == clamp(value@, u128::MIN as int, u128::MAX as int),
    {
        saturate(value)
    }
}

impl SaturatingFrom<Su128> for usize {
    open spec fn spec_saturating_from(value: Su128) -> usize {
        saturated::<Su128, usize>(value)
    }

    fn saturating_from(value: Su128) -> (r: usize)
        ensures
            r as int == clamp(value@, usize::MIN as int, usize::MAX as int),
    {
        saturate(value)
    }
}

impl SaturatingFrom<Susize> for Si8 {
    open spec fn spec_saturating_from(value: Susize) -> Si8 {
        saturated::<Susize, Si8>(value)
    }

    fn saturating_from(value: Susize) -> (r: Si8)
        ensures
            r@ == clamp(value@, i8::MIN as int, i8::MAX as int),
    {
        saturate(value)
    }
}

impl SaturatingFrom<Susize> for Si16 {
    open spec fn spec_saturating_from(value: Susize) -> Si16 {
        saturated::<Susize, Si16>(value)
    }

    fn saturating_from(value: Susize) -> (r: Si16)
        ensures
            r@ == clamp(value@, i16::MIN as int, i16::MAX as int),
    {
        saturate(value)
    }
}

impl SaturatingFrom<Susize> for Si32 {
    open spec fn spec_saturating_from(value: Susize) -> Si32 {
        saturated::<Susize, Si32>(value)
    }

    fn saturating_from(value: Susize) -> (r: Si32)
        ensures
            r@ == clamp(value@, i32::MIN as int, i32::MAX as int),
    {
        saturate(value)
    }
}

impl SaturatingFrom<Susize> for Si64 {
    open spec fn spec_saturating_from(value: Susize) -> Si64 {
        saturated::<Susize, Si64>(value)
    }

    fn saturating_from(value: Susize) -> (r: Si64)
        ensures
            r@ == clamp(value@, i64::MIN as int, i64::MAX as int),
    {
        saturate(value)
    }
}

impl SaturatingFrom<Susize> for Si128 {
    open spec fn spec_saturating_from(value: Susize) -> Si128 {
        saturated::<Susize, Si128>(value)
    }

    fn saturating_from(value: Susize) -> (r: Si128)
        ensures
            r@ == clamp(value@, i128::MIN as int, i128::MAX as int),
    {
        saturate(value)
    }
}

impl SaturatingFrom<Susize> for Sisize {
    open spec fn spec_saturating_from(value: Susize) -> Sisize {
        saturated::<Susize, Sisize>(value)
    }

    fn saturating_from(value: Susize) -> (r: Sisize)
        ensures
            r@ == clamp(value@, isize::MIN as int, isize::MAX as int),
    {
        saturate(value)
    }
}

impl SaturatingFrom<Susize> for Su8 {
    open spec fn spec_saturating_from(value: Susize) -> Su8 {
        saturated::<Susize, Su8>(value)
    }

    fn saturating_from(value: Susize) -> (r: Su8)
        ensures
            r@ == clamp(value@, u8::MIN as int, u8::MAX as int),
    {
        saturate(value)
    }
}

impl SaturatingFrom<Susize> for Su16 {
    open spec fn spec_saturating_from(value: Susize) -> Su16 {
        saturated::<Susize, Su16>(value)
    }

    fn saturating_from(value: Susize) -> (r: Su16)
        ensures
            r@ == clamp(value@, u16::MIN as int, u16::MAX as int),
    {
        saturate(value)
    }
}

impl SaturatingFrom<Susize> for Su32 {
    open spec fn spec_saturating_from(value: Susize) -> Su32 {
        saturated::<Susize, Su32>(value)
    }

    fn saturating_from(value: Susize) -> (r: Su32)
        ensures
            r@ == clamp(value@, u32::MIN as int, u32::MAX as int),
    {
        saturate(value)
    }
}

impl SaturatingFrom<Susize> for Su64 {
    open spec fn spec_saturating_from(value: Susize) -> Su64 {
        saturated::<Susize, Su64>(value)
    }

    fn saturating_from(value: Susize) -> (r: Su64)
        ensures
            r@ == clamp(value@, u64::MIN as int, u64::MAX as int),
    {
        saturate(value)
    }
}

impl SaturatingFrom<Susize> for Su128 {
    open spec fn spec_saturating_from(value: Susize) -> Su128 {
        saturated::<Susize, Su128>(value)
    }

    fn saturating_from(value: Susize) -> (r: Su128)
        ensures
            r@ == clamp(value@, u128::MIN as int, u128::MAX as int),
    {
        saturate(value)
    }
}

impl SaturatingFrom<Susize> for i8 {
    open spec fn spec_saturating_from(value: Susize) -> i8 {
        saturated::<Susize, i8>(value)
    }

    fn saturating_from(value: Susize) -> (r: i8)
        ensures
            r as int == clamp(value@, i8::MIN as int, i8::MAX as int),
    {
        saturate(value)
    }
}

impl SaturatingFrom<Susize> for i16 {
    open spec fn spec_saturating_from(value: Susize) -> i16 {
        saturated::<Susize, i16>(value)
    }

    fn saturating_from(value: Susize) -> (r: i16)
        ensures
            r as int == clamp(value@, i16::MIN as int, i16::MAX as int),
    {
        saturate(value)
    }
}

impl SaturatingFrom<Susize> for i32 {
    open spec fn spec_saturating_from(value: Susize) -> i32 {
        saturated::<Susize, i32>(value)
    }

    fn saturating_from(value: Susize) -> (r: i32)
        ensures
            r as int == clamp(value@, i32::MIN as int, i32::MAX as int),
    {
        saturate(value)
    }
}

impl SaturatingFrom<Susize> for i64 {
    open spec fn spec_saturating_from(value: Susize) -> i64 {
        saturated::<Susize, i64>(value)
    }

    fn saturating_from(value: Susize) -> (r: i64)
        ensures
            r as int == clamp(value@, i64::MIN as int, i64::MAX as int),
    {
        saturate(value)
    }
}

impl SaturatingFrom<Susize> for i128 {
    open spec fn spec_saturating_from(value: Susize) -> i128 {
        saturated::<Susize, i128>(value)
    }

    fn saturating_from(value: Susize) -> (r: i128)
        ensures
            r as int == clamp(value@, i128::MIN as int, i128::MAX as int),
    {
        saturate(value)
    }
}

impl SaturatingFrom<Susize> for isize {
    open spec fn spec_saturating_from(value: Susize) -> isize {
        saturated::<Susize, isize>(value)
    }

    fn saturating_from(value: Susize) -> (r: isize)
        ensures
            r as int == clamp(value@, isize::MIN as int, isize::MAX as int),
    {
        saturate(value)
    }
}

impl SaturatingFrom<Susize> for u8 {
    open spec fn spec_saturating_from(value: Susize) -> u8 {
        saturated::<Susize, u8>(value)
    }

    fn saturating_from(value: Susize) -> (r: u8)
        ensures
            r as int == clamp(value@, u8::MIN as int, u8::MAX as int),
    {
        saturate(value)
    }
}

impl SaturatingFrom<Susize> for u16 {
    open spec fn spec_saturating_from(value: Susize) -> u16 {
        saturated::<Susize, u16>(value)
    }

    fn saturating_from(value: Susize) -> (r: u16)
        ensures
            r as int == clamp(value@, u16::MIN as int, u16::MAX as int),
    {
        saturate(value)
    }
}

impl SaturatingFrom<Susize> for u32 {
    open spec fn spec_saturating_from(value: Susize) -> u32 {
        saturated::<Susize, u32>(value)
    }

    fn saturating_from(value: Susize) -> (r: u32)
        ensures
            r as int == clamp(value@, u32::MIN as int, u32::MAX as int),
    {
        saturate(value)
    }
}

impl SaturatingFrom<Susize> for u64 {
    open spec fn spec_saturating_from(value: Susize) -> u64 {
        saturated::<Susize, u64>(value)
    }

    fn saturating_from(value: Susize) -> (r: u64)
        ensures
            r as int == clamp(value@, u64::MIN as int, u64::MAX as int),
    {
        saturate(value)
    }
}

impl SaturatingFrom<Susize> for u128 {
    open spec fn spec_saturating_from(value: Susize) -> u128 {
        saturated::<Susize, u128>(value)
    }

    fn saturating_from(value: Susize) -> (r: u128)
        ensures
            r as int == clamp(value@, u128::MIN as int, u128::MAX as int),
    {
        saturate(value)
    }
}

impl SaturatingFrom<Susize> for usize {
    open spec fn spec_saturating_from(value: Susize) -> usize {
        saturated::<Susize, usize>(value)
    }

    fn saturating_from(value: Susize) -> (r: usize)
        ensures
            r as int == clamp(value@, usize::MIN as int, usize::MAX as int),
    {
        saturate(value)
    }
}

impl SaturatingFrom<i8> for Si8 {
    open spec fn spec_saturating_from(value: i8) -> Si8 {
        saturated::<i8, Si8>(value)
    }

    fn saturating_from(value: i8) -> (r: Si8)
        ensures
            r@ == clamp(value as int, i8::MIN as int, i8::MAX as int),
    {
        saturate(value)
    }
}

impl SaturatingFrom<i8> for Si16 {
    open spec fn spec_saturating_from(value: i8) -> Si16 {
        saturated::<i8, Si16>(value)
    }

    fn saturating_from(value: i8) -> (r: Si16)
        ensures
            r@ == clamp(value as int, i16::MIN as int, i16::MAX as int),
    {
        saturate(value)
    }
}

impl SaturatingFrom<i8> for Si32 {
    open spec fn spec_saturating_from(value: i8) -> Si32 {
        saturated::<i8, Si32>(value)
    }

    fn saturating_from(value: i8) -> (r: Si32)
        ensures
            r@ == clamp(value as int, i32::MIN as int, i32::MAX as int),
    {
        saturate(value)
    }
}

impl SaturatingFrom<i8> for Si64 {
    open spec fn spec_saturating_from(value: i8) -> Si64 {
        saturated::<i8, Si64>(value)
    }

    fn saturating_from(value: i8) -> (r: Si64)
        ensures
            r@ == clamp(value as int, i64::MIN as int, i64::MAX as int),
    {
        saturate(value)
    }
}

impl SaturatingFrom<i8> for Si128 {
    open spec fn spec_saturating_from(value: i8) -> Si128 {
        saturated::<i8, Si128>(value)
    }

    fn saturating_from(value: i8) -> (r: Si128)
        ensures
            r@ == clamp(value as int, i128::MIN as int, i128::MAX as int),
    {
        saturate(value)
    }
}

impl SaturatingFrom<i8> for Sisize {
    open spec fn spec_saturating_from(value: i8) -> Sisize {
        saturated::<i8, Sisize>(value)
    }

    fn saturating_from(value: i8) -> (r: Sisize)
        ensures
            r@ == clamp(value as int, isize::MIN as int, isize::MAX as int),
    {
        saturate(value)
    }
}

impl SaturatingFrom<i8> for Su8 {
    open spec fn spec_saturating_from(value: i8) -> Su8 {
        saturated::<i8, Su8>(value)
    }

    fn saturating_from(value: i8) -> (r: Su8)
        ensures
            r@ == clamp(value as int, u8::MIN as int, u8::MAX as int),
    {
        saturate(value)
    }
}

impl SaturatingFrom<i8> for Su16 {
    open spec fn spec_saturating_from(value: i8) -> Su16 {
        saturated::<i8, Su16>(value)
    }

    fn saturating_from(value: i8) -> (r: Su16)
        ensures
            r@ == clamp(value as int, u16::MIN as int, u16::MAX as int),
    {
        saturate(value)
    }
}

impl SaturatingFrom<i8> for Su32 {
    open spec fn spec_saturating_from(value: i8) -> Su32 {
        saturated::<i8, Su32>(value)
    }

    fn saturating_from(value: i8) -> (r: Su32)
        ensures
            r@ == clamp(value as int, u32::MIN as int, u32::MAX as int),
    {
        saturate(value)
    }
}

impl SaturatingFrom<i8> for Su64 {
    open spec fn spec_saturating_from(value: i8) -> Su64 {
        saturated::<i8, Su64>(value)
    }

    fn saturating_from(value: i8) -> (r: Su64)
        ensures
            r@ == clamp(value as int, u64::MIN as int, u64::MAX as int),
    {
        saturate(value)
    }
}

impl SaturatingFrom<i8> for Su128 {
    open spec fn spec_saturating_from(value: i8) -> Su128 {
        saturated::<i8, Su128>(value)
    }

    fn saturating_from(value: i8) -> (r: Su128)
        ensures
            r@ == clamp(value as int, u128::MIN as int, u128::MAX as int),
    {
        saturate(value)
    }
}

impl SaturatingFrom<i8> for Susize {
    open spec fn spec_saturating_from(value: i8) -> Susize {
        saturated::<i8, Susize>(value)
    }

    fn saturating_from(value: i8) -> (r: Susize)
        ensures
            r@ == clamp(value as int, usize::MIN as int, usize::MAX as int),
    {
        saturate(value)
    }
}

impl SaturatingFrom<i8> for i16 {
    open spec fn spec_saturating_from(value: i8) -> i16 {
        saturated::<i8, i16>(value)
    }

    fn saturating_from(value: i8) -> (r: i16)
        ensures
            r as int == clamp(value as int, i16::MIN as int, i16::MAX as int),
    {
        saturate(value)
    }
}

impl SaturatingFrom<i8> for i32 {
    open spec fn spec_saturating_from(value: i8) -> i32 {
        saturated::<i8, i32>(value)
    }

    fn saturating_from(value: i8) -> (r: i32)
        ensures
            r as int == clamp(value as int, i32::MIN as int, i32::MAX as int),
    {
        saturate(value)
    }
}

impl SaturatingFrom<i8> for i64 {
    open spec fn spec_saturating_from(value: i8) -> i64 {
        saturated::<i8, i64>(value)
    }

    fn saturating_from(value: i8) -> (r: i64)
        ensures
            r as int == clamp(value as int, i64::MIN as int, i64::MAX as int),
    {
        saturate(value)
    }
}

impl SaturatingFrom<i8> for i128 {
    open spec fn spec_saturating_from(value: i8) -> i128 {
        saturated::<i8, i128>(value)
    }

    fn saturating_from(value: i8) -> (r: i128)
        ensures
            r as int == clamp(value as int, i128::MIN as int, i128::MAX as int),
    {
        saturate(value)
    }
}

impl SaturatingFrom<i8> for isize {
    open spec fn spec_saturating_from(value: i8) -> isize {
        saturated::<i8, isize>(value)
    }

    fn saturating_from(value: i8) -> (r: isize)
        ensures
            r as int == clamp(value as int, isize::MIN as int, isize::MAX as int),
    {
        saturate(value)
    }
}

impl SaturatingFrom<i8> for u8 {
    open spec fn spec_saturating_from(value: i8) -> u8 {
        saturated::<i8, u8>(value)
    }

    fn saturating_from(value: i8) -> (r: u8)
        ensures
            r as int == clamp(value as int, u8::MIN as int, u8::MAX as int),
    {
        saturate(value)
    }
}

impl SaturatingFrom<i8> for u16 {
    open spec fn spec_saturating_from(value: i8) -> u16 {
        saturated::<i8, u16>(value)
    }

    fn saturating_from(value: i8) -> (r: u16)
        ensures
            r as int == clamp(value as int, u16::MIN as int, u16::MAX as int),
    {
        saturate(value)
    }
}

impl SaturatingFrom<i8> for u32 {
    open spec fn spec_saturating_from(value: i8) -> u32 {
        saturated::<i8, u32>(value)
    }

    fn saturating_from(value: i8) -> (r: u32)
        ensures
            r as int == clamp(value as int, u32::MIN as int, u32::MAX as int),
    {
        saturate(value)
    }
}

impl SaturatingFrom<i8> for u64 {
    open spec fn spec_saturating_from(value: i8) -> u64 {
        saturated::<i8, u64>(value)
    }

    fn saturating_from(value: i8) -> (r: u64)
        ensures
            r as int == clamp(value as int, u64::MIN as int, u64::MAX as int),
    {
        saturate(value)
    }
}

impl SaturatingFrom<i8> for u128 {
    open spec fn spec_saturating_from(value: i8) -> u128 {
        saturated::<i8, u128>(value)
    }

    fn saturating_from(value: i8) -> (r: u128)
        ensures
            r as int == clamp(value as int, u128::MIN as int, u128::MAX as int),
    {
        saturate(value)
    }
}

impl SaturatingFrom<i8> for usize {
    open spec fn spec_saturating_from(value: i8) -> usize {
        saturated::<i8, usize>(value)
    }

    fn saturating_from(value: i8) -> (r: usize)
        ensures
            r as int == clamp(value as int, usize::MIN as int, usize::MAX as int),
    {
        saturate(value)
    }
}

impl SaturatingFrom<i16> for Si8 {
    open spec fn spec_saturating_from(value: i16) -> Si8 {
        saturated::<i16, Si8>(value)
    }

    fn saturating_from(value: i16) -> (r: Si8)
        ensures
            r@ == clamp(value as int, i8::MIN as int, i8::MAX as int),
    {
        saturate(value)
    }
}

impl SaturatingFrom<i16> for Si16 {
    open spec fn spec_saturating_from(value: i16) -> Si16 {
        saturated::<i16, Si16>(value)
    }

    fn saturating_from(value: i16) -> (r: Si16)
        ensures
            r@ == clamp(value as int, i16::MIN as int, i16::MAX as int),
    {
        saturate(value)
    }
}

impl SaturatingFrom<i16> for Si32 {
    open spec fn spec_saturating_from(value: i16) -> Si32 {
        saturated::<i16, Si32>(value)
    }

    fn saturating_from(value: i16) -> (r: Si32)
        ensures
            r@ == clamp(value as int, i32::MIN as int, i32::MAX as int),
    {
        saturate(value)
    }
}

impl SaturatingFrom<i16> for Si64 {
    open spec fn spec_saturating_from(value: i16) -> Si64 {
        saturated::<i16, Si64>(value)
    }

    fn saturating_from(value: i16) -> (r: Si64)
        ensures
            r@ == clamp(value as int, i64::MIN as int, i64::MAX as int),
    {
        saturate(value)
    }
}

impl SaturatingFrom<i16> for Si128 {
    open spec fn spec_saturating_from(value: i16) -> Si128 {
        saturated::<i16, Si128>(value)
    }

    fn saturating_from(value: i16) -> (r: Si128)
        ensures
            r@ == clamp(value as int, i128::MIN as int, i128::MAX as int),
    {
        saturate(value)
    }
}

impl SaturatingFrom<i16> for Sisize {
    open spec fn spec_saturating_from(value: i16) -> Sisize {
        saturated::<i16, Sisize>(value)
    }

    fn saturating_from(value: i16) -> (r: Sisize)
        ensures
            r@ == clamp(value as int, isize::MIN as int, isize::MAX as int),
    {
        saturate(value)
    }
}

impl SaturatingFrom<i16> for Su8 {
    open spec fn spec_saturating_from(value: i16) -> Su8 {
        saturated::<i16, Su8>(value)
    }

    fn saturating_from(value: i16) -> (r: Su8)
        ensures
            r@ == clamp(value as int, u8::MIN as int, u8::MAX as int),
    {
        saturate(value)
    }
}

impl SaturatingFrom<i16> for Su16 {
    open spec fn spec_saturating_from(value: i16) -> Su16 {
        saturated::<i16, Su16>(value)
    }

    fn saturating_from(value: i16) -> (r: Su16)
        ensures
            r@ == clamp(value as int, u16::MIN as int, u16::MAX as int),
    {
        saturate(value)
    }
}

impl SaturatingFrom<i16> for Su32 {
    open spec fn spec_saturating_from(value: i16) -> Su32 {
        saturated::<i16, Su32>(value)
    }

    fn saturating_from(value: i16) -> (r: Su32)
        ensures
            r@ == clamp(value as int, u32::MIN as int, u32::MAX as int),
    {
        saturate(value)
    }
}

impl SaturatingFrom<i16> for Su64 {
    open spec fn spec_saturating_from(value: i16) -> Su64 {
        saturated::<i16, Su64>(value)
    }

    fn saturating_from(value: i16) -> (r: Su64)
        ensures
            r@ == clamp(value as int, u64::MIN as int, u64::MAX as int),
    {
        saturate(value)
    }
}

impl SaturatingFrom<i16> for Su128 {
    open spec fn spec_saturating_from(value: i16) -> Su128 {
        saturated::<i16, Su128>(value)
    }

    fn saturating_from(value: i16) -> (r: Su128)
        ensures
            r@ == clamp(value as int, u128::MIN as int, u128::MAX as int),
    {
        saturate(value)
    }
}

impl SaturatingFrom<i16> for Susize {
    open spec fn spec_saturating_from(value: i16) -> Susize {
        saturated::<i16, Susize>(value)
    }

    fn saturating_from(value: i16) -> (r: Susize)
        ensures
            r@ == clamp(value as int, usize::MIN as int, usize::MAX as int),
    {
        saturate(value)
    }
}

impl SaturatingFrom<i16> for i8 {
    open spec fn spec_saturating_from(value: i16) -> i8 {
        saturated::<i16, i8>(value)
    }

    fn saturating_from(value: i16) -> (r: i8)
        ensures
            r as int == clamp(value as int, i8::MIN as int, i8::MAX as int),
    {
        saturate(value)
    }
}

impl SaturatingFrom<i16> for i32 {
    open spec fn spec_saturating_from(value: i16) -> i32 {
        saturated::<i16, i32>(value)
    }

    fn saturating_from(value: i16) -> (r: i32)
        ensures
            r as int == clamp(value as int, i32::MIN as int, i32::MAX as int),
    {
        saturate(value)
    }
}

impl SaturatingFrom<i16> for i64 {
    open spec fn spec_saturating_from(value: i16) -> i64 {
        saturated::<i16, i64>(value)
    }

    fn saturating_from(value: i16) -> (r: i64)
        ensures
            r as int == clamp(value as int, i64::MIN as int, i64::MAX as int),
    {
        saturate(value)
    }
}

impl SaturatingFrom<i16> for i128 {
    open spec fn spec_saturating_from(value: i16) -> i128 {
        saturated::<i16, i128>(value)
    }

    fn saturating_from(value: i16) -> (r: i128)
        ensures
            r as int == clamp(value as int, i128::MIN as int, i128::MAX as int),
    {
        saturate(value)
    }
}

impl SaturatingFrom<i16> for isize {
    open spec fn spec_saturating_from(value: i16) -> isize {
        saturated::<i16, isize>(value)
    }

    fn saturating_from(value: i16) -> (r: isize)
        ensures
            r as int == clamp(value as int, isize::MIN as int, isize::MAX as int),
    {
        saturate(value)
    }
}

impl SaturatingFrom<i16> for u8 {
    open spec fn spec_saturating_from(value: i16) -> u8 {
        saturated::<i16, u8>(value)
    }

    fn saturating_from(value: i16) -> (r: u8)
        ensures
            r as int == clamp(value as int, u8::MIN as int, u8::MAX as int),
    {
        saturate(value)
    }
}

impl SaturatingFrom<i16> for u16 {
    open spec fn spec_saturating_from(value: i16) -> u16 {
        saturated::<i16, u16>(value)
    }

    fn saturating_from(value: i16) -> (r: u16)
        ensures
            r as int == clamp(value as int, u16::MIN as int, u16::MAX as int),
    {
        saturate(value)
    }
}

impl SaturatingFrom<i16> for u32 {
    open spec fn spec_saturating_from(value: i16) -> u32 {
        saturated::<i16, u32>(value)
    }

    fn saturating_from(value: i16) -> (r: u32)
        ensures
            r as int == clamp(value as int, u32::MIN as int, u32::MAX as int),
    {
        saturate(value)
    }
}

impl SaturatingFrom<i16> for u64 {
    open spec fn spec_saturating_from(value: i16) -> u64 {
        saturated::<i16, u64>(value)
    }

    fn saturating_from(value: i16) -> (r: u64)
        ensures
            r as int == clamp(value as int, u64::MIN as int, u64::MAX as int),
    {
        saturate(value)
    }
}

impl SaturatingFrom<i16> for u128 {
    open spec fn spec_saturating_from(value: i16) -> u128 {
        saturated::<i16, u128>(value)
    }

    fn saturating_from(value: i16) -> (r: u128)
        ensures
            r as int == clamp(value as int, u128::MIN as int, u128::MAX as int),
    {
        saturate(value)
    }
}

impl SaturatingFrom<i16> for usize {
    open spec fn spec_saturating_from(value: i16) -> usize {
        saturated::<i16, usize>(value)
    }

    fn saturating_from(value: i16) -> (r: usize)
        ensures
            r as int == clamp(value as int, usize::MIN as int, usize::MAX as int),
    {
        saturate(value)
    }
}

impl SaturatingFrom<i32> for Si8 {
    open spec fn spec_saturating_from(value: i32) -> Si8 {
        saturated::<i32, Si8>(value)
    }

    fn saturating_from(value: i32) -> (r: Si8)
        ensures
            r@ == clamp(value as int, i8::MIN as int, i8::MAX as int),
    {
        saturate(value)
    }
}

impl SaturatingFrom<i32> for Si16 {
    open spec fn spec_saturating_from(value: i32) -> Si16 {
        saturated::<i32, Si16>(value)
    }

    fn saturating_from(value: i32) -> (r: Si16)
        ensures
            r@ == clamp(value as int, i16::MIN as int, i16::MAX as int),
    {
        saturate(value)
    }
}

impl SaturatingFrom<i32> for Si32 {
    open spec fn spec_saturating_from(value: i32) -> Si32 {
        saturated::<i32, Si32>(value)
    }

    fn saturating_from(value: i32) -> (r: Si32)
        ensures
            r@ == clamp(value as int, i32::MIN as int, i32::MAX as int),
    {
        saturate(value)
    }
}

impl SaturatingFrom<i32> for Si64 {
    open spec fn spec_saturating_from(value: i32) -> Si64 {
        saturated::<i32, Si64>(value)
    }

    fn saturating_from(value: i32) -> (r: Si64)
        ensures
            r@ == clamp(value as int, i64::MIN as int, i64::MAX as int),
    {
        saturate(value)
    }
}

impl SaturatingFrom<i32> for Si128 {
    open spec fn spec_saturating_from(value: i32) -> Si128 {
        saturated::<i32, Si128>(value)
    }

    fn saturating_from(value: i32) -> (r: Si128)
        ensures
            r@ == clamp(value as int, i128::MIN as int, i128::MAX as int),
    {
        saturate(value)
    }
}

impl SaturatingFrom<i32> for Sisize {
    open spec fn spec_saturating_from(value: i32) -> Sisize {
        saturated::<i32, Sisize>(value)
    }

    fn saturating_from(value: i32) -> (r: Sisize)
        ensures
            r@ == clamp(value as int, isize::MIN as int, isize::MAX as int),
    {
        saturate(value)
    }
}

impl SaturatingFrom<i32> for Su8 {
    open spec fn spec_saturating_from(value: i32) -> Su8 {
        saturated::<i32, Su8>(value)
    }

    fn saturating_from(value: i32) -> (r: Su8)
        ensures
            r@ == clamp(value as int, u8::MIN as int, u8::MAX as int),
    {
        saturate(value)
    }
}

impl SaturatingFrom<i32> for Su16 {
    open spec fn spec_saturating_from(value: i32) -> Su16 {
        saturated::<i32, Su16>(value)
    }

    fn saturating_from(value: i32) -> (r: Su16)
        ensures
            r@ == clamp(value as int, u16::MIN as int, u16::MAX as int),
    {
        saturate(value)
    }
}

impl SaturatingFrom<i32> for Su32 {
    open spec fn spec_saturating_from(value: i32) -> Su32 {
        saturated::<i32, Su32>(value)
    }

    fn saturating_from(value: i32) -> (r: Su32)
        ensures
            r@ == clamp(value as int, u32::MIN as int, u32::MAX as int),
    {
        saturate(value)
    }
}

impl SaturatingFrom<i32> for Su64 {
    open spec fn spec_saturating_from(value: i32) -> Su64 {
        saturated::<i32, Su64>(value)
    }

    fn saturating_from(value: i32) -> (r: Su64)
        ensures
            r@ == clamp(value as int, u64::MIN as int, u64::MAX as int),
    {
        saturate(value)
    }
}

impl SaturatingFrom<i32> for Su128 {
    open spec fn spec_saturating_from(value: i32) -> Su128 {
        saturated::<i32, Su128>(value)
    }

    fn saturating_from(value: i32) -> (r: Su128)
        ensures
            r@ == clamp(value as int, u128::MIN as int, u128::MAX as int),
    {
        saturate(value)
    }
}

impl SaturatingFrom<i32> for Susize {
    open spec fn spec_saturating_from(value: i32) -> Susize {
        saturated::<i32, Susize>(value)
    }

    fn saturating_from(value: i32) -> (r: Susize)
        ensures
            r@ == clamp(value as int, usize::MIN as int, usize::MAX as int),
    {
        saturate(value)
    }
}

impl SaturatingFrom<i32> for i8 {
    open spec fn spec_saturating_from(value: i32) -> i8 {
        saturated::<i32, i8>(value)
    }

    fn saturating_from(value: i32) -> (r: i8)
        ensures
            r as int == clamp(value as int, i8::MIN as int, i8::MAX as int),
    {
        saturate(value)
    }
}

impl SaturatingFrom<i32> for i16 {
    open spec fn spec_saturating_from(value: i32) -> i16 {
        saturated::<i32, i16>(value)
    }

    fn saturating_from(value: i32) -> (r: i16)
        ensures
            r as int == clamp(value as int, i16::MIN as int, i16::MAX as int),
    {
        saturate(value)
    }
}

impl SaturatingFrom<i32> for i64 {
    open spec fn spec_saturating_from(value: i32) -> i64 {
        saturated::<i32, i64>(value)
    }

    fn saturating_from(value: i32) -> (r: i64)
        ensures
            r as int == clamp(value as int, i64::MIN as int, i64::MAX as int),
    {
        saturate(value)
    }
}

impl SaturatingFrom<i32> for i128 {
    open spec fn spec_saturating_from(value: i32) -> i128 {
        saturated::<i32, i128>(value)
    }

    fn saturating_from(value: i32) -> (r: i128)
        ensures
            r as int == clamp(value as int, i128::MIN as int, i128::MAX as int),
    {
        saturate(value)
    }
}

impl SaturatingFrom<i32> for isize {
    open spec fn spec_saturating_from(value: i32) -> isize {
        saturated::<i32, isize>(value)
    }

    fn saturating_from(value: i32) -> (r: isize)
        ensures
            r as int == clamp(value as int, isize::MIN as int, isize::MAX as int),
    {
        saturate(value)
    }
}

impl SaturatingFrom<i32> for u8 {
    open spec fn spec_saturating_from(value: i32) -> u8 {
        saturated::<i32, u8>(value)
    }

    fn saturating_from(value: i32) -> (r: u8)
        ensures
            r as int == clamp(value as int, u8::MIN as int, u8::MAX as int),
    {
        saturate(value)
    }
}

impl SaturatingFrom<i32> for u16 {
    open spec fn spec_saturating_from(value: i32) -> u16 {
        saturated::<i32, u16>(value)
    }

    fn saturating_from(value: i32) -> (r: u16)
        ensures
            r as int == clamp(value as int, u16::MIN as int, u16::MAX as int),
    {
        saturate(value)
    }
}

impl SaturatingFrom<i32> for u32 {
    open spec fn spec_saturating_from(value: i32) -> u32 {
        saturated::<i32, u32>(value)
    }

    fn saturating_from(value: i32) -> (r: u32)
        ensures
            r as int == clamp(value as int, u32::MIN as int, u32::MAX as int),
    {
        saturate(value)
    }
}

impl SaturatingFrom<i32> for u64 {
    open spec fn spec_saturating_from(value: i32) -> u64 {
        saturated::<i32, u64>(value)
    }

    fn saturating_from(value: i32) -> (r: u64)
        ensures
            r as int == clamp(value as int, u64::MIN as int, u64::MAX as int),
    {
        saturate(value)
    }
}

impl SaturatingFrom<i32> for u128 {
    open spec fn spec_saturating_from(value: i32) -> u128 {
        saturated::<i32, u128>(value)
    }

    fn saturating_from(value: i32) -> (r: u128)
        ensures
            r as int == clamp(value as int, u128::MIN as int, u128::MAX as int),
    {
        saturate(value)
    }
}

impl SaturatingFrom<i32> for usize {
    open spec fn spec_saturating_from(value: i32) -> usize {
        saturated::<i32, usize>(value)
    }

    fn saturating_from(value: i32) -> (r: usize)
        ensures
            r as int == clamp(value as int, usize::MIN as int, usize::MAX as int),
    {
        saturate(value)
    }
}

impl SaturatingFrom<i64> for Si8 {
    open spec fn spec_saturating_from(value: i64) -> Si8 {
        saturated::<i64, Si8>(value)
    }

    fn saturating_from(value: i64) -> (r: Si8)
        ensures
            r@ == clamp(value as int, i8::MIN as int, i8::MAX as int),
    {
        saturate(value)
    }
}

impl SaturatingFrom<i64> for Si16 {
    open spec fn spec_saturating_from(value: i64) -> Si16 {
        saturated::<i64, Si16>(value)
    }

    fn saturating_from(value: i64) -> (r: Si16)
        ensures
            r@ == clamp(value as int, i16::MIN as int, i16::MAX as int),
    {
        saturate(value)
    }
}

impl SaturatingFrom<i64> for Si32 {
    open spec fn spec_saturating_from(value: i64) -> Si32 {
        saturated::<i64, Si32>(value)
    }

    fn saturating_from(value: i64) -> (r: Si32)
        ensures
            r@ == clamp(value as int, i32::MIN as int, i32::MAX as int),
    {
        saturate(value)
    }
}

impl SaturatingFrom<i64> for Si64 {
    open spec fn spec_saturating_from(value: i64) -> Si64 {
        saturated::<i64, Si64>(value)
    }

    fn saturating_from(value: i64) -> (r: Si64)
        ensures
            r@ == clamp(value as int, i64::MIN as int, i64::MAX as int),
    {
        saturate(value)
    }
}

impl SaturatingFrom<i64> for Si128 {
    open spec fn spec_saturating_from(value: i64) -> Si128 {
        saturated::<i64, Si128>(value)
    }

    fn saturating_from(value: i64) -> (r: Si128)
        ensures
            r@ == clamp(value as int, i128::MIN as int, i128::MAX as int),
    {
        saturate(value)
    }
}

impl SaturatingFrom<i64> for Sisize {
    open spec fn spec_saturating_from(value: i64) -> Sisize {
        saturated::<i64, Sisize>(value)
    }

    fn saturating_from(value: i64) -> (r: Sisize)
        ensures
            r@ == clamp(value as int, isize::MIN as int, isize::MAX as int),
    {
        saturate(value)
    }
}

impl SaturatingFrom<i64> for Su8 {
    open spec fn spec_saturating_from(value: i64) -> Su8 {
        saturated::<i64, Su8>(value)
    }

    fn saturating_from(value: i64) -> (r: Su8)
        ensures
            r@ == clamp(value as int, u8::MIN as int, u8::MAX as int),
    {
        saturate(value)
    }
}

impl SaturatingFrom<i64> for Su16 {
    open spec fn spec_saturating_from(value: i64) -> Su16 {
        saturated::<i64, Su16>(value)
    }

    fn saturating_from(value: i64) -> (r: Su16)
        ensures
            r@ == clamp(value as int, u16::MIN as int, u16::MAX as int),
    {
        saturate(value)
    }
}

impl SaturatingFrom<i64> for Su32 {
    open spec fn spec_saturating_from(value: i64) -> Su32 {
        saturated::<i64, Su32>(value)
    }

    fn saturating_from(value: i64) -> (r: Su32)
        ensures
            r@ == clamp(value as int, u32::MIN as int, u32::MAX as int),
    {
        saturate(value)
    }
}

impl SaturatingFrom<i64> for Su64 {
    open spec fn spec_saturating_from(value: i64) -> Su64 {
        saturated::<i64, Su64>(value)
    }

    fn saturating_from(value: i64) -> (r: Su64)
        ensures
            r@ == clamp(value as int, u64::MIN as int, u64::MAX as int),
    {
        saturate(value)
    }
}

impl SaturatingFrom<i64> for Su128 {
    open spec fn spec_saturating_from(value: i64) -> Su128 {
        saturated::<i64, Su128>(value)
    }

    fn saturating_from(value: i64) -> (r: Su128)
        ensures
            r@ == clamp(value as int, u128::MIN as int, u128::MAX as int),
    {
        saturate(value)
    }
}

impl SaturatingFrom<i64> for Susize {
    open spec fn spec_saturating_from(value: i64) -> Susize {
        saturated::<i64, Susize>(value)
    }

    fn saturating_from(value: i64) -> (r: Susize)
        ensures
            r@ == clamp(value as int, usize::MIN as int, usize::MAX as int),
    {
        saturate(value)
    }
}

impl SaturatingFrom<i64> for i8 {
    open spec fn spec_saturating_from(value: i64) -> i8 {
        saturated::<i64, i8>(value)
    }

    fn saturating_from(value: i64) -> (r: i8)
        ensures
            r as int == clamp(value as int, i8::MIN as int, i8::MAX as int),
    {
        saturate(value)
    }
}

impl SaturatingFrom<i64> for i16 {
    open spec fn spec_saturating_from(value: i64) -> i16 {
        saturated::<i64, i16>(value)
    }

    fn saturating_from(value: i64) -> (r: i16)
        ensures
            r as int == clamp(value as int, i16::MIN as int, i16::MAX as int),
    {
        saturate(value)
    }
}

impl SaturatingFrom<i64> for i32 {
    open spec fn spec_saturating_from(value: i64) -> i32 {
        saturated::<i64, i32>(value)
    }

    fn saturating_from(value: i64) -> (r: i32)
        ensures
            r as int == clamp(value as int, i32::MIN as int, i32::MAX as int),
    {
        saturate(value)
    }
}

impl SaturatingFrom<i64> for i128 {
    open spec fn spec_saturating_from(value: i64) -> i128 {
        saturated::<i64, i128>(value)
    }

    fn saturating_from(value: i64) -> (r: i128)
        ensures
            r as int == clamp(value as int, i128::MIN as int, i128::MAX as int),
    {
        saturate(value)
    }
}

impl SaturatingFrom<i64> for isize {
    open spec fn spec_saturating_from(value: i64) -> isize {
        saturated::<i64, isize>(value)
    }

    fn saturating_from(value: i64) -> (r: isize)
        ensures
            r as int == clamp(value as int, isize::MIN as int, isize::MAX as int),
    {
        saturate(value)
    }
}

impl SaturatingFrom<i64> for u8 {
    open spec fn spec_saturating_from(value: i64) -> u8 {
        saturated::<i64, u8>(value)
    }

    fn saturating_from(value: i64) -> (r: u8)
        ensures
            r as int == clamp(value as int, u8::MIN as int, u8::MAX as int),
    {
        saturate(value)
    }
}

impl SaturatingFrom<i64> for u16 {
    open spec fn spec_saturating_from(value: i64) -> u16 {
        saturated::<i64, u16>(value)
    }

    fn saturating_from(value: i64) -> (r: u16)
        ensures
            r as int == clamp(value as int, u16::MIN as int, u16::MAX as int),
    {
        saturate(value)
    }
}

impl SaturatingFrom<i64> for u32 {
    open spec fn spec_saturating_from(value: i64) -> u32 {
        saturated::<i64, u32>(value)
    }

    fn saturating_from(value: i64) -> (r: u32)
        ensures
            r as int == clamp(value as int, u32::MIN as int, u32::MAX as int),
    {
        saturate(value)
    }
}

impl SaturatingFrom<i64> for u64 {
    open spec fn spec_saturating_from(value: i64) -> u64 {
        saturated::<i64, u64>(value)
    }

    fn saturating_from(value: i64) -> (r: u64)
        ensures
            r as int == clamp(value as int, u64::MIN as int, u64::MAX as int),
    {
        saturate(value)
    }
}

impl SaturatingFrom<i64> for u128 {
    open spec fn spec_saturating_from(value: i64) -> u128 {
        saturated::<i64, u128>(value)
    }

    fn saturating_from(value: i64) -> (r: u128)
        ensures
            r as int == clamp(value as int, u128::MIN as int, u128::MAX as int),
    {
        saturate(value)
    }
}

impl SaturatingFrom<i64> for usize {
    open spec fn spec_saturating_from(value: i64) -> usize {
        saturated::<i64, usize>(value)
    }

    fn saturating_from(value: i64) -> (r: usize)
        ensures
            r as int == clamp(value as int, usize::MIN as int, usize::MAX as int),
    {
        saturate(value)
    }
}

impl SaturatingFrom<i128> for Si8 {
    open spec fn spec_saturating_from(value: i128) -> Si8 {
        saturated::<i128, Si8>(value)
    }

    fn saturating_from(value: i128) -> (r: Si8)
        ensures
            r@ == clamp(value as int, i8::MIN as int, i8::MAX as int),
    {
        saturate(value)
    }
}

impl SaturatingFrom<i128> for Si16 {
    open spec fn spec_saturating_from(value: i128) -> Si16 {
        saturated::<i128, Si16>(value)
    }

    fn saturating_from(value: i128) -> (r: Si16)
        ensures
            r@ == clamp(value as int, i16::MIN as int, i16::MAX as int),
    {
        saturate(value)
    }
}

impl SaturatingFrom<i128> for Si32 {
    open spec fn spec_saturating_from(value: i128) -> Si32 {
        saturated::<i128, Si32>(value)
    }

    fn saturating_from(value: i128) -> (r: Si32)
        ensures
            r@ == clamp(value as int, i32::MIN as int, i32::MAX as int),
    {
        saturate(value)
    }
}

impl SaturatingFrom<i128> for Si64 {
    open spec fn spec_saturating_from(value: i128) -> Si64 {
        saturated::<i128, Si64>(value)
    }

    fn saturating_from(value: i128) -> (r: Si64)
        ensures
            r@ == clamp(value as int, i64::MIN as int, i64::MAX as int),
    {
        saturate(value)
    }
}

impl SaturatingFrom<i128> for Si128 {
    open spec fn spec_saturating_from(value: i128) -> Si128 {
        saturated::<i128, Si128>(value)
    }

    fn saturating_from(value: i128) -> (r: Si128)
        ensures
            r@ == clamp(value as int, i128::MIN as int, i128::MAX as int),
    {
        saturate(value)
    }
}

impl SaturatingFrom<i128> for Sisize {
    open spec fn spec_saturating_from(value: i128) -> Sisize {
        saturated::<i128, Sisize>(value)
    }

    fn saturating_from(value: i128) -> (r: Sisize)
        ensures
            r@ == clamp(value as int, isize::MIN as int, isize::MAX as int),
    {
        saturate(value)
    }
}

impl SaturatingFrom<i128> for Su8 {
    open spec fn spec_saturating_from(value: i128) -> Su8 {
        saturated::<i128, Su8>(value)
    }

    fn saturating_from(value: i128) -> (r: Su8)
        ensures
            r@ == clamp(value as int, u8::MIN as int, u8::MAX as int),
    {
        saturate(value)
    }
}

impl SaturatingFrom<i128> for Su16 {
    open spec fn spec_saturating_from(value: i128) -> Su16 {
        saturated::<i128, Su16>(value)
    }

    fn saturating_from(value: i128) -> (r: Su16)
        ensures
            r@ == clamp(value as int, u16::MIN as int, u16::MAX as int),
    {
        saturate(value)
    }
}

impl SaturatingFrom<i128> for Su32 {
    open spec fn spec_saturating_from(value: i128) -> Su32 {
        saturated::<i128, Su32>(value)
    }

    fn saturating_from(value: i128) -> (r: Su32)
        ensures
            r@ == clamp(value as int, u32::MIN as int, u32::MAX as int),
    {
        saturate(value)
    }
}

impl SaturatingFrom<i128> for Su64 {
    open spec fn spec_saturating_from(value: i128) -> Su64 {
        saturated::<i128, Su64>(value)
    }

    fn saturating_from(value: i128) -> (r: Su64)
        ensures
            r@ == clamp(value as int, u64::MIN as int, u64::MAX as int),
    {
        saturate(value)
    }
}

impl SaturatingFrom<i128> for Su128 {
    open spec fn spec_saturating_from(value: i128) -> Su128 {
        saturated::<i128, Su128>(value)
    }

    fn saturating_from(value: i128) -> (r: Su128)
        ensures
            r@ == clamp(value as int, u128::MIN as int, u128::MAX as int),
    {
        saturate(value)
    }
}

impl SaturatingFrom<i128> for Susize {
    open spec fn spec_saturating_from(value: i128) -> Susize {
        saturated::<i128, Susize>(value)
    }

    fn saturating_from(value: i128) -> (r: Susize)
        ensures
            r@ == clamp(value as int, usize::MIN as int, usize::MAX as int),
    {
        saturate(value)
    }
}

impl SaturatingFrom<i128> for i8 {
    open spec fn spec_saturating_from(value: i128) -> i8 {
        saturated::<i128, i8>(value)
    }

    fn saturating_from(value: i128) -> (r: i8)
        ensures
            r as int == clamp(value as int, i8::MIN as int, i8::MAX as int),
    {
        saturate(value)
    }
}

impl SaturatingFrom<i128> for i16 {
    open spec fn spec_saturating_from(value: i128) -> i16 {
        saturated::<i128, i16>(value)
    }

    fn saturating_from(value: i128) -> (r: i16)
        ensures
            r as int == clamp(value as int, i16::MIN as int, i16::MAX as int),
    {
        saturate(value)
    }
}

impl SaturatingFrom<i128> for i32 {
    open spec fn spec_saturating_from(value: i128) -> i32 {
        saturated::<i128, i32>(value)
    }

    fn saturating_from(value: i128) -> (r: i32)
        ensures
            r as int == clamp(value as int, i32::MIN as int, i32::MAX as int),
    {
        saturate(value)
    }
}

impl SaturatingFrom<i128> for i64 {
    open spec fn spec_saturating_from(value: i128) -> i64 {
        saturated::<i128, i64>(value)
    }

    fn saturating_from(value: i128) -> (r: i64)
        ensures
            r as int == clamp(value as int, i64::MIN as int, i64::MAX as int),
    {
        saturate(value)
    }
}

impl SaturatingFrom<i128> for isize {
    open spec fn spec_saturating_from(value: i128) -> isize {
        saturated::<i128, isize>(value)
    }

    fn saturating_from(value: i128) -> (r: isize)
        ensures
            r as int == clamp(value as int, isize::MIN as int, isize::MAX as int),
    {
        saturate(value)
    }
}

impl SaturatingFrom<i128> for u8 {
    open spec fn spec_saturating_from(value: i128) -> u8 {
        saturated::<i128, u8>(value)
    }

    fn saturating_from(value: i128) -> (r: u8)
        ensures
            r as int == clamp(value as int, u8::MIN as int, u8::MAX as int),
    {
        saturate(value)
    }
}

impl SaturatingFrom<i128> for u16 {
    open spec fn spec_saturating_from(value: i128) -> u16 {
        saturated::<i128, u16>(value)
    }

    fn saturating_from(value: i128) -> (r: u16)
        ensures
            r as int == clamp(value as int, u16::MIN as int, u16::MAX as int),
    {
        saturate(value)
    }
}

impl SaturatingFrom<i128> for u32 {
    open spec fn spec_saturating_from(value: i128) -> u32 {
        saturated::<i128, u32>(value)
    }

    fn saturating_from(value: i128) -> (r: u32)
        ensures
            r as int == clamp(value as int, u32::MIN as int, u32::MAX as int),
    {
        saturate(value)
    }
}

impl SaturatingFrom<i128> for u64 {
    open spec fn spec_saturating_from(value: i128) -> u64 {
        saturated::<i128, u64>(value)
    }

    fn saturating_from(value: i128) -> (r: u64)
        ensures
            r as int == clamp(value as int, u64::MIN as int, u64::MAX as int),
    {
        saturate(value)
    }
}

impl SaturatingFrom<i128> for u128 {
    open spec fn spec_saturating_from(value: i128) -> u128 {
        saturated::<i128, u128>(value)
    }

    fn saturating_from(value: i128) -> (r: u128)
        ensures
            r as int == clamp(value as int, u128::MIN as int, u128::MAX as int),
    {
        saturate(value)
    }
}

impl SaturatingFrom<i128> for usize {
    open spec fn spec_saturating_from(value: i128) -> usize {
        saturated::<i128, usize>(value)
    }

    fn saturating_from(value: i128) -> (r: usize)
        ensures
            r as int == clamp(value as int, usize::MIN as int, usize::MAX as int),
    {
        saturate(value)
    }
}

impl SaturatingFrom<isize> for Si8 {
    open spec fn spec_saturating_from(value: isize) -> Si8 {
        saturated::<isize, Si8>(value)
    }

    fn saturating_from(value: isize) -> (r: Si8)
        ensures
            r@ == clamp(value as int, i8::MIN as int, i8::MAX as int),
    {
        saturate(value)
    }
}

impl SaturatingFrom<isize> for Si16 {
    open spec fn spec_saturating_from(value: isize) -> Si16 {
        saturated::<isize, Si16>(value)
    }

    fn saturating_from(value: isize) -> (r: Si16)
        ensures
            r@ == clamp(value as int, i16::MIN as int, i16::MAX as int),
    {
        saturate(value)
    }
}

impl SaturatingFrom<isize> for Si32 {
    open spec fn spec_saturating_from(value: isize) -> Si32 {
        saturated::<isize, Si32>(value)
    }

    fn saturating_from(value: isize) -> (r: Si32)
        ensures
            r@ == clamp(value as int, i32::MIN as int, i32::MAX as int),
    {
        saturate(value)
    }
}

impl SaturatingFrom<isize> for Si64 {
    open spec fn spec_saturating_from(value: isize) -> Si64 {
        saturated::<isize, Si64>(value)
    }

    fn saturating_from(value: isize) -> (r: Si64)
        ensures
            r@ == clamp(value as int, i64::MIN as int, i64::MAX as int),
    {
        saturate(value)
    }
}

impl SaturatingFrom<isize> for Si128 {
    open spec fn spec_saturating_from(value: isize) -> Si128 {
        saturated::<isize, Si128>(value)
    }

    fn saturating_from(value: isize) -> (r: Si128)
        ensures
            r@ == clamp(value as int, i128::MIN as int, i128::MAX as int),
    {
        saturate(value)
    }
}

impl SaturatingFrom<isize> for Sisize {
    open spec fn spec_saturating_from(value: isize) -> Sisize {
        saturated::<isize, Sisize>(value)
    }

    fn saturating_from(value: isize) -> (r: Sisize)
        ensures
            r@ == clamp(value as int, isize::MIN as int, isize::MAX as int),
    {
        saturate(value)
    }
}

impl SaturatingFrom<isize> for Su8 {
    open spec fn spec_saturating_from(value: isize) -> Su8 {
        saturated::<isize, Su8>(value)
    }

    fn saturating_from(value: isize) -> (r: Su8)
        ensures
            r@ == clamp(value as int, u8::MIN as int, u8::MAX as int),
    {
        saturate(value)
    }
}

impl SaturatingFrom<isize> for Su16 {
    open spec fn spec_saturating_from(value: isize) -> Su16 {
        saturated::<isize, Su16>(value)
    }

    fn saturating_from(value: isize) -> (r: Su16)
        ensures
            r@ == clamp(value as int, u16::MIN as int, u16::MAX as int),
    {
        saturate(value)
    }
}

impl SaturatingFrom<isize> for Su32 {
    open spec fn spec_saturating_from(value: isize) -> Su32 {
        saturated::<isize, Su32>(value)
    }

    fn saturating_from(value: isize) -> (r: Su32)
        ensures
            r@ == clamp(value as int, u32::MIN as int, u32::MAX as int),
    {
        saturate(value)
    }
}

impl SaturatingFrom<isize> for Su64 {
    open spec fn spec_saturating_from(value: isize) -> Su64 {
        saturated::<isize, Su64>(value)
    }

    fn saturating_from(value: isize) -> (r: Su64)
        ensures
            r@ == clamp(value as int, u64::MIN as int, u64::MAX as int),
    {
        saturate(value)
    }
}

impl SaturatingFrom<isize> for Su128 {
    open spec fn spec_saturating_from(value: isize) -> Su128 {
        saturated::<isize, Su128>(value)
    }

    fn saturating_from(value: isize) -> (r: Su128)
        ensures
            r@ == clamp(value as int, u128::MIN as int, u128::MAX as int),
    {
        saturate(value)
    }
}

impl SaturatingFrom<isize> for Susize {
    open spec fn spec_saturating_from(value: isize) -> Susize {
        saturated::<isize, Susize>(value)
    }

    fn saturating_from(value: isize) -> (r: Susize)
        ensures
            r@ == clamp(value as int, usize::MIN as int, usize::MAX as int),
    {
        saturate(value)
    }
}

impl SaturatingFrom<isize> for i8 {
    open spec fn spec_saturating_from(value: isize) -> i8 {
        saturated::<isize, i8>(value)
    }

    fn saturating_from(value: isize) -> (r: i8)
        ensures
            r as int == clamp(value as int, i8::MIN as int, i8::MAX as int),
    {
        saturate(value)
    }
}

impl SaturatingFrom<isize> for i16 {
    open spec fn spec_saturating_from(value: isize) -> i16 {
        saturated::<isize, i16>(value)
    }

    fn saturating_from(value: isize) -> (r: i16)
        ensures
            r as int == clamp(value as int, i16::MIN as int, i16::MAX as int),
    {
        saturate(value)
    }
}

impl SaturatingFrom<isize> for i32 {
    open spec fn spec_saturating_from(value: isize) -> i32 {
        saturated::<isize, i32>(value)
    }

    fn saturating_from(value: isize) -> (r: i32)
        ensures
            r as int == clamp(value as int, i32::MIN as int, i32::MAX as int),
    {
        saturate(value)
    }
}

impl SaturatingFrom<isize> for i64 {
    open spec fn spec_saturating_from(value: isize) -> i64 {
        saturated::<isize, i64>(value)
    }

    fn saturating_from(value: isize) -> (r: i64)
        ensures
            r as int == clamp(value as int, i64::MIN as int, i64::MAX as int),
    {
        saturate(value)
    }
}

impl SaturatingFrom<isize> for i128 {
    open spec fn spec_saturating_from(value: isize) -> i128 {
        saturated::<isize, i128>(value)
    }

    fn saturating_from(value: isize) -> (r: i128)
        ensures
            r as int == clamp(value as int, i128::MIN as int, i128::MAX as int),
    {
        saturate(value)
    }
}

impl SaturatingFrom<isize> for u8 {
    open spec fn spec_saturating_from(value: isize) -> u8 {
        saturated::<isize, u8>(value)
    }

    fn saturating_from(value: isize) -> (r: u8)
        ensures
            r as int == clamp(value as int, u8::MIN as int, u8::MAX as int),
    {
        saturate(value)
    }
}

impl SaturatingFrom<isize> for u16 {
    open spec fn spec_saturating_from(value: isize) -> u16 {
        saturated::<isize, u16>(value)
    }

    fn saturating_from(value: isize) -> (r: u16)
        ensures
            r as int == clamp(value as int, u16::MIN as int, u16::MAX as int),
    {
        saturate(value)
    }
}

impl SaturatingFrom<isize> for u32 {
    open spec fn spec_saturating_from(value: isize) -> u32 {
        saturated::<isize, u32>(value)
    }

    fn saturating_from(value: isize) -> (r: u32)
        ensures
            r as int == clamp(value as int, u32::MIN as int, u32::MAX as int),
    {
        saturate(value)
    }
}

impl SaturatingFrom<isize> for u64 {
    open spec fn spec_saturating_from(value: isize) -> u64 {
        saturated::<isize, u64>(value)
    }

    fn saturating_from(value: isize) -> (r: u64)
        ensures
            r as int == clamp(value as int, u64::MIN as int, u64::MAX as int),
    {
        saturate(value)
    }
}

impl SaturatingFrom<isize> for u128 {
    open spec fn spec_saturating_from(value: isize) -> u128 {
        saturated::<isize, u128>(value)
    }

    fn saturating_from(value: isize) -> (r: u128)
        ensures
            r as int == clamp(value as int, u128::MIN as int, u128::MAX as int),
    {
        saturate(value)
    }
}

impl SaturatingFrom<isize> for usize {
    open spec fn spec_saturating_from(value: isize) -> usize {
        saturated::<isize, usize>(value)
    }

    fn saturating_from(value: isize) -> (r: usize)
        ensures
            r as int == clamp(value as int, usize::MIN as int, usize::MAX as int),
    {
        saturate(value)
    }
}

impl SaturatingFrom<u8> for Si8 {
    open spec fn spec_saturating_from(value: u8) -> Si8 {
        saturated::<u8, Si8>(value)
    }

    fn saturating_from(value: u8) -> (r: Si8)
        ensures
            r@ == clamp(value as int, i8::MIN as int, i8::MAX as int),
    {
        saturate(value)
    }
}

impl SaturatingFrom<u8> for Si16 {
    open spec fn spec_saturating_from(value: u8) -> Si16 {
        saturated::<u8, Si16>(value)
    }

    fn saturating_from(value: u8) -> (r: Si16)
        ensures
            r@ == clamp(value as int, i16::MIN as int, i16::MAX as int),
    {
        saturate(value)
    }
}

impl SaturatingFrom<u8> for Si32 {
    open spec fn spec_saturating_from(value: u8) -> Si32 {
        saturated::<u8, Si32>(value)
    }

    fn saturating_from(value: u8) -> (r: Si32)
        ensures
            r@ == clamp(value as int, i32::MIN as int, i32::MAX as int),
    {
        saturate(value)
    }
}

impl SaturatingFrom<u8> for Si64 {
    open spec fn spec_saturating_from(value: u8) -> Si64 {
        saturated::<u8, Si64>(value)
    }

    fn saturating_from(value: u8) -> (r: Si64)
        ensures
            r@ == clamp(value as int, i64::MIN as int, i64::MAX as int),
    {
        saturate(value)
    }
}

impl SaturatingFrom<u8> for Si128 {
    open spec fn spec_saturating_from(value: u8) -> Si128 {
        saturated::<u8, Si128>(value)
    }

    fn saturating_from(value: u8) -> (r: Si128)
        ensures
            r@ == clamp(value as int, i128::MIN as int, i128::MAX as int),
    {
        saturate(value)
    }
}

impl SaturatingFrom<u8> for Sisize {
    open spec fn spec_saturating_from(value: u8) -> Sisize {
        saturated::<u8, Sisize>(value)
    }

    fn saturating_from(value: u8) -> (r: Sisize)
        ensures
            r@ == clamp(value as int, isize::MIN as int, isize::MAX as int),
    {
        saturate(value)
    }
}

impl SaturatingFrom<u8> for Su8 {
    open spec fn spec_saturating_from(value: u8) -> Su8 {
        saturated::<u8, Su8>(value)
    }

    fn saturating_from(value: u8) -> (r: Su8)
        ensures
            r@ == clamp(value as int, u8::MIN as int, u8::MAX as int),
    {
        saturate(value)
    }
}

impl SaturatingFrom<u8> for Su16 {
    open spec fn spec_saturating_from(value: u8) -> Su16 {
        saturated::<u8, Su16>(value)
    }

    fn saturating_from(value: u8) -> (r: Su16)
        ensures
            r@ == clamp(value as int, u16::MIN as int, u16::MAX as int),
    {
        saturate(value)
    }
}

impl SaturatingFrom<u8> for Su32 {
    open spec fn spec_saturating_from(value: u8) -> Su32 {
        saturated::<u8, Su32>(value)
    }

    fn saturating_from(value: u8) -> (r: Su32)
        ensures
            r@ == clamp(value as int, u32::MIN as int, u32::MAX as int),
    {
        saturate(value)
    }
}

impl SaturatingFrom<u8> for Su64 {
    open spec fn spec_saturating_from(value: u8) -> Su64 {
        saturated::<u8, Su64>(value)
    }

    fn saturating_from(value: u8) -> (r: Su64)
        ensures
            r@ == clamp(value as int, u64::MIN as int, u64::MAX as int),
    {
        saturate(value)
    }
}

impl SaturatingFrom<u8> for Su128 {
    open spec fn spec_saturating_from(value: u8) -> Su128 {
        saturated::<u8, Su128>(value)
    }

    fn saturating_from(value: u8) -> (r: Su128)
        ensures
            r@ == clamp(value as int, u128::MIN as int, u128::MAX as int),
    {
        saturate(value)
    }
}

impl SaturatingFrom<u8> for Susize {
    open spec fn spec_saturating_from(value: u8) -> Susize {
        saturated::<u8, Susize>(value)
    }

    fn saturating_from(value: u8) -> (r: Susize)
        ensures
            r@ == clamp(value as int, usize::MIN as int, usize::MAX as int),
    {
        saturate(value)
    }
}

impl SaturatingFrom<u8> for i8 {
    open spec fn spec_saturating_from(value: u8) -> i8 {
        saturated::<u8, i8>(value)
    }

    fn saturating_from(value: u8) -> (r: i8)
        ensures
            r as int == clamp(value as int, i8::MIN as int, i8::MAX as int),
    {
        saturate(value)
    }
}

impl SaturatingFrom<u8> for i16 {
    open spec fn spec_saturating_from(value: u8) -> i16 {
        saturated::<u8, i16>(value)
    }

    fn saturating_from(value: u8) -> (r: i16)
        ensures
            r as int == clamp(value as int, i16::MIN as int, i16::MAX as int),
    {
        saturate(value)
    }
}

impl SaturatingFrom<u8> for i32 {
    open spec fn spec_saturating_from(value: u8) -> i32 {
        saturated::<u8, i32>(value)
    }

    fn saturating_from(value: u8) -> (r: i32)
        ensures
            r as int == clamp(value as int, i32::MIN as int, i32::MAX as int),
    {
        saturate(value)
    }
}

impl SaturatingFrom<u8> for i64 {
    open spec fn spec_saturating_from(value: u8) -> i64 {
        saturated::<u8, i64>(value)
    }

    fn saturating_from(value: u8) -> (r: i64)
        ensures
            r as int == clamp(value as int, i64::MIN as int, i64::MAX as int),
    {
        saturate(value)
    }
}

impl SaturatingFrom<u8> for i128 {
    open spec fn spec_saturating_from(value: u8) -> i128 {
        saturated::<u8, i128>(value)
    }

    fn saturating_from(value: u8) -> (r: i128)
        ensures
            r as int == clamp(value as int, i128::MIN as int, i128::MAX as int),
    {
        saturate(value)
    }
}

impl SaturatingFrom<u8> for isize {
    open spec fn spec_saturating_from(value: u8) -> isize {
        saturated::<u8, isize>(value)
    }

    fn saturating_from(value: u8) -> (r: isize)
        ensures
            r as int == clamp(value as int, isize::MIN as int, isize::MAX as int),
    {
        saturate(value)
    }
}

impl SaturatingFrom<u8> for u16 {
    open spec fn spec_saturating_from(value: u8) -> u16 {
        saturated::<u8, u16>(value)
    }

    fn saturating_from(value: u8) -> (r: u16)
        ensures
            r as int == clamp(value as int, u16::MIN as int, u16::MAX as int),
    {
        saturate(value)
    }
}

impl SaturatingFrom<u8> for u32 {
    open spec fn spec_saturating_from(value: u8) -> u32 {
        saturated::<u8, u32>(value)
    }

    fn saturating_from(value: u8) -> (r: u32)
        ensures
            r as int == clamp(value as int, u32::MIN as int, u32::MAX as int),
    {
        saturate(value)
    }
}

impl SaturatingFrom<u8> for u64 {
    open spec fn spec_saturating_from(value: u8) -> u64 {
        saturated::<u8, u64>(value)
    }

    fn saturating_from(value: u8) -> (r: u64)
        ensures
            r as int == clamp(value as int, u64::MIN as int, u64::MAX as int),
    {
        saturate(value)
    }
}

impl SaturatingFrom<u8> for u128 {
    open spec fn spec_saturating_from(value: u8) -> u128 {
        saturated::<u8, u128>(value)
    }

    fn saturating_from(value: u8) -> (r: u128)
        ensures
            r as int == clamp(value as int, u128::MIN as int, u128::MAX as int),
    {
        saturate(value)
    }
}

impl SaturatingFrom<u8> for usize {
    open spec fn spec_saturating_from(value: u8) -> usize {
        saturated::<u8, usize>(value)
    }

    fn saturating_from(value: u8) -> (r: usize)
        ensures
            r as int == clamp(value as int, usize::MIN as int, usize::MAX as int),
    {
        saturate(value)
    }
}

impl SaturatingFrom<u16> for Si8 {
    open spec fn spec_saturating_from(value: u16) -> Si8 {
        saturated::<u16, Si8>(value)
    }

    fn saturating_from(value: u16) -> (r: Si8)
        ensures
            r@ == clamp(value as int, i8::MIN as int, i8::MAX as int),
    {
        saturate(value)
    }
}

impl SaturatingFrom<u16> for Si16 {
    open spec fn spec_saturating_from(value: u16) -> Si16 {
        saturated::<u16, Si16>(value)
    }

    fn saturating_from(value: u16) -> (r: Si16)
        ensures
            r@ == clamp(value as int, i16::MIN as int, i16::MAX as int),
    {
        saturate(value)
    }
}

impl SaturatingFrom<u16> for Si32 {
    open spec fn spec_saturating_from(value: u16) -> Si32 {
        saturated::<u16, Si32>(value)
    }

    fn saturating_from(value: u16) -> (r: Si32)
        ensures
            r@ == clamp(value as int, i32::MIN as int, i32::MAX as int),
    {
        saturate(value)
    }
}

impl SaturatingFrom<u16> for Si64 {
    open spec fn spec_saturating_from(value: u16) -> Si64 {
        saturated::<u16, Si64>(value)
    }

    fn saturating_from(value: u16) -> (r: Si64)
        ensures
            r@ == clamp(value as int, i64::MIN as int, i64::MAX as int),
    {
        saturate(value)
    }
}

impl SaturatingFrom<u16> for Si128 {
    open spec fn spec_saturating_from(value: u16) -> Si128 {
        saturated::<u16, Si128>(value)
    }

    fn saturating_from(value: u16) -> (r: Si128)
        ensures
            r@ == clamp(value as int, i128::MIN as int, i128::MAX as int),
    {
        saturate(value)
    }
}

impl SaturatingFrom<u16> for Sisize {
    open spec fn spec_saturating_from(value: u16) -> Sisize {
        saturated::<u16, Sisize>(value)
    }

    fn saturating_from(value: u16) -> (r: Sisize)
        ensures
            r@ == clamp(value as int, isize::MIN as int, isize::MAX as int),
    {
        saturate(value)
    }
}

impl SaturatingFrom<u16> for Su8 {
    open spec fn spec_saturating_from(value: u16) -> Su8 {
        saturated::<u16, Su8>(value)
    }

    fn saturating_from(value: u16) -> (r: Su8)
        ensures
            r@ == clamp(value as int, u8::MIN as int, u8::MAX as int),
    {
        saturate(value)
    }
}

impl SaturatingFrom<u16> for Su16 {
    open spec fn spec_saturating_from(value: u16) -> Su16 {
        saturated::<u16, Su16>(value)
    }

    fn saturating_from(value: u16) -> (r: Su16)
        ensures
            r@ == clamp(value as int, u16::MIN as int, u16::MAX as int),
    {
        saturate(value)
    }
}

impl SaturatingFrom<u16> for Su32 {
    open spec fn spec_saturating_from(value: u16) -> Su32 {
        saturated::<u16, Su32>(value)
    }

    fn saturating_from(value: u16) -> (r: Su32)
        ensures
            r@ == clamp(value as int, u32::MIN as int, u32::MAX as int),
    {
        saturate(value)
    }
}

impl SaturatingFrom<u16> for Su64 {
    open spec fn spec_saturating_from(value: u16) -> Su64 {
        saturated::<u16, Su64>(value)
    }

    fn saturating_from(value: u16) -> (r: Su64)
        ensures
            r@ == clamp(value as int, u64::MIN as int, u64::MAX as int),
    {
        saturate(value)
    }
}

impl SaturatingFrom<u16> for Su128 {
    open spec fn spec_saturating_from(value: u16) -> Su128 {
        saturated::<u16, Su128>(value)
    }

    fn saturating_from(value: u16) -> (r: Su128)
        ensures
            r@ == clamp(value as int, u128::MIN as int, u128::MAX as int),
    {
        saturate(value)
    }
}

impl SaturatingFrom<u16> for Susize {
    open spec fn spec_saturating_from(value: u16) -> Susize {
        saturated::<u16, Susize>(value)
    }

    fn saturating_from(value: u16) -> (r: Susize)
        ensures
            r@ == clamp(value as int, usize::MIN as int, usize::MAX as int),
    {
        saturate(value)
    }
}

impl SaturatingFrom<u16> for i8 {
    open spec fn spec_saturating_from(value: u16) -> i8 {
        saturated::<u16, i8>(value)
    }

    fn saturating_from(value: u16) -> (r: i8)
        ensures
            r as int == clamp(value as int, i8::MIN as int, i8::MAX as int),
    {
        saturate(value)
    }
}

impl SaturatingFrom<u16> for i16 {
    open spec fn spec_saturating_from(value: u16) -> i16 {
        saturated::<u16, i16>(value)
    }

    fn saturating_from(value: u16) -> (r: i16)
        ensures
            r as int == clamp(value as int, i16::MIN as int, i16::MAX as int),
    {
        saturate(value)
    }
}

impl SaturatingFrom<u16> for i32 {
    open spec fn spec_saturating_from(value: u16) -> i32 {
        saturated::<u16, i32>(value)
    }

    fn saturating_from(value: u16) -> (r: i32)
        ensures
            r as int == clamp(value as int, i32::MIN as int, i32::MAX as int),
    {
        saturate(value)
    }
}

impl SaturatingFrom<u16> for i64 {
    open spec fn spec_saturating_from(value: u16) -> i64 {
        saturated::<u16, i64>(value)
    }

    fn saturating_from(value: u16) -> (r: i64)
        ensures
            r as int == clamp(value as int, i64::MIN as int, i64::MAX as int),
    {
        saturate(value)
    }
}

impl SaturatingFrom<u16> for i128 {
    open spec fn spec_saturating_from(value: u16) -> i128 {
        saturated::<u16, i128>(value)
    }

    fn saturating_from(value: u16) -> (r: i128)
        ensures
            r as int == clamp(value as int, i128::MIN as int, i128::MAX as int),
    {
        saturate(value)
    }
}

impl SaturatingFrom<u16> for isize {
    open spec fn spec_saturating_from(value: u16) -> isize {
        saturated::<u16, isize>(value)
    }

    fn saturating_from(value: u16) -> (r: isize)
        ensures
            r as int == clamp(value as int, isize::MIN as int, isize::MAX as int),
    {
        saturate(value)
    }
}

impl SaturatingFrom<u16> for u8 {
    open spec fn spec_saturating_from(value: u16) -> u8 {
        saturated::<u16, u8>(value)
    }

    fn saturating_from(value: u16) -> (r: u8)
        ensures
            r as int == clamp(value as int, u8::MIN as int, u8::MAX as int),
    {
        saturate(value)
    }
}

impl SaturatingFrom<u16> for u32 {
    open spec fn spec_saturating_from(value: u16) -> u32 {
        saturated::<u16, u32>(value)
    }

    fn saturating_from(value: u16) -> (r: u32)
        ensures
            r as int == clamp(value as int, u32::MIN as int, u32::MAX as int),
    {
        saturate(value)
    }
}

impl SaturatingFrom<u16> for u64 {
    open spec fn spec_saturating_from(value: u16) -> u64 {
        saturated::<u16, u64>(value)
    }

    fn saturating_from(value: u16) -> (r: u64)
        ensures
            r as int == clamp(value as int, u64::MIN as int, u64::MAX as int),
    {
        saturate(value)
    }
}

impl SaturatingFrom<u16> for u128 {
    open spec fn spec_saturating_from(value: u16) -> u128 {
        saturated::<u16, u128>(value)
    }

    fn saturating_from(value: u16) -> (r: u128)
        ensures
            r as int == clamp(value as int, u128::MIN as int, u128::MAX as int),
    {
        saturate(value)
    }
}

impl SaturatingFrom<u16> for usize {
    open spec fn spec_saturating_from(value: u16) -> usize {
        saturated::<u16, usize>(value)
    }

    fn saturating_from(value: u16) -> (r: usize)
        ensures
            r as int == clamp(value as int, usize::MIN as int, usize::MAX as int),
    {
        saturate(value)
    }
}

impl SaturatingFrom<u32> for Si8 {
    open spec fn spec_saturating_from(value: u32) -> Si8 {
        saturated::<u32, Si8>(value)
    }

    fn saturating_from(value: u32) -> (r: Si8)
        ensures
            r@ == clamp(value as int, i8::MIN as int, i8::MAX as int),
    {
        saturate(value)
    }
}

impl SaturatingFrom<u32> for Si16 {
    open spec fn spec_saturating_from(value: u32) -> Si16 {
        saturated::<u32, Si16>(value)
    }

    fn saturating_from(value: u32) -> (r: Si16)
        ensures
            r@ == clamp(value as int, i16::MIN as int, i16::MAX as int),
    {
        saturate(value)
    }
}

impl SaturatingFrom<u32> for Si32 {
    open spec fn spec_saturating_from(value: u32) -> Si32 {
        saturated::<u32, Si32>(value)
    }

    fn saturating_from(value: u32) -> (r: Si32)
        ensures
            r@ == clamp(value as int, i32::MIN as int, i32::MAX as int),
    {
        saturate(value)
    }
}

impl SaturatingFrom<u32> for Si64 {
    open spec fn spec_saturating_from(value: u32) -> Si64 {
        saturated::<u32, Si64>(value)
    }

    fn saturating_from(value: u32) -> (r: Si64)
        ensures
            r@ == clamp(value as int, i64::MIN as int, i64::MAX as int),
    {
        saturate(value)
    }
}

impl SaturatingFrom<u32> for Si128 {
    open spec fn spec_saturating_from(value: u32) -> Si128 {
        saturated::<u32, Si128>(value)
    }

    fn saturating_from(value: u32) -> (r: Si128)
        ensures
            r@ == clamp(value as int, i128::MIN as int, i128::MAX as int),
    {
        saturate(value)
    }
}

impl SaturatingFrom<u32> for Sisize {
    open spec fn spec_saturating_from(value: u32) -> Sisize {
        saturated::<u32, Sisize>(value)
    }

    fn saturating_from(value: u32) -> (r: Sisize)
        ensures
            r@ == clamp(value as int, isize::MIN as int, isize::MAX as int),
    {
        saturate(value)
    }
}

impl SaturatingFrom<u32> for Su8 {
    open spec fn spec_saturating_from(value: u32) -> Su8 {
        saturated::<u32, Su8>(value)
    }

    fn saturating_from(value: u32) -> (r: Su8)
        ensures
            r@ == clamp(value as int, u8::MIN as int, u8::MAX as int),
    {
        saturate(value)
    }
}

impl SaturatingFrom<u32> for Su16 {
    open spec fn spec_saturating_from(value: u32) -> Su16 {
        saturated::<u32, Su16>(value)
    }

    fn saturating_from(value: u32) -> (r: Su16)
        ensures
            r@ == clamp(value as int, u16::MIN as int, u16::MAX as int),
    {
        saturate(value)
    }
}

impl SaturatingFrom<u32> for Su32 {
    open spec fn spec_saturating_from(value: u32) -> Su32 {
        saturated::<u32, Su32>(value)
    }

    fn saturating_from(value: u32) -> (r: Su32)
        ensures
            r@ == clamp(value as int, u32::MIN as int, u32::MAX as int),
    {
        saturate(value)
    }
}

impl SaturatingFrom<u32> for Su64 {
    open spec fn spec_saturating_from(value: u32) -> Su64 {
        saturated::<u32, Su64>(value)
    }

    fn saturating_from(value: u32) -> (r: Su64)
        ensures
            r@ == clamp(value as int, u64::MIN as int, u64::MAX as int),
    {
        saturate(value)
    }
}

impl SaturatingFrom<u32> for Su128 {
    open spec fn spec_saturating_from(value: u32) -> Su128 {
        saturated::<u32, Su128>(value)
    }

    fn saturating_from(value: u32) -> (r: Su128)
        ensures
            r@ == clamp(value as int, u128::MIN as int, u128::MAX as int),
    {
        saturate(value)
    }
}

impl SaturatingFrom<u32> for Susize {
    open spec fn spec_saturating_from(value: u32) -> Susize {
        saturated::<u32, Susize>(value)
    }

    fn saturating_from(value: u32) -> (r: Susize)
        ensures
            r@ == clamp(value as int, usize::MIN as int, usize::MAX as int),
    {
        saturate(value)
    }
}

impl SaturatingFrom<u32> for i8 {
    open spec fn spec_saturating_from(value: u32) -> i8 {
        saturated::<u32, i8>(value)
    }

    fn saturating_from(value: u32) -> (r: i8)
        ensures
            r as int == clamp(value as int, i8::MIN as int, i8::MAX as int),
    {
        saturate(value)
    }
}

impl SaturatingFrom<u32> for i16 {
    open spec fn spec_saturating_from(value: u32) -> i16 {
        saturated::<u32, i16>(value)
    }

    fn saturating_from(value: u32) -> (r: i16)
        ensures
            r as int == clamp(value as int, i16::MIN as int, i16::MAX as int),
    {
        saturate(value)
    }
}

impl SaturatingFrom<u32> for i32 {
    open spec fn spec_saturating_from(value: u32) -> i32 {
        saturated::<u32, i32>(value)
    }

    fn saturating_from(value: u32) -> (r: i32)
        ensures
            r as int == clamp(value as int, i32::MIN as int, i32::MAX as int),
    {
        saturate(value)
    }
}

impl SaturatingFrom<u32> for i64 {
    open spec fn spec_saturating_from(value: u32) -> i64 {
        saturated::<u32, i64>(value)
    }

    fn saturating_from(value: u32) -> (r: i64)
        ensures
            r as int == clamp(value as int, i64::MIN as int, i64::MAX as int),
    {
        saturate(value)
    }
}

impl SaturatingFrom<u32> for i128 {
    open spec fn spec_saturating_from(value: u32) -> i128 {
        saturated::<u32, i128>(value)
    }

    fn saturating_from(value: u32) -> (r: i128)
        ensures
            r as int == clamp(value as int, i128::MIN as int, i128::MAX as int),
    {
        saturate(value)
    }
}

impl SaturatingFrom<u32> for isize {
    open spec fn spec_saturating_from(value: u32) -> isize {
        saturated::<u32, isize>(value)
    }

    fn saturating_from(value: u32) -> (r: isize)
        ensures
            r as int == clamp(value as int, isize::MIN as int, isize::MAX as int),
    {
        saturate(value)
    }
}

impl SaturatingFrom<u32> for u8 {
    open spec fn spec_saturating_from(value: u32) -> u8 {
        saturated::<u32, u8>(value)
    }

    fn saturating_from(value: u32) -> (r: u8)
        ensures
            r as int == clamp(value as int, u8::MIN as int, u8::MAX as int),
    {
        saturate(value)
    }
}

impl SaturatingFrom<u32> for u16 {
    open spec fn spec_saturating_from(value: u32) -> u16 {
        saturated::<u32, u16>(value)
    }

    fn saturating_from(value: u32) -> (r: u16)
        ensures
            r as int == clamp(value as int, u16::MIN as int, u16::MAX as int),
    {
        saturate(value)
    }
}

impl SaturatingFrom<u32> for u64 {
    open spec fn spec_saturating_from(value: u32) -> u64 {
        saturated::<u32, u64>(value)
    }

    fn saturating_from(value: u32) -> (r: u64)
        ensures
            r as int == clamp(value as int, u64::MIN as int, u64::MAX as int),
    {
        saturate(value)
    }
}

impl SaturatingFrom<u32> for u128 {
    open spec fn spec_saturating_from(value: u32) -> u128 {
        saturated::<u32, u128>(value)
    }

    fn saturating_from(value: u32) -> (r: u128)
        ensures
            r as int == clamp(value as int, u128::MIN as int, u128::MAX as int),
    {
        saturate(value)
    }
}

impl SaturatingFrom<u32> for usize {
    open spec fn spec_saturating_from(value: u32) -> usize {
        saturated::<u32, usize>(value)
    }

    fn saturating_from(value: u32) -> (r: usize)
        ensures
            r as int == clamp(value as int, usize::MIN as int, usize::MAX as int),
    {
        saturate(value)
    }
}

impl SaturatingFrom<u64> for Si8 {
    open spec fn spec_saturating_from(value: u64) -> Si8 {
        saturated::<u64, Si8>(value)
    }

    fn saturating_from(value: u64) -> (r: Si8)
        ensures
            r@ == clamp(value as int, i8::MIN as int, i8::MAX as int),
    {
        saturate(value)
    }
}

impl SaturatingFrom<u64> for Si16 {
    open spec fn spec_saturating_from(value: u64) -> Si16 {
        saturated::<u64, Si16>(value)
    }

    fn saturating_from(value: u64) -> (r: Si16)
        ensures
            r@ == clamp(value as int, i16::MIN as int, i16::MAX as int),
    {
        saturate(value)
    }
}

impl SaturatingFrom<u64> for Si32 {
    open spec fn spec_saturating_from(value: u64) -> Si32 {
        saturated::<u64, Si32>(value)
    }

    fn saturating_from(value: u64) -> (r: Si32)
        ensures
            r@ == clamp(value as int, i32::MIN as int, i32::MAX as int),
    {
        saturate(value)
    }
}

impl SaturatingFrom<u64> for Si64 {
    open spec fn spec_saturating_from(value: u64) -> Si64 {
        saturated::<u64, Si64>(value)
    }

    fn saturating_from(value: u64) -> (r: Si64)
        ensures
            r@ == clamp(value as int, i64::MIN as int, i64::MAX as int),
    {
        saturate(value)
    }
}

impl SaturatingFrom<u64> for Si128 {
    open spec fn spec_saturating_from(value: u64) -> Si128 {
        saturated::<u64, Si128>(value)
    }

    fn saturating_from(value: u64) -> (r: Si128)
        ensures
            r@ == clamp(value as int, i128::MIN as int, i128::MAX as int),
    {
        saturate(value)
    }
}

impl SaturatingFrom<u64> for Sisize {
    open spec fn spec_saturating_from(value: u64) -> Sisize {
        saturated::<u64, Sisize>(value)
    }

    fn saturating_from(value: u64) -> (r: Sisize)
        ensures
            r@ == clamp(value as int, isize::MIN as int, isize::MAX as int),
    {
        saturate(value)
    }
}

impl SaturatingFrom<u64> for Su8 {
    open spec fn spec_saturating_from(value: u64) -> Su8 {
        saturated::<u64, Su8>(value)
    }

    fn saturating_from(value: u64) -> (r: Su8)
        ensures
            r@ == clamp(value as int, u8::MIN as int, u8::MAX as int),
    {
        saturate(value)
    }
}

impl SaturatingFrom<u64> for Su16 {
    open spec fn spec_saturating_from(value: u64) -> Su16 {
        saturated::<u64, Su16>(value)
    }

    fn saturating_from(value: u64) -> (r: Su16)
        ensures
            r@ == clamp(value as int, u16::MIN as int, u16::MAX as int),
    {
        saturate(value)
    }
}

impl SaturatingFrom<u64> for Su32 {
    open spec fn spec_saturating_from(value: u64) -> Su32 {
        saturated::<u64, Su32>(value)
    }

    fn saturating_from(value: u64) -> (r: Su32)
        ensures
            r@ == clamp(value as int, u32::MIN as int, u32::MAX as int),
    {
        saturate(value)
    }
}

impl SaturatingFrom<u64> for Su64 {
    open spec fn spec_saturating_from(value: u64) -> Su64 {
        saturated::<u64, Su64>(value)
    }

    fn saturating_from(value: u64) -> (r: Su64)
        ensures
            r@ == clamp(value as int, u64::MIN as int, u64::MAX as int),
    {
        saturate(value)
    }
}

impl SaturatingFrom<u64> for Su128 {
    open spec fn spec_saturating_from(value: u64) -> Su128 {
        saturated::<u64, Su128>(value)
    }

    fn saturating_from(value: u64) -> (r: Su128)
        ensures
            r@ == clamp(value as int, u128::MIN as int, u128::MAX as int),
    {
        saturate(value)
    }
}

impl SaturatingFrom<u64> for Susize {
    open spec fn spec_saturating_from(value: u64) -> Susize {
        saturated::<u64, Susize>(value)
    }

    fn saturating_from(value: u64) -> (r: Susize)
        ensures
            r@ == clamp(value as int, usize::MIN as int, usize::MAX as int),
    {
        saturate(value)
    }
}

impl SaturatingFrom<u64> for i8 {
    open spec fn spec_saturating_from(value: u64) -> i8 {
        saturated::<u64, i8>(value)
    }

    fn saturating_from(value: u64) -> (r: i8)
        ensures
            r as int == clamp(value as int, i8::MIN as int, i8::MAX as int),
    {
        saturate(value)
    }
}

impl SaturatingFrom<u64> for i16 {
    open spec fn spec_saturating_from(value: u64) -> i16 {
        saturated::<u64, i16>(value)
    }

    fn saturating_from(value: u64) -> (r: i16)
        ensures
            r as int == clamp(value as int, i16::MIN as int, i16::MAX as int),
    {
        saturate(value)
    }
}

impl SaturatingFrom<u64> for i32 {
    open spec fn spec_saturating_from(value: u64) -> i32 {
        saturated::<u64, i32>(value)
    }

    fn saturating_from(value: u64) -> (r: i32)
        ensures
            r as int == clamp(value as int, i32::MIN as int, i32::MAX as int),
    {
        saturate(value)
    }
}

impl SaturatingFrom<u64> for i64 {
    open spec fn spec_saturating_from(value: u64) -> i64 {
        saturated::<u64, i64>(value)
    }

    fn saturating_from(value: u64) -> (r: i64)
        ensures
            r as int == clamp(value as int, i64::MIN as int, i64::MAX as int),
    {
        saturate(value)
    }
}

impl SaturatingFrom<u64> for i128 {
    open spec fn spec_saturating_from(value: u64) -> i128 {
        saturated::<u64, i128>(value)
    }

    fn saturating_from(value: u64) -> (r: i128)
        ensures
            r as int == clamp(value as int, i128::MIN as int, i128::MAX as int),
    {
        saturate(value)
    }
}

impl SaturatingFrom<u64> for isize {
    open spec fn spec_saturating_from(value: u64) -> isize {
        saturated::<u64, isize>(value)
    }

    fn saturating_from(value: u64) -> (r: isize)
        ensures
            r as int == clamp(value as int, isize::MIN as int, isize::MAX as int),
    {
        saturate(value)
    }
}

impl SaturatingFrom<u64> for u8 {
    open spec fn spec_saturating_from(value: u64) -> u8 {
        saturated::<u64, u8>(value)
    }

    fn saturating_from(value: u64) -> (r: u8)
        ensures
            r as int == clamp(value as int, u8::MIN as int, u8::MAX as int),
    {
        saturate(value)
    }
}

impl SaturatingFrom<u64> for u16 {
    open spec fn spec_saturating_from(value: u64) -> u16 {
        saturated::<u64, u16>(value)
    }

    fn saturating_from(value: u64) -> (r: u16)
        ensures
            r as int == clamp(value as int, u16::MIN as int, u16::MAX as int),
    {
        saturate(value)
    }
}

impl SaturatingFrom<u64> for u32 {
    open spec fn spec_saturating_from(value: u64) -> u32 {
        saturated::<u64, u32>(value)
    }

    fn saturating_from(value: u64) -> (r: u32)
        ensures
            r as int == clamp(value as int, u32::MIN as int, u32::MAX as int),
    {
        saturate(value)
    }
}

impl SaturatingFrom<u64> for u128 {
    open spec fn spec_saturating_from(value: u64) -> u128 {
        saturated::<u64, u128>(value)
    }

    fn saturating_from(value: u64) -> (r: u128)
        ensures
            r as int == clamp(value as int, u128::MIN as int, u128::MAX as int),
    {
        saturate(value)
    }
}

impl SaturatingFrom<u64> for usize {
    open spec fn spec_saturating_from(value: u64) -> usize {
        saturated::<u64, usize>(value)
    }

    fn saturating_from(value: u64) -> (r: usize)
        ensures
            r as int == clamp(value as int, usize::MIN as int, usize::MAX as int),
    {
        saturate(value)
    }
}

impl SaturatingFrom<u128> for Si8 {
    open spec fn spec_saturating_from(value: u128) -> Si8 {
        saturated::<u128, Si8>(value)
    }

    fn saturating_from(value: u128) -> (r: Si8)
        ensures
            r@ == clamp(value as int, i8::MIN as int, i8::MAX as int),
    {
        saturate(value)
    }
}

impl SaturatingFrom<u128> for Si16 {
    open spec fn spec_saturating_from(value: u128) -> Si16 {
        saturated::<u128, Si16>(value)
    }

    fn saturating_from(value: u128) -> (r: Si16)
        ensures
            r@ == clamp(value as int, i16::MIN as int, i16::MAX as int),
    {
        saturate(value)
    }
}

impl SaturatingFrom<u128> for Si32 {
    open spec fn spec_saturating_from(value: u128) -> Si32 {
        saturated::<u128, Si32>(value)
    }

    fn saturating_from(value: u128) -> (r: Si32)
        ensures
            r@ == clamp(value as int, i32::MIN as int, i32::MAX as int),
    {
        saturate(value)
    }
}

impl SaturatingFrom<u128> for Si64 {
    open spec fn spec_saturating_from(value: u128) -> Si64 {
        saturated::<u128, Si64>(value)
    }

    fn saturating_from(value: u128) -> (r: Si64)
        ensures
            r@ == clamp(value as int, i64::MIN as int, i64::MAX as int),
    {
        saturate(value)
    }
}

impl SaturatingFrom<u128> for Si128 {
    open spec fn spec_saturating_from(value: u128) -> Si128 {
        saturated::<u128, Si128>(value)
    }

    fn saturating_from(value: u128) -> (r: Si128)
        ensures
            r@ == clamp(value as int, i128::MIN as int, i128::MAX as int),
    {
        saturate(value)
    }
}

impl SaturatingFrom<u128> for Sisize {
    open spec fn spec_saturating_from(value: u128) -> Sisize {
        saturated::<u128, Sisize>(value)
    }

    fn saturating_from(value: u128) -> (r: Sisize)
        ensures
            r@ == clamp(value as int, isize::MIN as int, isize::MAX as int),
    {
        saturate(value)
    }
}

impl SaturatingFrom<u128> for Su8 {
    open spec fn spec_saturating_from(value: u128) -> Su8 {
        saturated::<u128, Su8>(value)
    }

    fn saturating_from(value: u128) -> (r: Su8)
        ensures
            r@ == clamp(value as int, u8::MIN as int, u8::MAX as int),
    {
        saturate(value)
    }
}

impl SaturatingFrom<u128> for Su16 {
    open spec fn spec_saturating_from(value: u128) -> Su16 {
        saturated::<u128, Su16>(value)
    }

    fn saturating_from(value: u128) -> (r: Su16)
        ensures
            r@ == clamp(value as int, u16::MIN as int, u16::MAX as int),
    {
        saturate(value)
    }
}

impl SaturatingFrom<u128> for Su32 {
    open spec fn spec_saturating_from(value: u128) -> Su32 {
        saturated::<u128, Su32>(value)
    }

    fn saturating_from(value: u128) -> (r: Su32)
        ensures
            r@ == clamp(value as int, u32::MIN as int, u32::MAX as int),
    {
        saturate(value)
    }
}

impl SaturatingFrom<u128> for Su64 {
    open spec fn spec_saturating_from(value: u128) -> Su64 {
        saturated::<u128, Su64>(value)
    }

    fn saturating_from(value: u128) -> (r: Su64)
        ensures
            r@ == clamp(value as int, u64::MIN as int, u64::MAX as int),
    {
        saturate(value)
    }
}

impl SaturatingFrom<u128> for Su128 {
    open spec fn spec_saturating_from(value: u128) -> Su128 {
        saturated::<u128, Su128>(value)
    }

    fn saturating_from(value: u128) -> (r: Su128)
        ensures
            r@ == clamp(value as int, u128::MIN as int, u128::MAX as int),
    {
        saturate(value)
    }
}

impl SaturatingFrom<u128> for Susize {
    open spec fn spec_saturating_from(value: u128) -> Susize {
        saturated::<u128, Susize>(value)
    }

    fn saturating_from(value: u128) -> (r: Susize)
        ensures
            r@ == clamp(value as int, usize::MIN as int, usize::MAX as int),
    {
        saturate(value)
    }
}

impl SaturatingFrom<u128> for i8 {
    open spec fn spec_saturating_from(value: u128) -> i8 {
        saturated::<u128, i8>(value)
    }

    fn saturating_from(value: u128) -> (r: i8)
        ensures
            r as int == clamp(value as int, i8::MIN as int, i8::MAX as int),
    {
        saturate(value)
    }
}

impl SaturatingFrom<u128> for i16 {
    open spec fn spec_saturating_from(value: u128) -> i16 {
        saturated::<u128, i16>(value)
    }

    fn saturating_from(value: u128) -> (r: i16)
        ensures
            r as int == clamp(value as int, i16::MIN as int, i16::MAX as int),
    {
        saturate(value)
    }
}

impl SaturatingFrom<u128> for i32 {
    open spec fn spec_saturating_from(value: u128) -> i32 {
        saturated::<u128, i32>(value)
    }

    fn saturating_from(value: u128) -> (r: i32)
        ensures
            r as int == clamp(value as int, i32::MIN as int, i32::MAX as int),
    {
        saturate(value)
    }
}

impl SaturatingFrom<u128> for i64 {
    open spec fn spec_saturating_from(value: u128) -> i64 {
        saturated::<u128, i64>(value)
    }

    fn saturating_from(value: u128) -> (r: i64)
        ensures
            r as int == clamp(value as int, i64::MIN as int, i64::MAX as int),
    {
        saturate(value)
    }
}

impl SaturatingFrom<u128> for i128 {
    open spec fn spec_saturating_from(value: u128) -> i128 {
        saturated::<u128, i128>(value)
    }

    fn saturating_from(value: u128) -> (r: i128)
        ensures
            r as int == clamp(value as int, i128::MIN as int, i128::MAX as int),
    {
        saturate(value)
    }
}

impl SaturatingFrom<u128> for isize {
    open spec fn spec_saturating_from(value: u128) -> isize {
        saturated::<u128, isize>(value)
    }

    fn saturating_from(value: u128) -> (r: isize)
        ensures
            r as int == clamp(value as int, isize::MIN as int, isize::MAX as int),
    {
        saturate(value)
    }
}

impl SaturatingFrom<u128> for u8 {
    open spec fn spec_saturating_from(value: u128) -> u8 {
        saturated::<u128, u8>(value)
    }

    fn saturating_from(value: u128) -> (r: u8)
        ensures
            r as int == clamp(value as int, u8::MIN as int, u8::MAX as int),
    {
        saturate(value)
    }
}

impl SaturatingFrom<u128> for u16 {
    open spec fn spec_saturating_from(value: u128) -> u16 {
        saturated::<u128, u16>(value)
    }

    fn saturating_from(value: u128) -> (r: u16)
        ensures
            r as int == clamp(value as int, u16::MIN as int, u16::MAX as int),
    {
        saturate(value)
    }
}

impl SaturatingFrom<u128> for u32 {
    open spec fn spec_saturating_from(value: u128) -> u32 {
        saturated::<u128, u32>(value)
    }

    fn saturating_from(value: u128) -> (r: u32)
        ensures
            r as int == clamp(value as int, u32::MIN as int, u32::MAX as int),
    {
        saturate(value)
    }
}

impl SaturatingFrom<u128> for u64 {
    open spec fn spec_saturating_from(value: u128) -> u64 {
        saturated::<u128, u64>(value)
    }

    fn saturating_from(value: u128) -> (r: u64)
        ensures
            r as int == clamp(value as int, u64::MIN as int, u64::MAX as int),
    {
        saturate(value)
    }
}

impl SaturatingFrom<u128> for usize {
    open spec fn spec_saturating_from(value: u128) -> usize {
        saturated::<u128, usize>(value)
    }

    fn saturating_from(value: u128) -> (r: usize)
        ensures
            r as int == clamp(value as int, usize::MIN as int, usize::MAX as int),
    {
        saturate(value)
    }
}

impl SaturatingFrom<usize> for Si8 {
    open spec fn spec_saturating_from(value: usize) -> Si8 {
        saturated::<usize, Si8>(value)
    }

    fn saturating_from(value: usize) -> (r: Si8)
        ensures
            r@ == clamp(value as int, i8::MIN as int, i8::MAX as int),
    {
        saturate(value)
    }
}

impl SaturatingFrom<usize> for Si16 {
    open spec fn spec_saturating_from(value: usize) -> Si16 {
        saturated::<usize, Si16>(value)
    }

    fn saturating_from(value: usize) -> (r: Si16)
        ensures
            r@ == clamp(value as int, i16::MIN as int, i16::MAX as int),
    {
        saturate(value)
    }
}

impl SaturatingFrom<usize> for Si32 {
    open spec fn spec_saturating_from(value: usize) -> Si32 {
        saturated::<usize, Si32>(value)
    }

    fn saturating_from(value: usize) -> (r: Si32)
        ensures
            r@ == clamp(value as int, i32::MIN as int, i32::MAX as int),
    {
        saturate(value)
    }
}

impl SaturatingFrom<usize> for Si64 {
    open spec fn spec_saturating_from(value: usize) -> Si64 {
        saturated::<usize, Si64>(value)
    }

    fn saturating_from(value: usize) -> (r: Si64)
        ensures
            r@ == clamp(value as int, i64::MIN as int, i64::MAX as int),
    {
        saturate(value)
    }
}

impl SaturatingFrom<usize> for Si128 {
    open spec fn spec_saturating_from(value: usize) -> Si128 {
        saturated::<usize, Si128>(value)
    }

    fn saturating_from(value: usize) -> (r: Si128)
        ensures
            r@ == clamp(value as int, i128::MIN as int, i128::MAX as int),
    {
        saturate(value)
    }
}

impl SaturatingFrom<usize> for Sisize {
    open spec fn spec_saturating_from(value: usize) -> Sisize {
        saturated::<usize, Sisize>(value)
    }

    fn saturating_from(value: usize) -> (r: Sisize)
        ensures
            r@ == clamp(value as int, isize::MIN as int, isize::MAX as int),
    {
        saturate(value)
    }
}

impl SaturatingFrom<usize> for Su8 {
    open spec fn spec_saturating_from(value: usize) -> Su8 {
        saturated::<usize, Su8>(value)
    }

    fn saturating_from(value: usize) -> (r: Su8)
        ensures
            r@ == clamp(value as int, u8::MIN as int, u8::MAX as int),
    {
        saturate(value)
    }
}

impl SaturatingFrom<usize> for Su16 {
    open spec fn spec_saturating_from(value: usize) -> Su16 {
        saturated::<usize, Su16>(value)
    }

    fn saturating_from(value: usize) -> (r: Su16)
        ensures
            r@ == clamp(value as int, u16::MIN as int, u16::MAX as int),
    {
        saturate(value)
    }
}

impl SaturatingFrom<usize> for Su32 {
    open spec fn spec_saturating_from(value: usize) -> Su32 {
        saturated::<usize, Su32>(value)
    }

    fn saturating_from(value: usize) -> (r: Su32)
        ensures
            r@ == clamp(value as int, u32::MIN as int, u32::MAX as int),
    {
        saturate(value)
    }
}

impl SaturatingFrom<usize> for Su64 {
    open spec fn spec_saturating_from(value: usize) -> Su64 {
        saturated::<usize, Su64>(value)
    }

    fn saturating_from(value: usize) -> (r: Su64)
        ensures
            r@ == clamp(value as int, u64::MIN as int, u64::MAX as int),
    {
        saturate(value)
    }
}

impl SaturatingFrom<usize> for Su128 {
    open spec fn spec_saturating_from(value: usize) -> Su128 {
        saturated::<usize, Su128>(value)
    }

    fn saturating_from(value: usize) -> (r: Su128)
        ensures
            r@ == clamp(value as int, u128::MIN as int, u128::MAX as int),
    {
        saturate(value)
    }
}

impl SaturatingFrom<usize> for Susize {
    open spec fn spec_saturating_from(value: usize) -> Susize {
        saturated::<usize, Susize>(value)
    }

    fn saturating_from(value: usize) -> (r: Susize)
        ensures
            r@ == clamp(value as int, usize::MIN as int, usize::MAX as int),
    {
        saturate(value)
    }
}

impl SaturatingFrom<usize> for i8 {
    open spec fn spec_saturating_from(value: usize) -> i8 {
        saturated::<usize, i8>(value)
    }

    fn saturating_from(value: usize) -> (r: i8)
        ensures
            r as int == clamp(value as int, i8::MIN as int, i8::MAX as int),
    {
        saturate(value)
    }
}

impl SaturatingFrom<usize> for i16 {
    open spec fn spec_saturating_from(value: usize) -> i16 {
        saturated::<usize, i16>(value)
    }

    fn saturating_from(value: usize) -> (r: i16)
        ensures
            r as int == clamp(value as int, i16::MIN as int, i16::MAX as int),
    {
        saturate(value)
    }
}

impl SaturatingFrom<usize> for i32 {
    open spec fn spec_saturating_from(value: usize) -> i32 {
        saturated::<usize, i32>(value)
    }

    fn saturating_from(value: usize) -> (r: i32)
        ensures
            r as int == clamp(value as int, i32::MIN as int, i32::MAX as int),
    {
        saturate(value)
    }
}

impl SaturatingFrom<usize> for i64 {
    open spec fn spec_saturating_from(value: usize) -> i64 {
        saturated::<usize, i64>(value)
    }

    fn saturating_from(value: usize) -> (r: i64)
        ensures
            r as int == clamp(value as int, i64::MIN as int, i64::MAX as int),
    {
        saturate(value)
    }
}

impl SaturatingFrom<usize> for i128 {
    open spec fn spec_saturating_from(value: usize) -> i128 {
        saturated::<usize, i128>(value)
    }

    fn saturating_from(value: usize) -> (r: i128)
        ensures
            r as int == clamp(value as int, i128::MIN as int, i128::MAX as int),
    {
        saturate(value)
    }
}

impl SaturatingFrom<usize> for isize {
    open spec fn spec_saturating_from(value: usize) -> isize {
        saturated::<usize, isize>(value)
    }

    fn saturating_from(value: usize) -> (r: isize)
        ensures
            r as int == clamp(value as int, isize::MIN as int, isize::MAX as int),
    {
        saturate(value)
    }
}

impl SaturatingFrom<usize> for u8 {
    open spec fn spec_saturating_from(value: usize) -> u8 {
        saturated::<usize, u8>(value)
    }

    fn saturating_from(value: usize) -> (r: u8)
        ensures
            r as int == clamp(value as int, u8::MIN as int, u8::MAX as int),
    {
        saturate(value)
    }
}

impl SaturatingFrom<usize> for u16 {
    open spec fn spec_saturating_from(value: usize) -> u16 {
        saturated::<usize, u16>(value)
    }

    fn saturating_from(value: usize) -> (r: u16)
        ensures
            r as int == clamp(value as int, u16::MIN as int, u16::MAX as int),
    {
        saturate(value)
    }
}

impl SaturatingFrom<usize> for u32 {
    open spec fn spec_saturating_from(value: usize) -> u32 {
        saturated::<usize, u32>(value)
    }

    fn saturating_from(value: usize) -> (r: u32)
        ensures
            r as int == clamp(value as int, u32::MIN as int, u32::MAX as int),
    {
        saturate(value)
    }
}

impl SaturatingFrom<usize> for u64 {
    open spec fn spec_saturating_from(value: usize) -> u64 {
        saturated::<usize, u64>(value)
    }

    fn saturating_from(value: usize) -> (r: u64)
        ensures
            r as int == clamp(value as int, u64::MIN as int, u64::MAX as int),
    {
        saturate(value)
    }
}

impl SaturatingFrom<usize> for u128 {
    open spec fn spec_saturating_from(value: usize) -> u128 {
        saturated::<usize, u128>(value)
    }

    fn saturating_from(value: usize) -> (r: u128)
        ensures
            r as int == clamp(value as int, u128::MIN as int, u128::MAX as int),
    {
        saturate(value)
    }
}

} // verus!
