//! Lossless conversions: every value of the source is a value of the destination.
use vstd::prelude::*;
use vstd::std_specs::convert::FromSpecImpl;
use crate::si::{Si8, Si16, Si32, Si64, Si128};
use crate::su::{Su8, Su16, Su32, Su64, Su128};

verus! {

impl From<i8> for Si16 {
    fn from(value: i8) -> (r: Si16)
        ensures
            r@ == value as int,
    {
        Si16::new(value as i16)
    }
}

impl FromSpecImpl<i8> for Si16 {
    open spec fn obeys_from_spec() -> bool {
        true
    }

    open spec fn from_spec(v: i8) -> Si16 {
        Si16::new(v as i16)
    }
}

impl From<u8> for Si16 {
    fn from(value: u8) -> (r: Si16)
        ensures
            r@ == value as int,
    {
        Si16::new(value as i16)
    }
}

impl FromSpecImpl<u8> for Si16 {
    open spec fn obeys_from_spec() -> bool {
        true
    }

    open spec fn from_spec(v: u8) -> Si16 {
        Si16::new(v as i16)
    }
}

impl From<i8> for Si32 {
    fn from(value: i8) -> (r: Si32)
        ensures
            r@ == value as int,
    {
        Si32::new(value as i32)
    }
}

impl FromSpecImpl<i8> for Si32 {
    open spec fn obeys_from_spec() -> bool {
        true
    }

    open spec fn from_spec(v: i8) -> Si32 {
        Si32::new(v as i32)
    }
}

impl From<i16> for Si32 {
    fn from(value: i16) -> (r: Si32)
        ensures
            r@ == value as int,
    {
        Si32::new(value as i32)
    }
}

impl FromSpecImpl<i16> for Si32 {
    open spec fn obeys_from_spec() -> bool {
        true
    }

    open spec fn from_spec(v: i16) -> Si32 {
        Si32::new(v as i32)
    }
}

impl From<u8> for Si32 {
    fn from(value: u8) -> (r: Si32)
        ensures
            r@ == value as int,
    {
        Si32::new(value as i32)
    }
}

impl FromSpecImpl<u8> for Si32 {
    open spec fn obeys_from_spec() -> bool {
        true
    }

    open spec fn from_spec(v: u8) -> Si32 {
        Si32::new(v as i32)
    }
}

impl From<u16> for Si32 {
    fn from(value: u16) -> (r: Si32)
        ensures
            r@ == value as int,
    {
        Si32::new(value as i32)
    }
}

impl FromSpecImpl<u16> for Si32 {
    open spec fn obeys_from_spec() -> bool {
        true
    }

    open spec fn from_spec(v: u16) -> Si32 {
        Si32::new(v as i32)
    }
}

impl From<i8> for Si64 {
    fn from(value: i8) -> (r: Si64)
        ensures
            r@ == value as int,
    {
        Si64::new(value as i64)
    }
}

impl FromSpecImpl<i8> for Si64 {
    open spec fn obeys_from_spec() -> bool {
        true
    }

    open spec fn from_spec(v: i8) -> Si64 {
        Si64::new(v as i64)
    }
}

impl From<i16> for Si64 {
    fn from(value: i16) -> (r: Si64)
        ensures
            r@ == value as int,
    {
        Si64::new(value as i64)
    }
}

impl FromSpecImpl<i16> for Si64 {
    open spec fn obeys_from_spec() -> bool {
        true
    }

    open spec fn from_spec(v: i16) -> Si64 {
        Si64::new(v as i64)
    }
}

impl From<i32> for Si64 {
    fn from(value: i32) -> (r: Si64)
        ensures
            r@ == value as int,
    {
        Si64::new(value as i64)
    }
}

impl FromSpecImpl<i32> for Si64 {
    open spec fn obeys_from_spec() -> bool {
        true
    }

    open spec fn from_spec(v: i32) -> Si64 {
        Si64::new(v as i64)
    }
}

impl From<u8> for Si64 {
    fn from(value: u8) -> (r: Si64)
        ensures
            r@ == value as int,
    {
        Si64::new(value as i64)
    }
}

impl FromSpecImpl<u8> for Si64 {
    open spec fn obeys_from_spec() -> bool {
        true
    }

    open spec fn from_spec(v: u8) -> Si64 {
        Si64::new(v as i64)
    }
}

impl From<u16> for Si64 {
    fn from(value: u16) -> (r: Si64)
        ensures
            r@ == value as int,
    {
        Si64::new(value as i64)
    }
}

impl FromSpecImpl<u16> for Si64 {
    open spec fn obeys_from_spec() -> bool {
        true
    }

    open spec fn from_spec(v: u16) -> Si64 {
        Si64::new(v as i64)
    }
}

impl From<u32> for Si64 {
    fn from(value: u32) -> (r: Si64)
        ensures
            r@ == value as int,
    {
        Si64::new(value as i64)
    }
}

impl FromSpecImpl<u32> for Si64 {
    open spec fn obeys_from_spec() -> bool {
        true
    }

    open spec fn from_spec(v: u32) -> Si64 {
        Si64::new(v as i64)
    }
}

impl From<i8> for Si128 {
    fn from(value: i8) -> (r: Si128)
        ensures
            r@ == value as int,
    {
        Si128::new(value as i128)
    }
}

impl FromSpecImpl<i8> for Si128 {
    open spec fn obeys_from_spec() -> bool {
        true
    }

    open spec fn from_spec(v: i8) -> Si128 {
        Si128::new(v as i128)
    }
}

impl From<i16> for Si128 {
    fn from(value: i16) -> (r: Si128)
        ensures
            r@ == value as int,
    {
        Si128::new(value as i128)
    }
}

impl FromSpecImpl<i16> for Si128 {
    open spec fn obeys_from_spec() -> bool {
        true
    }

    open spec fn from_spec(v: i16) -> Si128 {
        Si128::new(v as i128)
    }
}

impl From<i32> for Si128 {
    fn from(value: i32) -> (r: Si128)
        ensures
            r@ == value as int,
    {
        Si128::new(value as i128)
    }
}

impl FromSpecImpl<i32> for Si128 {
    open spec fn obeys_from_spec() -> bool {
        true
    }

    open spec fn from_spec(v: i32) -> Si128 {
        Si128::new(v as i128)
    }
}

impl From<i64> for Si128 {
    fn from(value: i64) -> (r: Si128)
        ensures
            r@ == value as int,
    {
        Si128::new(value as i128)
    }
}

impl FromSpecImpl<i64> for Si128 {
    open spec fn obeys_from_spec() -> bool {
        true
    }

    open spec fn from_spec(v: i64) -> Si128 {
        Si128::new(v as i128)
    }
}

impl From<u8> for Si128 {
    fn from(value: u8) -> (r: Si128)
        ensures
            r@ == value as int,
    {
        Si128::new(value as i128)
    }
}

impl FromSpecImpl<u8> for Si128 {
    open spec fn obeys_from_spec() -> bool {
        true
    }

    open spec fn from_spec(v: u8) -> Si128 {
        Si128::new(v as i128)
    }
}

impl From<u16> for Si128 {
    fn from(value: u16) -> (r: Si128)
        ensures
            r@ == value as int,
    {
        Si128::new(value as i128)
    }
}

impl FromSpecImpl<u16> for Si128 {
    open spec fn obeys_from_spec() -> bool {
        true
    }

    open spec fn from_spec(v: u16) -> Si128 {
        Si128::new(v as i128)
    }
}

impl From<u32> for Si128 {
    fn from(value: u32) -> (r: Si128)
        ensures
            r@ == value as int,
    {
        Si128::new(value as i128)
    }
}

impl FromSpecImpl<u32> for Si128 {
    open spec fn obeys_from_spec() -> bool {
        true
    }

    open spec fn from_spec(v: u32) -> Si128 {
        Si128::new(v as i128)
    }
}

impl From<u64> for Si128 {
    fn from(value: u64) -> (r: Si128)
        ensures
            r@ == value as int,
    {
        Si128::new(value as i128)
    }
}

impl FromSpecImpl<u64> for Si128 {
    open spec fn obeys_from_spec() -> bool {
        true
    }

    open spec fn from_spec(v: u64) -> Si128 {
        Si128::new(v as i128)
    }
}

impl From<u8> for Su16 {
    fn from(value: u8) -> (r: Su16)
        ensures
            r@ == value as int,
    {
        Su16::new(value as u16)
    }
}

impl FromSpecImpl<u8> for Su16 {
    open spec fn obeys_from_spec() -> bool {
        true
    }

    open spec fn from_spec(v: u8) -> Su16 {
        Su16::new(v as u16)
    }
}

impl From<u8> for Su32 {
    fn from(value: u8) -> (r: Su32)
        ensures
            r@ == value as int,
    {
        Su32::new(value as u32)
    }
}

impl FromSpecImpl<u8> for Su32 {
    open spec fn obeys_from_spec() -> bool {
        true
    }

    open spec fn from_spec(v: u8) -> Su32 {
        Su32::new(v as u32)
    }
}

impl From<u16> for Su32 {
    fn from(value: u16) -> (r: Su32)
        ensures
            r@ == value as int,
    {
        Su32::new(value as u32)
    }
}

impl FromSpecImpl<u16> for Su32 {
    open spec fn obeys_from_spec() -> bool {
        true
    }

    open spec fn from_spec(v: u16) -> Su32 {
        Su32::new(v as u32)
    }
}

impl From<u8> for Su64 {
    fn from(value: u8) -> (r: Su64)
        ensures
            r@ == value as int,
    {
        Su64::new(value as u64)
    }
}

impl FromSpecImpl<u8> for Su64 {
    open spec fn obeys_from_spec() -> bool {
        true
    }

    open spec fn from_spec(v: u8) -> Su64 {
        Su64::new(v as u64)
    }
}

impl From<u16> for Su64 {
    fn from(value: u16) -> (r: Su64)
        ensures
            r@ == value as int,
    {
        Su64::new(value as u64)
    }
}

impl FromSpecImpl<u16> for Su64 {
    open spec fn obeys_from_spec() -> bool {
        true
    }

    open spec fn from_spec(v: u16) -> Su64 {
        Su64::new(v as u64)
    }
}

impl From<u32> for Su64 {
    fn from(value: u32) -> (r: Su64)
        ensures
            r@ == value as int,
    {
        Su64::new(value as u64)
    }
}

impl FromSpecImpl<u32> for Su64 {
    open spec fn obeys_from_spec() -> bool {
        true
    }

    open spec fn from_spec(v: u32) -> Su64 {
        Su64::new(v as u64)
    }
}

impl From<u8> for Su128 {
    fn from(value: u8) -> (r: Su128)
        ensures
            r@ == value as int,
    {
        Su128::new(value as u128)
    }
}

impl FromSpecImpl<u8> for Su128 {
    open spec fn obeys_from_spec() -> bool {
        true
    }

    open spec fn from_spec(v: u8) -> Su128 {
        Su128::new(v as u128)
    }
}

impl From<u16> for Su128 {
    fn from(value: u16) -> (r: Su128)
        ensures
            r@ == value as int,
    {
        Su128::new(value as u128)
    }
}

impl FromSpecImpl<u16> for Su128 {
    open spec fn obeys_from_spec() -> bool {
        true
    }

    open spec fn from_spec(v: u16) -> Su128 {
        Su128::new(v as u128)
    }
}

impl From<u32> for Su128 {
    fn from(value: u32) -> (r: Su128)
        ensures
            r@ == value as int,
    {
        Su128::new(value as u128)
    }
}

impl FromSpecImpl<u32> for Su128 {
    open spec fn obeys_from_spec() -> bool {
        true
    }

    open spec fn from_spec(v: u32) -> Su128 {
        Su128::new(v as u128)
    }
}

impl From<u64> for Su128 {
    fn from(value: u64) -> (r: Su128)
        ensures
            r@ == value as int,
    {
        Su128::new(value as u128)
    }
}

impl FromSpecImpl<u64> for Su128 {
    open spec fn obeys_from_spec() -> bool {
        true
    }

    open spec fn from_spec(v: u64) -> Su128 {
        Su128::new(v as u128)
    }
}

impl From<Si8> for i16 {
    fn from(value: Si8) -> (r: i16)
        ensures
            r == value@,
    {
        value.into_inner() as i16
    }
}

impl FromSpecImpl<Si8> for i16 {
    open spec fn obeys_from_spec() -> bool {
        true
    }

    open spec fn from_spec(v: Si8) -> i16 {
        v.into_inner() as i16
    }
}

impl From<Si8> for i32 {
    fn from(value: Si8) -> (r: i32)
        ensures
            r == value@,
    {
        value.into_inner() as i32
    }
}

impl FromSpecImpl<Si8> for i32 {
    open spec fn obeys_from_spec() -> bool {
        true
    }

    open spec fn from_spec(v: Si8) -> i32 {
        v.into_inner() as i32
    }
}

impl From<Si8> for i64 {
    fn from(value: Si8) -> (r: i64)
        ensures
            r == value@,
    {
        value.into_inner() as i64
    }
}

impl FromSpecImpl<Si8> for i64 {
    open spec fn obeys_from_spec() -> bool {
        true
    }

    open spec fn from_spec(v: Si8) -> i64 {
        v.into_inner() as i64
    }
}

impl From<Si8> for i128 {
    fn from(value: Si8) -> (r: i128)
        ensures
            r == value@,
    {
        value.into_inner() as i128
    }
}

impl FromSpecImpl<Si8> for i128 {
    open spec fn obeys_from_spec() -> bool {
        true
    }

    open spec fn from_spec(v: Si8) -> i128 {
        v.into_inner() as i128
    }
}

impl From<Si8> for isize {
    fn from(value: Si8) -> (r: isize)
        ensures
            r == value@,
    {
        value.into_inner() as isize
    }
}

impl FromSpecImpl<Si8> for isize {
    open spec fn obeys_from_spec() -> bool {
        true
    }

    open spec fn from_spec(v: Si8) -> isize {
        v.into_inner() as isize
    }
}

impl From<Si16> for i32 {
    fn from(value: Si16) -> (r: i32)
        ensures
            r == value@,
    {
        value.into_inner() as i32
    }
}

impl FromSpecImpl<Si16> for i32 {
    open spec fn obeys_from_spec() -> bool {
        true
    }

    open spec fn from_spec(v: Si16) -> i32 {
        v.into_inner() as i32
    }
}

impl From<Si16> for i64 {
    fn from(value: Si16) -> (r: i64)
        ensures
            r == value@,
    {
        value.into_inner() as i64
    }
}

impl FromSpecImpl<Si16> for i64 {
    open spec fn obeys_from_spec() -> bool {
        true
    }

    open spec fn from_spec(v: Si16) -> i64 {
        v.into_inner() as i64
    }
}

impl From<Si16> for i128 {
    fn from(value: Si16) -> (r: i128)
        ensures
            r == value@,
    {
        value.into_inner() as i128
    }
}

impl FromSpecImpl<Si16> for i128 {
    open spec fn obeys_from_spec() -> bool {
        true
    }

    open spec fn from_spec(v: Si16) -> i128 {
        v.into_inner() as i128
    }
}

impl From<Si16> for isize {
    fn from(value: Si16) -> (r: isize)
        ensures
            r == value@,
    {
        value.into_inner() as isize
    }
}

impl FromSpecImpl<Si16> for isize {
    open spec fn obeys_from_spec() -> bool {
        true
    }

    open spec fn from_spec(v: Si16) -> isize {
        v.into_inner() as isize
    }
}

impl From<Si32> for i64 {
    fn from(value: Si32) -> (r: i64)
        ensures
            r == value@,
    {
        value.into_inner() as i64
    }
}

impl FromSpecImpl<Si32> for i64 {
    open spec fn obeys_from_spec() -> bool {
        true
    }

    open spec fn from_spec(v: Si32) -> i64 {
        v.into_inner() as i64
    }
}

impl From<Si32> for i128 {
    fn from(value: Si32) -> (r: i128)
        ensures
            r == value@,
    {
        value.into_inner() as i128
    }
}

impl FromSpecImpl<Si32> for i128 {
    open spec fn obeys_from_spec() -> bool {
        true
    }

    open spec fn from_spec(v: Si32) -> i128 {
        v.into_inner() as i128
    }
}

impl From<Si64> for i128 {
    fn from(value: Si64) -> (r: i128)
        ensures
            r == value@,
    {
        value.into_inner() as i128
    }
}

impl FromSpecImpl<Si64> for i128 {
    open spec fn obeys_from_spec() -> bool {
        true
    }

    open spec fn from_spec(v: Si64) -> i128 {
        v.into_inner() as i128
    }
}

impl From<Su8> for u16 {
    fn from(value: Su8) -> (r: u16)
        ensures
            r == value@,
    {
        value.into_inner() as u16
    }
}

impl FromSpecImpl<Su8> for u16 {
    open spec fn obeys_from_spec() -> bool {
        true
    }

    open spec fn from_spec(v: Su8) -> u16 {
        v.into_inner() as u16
    }
}

impl From<Su8> for u32 {
    fn from(value: Su8) -> (r: u32)
        ensures
            r == value@,
    {
        value.into_inner() as u32
    }
}

impl FromSpecImpl<Su8> for u32 {
    open spec fn obeys_from_spec() -> bool {
        true
    }

    open spec fn from_spec(v: Su8) -> u32 {
        v.into_inner() as u32
    }
}

impl From<Su8> for u64 {
    fn from(value: Su8) -> (r: u64)
        ensures
            r == value@,
    {
        value.into_inner() as u64
    }
}

impl FromSpecImpl<Su8> for u64 {
    open spec fn obeys_from_spec() -> bool {
        true
    }

    open spec fn from_spec(v: Su8) -> u64 {
        v.into_inner() as u64
    }
}

impl From<Su8> for u128 {
    fn from(value: Su8) -> (r: u128)
        ensures
            r == value@,
    {
        value.into_inner() as u128
    }
}

impl FromSpecImpl<Su8> for u128 {
    open spec fn obeys_from_spec() -> bool {
        true
    }

    open spec fn from_spec(v: Su8) -> u128 {
        v.into_inner() as u128
    }
}

impl From<Su8> for usize {
    fn from(value: Su8) -> (r: usize)
        ensures
            r == value@,
    {
        value.into_inner() as usize
    }
}

impl FromSpecImpl<Su8> for usize {
    open spec fn obeys_from_spec() -> bool {
        true
    }

    open spec fn from_spec(v: Su8) -> usize {
        v.into_inner() as usize
    }
}

impl From<Su8> for isize {
    fn from(value: Su8) -> (r: isize)
        ensures
            r == value@,
    {
        value.into_inner() as isize
    }
}

impl FromSpecImpl<Su8> for isize {
    open spec fn obeys_from_spec() -> bool {
        true
    }

    open spec fn from_spec(v: Su8) -> isize {
        v.into_inner() as isize
    }
}

impl From<Su16> for u32 {
    fn from(value: Su16) -> (r: u32)
        ensures
            r == value@,
    {
        value.into_inner() as u32
    }
}

impl FromSpecImpl<Su16> for u32 {
    open spec fn obeys_from_spec() -> bool {
        true
    }

    open spec fn from_spec(v: Su16) -> u32 {
        v.into_inner() as u32
    }
}

impl From<Su16> for u64 {
    fn from(value: Su16) -> (r: u64)
        ensures
            r == value@,
    {
        value.into_inner() as u64
    }
}

impl FromSpecImpl<Su16> for u64 {
    open spec fn obeys_from_spec() -> bool {
        true
    }

    open spec fn from_spec(v: Su16) -> u64 {
        v.into_inner() as u64
    }
}

impl From<Su16> for u128 {
    fn from(value: Su16) -> (r: u128)
        ensures
            r == value@,
    {
        value.into_inner() as u128
    }
}

impl FromSpecImpl<Su16> for u128 {
    open spec fn obeys_from_spec() -> bool {
        true
    }

    open spec fn from_spec(v: Su16) -> u128 {
        v.into_inner() as u128
    }
}

impl From<Su16> for usize {
    fn from(value: Su16) -> (r: usize)
        ensures
            r == value@,
    {
        value.into_inner() as usize
    }
}

impl FromSpecImpl<Su16> for usize {
    open spec fn obeys_from_spec() -> bool {
        true
    }

    open spec fn from_spec(v: Su16) -> usize {
        v.into_inner() as usize
    }
}

impl From<Su32> for u64 {
    fn from(value: Su32) -> (r: u64)
        ensures
            r == value@,
    {
        value.into_inner() as u64
    }
}

impl FromSpecImpl<Su32> for u64 {
    open spec fn obeys_from_spec() -> bool {
        true
    }

    open spec fn from_spec(v: Su32) -> u64 {
        v.into_inner() as u64
    }
}

impl From<Su32> for u128 {
    fn from(value: Su32) -> (r: u128)
        ensures
            r == value@,
    {
        value.into_inner() as u128
    }
}

impl FromSpecImpl<Su32> for u128 {
    open spec fn obeys_from_spec() -> bool {
        true
    }

    open spec fn from_spec(v: Su32) -> u128 {
        v.into_inner() as u128
    }
}

impl From<Su64> for u128 {
    fn from(value: Su64) -> (r: u128)
        ensures
            r == value@,
    {
        value.into_inner() as u128
    }
}

impl FromSpecImpl<Su64> for u128 {
    open spec fn obeys_from_spec() -> bool {
        true
    }

    open spec fn from_spec(v: Su64) -> u128 {
        v.into_inner() as u128
    }
}

impl From<Si8> for Si16 {
    fn from(value: Si8) -> (r: Si16)
        ensures
            r@ == value@,
    {
        Si16::new(value.into_inner() as i16)
    }
}

impl FromSpecImpl<Si8> for Si16 {
    open spec fn obeys_from_spec() -> bool {
        true
    }

    open spec fn from_spec(v: Si8) -> Si16 {
        Si16::new(v.into_inner() as i16)
    }
}

impl From<Si8> for Si32 {
    fn from(value: Si8) -> (r: Si32)
        ensures
            r@ == value@,
    {
        Si32::new(value.into_inner() as i32)
    }
}

impl FromSpecImpl<Si8> for Si32 {
    open spec fn obeys_from_spec() -> bool {
        true
    }

    open spec fn from_spec(v: Si8) -> Si32 {
        Si32::new(v.into_inner() as i32)
    }
}

impl From<Si16> for Si32 {
    fn from(value: Si16) -> (r: Si32)
        ensures
            r@ == value@,
    {
        Si32::new(value.into_inner() as i32)
    }
}

impl FromSpecImpl<Si16> for Si32 {
    open spec fn obeys_from_spec() -> bool {
        true
    }

    open spec fn from_spec(v: Si16) -> Si32 {
        Si32::new(v.into_inner() as i32)
    }
}

impl From<Si8> for Si64 {
    fn from(value: Si8) -> (r: Si64)
        ensures
            r@ == value@,
    {
        Si64::new(value.into_inner() as i64)
    }
}

impl FromSpecImpl<Si8> for Si64 {
    open spec fn obeys_from_spec() -> bool {
        true
    }

    open spec fn from_spec(v: Si8) -> Si64 {
        Si64::new(v.into_inner() as i64)
    }
}

impl From<Si16> for Si64 {
    fn from(value: Si16) -> (r: Si64)
        ensures
            r@ == value@,
    {
        Si64::new(value.into_inner() as i64)
    }
}

impl FromSpecImpl<Si16> for Si64 {
    open spec fn obeys_from_spec() -> bool {
        true
    }

    open spec fn from_spec(v: Si16) -> Si64 {
        Si64::new(v.into_inner() as i64)
    }
}

impl From<Si32> for Si64 {
    fn from(value: Si32) -> (r: Si64)
        ensures
            r@ == value@,
    {
        Si64::new(value.into_inner() as i64)
    }
}

impl FromSpecImpl<Si32> for Si64 {
    open spec fn obeys_from_spec() -> bool {
        true
    }

    open spec fn from_spec(v: Si32) -> Si64 {
        Si64::new(v.into_inner() as i64)
    }
}

impl From<Si8> for Si128 {
    fn from(value: Si8) -> (r: Si128)
        ensures
            r@ == value@,
    {
        Si128::new(value.into_inner() as i128)
    }
}

impl FromSpecImpl<Si8> for Si128 {
    open spec fn obeys_from_spec() -> bool {
        true
    }

    open spec fn from_spec(v: Si8) -> Si128 {
        Si128::new(v.into_inner() as i128)
    }
}

impl From<Si16> for Si128 {
    fn from(value: Si16) -> (r: Si128)
        ensures
            r@ == value@,
    {
        Si128::new(value.into_inner() as i128)
    }
}

impl FromSpecImpl<Si16> for Si128 {
    open spec fn obeys_from_spec() -> bool {
        true
    }

    open spec fn from_spec(v: Si16) -> Si128 {
        Si128::new(v.into_inner() as i128)
    }
}

impl From<Si32> for Si128 {
    fn from(value: Si32) -> (r: Si128)
        ensures
            r@ == value@,
    {
        Si128::new(value.into_inner() as i128)
    }
}

impl FromSpecImpl<Si32> for Si128 {
    open spec fn obeys_from_spec() -> bool {
        true
    }

    open spec fn from_spec(v: Si32) -> Si128 {
        Si128::new(v.into_inner() as i128)
    }
}

impl From<Si64> for Si128 {
    fn from(value: Si64) -> (r: Si128)
        ensures
            r@ == value@,
    {
        Si128::new(value.into_inner() as i128)
    }
}

impl FromSpecImpl<Si64> for Si128 {
    open spec fn obeys_from_spec() -> bool {
        true
    }

    open spec fn from_spec(v: Si64) -> Si128 {
        Si128::new(v.into_inner() as i128)
    }
}

impl From<Su8> for Su16 {
    fn from(value: Su8) -> (r: Su16)
        ensures
            r@ == value@,
    {
        Su16::new(value.into_inner() as u16)
    }
}

impl FromSpecImpl<Su8> for Su16 {
    open spec fn obeys_from_spec() -> bool {
        true
    }

    open spec fn from_spec(v: Su8) -> Su16 {
        Su16::new(v.into_inner() as u16)
    }
}

impl From<Su8> for Su32 {
    fn from(value: Su8) -> (r: Su32)
        ensures
            r@ == value@,
    {
        Su32::new(value.into_inner() as u32)
    }
}

impl FromSpecImpl<Su8> for Su32 {
    open spec fn obeys_from_spec() -> bool {
        true
    }

    open spec fn from_spec(v: Su8) -> Su32 {
        Su32::new(v.into_inner() as u32)
    }
}

impl From<Su16> for Su32 {
    fn from(value: Su16) -> (r: Su32)
        ensures
            r@ == value@,
    {
        Su32::new(value.into_inner() as u32)
    }
}

impl FromSpecImpl<Su16> for Su32 {
    open spec fn obeys_from_spec() -> bool {
        true
    }

    open spec fn from_spec(v: Su16) -> Su32 {
        Su32::new(v.into_inner() as u32)
    }
}

impl From<Su8> for Su64 {
    fn from(value: Su8) -> (r: Su64)
        ensures
            r@ == value@,
    {
        Su64::new(value.into_inner() as u64)
    }
}

impl FromSpecImpl<Su8> for Su64 {
    open spec fn obeys_from_spec() -> bool {
        true
    }

    open spec fn from_spec(v: Su8) -> Su64 {
        Su64::new(v.into_inner() as u64)
    }
}

impl From<Su16> for Su64 {
    fn from(value: Su16) -> (r: Su64)
        ensures
            r@ == value@,
    {
        Su64::new(value.into_inner() as u64)
    }
}

impl FromSpecImpl<Su16> for Su64 {
    open spec fn obeys_from_spec() -> bool {
        true
    }

    open spec fn from_spec(v: Su16) -> Su64 {
        Su64::new(v.into_inner() as u64)
    }
}

impl From<Su32> for Su64 {
    fn from(value: Su32) -> (r: Su64)
        ensures
            r@ == value@,
    {
        Su64::new(value.into_inner() as u64)
    }
}

impl FromSpecImpl<Su32> for Su64 {
    open spec fn obeys_from_spec() -> bool {
        true
    }

    open spec fn from_spec(v: Su32) -> Su64 {
        Su64::new(v.into_inner() as u64)
    }
}

impl From<Su8> for Su128 {
    fn from(value: Su8) -> (r: Su128)
        ensures
            r@ == value@,
    {
        Su128::new(value.into_inner() as u128)
    }
}

impl FromSpecImpl<Su8> for Su128 {
    open spec fn obeys_from_spec() -> bool {
        true
    }

    open spec fn from_spec(v: Su8) -> Su128 {
        Su128::new(v.into_inner() as u128)
    }
}

impl From<Su16> for Su128 {
    fn from(value: Su16) -> (r: Su128)
        ensures
            r@ == value@,
    {
        Su128::new(value.into_inner() as u128)
    }
}

impl FromSpecImpl<Su16> for Su128 {
    open spec fn obeys_from_spec() -> bool {
        true
    }

    open spec fn from_spec(v: Su16) -> Su128 {
        Su128::new(v.into_inner() as u128)
    }
}

impl From<Su32> for Su128 {
    fn from(value: Su32) -> (r: Su128)
        ensures
            r@ == value@,
    {
        Su128::new(value.into_inner() as u128)
    }
}

impl FromSpecImpl<Su32> for Su128 {
    open spec fn obeys_from_spec() -> bool {
        true
    }

    open spec fn from_spec(v: Su32) -> Su128 {
        Su128::new(v.into_inner() as u128)
    }
}

impl From<Su64> for Su128 {
    fn from(value: Su64) -> (r: Su128)
        ensures
            r@ == value@,
    {
        Su128::new(value.into_inner() as u128)
    }
}

impl FromSpecImpl<Su64> for Su128 {
    open spec fn obeys_from_spec() -> bool {
        true
    }

    open spec fn from_spec(v: Su64) -> Su128 {
        Su128::new(v.into_inner() as u128)
    }
}

impl From<Su8> for Si16 {
    fn from(value: Su8) -> (r: Si16)
        ensures
            r@ == value@,
    {
        Si16::new(value.into_inner() as i16)
    }
}

impl FromSpecImpl<Su8> for Si16 {
    open spec fn obeys_from_spec() -> bool {
        true
    }

    open spec fn from_spec(v: Su8) -> Si16 {
        Si16::new(v.into_inner() as i16)
    }
}

impl From<Su8> for Si32 {
    fn from(value: Su8) -> (r: Si32)
        ensures
            r@ == value@,
    {
        Si32::new(value.into_inner() as i32)
    }
}

impl FromSpecImpl<Su8> for Si32 {
    open spec fn obeys_from_spec() -> bool {
        true
    }

    open spec fn from_spec(v: Su8) -> Si32 {
        Si32::new(v.into_inner() as i32)
    }
}

impl From<Su8> for Si64 {
    fn from(value: Su8) -> (r: Si64)
        ensures
            r@ == value@,
    {
        Si64::new(value.into_inner() as i64)
    }
}

impl FromSpecImpl<Su8> for Si64 {
    open spec fn obeys_from_spec() -> bool {
        true
    }

    open spec fn from_spec(v: Su8) -> Si64 {
        Si64::new(v.into_inner() as i64)
    }
}

impl From<Su8> for Si128 {
    fn from(value: Su8) -> (r: Si128)
        ensures
            r@ == value@,
    {
        Si128::new(value.into_inner() as i128)
    }
}

impl FromSpecImpl<Su8> for Si128 {
    open spec fn obeys_from_spec() -> bool {
        true
    }

    open spec fn from_spec(v: Su8) -> Si128 {
        Si128::new(v.into_inner() as i128)
    }
}

impl From<Su16> for Si32 {
    fn from(value: Su16) -> (r: Si32)
        ensures
            r@ == value@,
    {
        Si32::new(value.into_inner() as i32)
    }
}

impl FromSpecImpl<Su16> for Si32 {
    open spec fn obeys_from_spec() -> bool {
        true
    }

    open spec fn from_spec(v: Su16) -> Si32 {
        Si32::new(v.into_inner() as i32)
    }
}

impl From<Su16> for Si64 {
    fn from(value: Su16) -> (r: Si64)
        ensures
            r@ == value@,
    {
        Si64::new(value.into_inner() as i64)
    }
}

impl FromSpecImpl<Su16> for Si64 {
    open spec fn obeys_from_spec() -> bool {
        true
    }

    open spec fn from_spec(v: Su16) -> Si64 {
        Si64::new(v.into_inner() as i64)
    }
}

impl From<Su16> for Si128 {
    fn from(value: Su16) -> (r: Si128)
        ensures
            r@ == value@,
    {
        Si128::new(value.into_inner() as i128)
    }
}

impl FromSpecImpl<Su16> for Si128 {
    open spec fn obeys_from_spec() -> bool {
        true
    }

    open spec fn from_spec(v: Su16) -> Si128 {
        Si128::new(v.into_inner() as i128)
    }
}

impl From<Su32> for Si64 {
    fn from(value: Su32) -> (r: Si64)
        ensures
            r@ == value@,
    {
        Si64::new(value.into_inner() as i64)
    }
}

impl FromSpecImpl<Su32> for Si64 {
    open spec fn obeys_from_spec() -> bool {
        true
    }

    open spec fn from_spec(v: Su32) -> Si64 {
        Si64::new(v.into_inner() as i64)
    }
}

impl From<Su32> for Si128 {
    fn from(value: Su32) -> (r: Si128)
        ensures
            r@ == value@,
    {
        Si128::new(value.into_inner() as i128)
    }
}

impl FromSpecImpl<Su32> for Si128 {
    open spec fn obeys_from_spec() -> bool {
        true
    }

    open spec fn from_spec(v: Su32) -> Si128 {
        Si128::new(v.into_inner() as i128)
    }
}

impl From<Su64> for Si128 {
    fn from(value: Su64) -> (r: Si128)
        ensures
            r@ == value@,
    {
        Si128::new(value.into_inner() as i128)
    }
}

impl FromSpecImpl<Su64> for Si128 {
    open spec fn obeys_from_spec() -> bool {
        true
    }

    open spec fn from_spec(v: Su64) -> Si128 {
        Si128::new(v.into_inner() as i128)
    }
}

} // verus!
