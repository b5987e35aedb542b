//! What the byte-order conversions of each fixed-width wrapper do, on whatever
//! machine runs them: how the values they give are held in memory, and which of
//! them undo each other.
use vstd::prelude::*;
use crate::bits::{be_bytes, le_bytes, native_bytes};
use crate::laws::{lemma_bytes_round_trip, lemma_swap_bytes_twice, lemma_swapped_value_bytes,
    lemma_value_bytes_round_trip};
use crate::math::pattern_of;
use crate::si::{Si8, Si16, Si32, Si64, Si128};
use crate::su::{Su8, Su16, Su32, Su64, Su128};

verus! {

/// For [`Si8`]: the value that `to_be` gives is held in memory (in the order of the
/// machine that runs the code) as the big-endian bytes of its argument, and the one
/// that `to_le` gives as its little-endian bytes; `from_be` and `from_le` give the
/// value whose big-endian, or little-endian, bytes are what the argument holds in
/// memory, so each undoes its counterpart; `to_ne_bytes` gives the bytes in memory
/// order, and `from_ne_bytes` reads them back.
pub proof fn lemma_si8_byte_order(x: Si8, bytes: [u8; 1])
    ensures
        forall|r: Si8| #[trigger] call_ensures(Si8::to_be, (x,), r) ==> native_bytes(r@, 8, 1) == be_bytes(pattern_of(x@, 8), 1),
        forall|r: Si8| #[trigger] call_ensures(Si8::to_le, (x,), r) ==> native_bytes(r@, 8, 1) == le_bytes(pattern_of(x@, 8), 1),
        forall|r: Si8| #[trigger] call_ensures(Si8::from_be, (x,), r) ==> be_bytes(pattern_of(r@, 8), 1) == native_bytes(x@, 8, 1),
        forall|r: Si8| #[trigger] call_ensures(Si8::from_le, (x,), r) ==> le_bytes(pattern_of(r@, 8), 1) == native_bytes(x@, 8, 1),
        forall|r: [u8; 1]| #[trigger] call_ensures(Si8::to_ne_bytes, (x,), r) ==> r@ == native_bytes(x@, 8, 1),
        forall|r: Si8| #[trigger] call_ensures(Si8::from_ne_bytes, (bytes,), r) ==> native_bytes(r@, 8, 1) == bytes@,
        forall|a: Si8, b: Si8|
            #[trigger] call_ensures(Si8::to_be, (x,), a) && #[trigger] call_ensures(Si8::from_be, (a,), b) ==> b@ == x@,
        forall|a: Si8, b: Si8|
            #[trigger] call_ensures(Si8::to_le, (x,), a) && #[trigger] call_ensures(Si8::from_le, (a,), b) ==> b@ == x@,
        forall|a: [u8; 1], b: Si8|
            #[trigger] call_ensures(Si8::to_ne_bytes, (x,), a) && #[trigger] call_ensures(Si8::from_ne_bytes, (a,), b)
                ==> b@ == x@,
{
    lemma_swapped_value_bytes(x);
    lemma_swap_bytes_twice(x);
    lemma_bytes_round_trip(x);
    lemma_value_bytes_round_trip::<Si8>(bytes@);
}

/// For [`Si16`]: the value that `to_be` gives is held in memory (in the order of the
/// machine that runs the code) as the big-endian bytes of its argument, and the one
/// that `to_le` gives as its little-endian bytes; `from_be` and `from_le` give the
/// value whose big-endian, or little-endian, bytes are what the argument holds in
/// memory, so each undoes its counterpart; `to_ne_bytes` gives the bytes in memory
/// order, and `from_ne_bytes` reads them back.
pub proof fn lemma_si16_byte_order(x: Si16, bytes: [u8; 2])
    ensures
        forall|r: Si16| #[trigger] call_ensures(Si16::to_be, (x,), r) ==> native_bytes(r@, 16, 2) == be_bytes(pattern_of(x@, 16), 2),
        forall|r: Si16| #[trigger] call_ensures(Si16::to_le, (x,), r) ==> native_bytes(r@, 16, 2) == le_bytes(pattern_of(x@, 16), 2),
        forall|r: Si16| #[trigger] call_ensures(Si16::from_be, (x,), r) ==> be_bytes(pattern_of(r@, 16), 2) == native_bytes(x@, 16, 2),
        forall|r: Si16| #[trigger] call_ensures(Si16::from_le, (x,), r) ==> le_bytes(pattern_of(r@, 16), 2) == native_bytes(x@, 16, 2),
        forall|r: [u8; 2]| #[trigger] call_ensures(Si16::to_ne_bytes, (x,), r) ==> r@ == native_bytes(x@, 16, 2),
        forall|r: Si16| #[trigger] call_ensures(Si16::from_ne_bytes, (bytes,), r) ==> native_bytes(r@, 16, 2) == bytes@,
        forall|a: Si16, b: Si16|
            #[trigger] call_ensures(Si16::to_be, (x,), a) && #[trigger] call_ensures(Si16::from_be, (a,), b) ==> b@ == x@,
        forall|a: Si16, b: Si16|
            #[trigger] call_ensures(Si16::to_le, (x,), a) && #[trigger] call_ensures(Si16::from_le, (a,), b) ==> b@ == x@,
        forall|a: [u8; 2], b: Si16|
            #[trigger] call_ensures(Si16::to_ne_bytes, (x,), a) && #[trigger] call_ensures(Si16::from_ne_bytes, (a,), b)
                ==> b@ == x@,
{
    lemma_swapped_value_bytes(x);
    lemma_swap_bytes_twice(x);
    lemma_bytes_round_trip(x);
    lemma_value_bytes_round_trip::<Si16>(bytes@);
}

/// For [`Si32`]: the value that `to_be` gives is held in memory (in the order of the
/// machine that runs the code) as the big-endian bytes of its argument, and the one
/// that `to_le` gives as its little-endian bytes; `from_be` and `from_le` give the
/// value whose big-endian, or little-endian, bytes are what the argument holds in
/// memory, so each undoes its counterpart; `to_ne_bytes` gives the bytes in memory
/// order, and `from_ne_bytes` reads them back.
pub proof fn lemma_si32_byte_order(x: Si32, bytes: [u8; 4])
    ensures
        forall|r: Si32| #[trigger] call_ensures(Si32::to_be, (x,), r) ==> native_bytes(r@, 32, 4) == be_bytes(pattern_of(x@, 32), 4),
        forall|r: Si32| #[trigger] call_ensures(Si32::to_le, (x,), r) ==> native_bytes(r@, 32, 4) == le_bytes(pattern_of(x@, 32), 4),
        forall|r: Si32| #[trigger] call_ensures(Si32::from_be, (x,), r) ==> be_bytes(pattern_of(r@, 32), 4) == native_bytes(x@, 32, 4),
        forall|r: Si32| #[trigger] call_ensures(Si32::from_le, (x,), r) ==> le_bytes(pattern_of(r@, 32), 4) == native_bytes(x@, 32, 4),
        forall|r: [u8; 4]| #[trigger] call_ensures(Si32::to_ne_bytes, (x,), r) ==> r@ == native_bytes(x@, 32, 4),
        forall|r: Si32| #[trigger] call_ensures(Si32::from_ne_bytes, (bytes,), r) ==> native_bytes(r@, 32, 4) == bytes@,
        forall|a: Si32, b: Si32|
            #[trigger] call_ensures(Si32::to_be, (x,), a) && #[trigger] call_ensures(Si32::from_be, (a,), b) ==> b@ == x@,
        forall|a: Si32, b: Si32|
            #[trigger] call_ensures(Si32::to_le, (x,), a) && #[trigger] call_ensures(Si32::from_le, (a,), b) ==> b@ == x@,
        forall|a: [u8; 4], b: Si32|
            #[trigger] call_ensures(Si32::to_ne_bytes, (x,), a) && #[trigger] call_ensures(Si32::from_ne_bytes, (a,), b)
                ==> b@ == x@,
{
    lemma_swapped_value_bytes(x);
    lemma_swap_bytes_twice(x);
    lemma_bytes_round_trip(x);
    lemma_value_bytes_round_trip::<Si32>(bytes@);
}

/// For [`Si64`]: the value that `to_be` gives is held in memory (in the order of the
/// machine that runs the code) as the big-endian bytes of its argument, and the one
/// that `to_le` gives as its little-endian bytes; `from_be` and `from_le` give the
/// value whose big-endian, or little-endian, bytes are what the argument holds in
/// memory, so each undoes its counterpart; `to_ne_bytes` gives the bytes in memory
/// order, and `from_ne_bytes` reads them back.
pub proof fn lemma_si64_byte_order(x: Si64, bytes: [u8; 8])
    ensures
        forall|r: Si64| #[trigger] call_ensures(Si64::to_be, (x,), r) ==> native_bytes(r@, 64, 8) == be_bytes(pattern_of(x@, 64), 8),
        forall|r: Si64| #[trigger] call_ensures(Si64::to_le, (x,), r) ==> native_bytes(r@, 64, 8) == le_bytes(pattern_of(x@, 64), 8),
        forall|r: Si64| #[trigger] call_ensures(Si64::from_be, (x,), r) ==> be_bytes(pattern_of(r@, 64), 8) == native_bytes(x@, 64, 8),
        forall|r: Si64| #[trigger] call_ensures(Si64::from_le, (x,), r) ==> le_bytes(pattern_of(r@, 64), 8) == native_bytes(x@, 64, 8),
        forall|r: [u8; 8]| #[trigger] call_ensures(Si64::to_ne_bytes, (x,), r) ==> r@ == native_bytes(x@, 64, 8),
        forall|r: Si64| #[trigger] call_ensures(Si64::from_ne_bytes, (bytes,), r) ==> native_bytes(r@, 64, 8) == bytes@,
        forall|a: Si64, b: Si64|
            #[trigger] call_ensures(Si64::to_be, (x,), a) && #[trigger] call_ensures(Si64::from_be, (a,), b) ==> b@ == x@,
        forall|a: Si64, b: Si64|
            #[trigger] call_ensures(Si64::to_le, (x,), a) && #[trigger] call_ensures(Si64::from_le, (a,), b) ==> b@ == x@,
        forall|a: [u8; 8], b: Si64|
            #[trigger] call_ensures(Si64::to_ne_bytes, (x,), a) && #[trigger] call_ensures(Si64::from_ne_bytes, (a,), b)
                ==> b@ == x@,
{
    lemma_swapped_value_bytes(x);
    lemma_swap_bytes_twice(x);
    lemma_bytes_round_trip(x);
    lemma_value_bytes_round_trip::<Si64>(bytes@);
}

/// For [`Si128`]: the value that `to_be` gives is held in memory (in the order of the
/// machine that runs the code) as the big-endian bytes of its argument, and the one
/// that `to_le` gives as its little-endian bytes; `from_be` and `from_le` give the
/// value whose big-endian, or little-endian, bytes are what the argument holds in
/// memory, so each undoes its counterpart; `to_ne_bytes` gives the bytes in memory
/// order, and `from_ne_bytes` reads them back.
pub proof fn lemma_si128_byte_order(x: Si128, bytes: [u8; 16])
    ensures
        forall|r: Si128| #[trigger] call_ensures(Si128::to_be, (x,), r) ==> native_bytes(r@, 128, 16) == be_bytes(pattern_of(x@, 128), 16),
        forall|r: Si128| #[trigger] call_ensures(Si128::to_le, (x,), r) ==> native_bytes(r@, 128, 16) == le_bytes(pattern_of(x@, 128), 16),
        forall|r: Si128| #[trigger] call_ensures(Si128::from_be, (x,), r) ==> be_bytes(pattern_of(r@, 128), 16) == native_bytes(x@, 128, 16),
        forall|r: Si128| #[trigger] call_ensures(Si128::from_le, (x,), r) ==> le_bytes(pattern_of(r@, 128), 16) == native_bytes(x@, 128, 16),
        forall|r: [u8; 16]| #[trigger] call_ensures(Si128::to_ne_bytes, (x,), r) ==> r@ == native_bytes(x@, 128, 16),
        forall|r: Si128| #[trigger] call_ensures(Si128::from_ne_bytes, (bytes,), r) ==> native_bytes(r@, 128, 16) == bytes@,
        forall|a: Si128, b: Si128|
            #[trigger] call_ensures(Si128::to_be, (x,), a) && #[trigger] call_ensures(Si128::from_be, (a,), b) ==> b@ == x@,
        forall|a: Si128, b: Si128|
            #[trigger] call_ensures(Si128::to_le, (x,), a) && #[trigger] call_ensures(Si128::from_le, (a,), b) ==> b@ == x@,
        forall|a: [u8; 16], b: Si128|
            #[trigger] call_ensures(Si128::to_ne_bytes, (x,), a) && #[trigger] call_ensures(Si128::from_ne_bytes, (a,), b)
                ==> b@ == x@,
{
    lemma_swapped_value_bytes(x);
    lemma_swap_bytes_twice(x);
    lemma_bytes_round_trip(x);
    lemma_value_bytes_round_trip::<Si128>(bytes@);
}

/// For [`Su8`]: the value that `to_be` gives is held in memory (in the order of the
/// machine that runs the code) as the big-endian bytes of its argument, and the one
/// that `to_le` gives as its little-endian bytes; `from_be` and `from_le` give the
/// value whose big-endian, or little-endian, bytes are what the argument holds in
/// memory, so each undoes its counterpart; `to_ne_bytes` gives the bytes in memory
/// order, and `from_ne_bytes` reads them back.
pub proof fn lemma_su8_byte_order(x: Su8, bytes: [u8; 1])
    ensures
        forall|r: Su8| #[trigger] call_ensures(Su8::to_be, (x,), r) ==> native_bytes(r@, 8, 1) == be_bytes(pattern_of(x@, 8), 1),
        forall|r: Su8| #[trigger] call_ensures(Su8::to_le, (x,), r) ==> native_bytes(r@, 8, 1) == le_bytes(pattern_of(x@, 8), 1),
        forall|r: Su8| #[trigger] call_ensures(Su8::from_be, (x,), r) ==> be_bytes(pattern_of(r@, 8), 1) == native_bytes(x@, 8, 1),
        forall|r: Su8| #[trigger] call_ensures(Su8::from_le, (x,), r) ==> le_bytes(pattern_of(r@, 8), 1) == native_bytes(x@, 8, 1),
        forall|r: [u8; 1]| #[trigger] call_ensures(Su8::to_ne_bytes, (x,), r) ==> r@ == native_bytes(x@, 8, 1),
        forall|r: Su8| #[trigger] call_ensures(Su8::from_ne_bytes, (bytes,), r) ==> native_bytes(r@, 8, 1) == bytes@,
        forall|a: Su8, b: Su8|
            #[trigger] call_ensures(Su8::to_be, (x,), a) && #[trigger] call_ensures(Su8::from_be, (a,), b) ==> b@ == x@,
        forall|a: Su8, b: Su8|
            #[trigger] call_ensures(Su8::to_le, (x,), a) && #[trigger] call_ensures(Su8::from_le, (a,), b) ==> b@ == x@,
        forall|a: [u8; 1], b: Su8|
            #[trigger] call_ensures(Su8::to_ne_bytes, (x,), a) && #[trigger] call_ensures(Su8::from_ne_bytes, (a,), b)
                ==> b@ == x@,
{
    lemma_swapped_value_bytes(x);
    lemma_swap_bytes_twice(x);
    lemma_bytes_round_trip(x);
    lemma_value_bytes_round_trip::<Su8>(bytes@);
}

/// For [`Su16`]: the value that `to_be` gives is held in memory (in the order of the
/// machine that runs the code) as the big-endian bytes of its argument, and the one
/// that `to_le` gives as its little-endian bytes; `from_be` and `from_le` give the
/// value whose big-endian, or little-endian, bytes are what the argument holds in
/// memory, so each undoes its counterpart; `to_ne_bytes` gives the bytes in memory
/// order, and `from_ne_bytes` reads them back.
pub proof fn lemma_su16_byte_order(x: Su16, bytes: [u8; 2])
    ensures
        forall|r: Su16| #[trigger] call_ensures(Su16::to_be, (x,), r) ==> native_bytes(r@, 16, 2) == be_bytes(pattern_of(x@, 16), 2),
        forall|r: Su16| #[trigger] call_ensures(Su16::to_le, (x,), r) ==> native_bytes(r@, 16, 2) == le_bytes(pattern_of(x@, 16), 2),
        forall|r: Su16| #[trigger] call_ensures(Su16::from_be, (x,), r) ==> be_bytes(pattern_of(r@, 16), 2) == native_bytes(x@, 16, 2),
        forall|r: Su16| #[trigger] call_ensures(Su16::from_le, (x,), r) ==> le_bytes(pattern_of(r@, 16), 2) == native_bytes(x@, 16, 2),
        forall|r: [u8; 2]| #[trigger] call_ensures(Su16::to_ne_bytes, (x,), r) ==> r@ == native_bytes(x@, 16, 2),
        forall|r: Su16| #[trigger] call_ensures(Su16::from_ne_bytes, (bytes,), r) ==> native_bytes(r@, 16, 2) == bytes@,
        forall|a: Su16, b: Su16|
            #[trigger] call_ensures(Su16::to_be, (x,), a) && #[trigger] call_ensures(Su16::from_be, (a,), b) ==> b@ == x@,
        forall|a: Su16, b: Su16|
            #[trigger] call_ensures(Su16::to_le, (x,), a) && #[trigger] call_ensures(Su16::from_le, (a,), b) ==> b@ == x@,
        forall|a: [u8; 2], b: Su16|
            #[trigger] call_ensures(Su16::to_ne_bytes, (x,), a) && #[trigger] call_ensures(Su16::from_ne_bytes, (a,), b)
                ==> b@ == x@,
{
    lemma_swapped_value_bytes(x);
    lemma_swap_bytes_twice(x);
    lemma_bytes_round_trip(x);
    lemma_value_bytes_round_trip::<Su16>(bytes@);
}

/// For [`Su32`]: the value that `to_be` gives is held in memory (in the order of the
/// machine that runs the code) as the big-endian bytes of its argument, and the one
/// that `to_le` gives as its little-endian bytes; `from_be` and `from_le` give the
/// value whose big-endian, or little-endian, bytes are what the argument holds in
/// memory, so each undoes its counterpart; `to_ne_bytes` gives the bytes in memory
/// order, and `from_ne_bytes` reads them back.
pub proof fn lemma_su32_byte_order(x: Su32, bytes: [u8; 4])
    ensures
        forall|r: Su32| #[trigger] call_ensures(Su32::to_be, (x,), r) ==> native_bytes(r@, 32, 4) == be_bytes(pattern_of(x@, 32), 4),
        forall|r: Su32| #[trigger] call_ensures(Su32::to_le, (x,), r) ==> native_bytes(r@, 32, 4) == le_bytes(pattern_of(x@, 32), 4),
        forall|r: Su32| #[trigger] call_ensures(Su32::from_be, (x,), r) ==> be_bytes(pattern_of(r@, 32), 4) == native_bytes(x@, 32, 4),
        forall|r: Su32| #[trigger] call_ensures(Su32::from_le, (x,), r) ==> le_bytes(pattern_of(r@, 32), 4) == native_bytes(x@, 32, 4),
        forall|r: [u8; 4]| #[trigger] call_ensures(Su32::to_ne_bytes, (x,), r) ==> r@ == native_bytes(x@, 32, 4),
        forall|r: Su32| #[trigger] call_ensures(Su32::from_ne_bytes, (bytes,), r) ==> native_bytes(r@, 32, 4) == bytes@,
        forall|a: Su32, b: Su32|
            #[trigger] call_ensures(Su32::to_be, (x,), a) && #[trigger] call_ensures(Su32::from_be, (a,), b) ==> b@ == x@,
        forall|a: Su32, b: Su32|
            #[trigger] call_ensures(Su32::to_le, (x,), a) && #[trigger] call_ensures(Su32::from_le, (a,), b) ==> b@ == x@,
        forall|a: [u8; 4], b: Su32|
            #[trigger] call_ensures(Su32::to_ne_bytes, (x,), a) && #[trigger] call_ensures(Su32::from_ne_bytes, (a,), b)
                ==> b@ == x@,
{
    lemma_swapped_value_bytes(x);
    lemma_swap_bytes_twice(x);
    lemma_bytes_round_trip(x);
    lemma_value_bytes_round_trip::<Su32>(bytes@);
}

/// For [`Su64`]: the value that `to_be` gives is held in memory (in the order of the
/// machine that runs the code) as the big-endian bytes of its argument, and the one
/// that `to_le` gives as its little-endian bytes; `from_be` and `from_le` give the
/// value whose big-endian, or little-endian, bytes are what the argument holds in
/// memory, so each undoes its counterpart; `to_ne_bytes` gives the bytes in memory
/// order, and `from_ne_bytes` reads them back.
pub proof fn lemma_su64_byte_order(x: Su64, bytes: [u8; 8])
    ensures
        forall|r: Su64| #[trigger] call_ensures(Su64::to_be, (x,), r) ==> native_bytes(r@, 64, 8) == be_bytes(pattern_of(x@, 64), 8),
        forall|r: Su64| #[trigger] call_ensures(Su64::to_le, (x,), r) ==> native_bytes(r@, 64, 8) == le_bytes(pattern_of(x@, 64), 8),
        forall|r: Su64| #[trigger] call_ensures(Su64::from_be, (x,), r) ==> be_bytes(pattern_of(r@, 64), 8) == native_bytes(x@, 64, 8),
        forall|r: Su64| #[trigger] call_ensures(Su64::from_le, (x,), r) ==> le_bytes(pattern_of(r@, 64), 8) == native_bytes(x@, 64, 8),
        forall|r: [u8; 8]| #[trigger] call_ensures(Su64::to_ne_bytes, (x,), r) ==> r@ == native_bytes(x@, 64, 8),
        forall|r: Su64| #[trigger] call_ensures(Su64::from_ne_bytes, (bytes,), r) ==> native_bytes(r@, 64, 8) == bytes@,
        forall|a: Su64, b: Su64|
            #[trigger] call_ensures(Su64::to_be, (x,), a) && #[trigger] call_ensures(Su64::from_be, (a,), b) ==> b@ == x@,
        forall|a: Su64, b: Su64|
            #[trigger] call_ensures(Su64::to_le, (x,), a) && #[trigger] call_ensures(Su64::from_le, (a,), b) ==> b@ == x@,
        forall|a: [u8; 8], b: Su64|
            #[trigger] call_ensures(Su64::to_ne_bytes, (x,), a) && #[trigger] call_ensures(Su64::from_ne_bytes, (a,), b)
                ==> b@ == x@,
{
    lemma_swapped_value_bytes(x);
    lemma_swap_bytes_twice(x);
    lemma_bytes_round_trip(x);
    lemma_value_bytes_round_trip::<Su64>(bytes@);
}

/// For [`Su128`]: the value that `to_be` gives is held in memory (in the order of the
/// machine that runs the code) as the big-endian bytes of its argument, and the one
/// that `to_le` gives as its little-endian bytes; `from_be` and `from_le` give the
/// value whose big-endian, or little-endian, bytes are what the argument holds in
/// memory, so each undoes its counterpart; `to_ne_bytes` gives the bytes in memory
/// order, and `from_ne_bytes` reads them back.
pub proof fn lemma_su128_byte_order(x: Su128, bytes: [u8; 16])
    ensures
        forall|r: Su128| #[trigger] call_ensures(Su128::to_be, (x,), r) ==> native_bytes(r@, 128, 16) == be_bytes(pattern_of(x@, 128), 16),
        forall|r: Su128| #[trigger] call_ensures(Su128::to_le, (x,), r) ==> native_bytes(r@, 128, 16) == le_bytes(pattern_of(x@, 128), 16),
        forall|r: Su128| #[trigger] call_ensures(Su128::from_be, (x,), r) ==> be_bytes(pattern_of(r@, 128), 16) == native_bytes(x@, 128, 16),
        forall|r: Su128| #[trigger] call_ensures(Su128::from_le, (x,), r) ==> le_bytes(pattern_of(r@, 128), 16) == native_bytes(x@, 128, 16),
        forall|r: [u8; 16]| #[trigger] call_ensures(Su128::to_ne_bytes, (x,), r) ==> r@ == native_bytes(x@, 128, 16),
        forall|r: Su128| #[trigger] call_ensures(Su128::from_ne_bytes, (bytes,), r) ==> native_bytes(r@, 128, 16) == bytes@,
        forall|a: Su128, b: Su128|
            #[trigger] call_ensures(Su128::to_be, (x,), a) && #[trigger] call_ensures(Su128::from_be, (a,), b) ==> b@ == x@,
        forall|a: Su128, b: Su128|
            #[trigger] call_ensures(Su128::to_le, (x,), a) && #[trigger] call_ensures(Su128::from_le, (a,), b) ==> b@ == x@,
        forall|a: [u8; 16], b: Su128|
            #[trigger] call_ensures(Su128::to_ne_bytes, (x,), a) && #[trigger] call_ensures(Su128::from_ne_bytes, (a,), b)
                ==> b@ == x@,
{
    lemma_swapped_value_bytes(x);
    lemma_swap_bytes_twice(x);
    lemma_bytes_round_trip(x);
    lemma_value_bytes_round_trip::<Su128>(bytes@);
}

} // verus!
