//! How each wrapper compares with its inner primitive type, in either order: by
//! the integer values, as the primitives compare with each other.
use vstd::prelude::*;
use core::cmp::Ordering;
use vstd::std_specs::cmp::{PartialEqSpec, PartialOrdSpec};
use crate::integer::Integer;
use crate::si::{Si8, Si16, Si32, Si64, Si128, Sisize};
use crate::su::{Su8, Su16, Su32, Su64, Su128, Susize};

verus! {

/// Whether `==` between an `A` and a `B` gives what `eq_spec` says.
pub open spec fn eq_obeyed<A: PartialEqSpec<B>, B>() -> bool {
    A::obeys_eq_spec()
}

/// Whether the order between an `A` and a `B` is what `partial_cmp_spec` says.
pub open spec fn order_obeyed<A: PartialOrdSpec<B>, B>() -> bool {
    A::obeys_partial_cmp_spec()
}

/// A [`Si8`] and an [`i8`] are equal, in either order, exactly when their values
/// are; and each compares with the other as its value does with the other's value.
pub proof fn lemma_si8_compares_by_value(x: Si8, p: i8)
    ensures
        eq_obeyed::<Si8, i8>(),
        eq_obeyed::<i8, Si8>(),
        order_obeyed::<Si8, i8>(),
        order_obeyed::<i8, Si8>(),
        x.eq_spec(&p) <==> x@ == p.value(),
        p.eq_spec(&x) <==> p.value() == x@,
        x@ < p.value() ==> x.partial_cmp_spec(&p) == Some(Ordering::Less),
        x@ == p.value() ==> x.partial_cmp_spec(&p) == Some(Ordering::Equal),
        x@ > p.value() ==> x.partial_cmp_spec(&p) == Some(Ordering::Greater),
        p.value() < x@ ==> p.partial_cmp_spec(&x) == Some(Ordering::Less),
        p.value() == x@ ==> p.partial_cmp_spec(&x) == Some(Ordering::Equal),
        p.value() > x@ ==> p.partial_cmp_spec(&x) == Some(Ordering::Greater),
{
    crate::si::lemma_si8_inner(x);
}

/// A [`Si16`] and an [`i16`] are equal, in either order, exactly when their values
/// are; and each compares with the other as its value does with the other's value.
pub proof fn lemma_si16_compares_by_value(x: Si16, p: i16)
    ensures
        eq_obeyed::<Si16, i16>(),
        eq_obeyed::<i16, Si16>(),
        order_obeyed::<Si16, i16>(),
        order_obeyed::<i16, Si16>(),
        x.eq_spec(&p) <==> x@ == p.value(),
        p.eq_spec(&x) <==> p.value() == x@,
        x@ < p.value() ==> x.partial_cmp_spec(&p) == Some(Ordering::Less),
        x@ == p.value() ==> x.partial_cmp_spec(&p) == Some(Ordering::Equal),
        x@ > p.value() ==> x.partial_cmp_spec(&p) == Some(Ordering::Greater),
        p.value() < x@ ==> p.partial_cmp_spec(&x) == Some(Ordering::Less),
        p.value() == x@ ==> p.partial_cmp_spec(&x) == Some(Ordering::Equal),
        p.value() > x@ ==> p.partial_cmp_spec(&x) == Some(Ordering::Greater),
{
    crate::si::lemma_si16_inner(x);
}

/// A [`Si32`] and an [`i32`] are equal, in either order, exactly when their values
/// are; and each compares with the other as its value does with the other's value.
pub proof fn lemma_si32_compares_by_value(x: Si32, p: i32)
    ensures
        eq_obeyed::<Si32, i32>(),
        eq_obeyed::<i32, Si32>(),
        order_obeyed::<Si32, i32>(),
        order_obeyed::<i32, Si32>(),
        x.eq_spec(&p) <==> x@ == p.value(),
        p.eq_spec(&x) <==> p.value() == x@,
        x@ < p.value() ==> x.partial_cmp_spec(&p) == Some(Ordering::Less),
        x@ == p.value() ==> x.partial_cmp_spec(&p) == Some(Ordering::Equal),
        x@ > p.value() ==> x.partial_cmp_spec(&p) == Some(Ordering::Greater),
        p.value() < x@ ==> p.partial_cmp_spec(&x) == Some(Ordering::Less),
        p.value() == x@ ==> p.partial_cmp_spec(&x) == Some(Ordering::Equal),
        p.value() > x@ ==> p.partial_cmp_spec(&x) == Some(Ordering::Greater),
{
    crate::si::lemma_si32_inner(x);
}

/// A [`Si64`] and an [`i64`] are equal, in either order, exactly when their values
/// are; and each compares with the other as its value does with the other's value.
pub proof fn lemma_si64_compares_by_value(x: Si64, p: i64)
    ensures
        eq_obeyed::<Si64, i64>(),
        eq_obeyed::<i64, Si64>(),
        order_obeyed::<Si64, i64>(),
        order_obeyed::<i64, Si64>(),
        x.eq_spec(&p) <==> x@ == p.value(),
        p.eq_spec(&x) <==> p.value() == x@,
        x@ < p.value() ==> x.partial_cmp_spec(&p) == Some(Ordering::Less),
        x@ == p.value() ==> x.partial_cmp_spec(&p) == Some(Ordering::Equal),
        x@ > p.value() ==> x.partial_cmp_spec(&p) == Some(Ordering::Greater),
        p.value() < x@ ==> p.partial_cmp_spec(&x) == Some(Ordering::Less),
        p.value() == x@ ==> p.partial_cmp_spec(&x) == Some(Ordering::Equal),
        p.value() > x@ ==> p.partial_cmp_spec(&x) == Some(Ordering::Greater),
{
    crate::si::lemma_si64_inner(x);
}

/// A [`Si128`] and an [`i128`] are equal, in either order, exactly when their values
/// are; and each compares with the other as its value does with the other's value.
pub proof fn lemma_si128_compares_by_value(x: Si128, p: i128)
    ensures
        eq_obeyed::<Si128, i128>(),
        eq_obeyed::<i128, Si128>(),
        order_obeyed::<Si128, i128>(),
        order_obeyed::<i128, Si128>(),
        x.eq_spec(&p) <==> x@ == p.value(),
        p.eq_spec(&x) <==> p.value() == x@,
        x@ < p.value() ==> x.partial_cmp_spec(&p) == Some(Ordering::Less),
        x@ == p.value() ==> x.partial_cmp_spec(&p) == Some(Ordering::Equal),
        x@ > p.value() ==> x.partial_cmp_spec(&p) == Some(Ordering::Greater),
        p.value() < x@ ==> p.partial_cmp_spec(&x) == Some(Ordering::Less),
        p.value() == x@ ==> p.partial_cmp_spec(&x) == Some(Ordering::Equal),
        p.value() > x@ ==> p.partial_cmp_spec(&x) == Some(Ordering::Greater),
{
    crate::si::lemma_si128_inner(x);
}

/// A [`Sisize`] and an [`isize`] are equal, in either order, exactly when their values
/// are; and each compares with the other as its value does with the other's value.
pub proof fn lemma_sisize_compares_by_value(x: Sisize, p: isize)
    ensures
        eq_obeyed::<Sisize, isize>(),
        eq_obeyed::<isize, Sisize>(),
        order_obeyed::<Sisize, isize>(),
        order_obeyed::<isize, Sisize>(),
        x.eq_spec(&p) <==> x@ == p.value(),
        p.eq_spec(&x) <==> p.value() == x@,
        x@ < p.value() ==> x.partial_cmp_spec(&p) == Some(Ordering::Less),
        x@ == p.value() ==> x.partial_cmp_spec(&p) == Some(Ordering::Equal),
        x@ > p.value() ==> x.partial_cmp_spec(&p) == Some(Ordering::Greater),
        p.value() < x@ ==> p.partial_cmp_spec(&x) == Some(Ordering::Less),
        p.value() == x@ ==> p.partial_cmp_spec(&x) == Some(Ordering::Equal),
        p.value() > x@ ==> p.partial_cmp_spec(&x) == Some(Ordering::Greater),
{
    crate::si::lemma_sisize_inner(x);
}

/// A [`Su8`] and an [`u8`] are equal, in either order, exactly when their values
/// are; and each compares with the other as its value does with the other's value.
pub proof fn lemma_su8_compares_by_value(x: Su8, p: u8)
    ensures
        eq_obeyed::<Su8, u8>(),
        eq_obeyed::<u8, Su8>(),
        order_obeyed::<Su8, u8>(),
        order_obeyed::<u8, Su8>(),
        x.eq_spec(&p) <==> x@ == p.value(),
        p.eq_spec(&x) <==> p.value() == x@,
        x@ < p.value() ==> x.partial_cmp_spec(&p) == Some(Ordering::Less),
        x@ == p.value() ==> x.partial_cmp_spec(&p) == Some(Ordering::Equal),
        x@ > p.value() ==> x.partial_cmp_spec(&p) == Some(Ordering::Greater),
        p.value() < x@ ==> p.partial_cmp_spec(&x) == Some(Ordering::Less),
        p.value() == x@ ==> p.partial_cmp_spec(&x) == Some(Ordering::Equal),
        p.value() > x@ ==> p.partial_cmp_spec(&x) == Some(Ordering::Greater),
{
    crate::su::lemma_su8_inner(x);
}

/// A [`Su16`] and an [`u16`] are equal, in either order, exactly when their values
/// are; and each compares with the other as its value does with the other's value.
pub proof fn lemma_su16_compares_by_value(x: Su16, p: u16)
    ensures
        eq_obeyed::<Su16, u16>(),
        eq_obeyed::<u16, Su16>(),
        order_obeyed::<Su16, u16>(),
        order_obeyed::<u16, Su16>(),
        x.eq_spec(&p) <==> x@ == p.value(),
        p.eq_spec(&x) <==> p.value() == x@,
        x@ < p.value() ==> x.partial_cmp_spec(&p) == Some(Ordering::Less),
        x@ == p.value() ==> x.partial_cmp_spec(&p) == Some(Ordering::Equal),
        x@ > p.value() ==> x.partial_cmp_spec(&p) == Some(Ordering::Greater),
        p.value() < x@ ==> p.partial_cmp_spec(&x) == Some(Ordering::Less),
        p.value() == x@ ==> p.partial_cmp_spec(&x) == Some(Ordering::Equal),
        p.value() > x@ ==> p.partial_cmp_spec(&x) == Some(Ordering::Greater),
{
    crate::su::lemma_su16_inner(x);
}

/// A [`Su32`] and an [`u32`] are equal, in either order, exactly when their values
/// are; and each compares with the other as its value does with the other's value.
pub proof fn lemma_su32_compares_by_value(x: Su32, p: u32)
    ensures
        eq_obeyed::<Su32, u32>(),
        eq_obeyed::<u32, Su32>(),
        order_obeyed::<Su32, u32>(),
        order_obeyed::<u32, Su32>(),
        x.eq_spec(&p) <==> x@ == p.value(),
        p.eq_spec(&x) <==> p.value() == x@,
        x@ < p.value() ==> x.partial_cmp_spec(&p) == Some(Ordering::Less),
        x@ == p.value() ==> x.partial_cmp_spec(&p) == Some(Ordering::Equal),
        x@ > p.value() ==> x.partial_cmp_spec(&p) == Some(Ordering::Greater),
        p.value() < x@ ==> p.partial_cmp_spec(&x) == Some(Ordering::Less),
        p.value() == x@ ==> p.partial_cmp_spec(&x) == Some(Ordering::Equal),
        p.value() > x@ ==> p.partial_cmp_spec(&x) == Some(Ordering::Greater),
{
    crate::su::lemma_su32_inner(x);
}

/// A [`Su64`] and an [`u64`] are equal, in either order, exactly when their values
/// are; and each compares with the other as its value does with the other's value.
pub proof fn lemma_su64_compares_by_value(x: Su64, p: u64)
    ensures
        eq_obeyed::<Su64, u64>(),
        eq_obeyed::<u64, Su64>(),
        order_obeyed::<Su64, u64>(),
        order_obeyed::<u64, Su64>(),
        x.eq_spec(&p) <==> x@ == p.value(),
        p.eq_spec(&x) <==> p.value() == x@,
        x@ < p.value() ==> x.partial_cmp_spec(&p) == Some(Ordering::Less),
        x@ == p.value() ==> x.partial_cmp_spec(&p) == Some(Ordering::Equal),
        x@ > p.value() ==> x.partial_cmp_spec(&p) == Some(Ordering::Greater),
        p.value() < x@ ==> p.partial_cmp_spec(&x) == Some(Ordering::Less),
        p.value() == x@ ==> p.partial_cmp_spec(&x) == Some(Ordering::Equal),
        p.value() > x@ ==> p.partial_cmp_spec(&x) == Some(Ordering::Greater),
{
    crate::su::lemma_su64_inner(x);
}

/// A [`Su128`] and an [`u128`] are equal, in either order, exactly when their values
/// are; and each compares with the other as its value does with the other's value.
pub proof fn lemma_su128_compares_by_value(x: Su128, p: u128)
    ensures
        eq_obeyed::<Su128, u128>(),
        eq_obeyed::<u128, Su128>(),
        order_obeyed::<Su128, u128>(),
        order_obeyed::<u128, Su128>(),
        x.eq_spec(&p) <==> x@ == p.value(),
        p.eq_spec(&x) <==> p.value() == x@,
        x@ < p.value() ==> x.partial_cmp_spec(&p) == Some(Ordering::Less),
        x@ == p.value() ==> x.partial_cmp_spec(&p) == Some(Ordering::Equal),
        x@ > p.value() ==> x.partial_cmp_spec(&p) == Some(Ordering::Greater),
        p.value() < x@ ==> p.partial_cmp_spec(&x) == Some(Ordering::Less),
        p.value() == x@ ==> p.partial_cmp_spec(&x) == Some(Ordering::Equal),
        p.value() > x@ ==> p.partial_cmp_spec(&x) == Some(Ordering::Greater),
{
    crate::su::lemma_su128_inner(x);
}

/// A [`Susize`] and an [`usize`] are equal, in either order, exactly when their values
/// are; and each compares with the other as its value does with the other's value.
pub proof fn lemma_susize_compares_by_value(x: Susize, p: usize)
    ensures
        eq_obeyed::<Susize, usize>(),
        eq_obeyed::<usize, Susize>(),
        order_obeyed::<Susize, usize>(),
        order_obeyed::<usize, Susize>(),
        x.eq_spec(&p) <==> x@ == p.value(),
        p.eq_spec(&x) <==> p.value() == x@,
        x@ < p.value() ==> x.partial_cmp_spec(&p) == Some(Ordering::Less),
        x@ == p.value() ==> x.partial_cmp_spec(&p) == Some(Ordering::Equal),
        x@ > p.value() ==> x.partial_cmp_spec(&p) == Some(Ordering::Greater),
        p.value() < x@ ==> p.partial_cmp_spec(&x) == Some(Ordering::Less),
        p.value() == x@ ==> p.partial_cmp_spec(&x) == Some(Ordering::Equal),
        p.value() > x@ ==> p.partial_cmp_spec(&x) == Some(Ordering::Greater),
{
    crate::su::lemma_susize_inner(x);
}

} // verus!
