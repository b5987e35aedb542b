//! Conversions that clamp to the destination's range.
use vstd::prelude::*;
use crate::integer::Integer;
use crate::math::clamp;

verus! {

/// Lossy conversion that clamps the value to the destination range.
///
/// Out-of-range positive values saturate to the destination's `MAX`, and
/// out-of-range negative values saturate to its `MIN` (or `0` for unsigned
/// targets). Every type converts into itself unchanged; between two different
/// integer types, primitive or wrapper, the conversion is [`saturate`]. Use
/// `From`/`Into` for lossless conversions.
pub trait SaturatingFrom<T>: Sized {
    /// What [`saturating_from`](SaturatingFrom::saturating_from) gives for `value`.
    spec fn spec_saturating_from(value: T) -> Self;

    /// Converts `value` into `Self`, clamping to the destination range when
    /// the source value cannot be represented exactly.
    fn saturating_from(value: T) -> (r: Self)
        ensures
            r == Self::spec_saturating_from(value),
    ;
}

/// Reciprocal of [`SaturatingFrom`]. Provided automatically via a blanket impl.
pub trait SaturatingInto<U>: Sized {
    /// What [`saturating_into`](SaturatingInto::saturating_into) gives for `self`.
    spec fn spec_saturating_into(self) -> U;

    /// Converts `self` into `U`, clamping to the destination range when the
    /// source value cannot be represented exactly.
    fn saturating_into(self) -> (r: U)
        ensures
            r == self.spec_saturating_into(),
    ;
}

impl<T, U: SaturatingFrom<T>> SaturatingInto<U> for T {
    open spec fn spec_saturating_into(self) -> U {
        U::spec_saturating_from(self)
    }

    fn saturating_into(self) -> (r: U) {
        U::saturating_from(self)
    }
}

/// Every value converts into its own type unchanged.
impl<T> SaturatingFrom<T> for T {
    open spec fn spec_saturating_from(value: T) -> T {
        value
    }

    fn saturating_from(value: T) -> (r: T)
        ensures
            r == value,
    {
        value
    }
}

/// The element of `D` nearest to the value of `x`.
pub open spec fn saturated<S: Integer, D: Integer>(x: S) -> D {
    D::of_value(clamp(x.value(), D::lower(), D::upper()))
}

/// Converts `value` into the element of `D` nearest to it: the value itself where
/// `D` holds it, else the bound of `D` on its side.
pub fn saturate<S: Integer, D: Integer>(value: S) -> (r: D)
    ensures
        r == saturated::<S, D>(value),
        r.value() == clamp(value.value(), D::lower(), D::upper()),
{
    let (negative, magnitude) = value.magnitude();
    let r = D::from_magnitude(negative, magnitude);
    proof {
        r.lemma_value();
    }
    r
}

} // verus!
