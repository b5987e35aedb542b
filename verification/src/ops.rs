//! Saturating arithmetic operators, fallible division, shifts and negation.
use vstd::prelude::*;
use core::ops::{Add, AddAssign, Div, DivAssign, Mul, MulAssign, Neg, Rem, RemAssign, Shl, ShlAssign, Shr, ShrAssign, Sub,
    SubAssign};
use vstd::arithmetic::power2::pow2;
use vstd::std_specs::iter::IteratorSpec;
use vstd::std_specs::ops::{AddSpecImpl, DivSpecImpl, MulSpecImpl, NegSpecImpl, RemSpecImpl, ShlSpecImpl, ShrSpecImpl,
    SubSpecImpl};
use crate::integer::{Integer, SignedInteger, UnsignedInteger};
use crate::magnitude::{add_magnitudes, div_magnitudes, mul_magnitudes, rem_magnitudes, shl_magnitudes,
    shr_magnitudes};
use crate::math::{clamp, lemma_represents_clamp, trunc_div, trunc_rem};
use crate::si::{Si8, Si16, Si32, Si64, Si128, Sisize};
use crate::su::{Su8, Su16, Su32, Su64, Su128, Susize};

verus! {

/// Error returned by fallible division and remainder operations.
#[derive(Debug, Clone, Copy, PartialEq, Eq, Structural)]
pub enum DivError {
    /// The divisor was zero.
    DivisionByZero,
    /// The remainder overflowed: `try_rem` reports it for `i128::MIN % -1`, the one
    /// remainder that the primitive operation cannot compute. Division never
    /// reports it: `try_div` saturates `MIN / -1` to `MAX`.
    Overflow,
}

/// Saturating subtraction of a signed `i128` from a `u128`.
pub fn u128_saturating_sub_signed(lhs: u128, rhs: i128) -> (r: u128)
    ensures
        r == clamp(lhs - rhs, 0, u128::MAX as int),
{
    if rhs >= 0 {
        lhs.saturating_sub(rhs as u128)
    } else {
        lhs.saturating_add((-(rhs + 1)) as u128 + 1)
    }
}

/// Fallible division that reports division by zero.
pub trait TryDiv<Rhs = Self> {
    /// Result type produced by the division.
    type Output;

    /// Divides `self` by `rhs`, rounding toward zero and saturating at the bounds of
    /// the output type (so `MIN / -1` gives `MAX`).
    ///
    /// # Errors
    ///
    /// Returns [`DivError::DivisionByZero`] when `rhs` is zero.
    fn try_div(self, rhs: Rhs) -> Result<Self::Output, DivError>;
}

/// Fallible remainder that distinguishes division by zero from overflow.
pub trait TryRem<Rhs = Self> {
    /// Result type produced by the remainder operation.
    type Output;

    /// Calculates `self % rhs`.
    ///
    /// # Errors
    ///
    /// Returns [`DivError::DivisionByZero`] when `rhs` is zero and
    /// [`DivError::Overflow`] for `i128::MIN % -1`.
    fn try_rem(self, rhs: Rhs) -> Result<Self::Output, DivError>;
}

/// Fallible division assignment.
pub trait TryDivAssign<Rhs = Self> {
    /// Divides `self` by `rhs` in place, rounding toward zero and saturating.
    ///
    /// # Errors
    ///
    /// Returns [`DivError::DivisionByZero`] when `rhs` is zero.
    ///
    /// Leaves `self` unchanged if the operation fails.
    fn try_div_assign(&mut self, rhs: Rhs) -> Result<(), DivError>;
}

/// Fallible remainder assignment.
pub trait TryRemAssign<Rhs = Self> {
    /// Calculates `*self %= rhs` in place.
    ///
    /// # Errors
    ///
    /// Returns [`DivError::DivisionByZero`] when `rhs` is zero and
    /// [`DivError::Overflow`] for `i128::MIN % -1`.
    ///
    /// Leaves `self` unchanged if the operation fails.
    fn try_rem_assign(&mut self, rhs: Rhs) -> Result<(), DivError>;
}

/// Calls `Iterator::fold`, which starts from `init` and, for each item that `iter`
/// yields in turn, replaces the accumulator by what `f` makes of it and the item;
/// the last accumulator is the result. Where `iter` obeys the iterator laws of
/// vstd, its items are the ones it is prophesied to yield, so there is a sequence
/// of accumulators from `init` to the result in which each comes out of a call of
/// `f` on the one before it and the next item.
#[verifier::external_body]
fn fold_items<I: Iterator, B, F: Fn(B, I::Item) -> B>(iter: I, init: B, f: F) -> (r: B)
    requires
        forall|acc: B, item: I::Item| f.requires((acc, item)),
    ensures
        iter.obeys_prophetic_iter_laws() ==> (exists|accs: Seq<B>|
            accs.last() == r && accs.len() == iter.remaining().len() + 1 && accs[0] == init && forall|i: int|
                1 <= i <= iter.remaining().len() ==> f.ensures((accs[i - 1], iter.remaining()[i - 1]), #[trigger] accs[i])),
{
    iter.fold(init, f)
}

/// A chain of values that starts at `init` and takes each next value from `g` of
/// the one before and the next item ends at the left fold of the items with `g`.
proof fn lemma_fold_chain<A>(values: Seq<int>, items: Seq<A>, init: int, g: spec_fn(int, A) -> int)
    requires
        values.len() == items.len() + 1,
        values[0] == init,
        forall|i: int| 1 <= i <= items.len() ==> #[trigger] values[i] == g(values[i - 1], items[i - 1]),
    ensures
        values.last() == items.fold_left(init, g),
    decreases items.len(),
{
    if items.len() > 0 {
        let shorter = values.drop_last();
        assert forall|i: int| 1 <= i <= items.drop_last().len() implies #[trigger] shorter[i] == g(
            shorter[i - 1],
            items.drop_last()[i - 1],
        ) by {
            assert(values[i] == g(values[i - 1], items[i - 1]));
        }
        lemma_fold_chain(shorter, items.drop_last(), init, g);
        assert(values[items.len() as int] == g(values[items.len() - 1], items[items.len() - 1]));
    }
}

/// Folds the items of `iter` into `init` with `f`, whose result's view is `g` of
/// the accumulator's view and the item: where `iter` obeys the iterator laws, the
/// result's view is the left fold of its items with `g`.
fn fold_viewed<I: Iterator, B: View<V = int>, F: Fn(B, I::Item) -> B>(
    iter: I,
    init: B,
    f: F,
    Ghost(g): Ghost<spec_fn(int, I::Item) -> int>,
) -> (r: B)
    requires
        forall|acc: B, item: I::Item| f.requires((acc, item)),
        forall|acc: B, item: I::Item, out: B| f.ensures((acc, item), out) ==> out@ == g(acc@, item),
    ensures
        iter.obeys_prophetic_iter_laws() ==> r@ == iter.remaining().fold_left(init@, g),
{
    let ghost start = init;
    let r = fold_items(iter, init, f);
    proof {
        if iter.obeys_prophetic_iter_laws() {
            let items = iter.remaining();
            let accs = choose|accs: Seq<B>|
                accs.last() == r && accs.len() == items.len() + 1 && accs[0] == start && forall|i: int|
                    1 <= i <= items.len() ==> f.ensures((accs[i - 1], items[i - 1]), #[trigger] accs[i]);
            let values = accs.map_values(|a: B| a@);
            assert forall|i: int| 1 <= i <= items.len() implies #[trigger] values[i] == g(values[i - 1], items[i - 1]) by {
                assert(f.ensures((accs[i - 1], items[i - 1]), accs[i]));
            }
            lemma_fold_chain(values, items, start@, g);
        }
    }
    r
}

/// Dividing by a positive divisor does not move a value away from zero.
proof fn lemma_div_by_power_within(x: int, d: int)
    requires
        d > 0,
    ensures
        x >= 0 ==> 0 <= x / d <= x,
        x < 0 ==> x <= x / d < 0,
{
    assert(x >= 0 ==> 0 <= x / d <= x) by (nonlinear_arith)
        requires
            d > 0,
    ;
    assert(x < 0 ==> x <= x / d < 0) by (nonlinear_arith)
        requires
            d > 0,
    ;
}

impl<R: Integer> Add<R> for Si8 {
    type Output = Si8;

    fn add(self, rhs: R) -> (r: Si8)
        ensures
            r@ == clamp(self@ + rhs.value(), i8::MIN as int, i8::MAX as int),
    {
        let (a_negative, a) = self.magnitude();
        let (b_negative, b) = rhs.magnitude();
        let (negative, m) = add_magnitudes(a_negative, a, b_negative, b);
        proof {
            lemma_represents_clamp(negative, m, self@ + rhs.value(), i8::MIN as int, i8::MAX as int);
        }
        let r = Si8::from_magnitude(negative, m);
        proof {
            r.lemma_value();
        }
        r
    }
}

impl<R: Integer> AddSpecImpl<R> for Si8 {
    open spec fn obeys_add_spec() -> bool {
        true
    }

    open spec fn add_req(self, rhs: R) -> bool {
        true
    }

    open spec fn add_spec(self, rhs: R) -> Si8 {
        Si8::of_value(clamp(self@ + rhs.value(), i8::MIN as int, i8::MAX as int))
    }
}

impl<R: Integer> AddAssign<R> for Si8 {
    fn add_assign(&mut self, rhs: R)
        ensures
            final(self)@ == clamp(old(self)@ + rhs.value(), i8::MIN as int, i8::MAX as int),
    {
        *self = *self + rhs;
    }
}

impl<R: Integer> Sub<R> for Si8 {
    type Output = Si8;

    fn sub(self, rhs: R) -> (r: Si8)
        ensures
            r@ == clamp(self@ - rhs.value(), i8::MIN as int, i8::MAX as int),
    {
        let (a_negative, a) = self.magnitude();
        let (b_negative, b) = rhs.magnitude();
        let (negative, m) = add_magnitudes(a_negative, a, !b_negative, b);
        proof {
            lemma_represents_clamp(negative, m, self@ - rhs.value(), i8::MIN as int, i8::MAX as int);
        }
        let r = Si8::from_magnitude(negative, m);
        proof {
            r.lemma_value();
        }
        r
    }
}

impl<R: Integer> SubSpecImpl<R> for Si8 {
    open spec fn obeys_sub_spec() -> bool {
        true
    }

    open spec fn sub_req(self, rhs: R) -> bool {
        true
    }

    open spec fn sub_spec(self, rhs: R) -> Si8 {
        Si8::of_value(clamp(self@ - rhs.value(), i8::MIN as int, i8::MAX as int))
    }
}

impl<R: Integer> SubAssign<R> for Si8 {
    fn sub_assign(&mut self, rhs: R)
        ensures
            final(self)@ == clamp(old(self)@ - rhs.value(), i8::MIN as int, i8::MAX as int),
    {
        *self = *self - rhs;
    }
}

impl<R: SignedInteger> Mul<R> for Si8 {
    type Output = Si8;

    fn mul(self, rhs: R) -> (r: Si8)
        ensures
            r@ == clamp(self@ * rhs.value(), i8::MIN as int, i8::MAX as int),
    {
        let (a_negative, a) = self.magnitude();
        let (b_negative, b) = rhs.magnitude();
        let (negative, m) = mul_magnitudes(a_negative, a, b_negative, b);
        proof {
            lemma_represents_clamp(negative, m, self@ * rhs.value(), i8::MIN as int, i8::MAX as int);
        }
        let r = Si8::from_magnitude(negative, m);
        proof {
            r.lemma_value();
        }
        r
    }
}

impl<R: SignedInteger> MulSpecImpl<R> for Si8 {
    open spec fn obeys_mul_spec() -> bool {
        true
    }

    open spec fn mul_req(self, rhs: R) -> bool {
        true
    }

    open spec fn mul_spec(self, rhs: R) -> Si8 {
        Si8::of_value(clamp(self@ * rhs.value(), i8::MIN as int, i8::MAX as int))
    }
}

impl<R: SignedInteger> MulAssign<R> for Si8 {
    fn mul_assign(&mut self, rhs: R)
        ensures
            final(self)@ == clamp(old(self)@ * rhs.value(), i8::MIN as int, i8::MAX as int),
    {
        *self = *self * rhs;
    }
}

impl<R: SignedInteger> TryDiv<R> for Si8 {
    type Output = Si8;

    fn try_div(self, rhs: R) -> (r: Result<Si8, DivError>)
        ensures
            rhs.value() == 0 ==> r == Err::<Si8, DivError>(DivError::DivisionByZero),
            rhs.value() != 0 ==> (r matches Ok(q) && q@ == clamp(trunc_div(self@, rhs.value()), i8::MIN as int, i8::MAX as int)),
    {
        proof {
            self.lemma_value();
            rhs.lemma_value();
        }
        let (b_negative, b) = rhs.magnitude();
        if b == 0 {
            return Err(DivError::DivisionByZero);
        }
        let (a_negative, a) = self.magnitude();
        let (negative, m) = div_magnitudes(a_negative, a, b_negative, b);
        Ok(Si8::from_magnitude(negative, m))
    }
}

impl<R: SignedInteger> TryDivAssign<R> for Si8 {
    fn try_div_assign(&mut self, rhs: R) -> (r: Result<(), DivError>)
        ensures
            rhs.value() == 0 ==> r == Err::<(), DivError>(DivError::DivisionByZero) && *final(self) == *old(self),
            rhs.value() != 0 ==> r is Ok && final(self)@ == clamp(trunc_div(old(self)@, rhs.value()), i8::MIN as int, i8::MAX as int),
    {
        match (*self).try_div(rhs) {
            Ok(q) => {
                *self = q;
                Ok(())
            },
            Err(e) => Err(e),
        }
    }
}

impl<R: SignedInteger> TryRem<R> for Si8 {
    type Output = Si8;

    fn try_rem(self, rhs: R) -> (r: Result<Si8, DivError>)
        ensures
            rhs.value() == 0 ==> r == Err::<Si8, DivError>(DivError::DivisionByZero),
            rhs.value() != 0 && self@ == i128::MIN && rhs.value() == -1 ==> r == Err::<Si8, DivError>(
                DivError::Overflow,
            ),
            rhs.value() != 0 && !(self@ == i128::MIN && rhs.value() == -1) ==> (r matches Ok(x) && x@ == trunc_rem(self@, rhs.value())),
    {
        proof {
            self.lemma_value();
            rhs.lemma_value();
        }
        let (b_negative, b) = rhs.magnitude();
        if b == 0 {
            return Err(DivError::DivisionByZero);
        }
        let (a_negative, a) = self.magnitude();
        let (negative, m) = rem_magnitudes(a_negative, a, b_negative, b);
        Ok(Si8::from_magnitude(negative, m))
    }
}

impl<R: SignedInteger> TryRemAssign<R> for Si8 {
    fn try_rem_assign(&mut self, rhs: R) -> (r: Result<(), DivError>)
        ensures
            rhs.value() == 0 ==> r == Err::<(), DivError>(DivError::DivisionByZero) && *final(self) == *old(self),
            rhs.value() != 0 && old(self)@ == i128::MIN && rhs.value() == -1 ==> r == Err::<(), DivError>(
                DivError::Overflow,
            ) && *final(self) == *old(self),
            rhs.value() != 0 && !(old(self)@ == i128::MIN && rhs.value() == -1) ==> r is Ok && final(self)@
                == trunc_rem(old(self)@, rhs.value()),
    {
        match (*self).try_rem(rhs) {
            Ok(x) => {
                *self = x;
                Ok(())
            },
            Err(e) => Err(e),
        }
    }
}

impl<R: SignedInteger> Div<R> for Si8 {
    type Output = Si8;

    /// Divides `self` by `rhs`, saturating at the numeric bounds. Division by zero
    /// panics, as it does for the primitive integers.
    fn div(self, rhs: R) -> (r: Si8)
        ensures
            r@ == clamp(trunc_div(self@, rhs.value()), i8::MIN as int, i8::MAX as int),
    {
        proof {
            self.lemma_value();
            rhs.lemma_value();
        }
        let (a_negative, a) = self.magnitude();
        let (b_negative, b) = rhs.magnitude();
        let (negative, m) = div_magnitudes(a_negative, a, b_negative, b);
        let r = Si8::from_magnitude(negative, m);
        proof {
            r.lemma_value();
        }
        r
    }
}

impl<R: SignedInteger> DivSpecImpl<R> for Si8 {
    open spec fn obeys_div_spec() -> bool {
        true
    }

    open spec fn div_req(self, rhs: R) -> bool {
        rhs.value() != 0
    }

    open spec fn div_spec(self, rhs: R) -> Si8 {
        Si8::of_value(clamp(trunc_div(self@, rhs.value()), i8::MIN as int, i8::MAX as int))
    }
}

impl<R: SignedInteger> DivAssign<R> for Si8 {
    /// Divides `self` by `rhs` in place; a zero divisor leaves `self` unchanged.
    fn div_assign(&mut self, rhs: R)
        ensures
            rhs.value() == 0 ==> *final(self) == *old(self),
            rhs.value() != 0 ==> final(self)@ == clamp(trunc_div(old(self)@, rhs.value()), i8::MIN as int, i8::MAX as int),
    {
        if let Ok(q) = (*self).try_div(rhs) {
            *self = q;
        }
    }
}

impl<R: SignedInteger> Rem<R> for Si8 {
    type Output = Si8;

    /// The remainder of dividing `self` by `rhs`. A zero divisor panics, as it does
    /// for the primitive integers.
    fn rem(self, rhs: R) -> (r: Si8)
        ensures
            r@ == trunc_rem(self@, rhs.value()),
    {
        proof {
            self.lemma_value();
            rhs.lemma_value();
        }
        let (a_negative, a) = self.magnitude();
        let (b_negative, b) = rhs.magnitude();
        let (negative, m) = rem_magnitudes(a_negative, a, b_negative, b);
        let r = Si8::from_magnitude(negative, m);
        proof {
            r.lemma_value();
        }
        r
    }
}

impl<R: SignedInteger> RemSpecImpl<R> for Si8 {
    open spec fn obeys_rem_spec() -> bool {
        true
    }

    open spec fn rem_req(self, rhs: R) -> bool {
        rhs.value() != 0 && !(self@ == i128::MIN && rhs.value() == -1)
    }

    open spec fn rem_spec(self, rhs: R) -> Si8 {
        Si8::of_value(trunc_rem(self@, rhs.value()))
    }
}

impl<R: SignedInteger> RemAssign<R> for Si8 {
    /// Replaces `self` by the remainder of dividing it by `rhs`; where that fails
    /// (see [`TryRem`]) `self` is left unchanged.
    fn rem_assign(&mut self, rhs: R)
        ensures
            rhs.value() == 0 || (old(self)@ == i128::MIN && rhs.value() == -1) ==> *final(self) == *old(self),
            rhs.value() != 0 && !(old(self)@ == i128::MIN && rhs.value() == -1) ==> final(self)@ == trunc_rem(old(self)@, rhs.value()),
    {
        if let Ok(x) = (*self).try_rem(rhs) {
            *self = x;
        }
    }
}

impl Shl<u32> for Si8 {
    type Output = Si8;

    fn shl(self, rhs: u32) -> (r: Si8)
        ensures
            r@ == (clamp(self@ * pow2(rhs as nat), i8::MIN as int, i8::MAX as int)),
    {
        let (negative, a) = self.magnitude();
        let m = shl_magnitudes(negative, a, rhs);
        proof {
            lemma_represents_clamp(negative, m, self@ * pow2(rhs as nat), i8::MIN as int, i8::MAX as int);
        }
        let r = Si8::from_magnitude(negative, m);
        proof {
            r.lemma_value();
        }
        r
    }
}

impl ShlSpecImpl<u32> for Si8 {
    open spec fn obeys_shl_spec() -> bool {
        true
    }

    open spec fn shl_req(self, rhs: u32) -> bool {
        true
    }

    open spec fn shl_spec(self, rhs: u32) -> Si8 {
        Si8::of_value(clamp(self@ * pow2(rhs as nat), i8::MIN as int, i8::MAX as int))
    }
}

impl ShlAssign<u32> for Si8 {
    fn shl_assign(&mut self, rhs: u32)
        ensures
            final(self)@ == (clamp(old(self)@ * pow2(rhs as nat), i8::MIN as int, i8::MAX as int)),
    {
        *self = *self << rhs;
    }
}

impl Shr<u32> for Si8 {
    type Output = Si8;

    fn shr(self, rhs: u32) -> (r: Si8)
        ensures
            r@ == self@ / (pow2(rhs as nat) as int),
    {
        let (negative, a) = self.magnitude();
        let (n, m) = shr_magnitudes(negative, a, rhs);
        proof {
            vstd::arithmetic::power2::lemma_pow2_pos(rhs as nat);
            self.lemma_value();
            vstd::arithmetic::div_mod::lemma_div_is_ordered(i8::MIN as int, self@, pow2(rhs as nat) as int);
            vstd::arithmetic::div_mod::lemma_div_is_ordered(self@, i8::MAX as int, pow2(rhs as nat) as int);
            lemma_div_by_power_within(i8::MIN as int, pow2(rhs as nat) as int);
            lemma_div_by_power_within(i8::MAX as int, pow2(rhs as nat) as int);
        }
        let r = Si8::from_magnitude(n, m);
        proof {
            r.lemma_value();
        }
        r
    }
}

impl ShrSpecImpl<u32> for Si8 {
    open spec fn obeys_shr_spec() -> bool {
        true
    }

    open spec fn shr_req(self, rhs: u32) -> bool {
        true
    }

    open spec fn shr_spec(self, rhs: u32) -> Si8 {
        Si8::of_value(self@ / (pow2(rhs as nat) as int))
    }
}

impl ShrAssign<u32> for Si8 {
    fn shr_assign(&mut self, rhs: u32)
        ensures
            final(self)@ == old(self)@ / (pow2(rhs as nat) as int),
    {
        *self = *self >> rhs;
    }
}

impl Neg for Si8 {
    type Output = Si8;

    fn neg(self) -> (r: Si8)
        ensures
            r@ == clamp(-self@, i8::MIN as int, i8::MAX as int),
    {
        let (negative, a) = self.magnitude();
        let r = Si8::from_magnitude(!negative, a);
        proof {
            r.lemma_value();
        }
        r
    }
}

impl NegSpecImpl for Si8 {
    open spec fn obeys_neg_spec() -> bool {
        true
    }

    open spec fn neg_req(self) -> bool {
        true
    }

    open spec fn neg_spec(self) -> Si8 {
        Si8::of_value(clamp(-self@, i8::MIN as int, i8::MAX as int))
    }
}

impl core::iter::Sum for Si8 {
    /// The items combined from left to right, each partial sum saturating.
    fn sum<I: Iterator<Item = Si8>>(iter: I) -> (r: Si8)
        ensures
            iter.obeys_prophetic_iter_laws() ==> r@ == iter.remaining().fold_left(
                0,
                (|acc: int, x: Si8| clamp(acc + x@, i8::MIN as int, i8::MAX as int)),
            ),
    {
        fold_viewed(iter, Si8::ZERO(), Si8::sum_step, Ghost(|acc: int, x: Si8| clamp(acc + x@, i8::MIN as int, i8::MAX as int)))
    }
}

impl<'a> core::iter::Sum<&'a Si8> for Si8 {
    /// The items combined from left to right, each partial sum saturating.
    fn sum<I: Iterator<Item = &'a Si8>>(iter: I) -> (r: Si8)
        ensures
            iter.obeys_prophetic_iter_laws() ==> r@ == iter.remaining().fold_left(
                0,
                (|acc: int, x: &'a Si8| clamp(acc + x@, i8::MIN as int, i8::MAX as int)),
            ),
    {
        fold_viewed(iter, Si8::ZERO(), Si8::sum_step_by_ref, Ghost(|acc: int, x: &'a Si8| clamp(acc + x@, i8::MIN as int, i8::MAX as int)))
    }
}

impl core::iter::Product for Si8 {
    /// The items combined from left to right, each partial product saturating.
    fn product<I: Iterator<Item = Si8>>(iter: I) -> (r: Si8)
        ensures
            iter.obeys_prophetic_iter_laws() ==> r@ == iter.remaining().fold_left(
                1,
                (|acc: int, x: Si8| clamp(acc * x@, i8::MIN as int, i8::MAX as int)),
            ),
    {
        fold_viewed(iter, Si8::ONE(), Si8::product_step, Ghost(|acc: int, x: Si8| clamp(acc * x@, i8::MIN as int, i8::MAX as int)))
    }
}

impl<'a> core::iter::Product<&'a Si8> for Si8 {
    /// The items combined from left to right, each partial product saturating.
    fn product<I: Iterator<Item = &'a Si8>>(iter: I) -> (r: Si8)
        ensures
            iter.obeys_prophetic_iter_laws() ==> r@ == iter.remaining().fold_left(
                1,
                (|acc: int, x: &'a Si8| clamp(acc * x@, i8::MIN as int, i8::MAX as int)),
            ),
    {
        fold_viewed(iter, Si8::ONE(), Si8::product_step_by_ref, Ghost(|acc: int, x: &'a Si8| clamp(acc * x@, i8::MIN as int, i8::MAX as int)))
    }
}

impl Si8 {
    /// One step of [`Sum::sum`](core::iter::Sum::sum).
    fn sum_step(a: Si8, b: Si8) -> (c: Si8)
        ensures
            c@ == clamp(a@ + b@, i8::MIN as int, i8::MAX as int),
    {
        a + b
    }

    /// One step of [`Sum::sum`](core::iter::Sum::sum).
    fn sum_step_by_ref(a: Si8, b: &Si8) -> (c: Si8)
        ensures
            c@ == clamp(a@ + b@, i8::MIN as int, i8::MAX as int),
    {
        a + *b
    }

    /// One step of [`Product::product`](core::iter::Product::product).
    fn product_step(a: Si8, b: Si8) -> (c: Si8)
        ensures
            c@ == clamp(a@ * b@, i8::MIN as int, i8::MAX as int),
    {
        a * b
    }

    /// One step of [`Product::product`](core::iter::Product::product).
    fn product_step_by_ref(a: Si8, b: &Si8) -> (c: Si8)
        ensures
            c@ == clamp(a@ * b@, i8::MIN as int, i8::MAX as int),
    {
        a * *b
    }
}

impl<R: Integer> Add<R> for Si16 {
    type Output = Si16;

    fn add(self, rhs: R) -> (r: Si16)
        ensures
            r@ == clamp(self@ + rhs.value(), i16::MIN as int, i16::MAX as int),
    {
        let (a_negative, a) = self.magnitude();
        let (b_negative, b) = rhs.magnitude();
        let (negative, m) = add_magnitudes(a_negative, a, b_negative, b);
        proof {
            lemma_represents_clamp(negative, m, self@ + rhs.value(), i16::MIN as int, i16::MAX as int);
        }
        let r = Si16::from_magnitude(negative, m);
        proof {
            r.lemma_value();
        }
        r
    }
}

impl<R: Integer> AddSpecImpl<R> for Si16 {
    open spec fn obeys_add_spec() -> bool {
        true
    }

    open spec fn add_req(self, rhs: R) -> bool {
        true
    }

    open spec fn add_spec(self, rhs: R) -> Si16 {
        Si16::of_value(clamp(self@ + rhs.value(), i16::MIN as int, i16::MAX as int))
    }
}

impl<R: Integer> AddAssign<R> for Si16 {
    fn add_assign(&mut self, rhs: R)
        ensures
            final(self)@ == clamp(old(self)@ + rhs.value(), i16::MIN as int, i16::MAX as int),
    {
        *self = *self + rhs;
    }
}

impl<R: Integer> Sub<R> for Si16 {
    type Output = Si16;

    fn sub(self, rhs: R) -> (r: Si16)
        ensures
            r@ == clamp(self@ - rhs.value(), i16::MIN as int, i16::MAX as int),
    {
        let (a_negative, a) = self.magnitude();
        let (b_negative, b) = rhs.magnitude();
        let (negative, m) = add_magnitudes(a_negative, a, !b_negative, b);
        proof {
            lemma_represents_clamp(negative, m, self@ - rhs.value(), i16::MIN as int, i16::MAX as int);
        }
        let r = Si16::from_magnitude(negative, m);
        proof {
            r.lemma_value();
        }
        r
    }
}

impl<R: Integer> SubSpecImpl<R> for Si16 {
    open spec fn obeys_sub_spec() -> bool {
        true
    }

    open spec fn sub_req(self, rhs: R) -> bool {
        true
    }

    open spec fn sub_spec(self, rhs: R) -> Si16 {
        Si16::of_value(clamp(self@ - rhs.value(), i16::MIN as int, i16::MAX as int))
    }
}

impl<R: Integer> SubAssign<R> for Si16 {
    fn sub_assign(&mut self, rhs: R)
        ensures
            final(self)@ == clamp(old(self)@ - rhs.value(), i16::MIN as int, i16::MAX as int),
    {
        *self = *self - rhs;
    }
}

impl<R: SignedInteger> Mul<R> for Si16 {
    type Output = Si16;

    fn mul(self, rhs: R) -> (r: Si16)
        ensures
            r@ == clamp(self@ * rhs.value(), i16::MIN as int, i16::MAX as int),
    {
        let (a_negative, a) = self.magnitude();
        let (b_negative, b) = rhs.magnitude();
        let (negative, m) = mul_magnitudes(a_negative, a, b_negative, b);
        proof {
            lemma_represents_clamp(negative, m, self@ * rhs.value(), i16::MIN as int, i16::MAX as int);
        }
        let r = Si16::from_magnitude(negative, m);
        proof {
            r.lemma_value();
        }
        r
    }
}

impl<R: SignedInteger> MulSpecImpl<R> for Si16 {
    open spec fn obeys_mul_spec() -> bool {
        true
    }

    open spec fn mul_req(self, rhs: R) -> bool {
        true
    }

    open spec fn mul_spec(self, rhs: R) -> Si16 {
        Si16::of_value(clamp(self@ * rhs.value(), i16::MIN as int, i16::MAX as int))
    }
}

impl<R: SignedInteger> MulAssign<R> for Si16 {
    fn mul_assign(&mut self, rhs: R)
        ensures
            final(self)@ == clamp(old(self)@ * rhs.value(), i16::MIN as int, i16::MAX as int),
    {
        *self = *self * rhs;
    }
}

impl<R: SignedInteger> TryDiv<R> for Si16 {
    type Output = Si16;

    fn try_div(self, rhs: R) -> (r: Result<Si16, DivError>)
        ensures
            rhs.value() == 0 ==> r == Err::<Si16, DivError>(DivError::DivisionByZero),
            rhs.value() != 0 ==> (r matches Ok(q) && q@ == clamp(trunc_div(self@, rhs.value()), i16::MIN as int, i16::MAX as int)),
    {
        proof {
            self.lemma_value();
            rhs.lemma_value();
        }
        let (b_negative, b) = rhs.magnitude();
        if b == 0 {
            return Err(DivError::DivisionByZero);
        }
        let (a_negative, a) = self.magnitude();
        let (negative, m) = div_magnitudes(a_negative, a, b_negative, b);
        Ok(Si16::from_magnitude(negative, m))
    }
}

impl<R: SignedInteger> TryDivAssign<R> for Si16 {
    fn try_div_assign(&mut self, rhs: R) -> (r: Result<(), DivError>)
        ensures
            rhs.value() == 0 ==> r == Err::<(), DivError>(DivError::DivisionByZero) && *final(self) == *old(self),
            rhs.value() != 0 ==> r is Ok && final(self)@ == clamp(trunc_div(old(self)@, rhs.value()), i16::MIN as int, i16::MAX as int),
    {
        match (*self).try_div(rhs) {
            Ok(q) => {
                *self = q;
                Ok(())
            },
            Err(e) => Err(e),
        }
    }
}

impl<R: SignedInteger> TryRem<R> for Si16 {
    type Output = Si16;

    fn try_rem(self, rhs: R) -> (r: Result<Si16, DivError>)
        ensures
            rhs.value() == 0 ==> r == Err::<Si16, DivError>(DivError::DivisionByZero),
            rhs.value() != 0 && self@ == i128::MIN && rhs.value() == -1 ==> r == Err::<Si16, DivError>(
                DivError::Overflow,
            ),
            rhs.value() != 0 && !(self@ == i128::MIN && rhs.value() == -1) ==> (r matches Ok(x) && x@ == trunc_rem(self@, rhs.value())),
    {
        proof {
            self.lemma_value();
            rhs.lemma_value();
        }
        let (b_negative, b) = rhs.magnitude();
        if b == 0 {
            return Err(DivError::DivisionByZero);
        }
        let (a_negative, a) = self.magnitude();
        let (negative, m) = rem_magnitudes(a_negative, a, b_negative, b);
        Ok(Si16::from_magnitude(negative, m))
    }
}

impl<R: SignedInteger> TryRemAssign<R> for Si16 {
    fn try_rem_assign(&mut self, rhs: R) -> (r: Result<(), DivError>)
        ensures
            rhs.value() == 0 ==> r == Err::<(), DivError>(DivError::DivisionByZero) && *final(self) == *old(self),
            rhs.value() != 0 && old(self)@ == i128::MIN && rhs.value() == -1 ==> r == Err::<(), DivError>(
                DivError::Overflow,
            ) && *final(self) == *old(self),
            rhs.value() != 0 && !(old(self)@ == i128::MIN && rhs.value() == -1) ==> r is Ok && final(self)@
                == trunc_rem(old(self)@, rhs.value()),
    {
        match (*self).try_rem(rhs) {
            Ok(x) => {
                *self = x;
                Ok(())
            },
            Err(e) => Err(e),
        }
    }
}

impl<R: SignedInteger> Div<R> for Si16 {
    type Output = Si16;

    /// Divides `self` by `rhs`, saturating at the numeric bounds. Division by zero
    /// panics, as it does for the primitive integers.
    fn div(self, rhs: R) -> (r: Si16)
        ensures
            r@ == clamp(trunc_div(self@, rhs.value()), i16::MIN as int, i16::MAX as int),
    {
        proof {
            self.lemma_value();
            rhs.lemma_value();
        }
        let (a_negative, a) = self.magnitude();
        let (b_negative, b) = rhs.magnitude();
        let (negative, m) = div_magnitudes(a_negative, a, b_negative, b);
        let r = Si16::from_magnitude(negative, m);
        proof {
            r.lemma_value();
        }
        r
    }
}

impl<R: SignedInteger> DivSpecImpl<R> for Si16 {
    open spec fn obeys_div_spec() -> bool {
        true
    }

    open spec fn div_req(self, rhs: R) -> bool {
        rhs.value() != 0
    }

    open spec fn div_spec(self, rhs: R) -> Si16 {
        Si16::of_value(clamp(trunc_div(self@, rhs.value()), i16::MIN as int, i16::MAX as int))
    }
}

impl<R: SignedInteger> DivAssign<R> for Si16 {
    /// Divides `self` by `rhs` in place; a zero divisor leaves `self` unchanged.
    fn div_assign(&mut self, rhs: R)
        ensures
            rhs.value() == 0 ==> *final(self) == *old(self),
            rhs.value() != 0 ==> final(self)@ == clamp(trunc_div(old(self)@, rhs.value()), i16::MIN as int, i16::MAX as int),
    {
        if let Ok(q) = (*self).try_div(rhs) {
            *self = q;
        }
    }
}

impl<R: SignedInteger> Rem<R> for Si16 {
    type Output = Si16;

    /// The remainder of dividing `self` by `rhs`. A zero divisor panics, as it does
    /// for the primitive integers.
    fn rem(self, rhs: R) -> (r: Si16)
        ensures
            r@ == trunc_rem(self@, rhs.value()),
    {
        proof {
            self.lemma_value();
            rhs.lemma_value();
        }
        let (a_negative, a) = self.magnitude();
        let (b_negative, b) = rhs.magnitude();
        let (negative, m) = rem_magnitudes(a_negative, a, b_negative, b);
        let r = Si16::from_magnitude(negative, m);
        proof {
            r.lemma_value();
        }
        r
    }
}

impl<R: SignedInteger> RemSpecImpl<R> for Si16 {
    open spec fn obeys_rem_spec() -> bool {
        true
    }

    open spec fn rem_req(self, rhs: R) -> bool {
        rhs.value() != 0 && !(self@ == i128::MIN && rhs.value() == -1)
    }

    open spec fn rem_spec(self, rhs: R) -> Si16 {
        Si16::of_value(trunc_rem(self@, rhs.value()))
    }
}

impl<R: SignedInteger> RemAssign<R> for Si16 {
    /// Replaces `self` by the remainder of dividing it by `rhs`; where that fails
    /// (see [`TryRem`]) `self` is left unchanged.
    fn rem_assign(&mut self, rhs: R)
        ensures
            rhs.value() == 0 || (old(self)@ == i128::MIN && rhs.value() == -1) ==> *final(self) == *old(self),
            rhs.value() != 0 && !(old(self)@ == i128::MIN && rhs.value() == -1) ==> final(self)@ == trunc_rem(old(self)@, rhs.value()),
    {
        if let Ok(x) = (*self).try_rem(rhs) {
            *self = x;
        }
    }
}

impl Shl<u32> for Si16 {
    type Output = Si16;

    fn shl(self, rhs: u32) -> (r: Si16)
        ensures
            r@ == (clamp(self@ * pow2(rhs as nat), i16::MIN as int, i16::MAX as int)),
    {
        let (negative, a) = self.magnitude();
        let m = shl_magnitudes(negative, a, rhs);
        proof {
            lemma_represents_clamp(negative, m, self@ * pow2(rhs as nat), i16::MIN as int, i16::MAX as int);
        }
        let r = Si16::from_magnitude(negative, m);
        proof {
            r.lemma_value();
        }
        r
    }
}

impl ShlSpecImpl<u32> for Si16 {
    open spec fn obeys_shl_spec() -> bool {
        true
    }

    open spec fn shl_req(self, rhs: u32) -> bool {
        true
    }

    open spec fn shl_spec(self, rhs: u32) -> Si16 {
        Si16::of_value(clamp(self@ * pow2(rhs as nat), i16::MIN as int, i16::MAX as int))
    }
}

impl ShlAssign<u32> for Si16 {
    fn shl_assign(&mut self, rhs: u32)
        ensures
            final(self)@ == (clamp(old(self)@ * pow2(rhs as nat), i16::MIN as int, i16::MAX as int)),
    {
        *self = *self << rhs;
    }
}

impl Shr<u32> for Si16 {
    type Output = Si16;

    fn shr(self, rhs: u32) -> (r: Si16)
        ensures
            r@ == self@ / (pow2(rhs as nat) as int),
    {
        let (negative, a) = self.magnitude();
        let (n, m) = shr_magnitudes(negative, a, rhs);
        proof {
            vstd::arithmetic::power2::lemma_pow2_pos(rhs as nat);
            self.lemma_value();
            vstd::arithmetic::div_mod::lemma_div_is_ordered(i16::MIN as int, self@, pow2(rhs as nat) as int);
            vstd::arithmetic::div_mod::lemma_div_is_ordered(self@, i16::MAX as int, pow2(rhs as nat) as int);
            lemma_div_by_power_within(i16::MIN as int, pow2(rhs as nat) as int);
            lemma_div_by_power_within(i16::MAX as int, pow2(rhs as nat) as int);
        }
        let r = Si16::from_magnitude(n, m);
        proof {
            r.lemma_value();
        }
        r
    }
}

impl ShrSpecImpl<u32> for Si16 {
    open spec fn obeys_shr_spec() -> bool {
        true
    }

    open spec fn shr_req(self, rhs: u32) -> bool {
        true
    }

    open spec fn shr_spec(self, rhs: u32) -> Si16 {
        Si16::of_value(self@ / (pow2(rhs as nat) as int))
    }
}

impl ShrAssign<u32> for Si16 {
    fn shr_assign(&mut self, rhs: u32)
        ensures
            final(self)@ == old(self)@ / (pow2(rhs as nat) as int),
    {
        *self = *self >> rhs;
    }
}

impl Neg for Si16 {
    type Output = Si16;

    fn neg(self) -> (r: Si16)
        ensures
            r@ == clamp(-self@, i16::MIN as int, i16::MAX as int),
    {
        let (negative, a) = self.magnitude();
        let r = Si16::from_magnitude(!negative, a);
        proof {
            r.lemma_value();
        }
        r
    }
}

impl NegSpecImpl for Si16 {
    open spec fn obeys_neg_spec() -> bool {
        true
    }

    open spec fn neg_req(self) -> bool {
        true
    }

    open spec fn neg_spec(self) -> Si16 {
        Si16::of_value(clamp(-self@, i16::MIN as int, i16::MAX as int))
    }
}

impl core::iter::Sum for Si16 {
    /// The items combined from left to right, each partial sum saturating.
    fn sum<I: Iterator<Item = Si16>>(iter: I) -> (r: Si16)
        ensures
            iter.obeys_prophetic_iter_laws() ==> r@ == iter.remaining().fold_left(
                0,
                (|acc: int, x: Si16| clamp(acc + x@, i16::MIN as int, i16::MAX as int)),
            ),
    {
        fold_viewed(iter, Si16::ZERO(), Si16::sum_step, Ghost(|acc: int, x: Si16| clamp(acc + x@, i16::MIN as int, i16::MAX as int)))
    }
}

impl<'a> core::iter::Sum<&'a Si16> for Si16 {
    /// The items combined from left to right, each partial sum saturating.
    fn sum<I: Iterator<Item = &'a Si16>>(iter: I) -> (r: Si16)
        ensures
            iter.obeys_prophetic_iter_laws() ==> r@ == iter.remaining().fold_left(
                0,
                (|acc: int, x: &'a Si16| clamp(acc + x@, i16::MIN as int, i16::MAX as int)),
            ),
    {
        fold_viewed(iter, Si16::ZERO(), Si16::sum_step_by_ref, Ghost(|acc: int, x: &'a Si16| clamp(acc + x@, i16::MIN as int, i16::MAX as int)))
    }
}

impl core::iter::Product for Si16 {
    /// The items combined from left to right, each partial product saturating.
    fn product<I: Iterator<Item = Si16>>(iter: I) -> (r: Si16)
        ensures
            iter.obeys_prophetic_iter_laws() ==> r@ == iter.remaining().fold_left(
                1,
                (|acc: int, x: Si16| clamp(acc * x@, i16::MIN as int, i16::MAX as int)),
            ),
    {
        fold_viewed(iter, Si16::ONE(), Si16::product_step, Ghost(|acc: int, x: Si16| clamp(acc * x@, i16::MIN as int, i16::MAX as int)))
    }
}

impl<'a> core::iter::Product<&'a Si16> for Si16 {
    /// The items combined from left to right, each partial product saturating.
    fn product<I: Iterator<Item = &'a Si16>>(iter: I) -> (r: Si16)
        ensures
            iter.obeys_prophetic_iter_laws() ==> r@ == iter.remaining().fold_left(
                1,
                (|acc: int, x: &'a Si16| clamp(acc * x@, i16::MIN as int, i16::MAX as int)),
            ),
    {
        fold_viewed(iter, Si16::ONE(), Si16::product_step_by_ref, Ghost(|acc: int, x: &'a Si16| clamp(acc * x@, i16::MIN as int, i16::MAX as int)))
    }
}

impl Si16 {
    /// One step of [`Sum::sum`](core::iter::Sum::sum).
    fn sum_step(a: Si16, b: Si16) -> (c: Si16)
        ensures
            c@ == clamp(a@ + b@, i16::MIN as int, i16::MAX as int),
    {
        a + b
    }

    /// One step of [`Sum::sum`](core::iter::Sum::sum).
    fn sum_step_by_ref(a: Si16, b: &Si16) -> (c: Si16)
        ensures
            c@ == clamp(a@ + b@, i16::MIN as int, i16::MAX as int),
    {
        a + *b
    }

    /// One step of [`Product::product`](core::iter::Product::product).
    fn product_step(a: Si16, b: Si16) -> (c: Si16)
        ensures
            c@ == clamp(a@ * b@, i16::MIN as int, i16::MAX as int),
    {
        a * b
    }

    /// One step of [`Product::product`](core::iter::Product::product).
    fn product_step_by_ref(a: Si16, b: &Si16) -> (c: Si16)
        ensures
            c@ == clamp(a@ * b@, i16::MIN as int, i16::MAX as int),
    {
        a * *b
    }
}

impl<R: Integer> Add<R> for Si32 {
    type Output = Si32;

    fn add(self, rhs: R) -> (r: Si32)
        ensures
            r@ == clamp(self@ + rhs.value(), i32::MIN as int, i32::MAX as int),
    {
        let (a_negative, a) = self.magnitude();
        let (b_negative, b) = rhs.magnitude();
        let (negative, m) = add_magnitudes(a_negative, a, b_negative, b);
        proof {
            lemma_represents_clamp(negative, m, self@ + rhs.value(), i32::MIN as int, i32::MAX as int);
        }
        let r = Si32::from_magnitude(negative, m);
        proof {
            r.lemma_value();
        }
        r
    }
}

impl<R: Integer> AddSpecImpl<R> for Si32 {
    open spec fn obeys_add_spec() -> bool {
        true
    }

    open spec fn add_req(self, rhs: R) -> bool {
        true
    }

    open spec fn add_spec(self, rhs: R) -> Si32 {
        Si32::of_value(clamp(self@ + rhs.value(), i32::MIN as int, i32::MAX as int))
    }
}

impl<R: Integer> AddAssign<R> for Si32 {
    fn add_assign(&mut self, rhs: R)
        ensures
            final(self)@ == clamp(old(self)@ + rhs.value(), i32::MIN as int, i32::MAX as int),
    {
        *self = *self + rhs;
    }
}

impl<R: Integer> Sub<R> for Si32 {
    type Output = Si32;

    fn sub(self, rhs: R) -> (r: Si32)
        ensures
            r@ == clamp(self@ - rhs.value(), i32::MIN as int, i32::MAX as int),
    {
        let (a_negative, a) = self.magnitude();
        let (b_negative, b) = rhs.magnitude();
        let (negative, m) = add_magnitudes(a_negative, a, !b_negative, b);
        proof {
            lemma_represents_clamp(negative, m, self@ - rhs.value(), i32::MIN as int, i32::MAX as int);
        }
        let r = Si32::from_magnitude(negative, m);
        proof {
            r.lemma_value();
        }
        r
    }
}

impl<R: Integer> SubSpecImpl<R> for Si32 {
    open spec fn obeys_sub_spec() -> bool {
        true
    }

    open spec fn sub_req(self, rhs: R) -> bool {
        true
    }

    open spec fn sub_spec(self, rhs: R) -> Si32 {
        Si32::of_value(clamp(self@ - rhs.value(), i32::MIN as int, i32::MAX as int))
    }
}

impl<R: Integer> SubAssign<R> for Si32 {
    fn sub_assign(&mut self, rhs: R)
        ensures
            final(self)@ == clamp(old(self)@ - rhs.value(), i32::MIN as int, i32::MAX as int),
    {
        *self = *self - rhs;
    }
}

impl<R: SignedInteger> Mul<R> for Si32 {
    type Output = Si32;

    fn mul(self, rhs: R) -> (r: Si32)
        ensures
            r@ == clamp(self@ * rhs.value(), i32::MIN as int, i32::MAX as int),
    {
        let (a_negative, a) = self.magnitude();
        let (b_negative, b) = rhs.magnitude();
        let (negative, m) = mul_magnitudes(a_negative, a, b_negative, b);
        proof {
            lemma_represents_clamp(negative, m, self@ * rhs.value(), i32::MIN as int, i32::MAX as int);
        }
        let r = Si32::from_magnitude(negative, m);
        proof {
            r.lemma_value();
        }
        r
    }
}

impl<R: SignedInteger> MulSpecImpl<R> for Si32 {
    open spec fn obeys_mul_spec() -> bool {
        true
    }

    open spec fn mul_req(self, rhs: R) -> bool {
        true
    }

    open spec fn mul_spec(self, rhs: R) -> Si32 {
        Si32::of_value(clamp(self@ * rhs.value(), i32::MIN as int, i32::MAX as int))
    }
}

impl<R: SignedInteger> MulAssign<R> for Si32 {
    fn mul_assign(&mut self, rhs: R)
        ensures
            final(self)@ == clamp(old(self)@ * rhs.value(), i32::MIN as int, i32::MAX as int),
    {
        *self = *self * rhs;
    }
}

impl<R: SignedInteger> TryDiv<R> for Si32 {
    type Output = Si32;

    fn try_div(self, rhs: R) -> (r: Result<Si32, DivError>)
        ensures
            rhs.value() == 0 ==> r == Err::<Si32, DivError>(DivError::DivisionByZero),
            rhs.value() != 0 ==> (r matches Ok(q) && q@ == clamp(trunc_div(self@, rhs.value()), i32::MIN as int, i32::MAX as int)),
    {
        proof {
            self.lemma_value();
            rhs.lemma_value();
        }
        let (b_negative, b) = rhs.magnitude();
        if b == 0 {
            return Err(DivError::DivisionByZero);
        }
        let (a_negative, a) = self.magnitude();
        let (negative, m) = div_magnitudes(a_negative, a, b_negative, b);
        Ok(Si32::from_magnitude(negative, m))
    }
}

impl<R: SignedInteger> TryDivAssign<R> for Si32 {
    fn try_div_assign(&mut self, rhs: R) -> (r: Result<(), DivError>)
        ensures
            rhs.value() == 0 ==> r == Err::<(), DivError>(DivError::DivisionByZero) && *final(self) == *old(self),
            rhs.value() != 0 ==> r is Ok && final(self)@ == clamp(trunc_div(old(self)@, rhs.value()), i32::MIN as int, i32::MAX as int),
    {
        match (*self).try_div(rhs) {
            Ok(q) => {
                *self = q;
                Ok(())
            },
            Err(e) => Err(e),
        }
    }
}

impl<R: SignedInteger> TryRem<R> for Si32 {
    type Output = Si32;

    fn try_rem(self, rhs: R) -> (r: Result<Si32, DivError>)
        ensures
            rhs.value() == 0 ==> r == Err::<Si32, DivError>(DivError::DivisionByZero),
            rhs.value() != 0 && self@ == i128::MIN && rhs.value() == -1 ==> r == Err::<Si32, DivError>(
                DivError::Overflow,
            ),
            rhs.value() != 0 && !(self@ == i128::MIN && rhs.value() == -1) ==> (r matches Ok(x) && x@ == trunc_rem(self@, rhs.value())),
    {
        proof {
            self.lemma_value();
            rhs.lemma_value();
        }
        let (b_negative, b) = rhs.magnitude();
        if b == 0 {
            return Err(DivError::DivisionByZero);
        }
        let (a_negative, a) = self.magnitude();
        let (negative, m) = rem_magnitudes(a_negative, a, b_negative, b);
        Ok(Si32::from_magnitude(negative, m))
    }
}

impl<R: SignedInteger> TryRemAssign<R> for Si32 {
    fn try_rem_assign(&mut self, rhs: R) -> (r: Result<(), DivError>)
        ensures
            rhs.value() == 0 ==> r == Err::<(), DivError>(DivError::DivisionByZero) && *final(self) == *old(self),
            rhs.value() != 0 && old(self)@ == i128::MIN && rhs.value() == -1 ==> r == Err::<(), DivError>(
                DivError::Overflow,
            ) && *final(self) == *old(self),
            rhs.value() != 0 && !(old(self)@ == i128::MIN && rhs.value() == -1) ==> r is Ok && final(self)@
                == trunc_rem(old(self)@, rhs.value()),
    {
        match (*self).try_rem(rhs) {
            Ok(x) => {
                *self = x;
                Ok(())
            },
            Err(e) => Err(e),
        }
    }
}

impl<R: SignedInteger> Div<R> for Si32 {
    type Output = Si32;

    /// Divides `self` by `rhs`, saturating at the numeric bounds. Division by zero
    /// panics, as it does for the primitive integers.
    fn div(self, rhs: R) -> (r: Si32)
        ensures
            r@ == clamp(trunc_div(self@, rhs.value()), i32::MIN as int, i32::MAX as int),
    {
        proof {
            self.lemma_value();
            rhs.lemma_value();
        }
        let (a_negative, a) = self.magnitude();
        let (b_negative, b) = rhs.magnitude();
        let (negative, m) = div_magnitudes(a_negative, a, b_negative, b);
        let r = Si32::from_magnitude(negative, m);
        proof {
            r.lemma_value();
        }
        r
    }
}

impl<R: SignedInteger> DivSpecImpl<R> for Si32 {
    open spec fn obeys_div_spec() -> bool {
        true
    }

    open spec fn div_req(self, rhs: R) -> bool {
        rhs.value() != 0
    }

    open spec fn div_spec(self, rhs: R) -> Si32 {
        Si32::of_value(clamp(trunc_div(self@, rhs.value()), i32::MIN as int, i32::MAX as int))
    }
}

impl<R: SignedInteger> DivAssign<R> for Si32 {
    /// Divides `self` by `rhs` in place; a zero divisor leaves `self` unchanged.
    fn div_assign(&mut self, rhs: R)
        ensures
            rhs.value() == 0 ==> *final(self) == *old(self),
            rhs.value() != 0 ==> final(self)@ == clamp(trunc_div(old(self)@, rhs.value()), i32::MIN as int, i32::MAX as int),
    {
        if let Ok(q) = (*self).try_div(rhs) {
            *self = q;
        }
    }
}

impl<R: SignedInteger> Rem<R> for Si32 {
    type Output = Si32;

    /// The remainder of dividing `self` by `rhs`. A zero divisor panics, as it does
    /// for the primitive integers.
    fn rem(self, rhs: R) -> (r: Si32)
        ensures
            r@ == trunc_rem(self@, rhs.value()),
    {
        proof {
            self.lemma_value();
            rhs.lemma_value();
        }
        let (a_negative, a) = self.magnitude();
        let (b_negative, b) = rhs.magnitude();
        let (negative, m) = rem_magnitudes(a_negative, a, b_negative, b);
        let r = Si32::from_magnitude(negative, m);
        proof {
            r.lemma_value();
        }
        r
    }
}

impl<R: SignedInteger> RemSpecImpl<R> for Si32 {
    open spec fn obeys_rem_spec() -> bool {
        true
    }

    open spec fn rem_req(self, rhs: R) -> bool {
        rhs.value() != 0 && !(self@ == i128::MIN && rhs.value() == -1)
    }

    open spec fn rem_spec(self, rhs: R) -> Si32 {
        Si32::of_value(trunc_rem(self@, rhs.value()))
    }
}

impl<R: SignedInteger> RemAssign<R> for Si32 {
    /// Replaces `self` by the remainder of dividing it by `rhs`; where that fails
    /// (see [`TryRem`]) `self` is left unchanged.
    fn rem_assign(&mut self, rhs: R)
        ensures
            rhs.value() == 0 || (old(self)@ == i128::MIN && rhs.value() == -1) ==> *final(self) == *old(self),
            rhs.value() != 0 && !(old(self)@ == i128::MIN && rhs.value() == -1) ==> final(self)@ == trunc_rem(old(self)@, rhs.value()),
    {
        if let Ok(x) = (*self).try_rem(rhs) {
            *self = x;
        }
    }
}

impl Shl<u32> for Si32 {
    type Output = Si32;

    fn shl(self, rhs: u32) -> (r: Si32)
        ensures
            r@ == (clamp(self@ * pow2(rhs as nat), i32::MIN as int, i32::MAX as int)),
    {
        let (negative, a) = self.magnitude();
        let m = shl_magnitudes(negative, a, rhs);
        proof {
            lemma_represents_clamp(negative, m, self@ * pow2(rhs as nat), i32::MIN as int, i32::MAX as int);
        }
        let r = Si32::from_magnitude(negative, m);
        proof {
            r.lemma_value();
        }
        r
    }
}

impl ShlSpecImpl<u32> for Si32 {
    open spec fn obeys_shl_spec() -> bool {
        true
    }

    open spec fn shl_req(self, rhs: u32) -> bool {
        true
    }

    open spec fn shl_spec(self, rhs: u32) -> Si32 {
        Si32::of_value(clamp(self@ * pow2(rhs as nat), i32::MIN as int, i32::MAX as int))
    }
}

impl ShlAssign<u32> for Si32 {
    fn shl_assign(&mut self, rhs: u32)
        ensures
            final(self)@ == (clamp(old(self)@ * pow2(rhs as nat), i32::MIN as int, i32::MAX as int)),
    {
        *self = *self << rhs;
    }
}

impl Shr<u32> for Si32 {
    type Output = Si32;

    fn shr(self, rhs: u32) -> (r: Si32)
        ensures
            r@ == self@ / (pow2(rhs as nat) as int),
    {
        let (negative, a) = self.magnitude();
        let (n, m) = shr_magnitudes(negative, a, rhs);
        proof {
            vstd::arithmetic::power2::lemma_pow2_pos(rhs as nat);
            self.lemma_value();
            vstd::arithmetic::div_mod::lemma_div_is_ordered(i32::MIN as int, self@, pow2(rhs as nat) as int);
            vstd::arithmetic::div_mod::lemma_div_is_ordered(self@, i32::MAX as int, pow2(rhs as nat) as int);
            lemma_div_by_power_within(i32::MIN as int, pow2(rhs as nat) as int);
            lemma_div_by_power_within(i32::MAX as int, pow2(rhs as nat) as int);
        }
        let r = Si32::from_magnitude(n, m);
        proof {
            r.lemma_value();
        }
        r
    }
}

impl ShrSpecImpl<u32> for Si32 {
    open spec fn obeys_shr_spec() -> bool {
        true
    }

    open spec fn shr_req(self, rhs: u32) -> bool {
        true
    }

    open spec fn shr_spec(self, rhs: u32) -> Si32 {
        Si32::of_value(self@ / (pow2(rhs as nat) as int))
    }
}

impl ShrAssign<u32> for Si32 {
    fn shr_assign(&mut self, rhs: u32)
        ensures
            final(self)@ == old(self)@ / (pow2(rhs as nat) as int),
    {
        *self = *self >> rhs;
    }
}

impl Neg for Si32 {
    type Output = Si32;

    fn neg(self) -> (r: Si32)
        ensures
            r@ == clamp(-self@, i32::MIN as int, i32::MAX as int),
    {
        let (negative, a) = self.magnitude();
        let r = Si32::from_magnitude(!negative, a);
        proof {
            r.lemma_value();
        }
        r
    }
}

impl NegSpecImpl for Si32 {
    open spec fn obeys_neg_spec() -> bool {
        true
    }

    open spec fn neg_req(self) -> bool {
        true
    }

    open spec fn neg_spec(self) -> Si32 {
        Si32::of_value(clamp(-self@, i32::MIN as int, i32::MAX as int))
    }
}

impl core::iter::Sum for Si32 {
    /// The items combined from left to right, each partial sum saturating.
    fn sum<I: Iterator<Item = Si32>>(iter: I) -> (r: Si32)
        ensures
            iter.obeys_prophetic_iter_laws() ==> r@ == iter.remaining().fold_left(
                0,
                (|acc: int, x: Si32| clamp(acc + x@, i32::MIN as int, i32::MAX as int)),
            ),
    {
        fold_viewed(iter, Si32::ZERO(), Si32::sum_step, Ghost(|acc: int, x: Si32| clamp(acc + x@, i32::MIN as int, i32::MAX as int)))
    }
}

impl<'a> core::iter::Sum<&'a Si32> for Si32 {
    /// The items combined from left to right, each partial sum saturating.
    fn sum<I: Iterator<Item = &'a Si32>>(iter: I) -> (r: Si32)
        ensures
            iter.obeys_prophetic_iter_laws() ==> r@ == iter.remaining().fold_left(
                0,
                (|acc: int, x: &'a Si32| clamp(acc + x@, i32::MIN as int, i32::MAX as int)),
            ),
    {
        fold_viewed(iter, Si32::ZERO(), Si32::sum_step_by_ref, Ghost(|acc: int, x: &'a Si32| clamp(acc + x@, i32::MIN as int, i32::MAX as int)))
    }
}

impl core::iter::Product for Si32 {
    /// The items combined from left to right, each partial product saturating.
    fn product<I: Iterator<Item = Si32>>(iter: I) -> (r: Si32)
        ensures
            iter.obeys_prophetic_iter_laws() ==> r@ == iter.remaining().fold_left(
                1,
                (|acc: int, x: Si32| clamp(acc * x@, i32::MIN as int, i32::MAX as int)),
            ),
    {
        fold_viewed(iter, Si32::ONE(), Si32::product_step, Ghost(|acc: int, x: Si32| clamp(acc * x@, i32::MIN as int, i32::MAX as int)))
    }
}

impl<'a> core::iter::Product<&'a Si32> for Si32 {
    /// The items combined from left to right, each partial product saturating.
    fn product<I: Iterator<Item = &'a Si32>>(iter: I) -> (r: Si32)
        ensures
            iter.obeys_prophetic_iter_laws() ==> r@ == iter.remaining().fold_left(
                1,
                (|acc: int, x: &'a Si32| clamp(acc * x@, i32::MIN as int, i32::MAX as int)),
            ),
    {
        fold_viewed(iter, Si32::ONE(), Si32::product_step_by_ref, Ghost(|acc: int, x: &'a Si32| clamp(acc * x@, i32::MIN as int, i32::MAX as int)))
    }
}

impl Si32 {
    /// One step of [`Sum::sum`](core::iter::Sum::sum).
    fn sum_step(a: Si32, b: Si32) -> (c: Si32)
        ensures
            c@ == clamp(a@ + b@, i32::MIN as int, i32::MAX as int),
    {
        a + b
    }

    /// One step of [`Sum::sum`](core::iter::Sum::sum).
    fn sum_step_by_ref(a: Si32, b: &Si32) -> (c: Si32)
        ensures
            c@ == clamp(a@ + b@, i32::MIN as int, i32::MAX as int),
    {
        a + *b
    }

    /// One step of [`Product::product`](core::iter::Product::product).
    fn product_step(a: Si32, b: Si32) -> (c: Si32)
        ensures
            c@ == clamp(a@ * b@, i32::MIN as int, i32::MAX as int),
    {
        a * b
    }

    /// One step of [`Product::product`](core::iter::Product::product).
    fn product_step_by_ref(a: Si32, b: &Si32) -> (c: Si32)
        ensures
            c@ == clamp(a@ * b@, i32::MIN as int, i32::MAX as int),
    {
        a * *b
    }
}

impl<R: Integer> Add<R> for Si64 {
    type Output = Si64;

    fn add(self, rhs: R) -> (r: Si64)
        ensures
            r@ == clamp(self@ + rhs.value(), i64::MIN as int, i64::MAX as int),
    {
        let (a_negative, a) = self.magnitude();
        let (b_negative, b) = rhs.magnitude();
        let (negative, m) = add_magnitudes(a_negative, a, b_negative, b);
        proof {
            lemma_represents_clamp(negative, m, self@ + rhs.value(), i64::MIN as int, i64::MAX as int);
        }
        let r = Si64::from_magnitude(negative, m);
        proof {
            r.lemma_value();
        }
        r
    }
}

impl<R: Integer> AddSpecImpl<R> for Si64 {
    open spec fn obeys_add_spec() -> bool {
        true
    }

    open spec fn add_req(self, rhs: R) -> bool {
        true
    }

    open spec fn add_spec(self, rhs: R) -> Si64 {
        Si64::of_value(clamp(self@ + rhs.value(), i64::MIN as int, i64::MAX as int))
    }
}

impl<R: Integer> AddAssign<R> for Si64 {
    fn add_assign(&mut self, rhs: R)
        ensures
            final(self)@ == clamp(old(self)@ + rhs.value(), i64::MIN as int, i64::MAX as int),
    {
        *self = *self + rhs;
    }
}

impl<R: Integer> Sub<R> for Si64 {
    type Output = Si64;

    fn sub(self, rhs: R) -> (r: Si64)
        ensures
            r@ == clamp(self@ - rhs.value(), i64::MIN as int, i64::MAX as int),
    {
        let (a_negative, a) = self.magnitude();
        let (b_negative, b) = rhs.magnitude();
        let (negative, m) = add_magnitudes(a_negative, a, !b_negative, b);
        proof {
            lemma_represents_clamp(negative, m, self@ - rhs.value(), i64::MIN as int, i64::MAX as int);
        }
        let r = Si64::from_magnitude(negative, m);
        proof {
            r.lemma_value();
        }
        r
    }
}

impl<R: Integer> SubSpecImpl<R> for Si64 {
    open spec fn obeys_sub_spec() -> bool {
        true
    }

    open spec fn sub_req(self, rhs: R) -> bool {
        true
    }

    open spec fn sub_spec(self, rhs: R) -> Si64 {
        Si64::of_value(clamp(self@ - rhs.value(), i64::MIN as int, i64::MAX as int))
    }
}

impl<R: Integer> SubAssign<R> for Si64 {
    fn sub_assign(&mut self, rhs: R)
        ensures
            final(self)@ == clamp(old(self)@ - rhs.value(), i64::MIN as int, i64::MAX as int),
    {
        *self = *self - rhs;
    }
}

impl<R: SignedInteger> Mul<R> for Si64 {
    type Output = Si64;

    fn mul(self, rhs: R) -> (r: Si64)
        ensures
            r@ == clamp(self@ * rhs.value(), i64::MIN as int, i64::MAX as int),
    {
        let (a_negative, a) = self.magnitude();
        let (b_negative, b) = rhs.magnitude();
        let (negative, m) = mul_magnitudes(a_negative, a, b_negative, b);
        proof {
            lemma_represents_clamp(negative, m, self@ * rhs.value(), i64::MIN as int, i64::MAX as int);
        }
        let r = Si64::from_magnitude(negative, m);
        proof {
            r.lemma_value();
        }
        r
    }
}

impl<R: SignedInteger> MulSpecImpl<R> for Si64 {
    open spec fn obeys_mul_spec() -> bool {
        true
    }

    open spec fn mul_req(self, rhs: R) -> bool {
        true
    }

    open spec fn mul_spec(self, rhs: R) -> Si64 {
        Si64::of_value(clamp(self@ * rhs.value(), i64::MIN as int, i64::MAX as int))
    }
}

impl<R: SignedInteger> MulAssign<R> for Si64 {
    fn mul_assign(&mut self, rhs: R)
        ensures
            final(self)@ == clamp(old(self)@ * rhs.value(), i64::MIN as int, i64::MAX as int),
    {
        *self = *self * rhs;
    }
}

impl<R: SignedInteger> TryDiv<R> for Si64 {
    type Output = Si64;

    fn try_div(self, rhs: R) -> (r: Result<Si64, DivError>)
        ensures
            rhs.value() == 0 ==> r == Err::<Si64, DivError>(DivError::DivisionByZero),
            rhs.value() != 0 ==> (r matches Ok(q) && q@ == clamp(trunc_div(self@, rhs.value()), i64::MIN as int, i64::MAX as int)),
    {
        proof {
            self.lemma_value();
            rhs.lemma_value();
        }
        let (b_negative, b) = rhs.magnitude();
        if b == 0 {
            return Err(DivError::DivisionByZero);
        }
        let (a_negative, a) = self.magnitude();
        let (negative, m) = div_magnitudes(a_negative, a, b_negative, b);
        Ok(Si64::from_magnitude(negative, m))
    }
}

impl<R: SignedInteger> TryDivAssign<R> for Si64 {
    fn try_div_assign(&mut self, rhs: R) -> (r: Result<(), DivError>)
        ensures
            rhs.value() == 0 ==> r == Err::<(), DivError>(DivError::DivisionByZero) && *final(self) == *old(self),
            rhs.value() != 0 ==> r is Ok && final(self)@ == clamp(trunc_div(old(self)@, rhs.value()), i64::MIN as int, i64::MAX as int),
    {
        match (*self).try_div(rhs) {
            Ok(q) => {
                *self = q;
                Ok(())
            },
            Err(e) => Err(e),
        }
    }
}

impl<R: SignedInteger> TryRem<R> for Si64 {
    type Output = Si64;

    fn try_rem(self, rhs: R) -> (r: Result<Si64, DivError>)
        ensures
            rhs.value() == 0 ==> r == Err::<Si64, DivError>(DivError::DivisionByZero),
            rhs.value() != 0 && self@ == i128::MIN && rhs.value() == -1 ==> r == Err::<Si64, DivError>(
                DivError::Overflow,
            ),
            rhs.value() != 0 && !(self@ == i128::MIN && rhs.value() == -1) ==> (r matches Ok(x) && x@ == trunc_rem(self@, rhs.value())),
    {
        proof {
            self.lemma_value();
            rhs.lemma_value();
        }
        let (b_negative, b) = rhs.magnitude();
        if b == 0 {
            return Err(DivError::DivisionByZero);
        }
        let (a_negative, a) = self.magnitude();
        let (negative, m) = rem_magnitudes(a_negative, a, b_negative, b);
        Ok(Si64::from_magnitude(negative, m))
    }
}

impl<R: SignedInteger> TryRemAssign<R> for Si64 {
    fn try_rem_assign(&mut self, rhs: R) -> (r: Result<(), DivError>)
        ensures
            rhs.value() == 0 ==> r == Err::<(), DivError>(DivError::DivisionByZero) && *final(self) == *old(self),
            rhs.value() != 0 && old(self)@ == i128::MIN && rhs.value() == -1 ==> r == Err::<(), DivError>(
                DivError::Overflow,
            ) && *final(self) == *old(self),
            rhs.value() != 0 && !(old(self)@ == i128::MIN && rhs.value() == -1) ==> r is Ok && final(self)@
                == trunc_rem(old(self)@, rhs.value()),
    {
        match (*self).try_rem(rhs) {
            Ok(x) => {
                *self = x;
                Ok(())
            },
            Err(e) => Err(e),
        }
    }
}

impl<R: SignedInteger> Div<R> for Si64 {
    type Output = Si64;

    /// Divides `self` by `rhs`, saturating at the numeric bounds. Division by zero
    /// panics, as it does for the primitive integers.
    fn div(self, rhs: R) -> (r: Si64)
        ensures
            r@ == clamp(trunc_div(self@, rhs.value()), i64::MIN as int, i64::MAX as int),
    {
        proof {
            self.lemma_value();
            rhs.lemma_value();
        }
        let (a_negative, a) = self.magnitude();
        let (b_negative, b) = rhs.magnitude();
        let (negative, m) = div_magnitudes(a_negative, a, b_negative, b);
        let r = Si64::from_magnitude(negative, m);
        proof {
            r.lemma_value();
        }
        r
    }
}

impl<R: SignedInteger> DivSpecImpl<R> for Si64 {
    open spec fn obeys_div_spec() -> bool {
        true
    }

    open spec fn div_req(self, rhs: R) -> bool {
        rhs.value() != 0
    }

    open spec fn div_spec(self, rhs: R) -> Si64 {
        Si64::of_value(clamp(trunc_div(self@, rhs.value()), i64::MIN as int, i64::MAX as int))
    }
}

impl<R: SignedInteger> DivAssign<R> for Si64 {
    /// Divides `self` by `rhs` in place; a zero divisor leaves `self` unchanged.
    fn div_assign(&mut self, rhs: R)
        ensures
            rhs.value() == 0 ==> *final(self) == *old(self),
            rhs.value() != 0 ==> final(self)@ == clamp(trunc_div(old(self)@, rhs.value()), i64::MIN as int, i64::MAX as int),
    {
        if let Ok(q) = (*self).try_div(rhs) {
            *self = q;
        }
    }
}

impl<R: SignedInteger> Rem<R> for Si64 {
    type Output = Si64;

    /// The remainder of dividing `self` by `rhs`. A zero divisor panics, as it does
    /// for the primitive integers.
    fn rem(self, rhs: R) -> (r: Si64)
        ensures
            r@ == trunc_rem(self@, rhs.value()),
    {
        proof {
            self.lemma_value();
            rhs.lemma_value();
        }
        let (a_negative, a) = self.magnitude();
        let (b_negative, b) = rhs.magnitude();
        let (negative, m) = rem_magnitudes(a_negative, a, b_negative, b);
        let r = Si64::from_magnitude(negative, m);
        proof {
            r.lemma_value();
        }
        r
    }
}

impl<R: SignedInteger> RemSpecImpl<R> for Si64 {
    open spec fn obeys_rem_spec() -> bool {
        true
    }

    open spec fn rem_req(self, rhs: R) -> bool {
        rhs.value() != 0 && !(self@ == i128::MIN && rhs.value() == -1)
    }

    open spec fn rem_spec(self, rhs: R) -> Si64 {
        Si64::of_value(trunc_rem(self@, rhs.value()))
    }
}

impl<R: SignedInteger> RemAssign<R> for Si64 {
    /// Replaces `self` by the remainder of dividing it by `rhs`; where that fails
    /// (see [`TryRem`]) `self` is left unchanged.
    fn rem_assign(&mut self, rhs: R)
        ensures
            rhs.value() == 0 || (old(self)@ == i128::MIN && rhs.value() == -1) ==> *final(self) == *old(self),
            rhs.value() != 0 && !(old(self)@ == i128::MIN && rhs.value() == -1) ==> final(self)@ == trunc_rem(old(self)@, rhs.value()),
    {
        if let Ok(x) = (*self).try_rem(rhs) {
            *self = x;
        }
    }
}

impl Shl<u32> for Si64 {
    type Output = Si64;

    fn shl(self, rhs: u32) -> (r: Si64)
        ensures
            r@ == (clamp(self@ * pow2(rhs as nat), i64::MIN as int, i64::MAX as int)),
    {
        let (negative, a) = self.magnitude();
        let m = shl_magnitudes(negative, a, rhs);
        proof {
            lemma_represents_clamp(negative, m, self@ * pow2(rhs as nat), i64::MIN as int, i64::MAX as int);
        }
        let r = Si64::from_magnitude(negative, m);
        proof {
            r.lemma_value();
        }
        r
    }
}

impl ShlSpecImpl<u32> for Si64 {
    open spec fn obeys_shl_spec() -> bool {
        true
    }

    open spec fn shl_req(self, rhs: u32) -> bool {
        true
    }

    open spec fn shl_spec(self, rhs: u32) -> Si64 {
        Si64::of_value(clamp(self@ * pow2(rhs as nat), i64::MIN as int, i64::MAX as int))
    }
}

impl ShlAssign<u32> for Si64 {
    fn shl_assign(&mut self, rhs: u32)
        ensures
            final(self)@ == (clamp(old(self)@ * pow2(rhs as nat), i64::MIN as int, i64::MAX as int)),
    {
        *self = *self << rhs;
    }
}

impl Shr<u32> for Si64 {
    type Output = Si64;

    fn shr(self, rhs: u32) -> (r: Si64)
        ensures
            r@ == self@ / (pow2(rhs as nat) as int),
    {
        let (negative, a) = self.magnitude();
        let (n, m) = shr_magnitudes(negative, a, rhs);
        proof {
            vstd::arithmetic::power2::lemma_pow2_pos(rhs as nat);
            self.lemma_value();
            vstd::arithmetic::div_mod::lemma_div_is_ordered(i64::MIN as int, self@, pow2(rhs as nat) as int);
            vstd::arithmetic::div_mod::lemma_div_is_ordered(self@, i64::MAX as int, pow2(rhs as nat) as int);
            lemma_div_by_power_within(i64::MIN as int, pow2(rhs as nat) as int);
            lemma_div_by_power_within(i64::MAX as int, pow2(rhs as nat) as int);
        }
        let r = Si64::from_magnitude(n, m);
        proof {
            r.lemma_value();
        }
        r
    }
}

impl ShrSpecImpl<u32> for Si64 {
    open spec fn obeys_shr_spec() -> bool {
        true
    }

    open spec fn shr_req(self, rhs: u32) -> bool {
        true
    }

    open spec fn shr_spec(self, rhs: u32) -> Si64 {
        Si64::of_value(self@ / (pow2(rhs as nat) as int))
    }
}

impl ShrAssign<u32> for Si64 {
    fn shr_assign(&mut self, rhs: u32)
        ensures
            final(self)@ == old(self)@ / (pow2(rhs as nat) as int),
    {
        *self = *self >> rhs;
    }
}

impl Neg for Si64 {
    type Output = Si64;

    fn neg(self) -> (r: Si64)
        ensures
            r@ == clamp(-self@, i64::MIN as int, i64::MAX as int),
    {
        let (negative, a) = self.magnitude();
        let r = Si64::from_magnitude(!negative, a);
        proof {
            r.lemma_value();
        }
        r
    }
}

impl NegSpecImpl for Si64 {
    open spec fn obeys_neg_spec() -> bool {
        true
    }

    open spec fn neg_req(self) -> bool {
        true
    }

    open spec fn neg_spec(self) -> Si64 {
        Si64::of_value(clamp(-self@, i64::MIN as int, i64::MAX as int))
    }
}

impl core::iter::Sum for Si64 {
    /// The items combined from left to right, each partial sum saturating.
    fn sum<I: Iterator<Item = Si64>>(iter: I) -> (r: Si64)
        ensures
            iter.obeys_prophetic_iter_laws() ==> r@ == iter.remaining().fold_left(
                0,
                (|acc: int, x: Si64| clamp(acc + x@, i64::MIN as int, i64::MAX as int)),
            ),
    {
        fold_viewed(iter, Si64::ZERO(), Si64::sum_step, Ghost(|acc: int, x: Si64| clamp(acc + x@, i64::MIN as int, i64::MAX as int)))
    }
}

impl<'a> core::iter::Sum<&'a Si64> for Si64 {
    /// The items combined from left to right, each partial sum saturating.
    fn sum<I: Iterator<Item = &'a Si64>>(iter: I) -> (r: Si64)
        ensures
            iter.obeys_prophetic_iter_laws() ==> r@ == iter.remaining().fold_left(
                0,
                (|acc: int, x: &'a Si64| clamp(acc + x@, i64::MIN as int, i64::MAX as int)),
            ),
    {
        fold_viewed(iter, Si64::ZERO(), Si64::sum_step_by_ref, Ghost(|acc: int, x: &'a Si64| clamp(acc + x@, i64::MIN as int, i64::MAX as int)))
    }
}

impl core::iter::Product for Si64 {
    /// The items combined from left to right, each partial product saturating.
    fn product<I: Iterator<Item = Si64>>(iter: I) -> (r: Si64)
        ensures
            iter.obeys_prophetic_iter_laws() ==> r@ == iter.remaining().fold_left(
                1,
                (|acc: int, x: Si64| clamp(acc * x@, i64::MIN as int, i64::MAX as int)),
            ),
    {
        fold_viewed(iter, Si64::ONE(), Si64::product_step, Ghost(|acc: int, x: Si64| clamp(acc * x@, i64::MIN as int, i64::MAX as int)))
    }
}

impl<'a> core::iter::Product<&'a Si64> for Si64 {
    /// The items combined from left to right, each partial product saturating.
    fn product<I: Iterator<Item = &'a Si64>>(iter: I) -> (r: Si64)
        ensures
            iter.obeys_prophetic_iter_laws() ==> r@ == iter.remaining().fold_left(
                1,
                (|acc: int, x: &'a Si64| clamp(acc * x@, i64::MIN as int, i64::MAX as int)),
            ),
    {
        fold_viewed(iter, Si64::ONE(), Si64::product_step_by_ref, Ghost(|acc: int, x: &'a Si64| clamp(acc * x@, i64::MIN as int, i64::MAX as int)))
    }
}

impl Si64 {
    /// One step of [`Sum::sum`](core::iter::Sum::sum).
    fn sum_step(a: Si64, b: Si64) -> (c: Si64)
        ensures
            c@ == clamp(a@ + b@, i64::MIN as int, i64::MAX as int),
    {
        a + b
    }

    /// One step of [`Sum::sum`](core::iter::Sum::sum).
    fn sum_step_by_ref(a: Si64, b: &Si64) -> (c: Si64)
        ensures
            c@ == clamp(a@ + b@, i64::MIN as int, i64::MAX as int),
    {
        a + *b
    }

    /// One step of [`Product::product`](core::iter::Product::product).
    fn product_step(a: Si64, b: Si64) -> (c: Si64)
        ensures
            c@ == clamp(a@ * b@, i64::MIN as int, i64::MAX as int),
    {
        a * b
    }

    /// One step of [`Product::product`](core::iter::Product::product).
    fn product_step_by_ref(a: Si64, b: &Si64) -> (c: Si64)
        ensures
            c@ == clamp(a@ * b@, i64::MIN as int, i64::MAX as int),
    {
        a * *b
    }
}

impl<R: Integer> Add<R> for Si128 {
    type Output = Si128;

    fn add(self, rhs: R) -> (r: Si128)
        ensures
            r@ == clamp(self@ + rhs.value(), i128::MIN as int, i128::MAX as int),
    {
        let (a_negative, a) = self.magnitude();
        let (b_negative, b) = rhs.magnitude();
        let (negative, m) = add_magnitudes(a_negative, a, b_negative, b);
        proof {
            lemma_represents_clamp(negative, m, self@ + rhs.value(), i128::MIN as int, i128::MAX as int);
        }
        let r = Si128::from_magnitude(negative, m);
        proof {
            r.lemma_value();
        }
        r
    }
}

impl<R: Integer> AddSpecImpl<R> for Si128 {
    open spec fn obeys_add_spec() -> bool {
        true
    }

    open spec fn add_req(self, rhs: R) -> bool {
        true
    }

    open spec fn add_spec(self, rhs: R) -> Si128 {
        Si128::of_value(clamp(self@ + rhs.value(), i128::MIN as int, i128::MAX as int))
    }
}

impl<R: Integer> AddAssign<R> for Si128 {
    fn add_assign(&mut self, rhs: R)
        ensures
            final(self)@ == clamp(old(self)@ + rhs.value(), i128::MIN as int, i128::MAX as int),
    {
        *self = *self + rhs;
    }
}

impl<R: Integer> Sub<R> for Si128 {
    type Output = Si128;

    fn sub(self, rhs: R) -> (r: Si128)
        ensures
            r@ == clamp(self@ - rhs.value(), i128::MIN as int, i128::MAX as int),
    {
        let (a_negative, a) = self.magnitude();
        let (b_negative, b) = rhs.magnitude();
        let (negative, m) = add_magnitudes(a_negative, a, !b_negative, b);
        proof {
            lemma_represents_clamp(negative, m, self@ - rhs.value(), i128::MIN as int, i128::MAX as int);
        }
        let r = Si128::from_magnitude(negative, m);
        proof {
            r.lemma_value();
        }
        r
    }
}

impl<R: Integer> SubSpecImpl<R> for Si128 {
    open spec fn obeys_sub_spec() -> bool {
        true
    }

    open spec fn sub_req(self, rhs: R) -> bool {
        true
    }

    open spec fn sub_spec(self, rhs: R) -> Si128 {
        Si128::of_value(clamp(self@ - rhs.value(), i128::MIN as int, i128::MAX as int))
    }
}

impl<R: Integer> SubAssign<R> for Si128 {
    fn sub_assign(&mut self, rhs: R)
        ensures
            final(self)@ == clamp(old(self)@ - rhs.value(), i128::MIN as int, i128::MAX as int),
    {
        *self = *self - rhs;
    }
}

impl<R: SignedInteger> Mul<R> for Si128 {
    type Output = Si128;

    fn mul(self, rhs: R) -> (r: Si128)
        ensures
            r@ == clamp(self@ * rhs.value(), i128::MIN as int, i128::MAX as int),
    {
        let (a_negative, a) = self.magnitude();
        let (b_negative, b) = rhs.magnitude();
        let (negative, m) = mul_magnitudes(a_negative, a, b_negative, b);
        proof {
            lemma_represents_clamp(negative, m, self@ * rhs.value(), i128::MIN as int, i128::MAX as int);
        }
        let r = Si128::from_magnitude(negative, m);
        proof {
            r.lemma_value();
        }
        r
    }
}

impl<R: SignedInteger> MulSpecImpl<R> for Si128 {
    open spec fn obeys_mul_spec() -> bool {
        true
    }

    open spec fn mul_req(self, rhs: R) -> bool {
        true
    }

    open spec fn mul_spec(self, rhs: R) -> Si128 {
        Si128::of_value(clamp(self@ * rhs.value(), i128::MIN as int, i128::MAX as int))
    }
}

impl<R: SignedInteger> MulAssign<R> for Si128 {
    fn mul_assign(&mut self, rhs: R)
        ensures
            final(self)@ == clamp(old(self)@ * rhs.value(), i128::MIN as int, i128::MAX as int),
    {
        *self = *self * rhs;
    }
}

impl<R: SignedInteger> TryDiv<R> for Si128 {
    type Output = Si128;

    fn try_div(self, rhs: R) -> (r: Result<Si128, DivError>)
        ensures
            rhs.value() == 0 ==> r == Err::<Si128, DivError>(DivError::DivisionByZero),
            rhs.value() != 0 ==> (r matches Ok(q) && q@ == clamp(trunc_div(self@, rhs.value()), i128::MIN as int, i128::MAX as int)),
    {
        proof {
            self.lemma_value();
            rhs.lemma_value();
        }
        let (b_negative, b) = rhs.magnitude();
        if b == 0 {
            return Err(DivError::DivisionByZero);
        }
        let (a_negative, a) = self.magnitude();
        let (negative, m) = div_magnitudes(a_negative, a, b_negative, b);
        Ok(Si128::from_magnitude(negative, m))
    }
}

impl<R: SignedInteger> TryDivAssign<R> for Si128 {
    fn try_div_assign(&mut self, rhs: R) -> (r: Result<(), DivError>)
        ensures
            rhs.value() == 0 ==> r == Err::<(), DivError>(DivError::DivisionByZero) && *final(self) == *old(self),
            rhs.value() != 0 ==> r is Ok && final(self)@ == clamp(trunc_div(old(self)@, rhs.value()), i128::MIN as int, i128::MAX as int),
    {
        match (*self).try_div(rhs) {
            Ok(q) => {
                *self = q;
                Ok(())
            },
            Err(e) => Err(e),
        }
    }
}

impl<R: SignedInteger> TryRem<R> for Si128 {
    type Output = Si128;

    fn try_rem(self, rhs: R) -> (r: Result<Si128, DivError>)
        ensures
            rhs.value() == 0 ==> r == Err::<Si128, DivError>(DivError::DivisionByZero),
            rhs.value() != 0 && self@ == i128::MIN && rhs.value() == -1 ==> r == Err::<Si128, DivError>(
                DivError::Overflow,
            ),
            rhs.value() != 0 && !(self@ == i128::MIN && rhs.value() == -1) ==> (r matches Ok(x) && x@ == trunc_rem(self@, rhs.value())),
    {
        proof {
            self.lemma_value();
            rhs.lemma_value();
        }
        let (b_negative, b) = rhs.magnitude();
        if b == 0 {
            return Err(DivError::DivisionByZero);
        }
        let (a_negative, a) = self.magnitude();
        if a_negative && a == 0x8000_0000_0000_0000_0000_0000_0000_0000 && b_negative && b == 1 {
            return Err(DivError::Overflow);
        }
        let (negative, m) = rem_magnitudes(a_negative, a, b_negative, b);
        Ok(Si128::from_magnitude(negative, m))
    }
}

impl<R: SignedInteger> TryRemAssign<R> for Si128 {
    fn try_rem_assign(&mut self, rhs: R) -> (r: Result<(), DivError>)
        ensures
            rhs.value() == 0 ==> r == Err::<(), DivError>(DivError::DivisionByZero) && *final(self) == *old(self),
            rhs.value() != 0 && old(self)@ == i128::MIN && rhs.value() == -1 ==> r == Err::<(), DivError>(
                DivError::Overflow,
            ) && *final(self) == *old(self),
            rhs.value() != 0 && !(old(self)@ == i128::MIN && rhs.value() == -1) ==> r is Ok && final(self)@
                == trunc_rem(old(self)@, rhs.value()),
    {
        match (*self).try_rem(rhs) {
            Ok(x) => {
                *self = x;
                Ok(())
            },
            Err(e) => Err(e),
        }
    }
}

impl<R: SignedInteger> Div<R> for Si128 {
    type Output = Si128;

    /// Divides `self` by `rhs`, saturating at the numeric bounds. Division by zero
    /// panics, as it does for the primitive integers.
    fn div(self, rhs: R) -> (r: Si128)
        ensures
            r@ == clamp(trunc_div(self@, rhs.value()), i128::MIN as int, i128::MAX as int),
    {
        proof {
            self.lemma_value();
            rhs.lemma_value();
        }
        let (a_negative, a) = self.magnitude();
        let (b_negative, b) = rhs.magnitude();
        let (negative, m) = div_magnitudes(a_negative, a, b_negative, b);
        let r = Si128::from_magnitude(negative, m);
        proof {
            r.lemma_value();
        }
        r
    }
}

impl<R: SignedInteger> DivSpecImpl<R> for Si128 {
    open spec fn obeys_div_spec() -> bool {
        true
    }

    open spec fn div_req(self, rhs: R) -> bool {
        rhs.value() != 0
    }

    open spec fn div_spec(self, rhs: R) -> Si128 {
        Si128::of_value(clamp(trunc_div(self@, rhs.value()), i128::MIN as int, i128::MAX as int))
    }
}

impl<R: SignedInteger> DivAssign<R> for Si128 {
    /// Divides `self` by `rhs` in place; a zero divisor leaves `self` unchanged.
    fn div_assign(&mut self, rhs: R)
        ensures
            rhs.value() == 0 ==> *final(self) == *old(self),
            rhs.value() != 0 ==> final(self)@ == clamp(trunc_div(old(self)@, rhs.value()), i128::MIN as int, i128::MAX as int),
    {
        if let Ok(q) = (*self).try_div(rhs) {
            *self = q;
        }
    }
}

impl<R: SignedInteger> Rem<R> for Si128 {
    type Output = Si128;

    /// The remainder of dividing `self` by `rhs`. A zero divisor panics, as it does
    /// for the primitive integers.
    fn rem(self, rhs: R) -> (r: Si128)
        ensures
            r@ == trunc_rem(self@, rhs.value()),
    {
        proof {
            self.lemma_value();
            rhs.lemma_value();
        }
        let (a_negative, a) = self.magnitude();
        let (b_negative, b) = rhs.magnitude();
        let (negative, m) = rem_magnitudes(a_negative, a, b_negative, b);
        let r = Si128::from_magnitude(negative, m);
        proof {
            r.lemma_value();
        }
        r
    }
}

impl<R: SignedInteger> RemSpecImpl<R> for Si128 {
    open spec fn obeys_rem_spec() -> bool {
        true
    }

    open spec fn rem_req(self, rhs: R) -> bool {
        rhs.value() != 0 && !(self@ == i128::MIN && rhs.value() == -1)
    }

    open spec fn rem_spec(self, rhs: R) -> Si128 {
        Si128::of_value(trunc_rem(self@, rhs.value()))
    }
}

impl<R: SignedInteger> RemAssign<R> for Si128 {
    /// Replaces `self` by the remainder of dividing it by `rhs`; where that fails
    /// (see [`TryRem`]) `self` is left unchanged.
    fn rem_assign(&mut self, rhs: R)
        ensures
            rhs.value() == 0 || (old(self)@ == i128::MIN && rhs.value() == -1) ==> *final(self) == *old(self),
            rhs.value() != 0 && !(old(self)@ == i128::MIN && rhs.value() == -1) ==> final(self)@ == trunc_rem(old(self)@, rhs.value()),
    {
        if let Ok(x) = (*self).try_rem(rhs) {
            *self = x;
        }
    }
}

impl Shl<u32> for Si128 {
    type Output = Si128;

    fn shl(self, rhs: u32) -> (r: Si128)
        ensures
            r@ == (clamp(self@ * pow2(rhs as nat), i128::MIN as int, i128::MAX as int)),
    {
        let (negative, a) = self.magnitude();
        let m = shl_magnitudes(negative, a, rhs);
        proof {
            lemma_represents_clamp(negative, m, self@ * pow2(rhs as nat), i128::MIN as int, i128::MAX as int);
        }
        let r = Si128::from_magnitude(negative, m);
        proof {
            r.lemma_value();
        }
        r
    }
}

impl ShlSpecImpl<u32> for Si128 {
    open spec fn obeys_shl_spec() -> bool {
        true
    }

    open spec fn shl_req(self, rhs: u32) -> bool {
        true
    }

    open spec fn shl_spec(self, rhs: u32) -> Si128 {
        Si128::of_value(clamp(self@ * pow2(rhs as nat), i128::MIN as int, i128::MAX as int))
    }
}

impl ShlAssign<u32> for Si128 {
    fn shl_assign(&mut self, rhs: u32)
        ensures
            final(self)@ == (clamp(old(self)@ * pow2(rhs as nat), i128::MIN as int, i128::MAX as int)),
    {
        *self = *self << rhs;
    }
}

impl Shr<u32> for Si128 {
    type Output = Si128;

    fn shr(self, rhs: u32) -> (r: Si128)
        ensures
            r@ == self@ / (pow2(rhs as nat) as int),
    {
        let (negative, a) = self.magnitude();
        let (n, m) = shr_magnitudes(negative, a, rhs);
        proof {
            vstd::arithmetic::power2::lemma_pow2_pos(rhs as nat);
            self.lemma_value();
            vstd::arithmetic::div_mod::lemma_div_is_ordered(i128::MIN as int, self@, pow2(rhs as nat) as int);
            vstd::arithmetic::div_mod::lemma_div_is_ordered(self@, i128::MAX as int, pow2(rhs as nat) as int);
            lemma_div_by_power_within(i128::MIN as int, pow2(rhs as nat) as int);
            lemma_div_by_power_within(i128::MAX as int, pow2(rhs as nat) as int);
        }
        let r = Si128::from_magnitude(n, m);
        proof {
            r.lemma_value();
        }
        r
    }
}

impl ShrSpecImpl<u32> for Si128 {
    open spec fn obeys_shr_spec() -> bool {
        true
    }

    open spec fn shr_req(self, rhs: u32) -> bool {
        true
    }

    open spec fn shr_spec(self, rhs: u32) -> Si128 {
        Si128::of_value(self@ / (pow2(rhs as nat) as int))
    }
}

impl ShrAssign<u32> for Si128 {
    fn shr_assign(&mut self, rhs: u32)
        ensures
            final(self)@ == old(self)@ / (pow2(rhs as nat) as int),
    {
        *self = *self >> rhs;
    }
}

impl Neg for Si128 {
    type Output = Si128;

    fn neg(self) -> (r: Si128)
        ensures
            r@ == clamp(-self@, i128::MIN as int, i128::MAX as int),
    {
        let (negative, a) = self.magnitude();
        let r = Si128::from_magnitude(!negative, a);
        proof {
            r.lemma_value();
        }
        r
    }
}

impl NegSpecImpl for Si128 {
    open spec fn obeys_neg_spec() -> bool {
        true
    }

    open spec fn neg_req(self) -> bool {
        true
    }

    open spec fn neg_spec(self) -> Si128 {
        Si128::of_value(clamp(-self@, i128::MIN as int, i128::MAX as int))
    }
}

impl core::iter::Sum for Si128 {
    /// The items combined from left to right, each partial sum saturating.
    fn sum<I: Iterator<Item = Si128>>(iter: I) -> (r: Si128)
        ensures
            iter.obeys_prophetic_iter_laws() ==> r@ == iter.remaining().fold_left(
                0,
                (|acc: int, x: Si128| clamp(acc + x@, i128::MIN as int, i128::MAX as int)),
            ),
    {
        fold_viewed(iter, Si128::ZERO(), Si128::sum_step, Ghost(|acc: int, x: Si128| clamp(acc + x@, i128::MIN as int, i128::MAX as int)))
    }
}

impl<'a> core::iter::Sum<&'a Si128> for Si128 {
    /// The items combined from left to right, each partial sum saturating.
    fn sum<I: Iterator<Item = &'a Si128>>(iter: I) -> (r: Si128)
        ensures
            iter.obeys_prophetic_iter_laws() ==> r@ == iter.remaining().fold_left(
                0,
                (|acc: int, x: &'a Si128| clamp(acc + x@, i128::MIN as int, i128::MAX as int)),
            ),
    {
        fold_viewed(iter, Si128::ZERO(), Si128::sum_step_by_ref, Ghost(|acc: int, x: &'a Si128| clamp(acc + x@, i128::MIN as int, i128::MAX as int)))
    }
}

impl core::iter::Product for Si128 {
    /// The items combined from left to right, each partial product saturating.
    fn product<I: Iterator<Item = Si128>>(iter: I) -> (r: Si128)
        ensures
            iter.obeys_prophetic_iter_laws() ==> r@ == iter.remaining().fold_left(
                1,
                (|acc: int, x: Si128| clamp(acc * x@, i128::MIN as int, i128::MAX as int)),
            ),
    {
        fold_viewed(iter, Si128::ONE(), Si128::product_step, Ghost(|acc: int, x: Si128| clamp(acc * x@, i128::MIN as int, i128::MAX as int)))
    }
}

impl<'a> core::iter::Product<&'a Si128> for Si128 {
    /// The items combined from left to right, each partial product saturating.
    fn product<I: Iterator<Item = &'a Si128>>(iter: I) -> (r: Si128)
        ensures
            iter.obeys_prophetic_iter_laws() ==> r@ == iter.remaining().fold_left(
                1,
                (|acc: int, x: &'a Si128| clamp(acc * x@, i128::MIN as int, i128::MAX as int)),
            ),
    {
        fold_viewed(iter, Si128::ONE(), Si128::product_step_by_ref, Ghost(|acc: int, x: &'a Si128| clamp(acc * x@, i128::MIN as int, i128::MAX as int)))
    }
}

impl Si128 {
    /// One step of [`Sum::sum`](core::iter::Sum::sum).
    fn sum_step(a: Si128, b: Si128) -> (c: Si128)
        ensures
            c@ == clamp(a@ + b@, i128::MIN as int, i128::MAX as int),
    {
        a + b
    }

    /// One step of [`Sum::sum`](core::iter::Sum::sum).
    fn sum_step_by_ref(a: Si128, b: &Si128) -> (c: Si128)
        ensures
            c@ == clamp(a@ + b@, i128::MIN as int, i128::MAX as int),
    {
        a + *b
    }

    /// One step of [`Product::product`](core::iter::Product::product).
    fn product_step(a: Si128, b: Si128) -> (c: Si128)
        ensures
            c@ == clamp(a@ * b@, i128::MIN as int, i128::MAX as int),
    {
        a * b
    }

    /// One step of [`Product::product`](core::iter::Product::product).
    fn product_step_by_ref(a: Si128, b: &Si128) -> (c: Si128)
        ensures
            c@ == clamp(a@ * b@, i128::MIN as int, i128::MAX as int),
    {
        a * *b
    }
}

impl<R: Integer> Add<R> for Sisize {
    type Output = Sisize;

    fn add(self, rhs: R) -> (r: Sisize)
        ensures
            r@ == clamp(self@ + rhs.value(), isize::MIN as int, isize::MAX as int),
    {
        let (a_negative, a) = self.magnitude();
        let (b_negative, b) = rhs.magnitude();
        let (negative, m) = add_magnitudes(a_negative, a, b_negative, b);
        proof {
            lemma_represents_clamp(negative, m, self@ + rhs.value(), isize::MIN as int, isize::MAX as int);
        }
        let r = Sisize::from_magnitude(negative, m);
        proof {
            r.lemma_value();
        }
        r
    }
}

impl<R: Integer> AddSpecImpl<R> for Sisize {
    open spec fn obeys_add_spec() -> bool {
        true
    }

    open spec fn add_req(self, rhs: R) -> bool {
        true
    }

    open spec fn add_spec(self, rhs: R) -> Sisize {
        Sisize::of_value(clamp(self@ + rhs.value(), isize::MIN as int, isize::MAX as int))
    }
}

impl<R: Integer> AddAssign<R> for Sisize {
    fn add_assign(&mut self, rhs: R)
        ensures
            final(self)@ == clamp(old(self)@ + rhs.value(), isize::MIN as int, isize::MAX as int),
    {
        *self = *self + rhs;
    }
}

impl<R: Integer> Sub<R> for Sisize {
    type Output = Sisize;

    fn sub(self, rhs: R) -> (r: Sisize)
        ensures
            r@ == clamp(self@ - rhs.value(), isize::MIN as int, isize::MAX as int),
    {
        let (a_negative, a) = self.magnitude();
        let (b_negative, b) = rhs.magnitude();
        let (negative, m) = add_magnitudes(a_negative, a, !b_negative, b);
        proof {
            lemma_represents_clamp(negative, m, self@ - rhs.value(), isize::MIN as int, isize::MAX as int);
        }
        let r = Sisize::from_magnitude(negative, m);
        proof {
            r.lemma_value();
        }
        r
    }
}

impl<R: Integer> SubSpecImpl<R> for Sisize {
    open spec fn obeys_sub_spec() -> bool {
        true
    }

    open spec fn sub_req(self, rhs: R) -> bool {
        true
    }

    open spec fn sub_spec(self, rhs: R) -> Sisize {
        Sisize::of_value(clamp(self@ - rhs.value(), isize::MIN as int, isize::MAX as int))
    }
}

impl<R: Integer> SubAssign<R> for Sisize {
    fn sub_assign(&mut self, rhs: R)
        ensures
            final(self)@ == clamp(old(self)@ - rhs.value(), isize::MIN as int, isize::MAX as int),
    {
        *self = *self - rhs;
    }
}

impl<R: SignedInteger> Mul<R> for Sisize {
    type Output = Sisize;

    fn mul(self, rhs: R) -> (r: Sisize)
        ensures
            r@ == clamp(self@ * rhs.value(), isize::MIN as int, isize::MAX as int),
    {
        let (a_negative, a) = self.magnitude();
        let (b_negative, b) = rhs.magnitude();
        let (negative, m) = mul_magnitudes(a_negative, a, b_negative, b);
        proof {
            lemma_represents_clamp(negative, m, self@ * rhs.value(), isize::MIN as int, isize::MAX as int);
        }
        let r = Sisize::from_magnitude(negative, m);
        proof {
            r.lemma_value();
        }
        r
    }
}

impl<R: SignedInteger> MulSpecImpl<R> for Sisize {
    open spec fn obeys_mul_spec() -> bool {
        true
    }

    open spec fn mul_req(self, rhs: R) -> bool {
        true
    }

    open spec fn mul_spec(self, rhs: R) -> Sisize {
        Sisize::of_value(clamp(self@ * rhs.value(), isize::MIN as int, isize::MAX as int))
    }
}

impl<R: SignedInteger> MulAssign<R> for Sisize {
    fn mul_assign(&mut self, rhs: R)
        ensures
            final(self)@ == clamp(old(self)@ * rhs.value(), isize::MIN as int, isize::MAX as int),
    {
        *self = *self * rhs;
    }
}

impl<R: SignedInteger> TryDiv<R> for Sisize {
    type Output = Sisize;

    fn try_div(self, rhs: R) -> (r: Result<Sisize, DivError>)
        ensures
            rhs.value() == 0 ==> r == Err::<Sisize, DivError>(DivError::DivisionByZero),
            rhs.value() != 0 ==> (r matches Ok(q) && q@ == clamp(trunc_div(self@, rhs.value()), isize::MIN as int, isize::MAX as int)),
    {
        proof {
            self.lemma_value();
            rhs.lemma_value();
        }
        let (b_negative, b) = rhs.magnitude();
        if b == 0 {
            return Err(DivError::DivisionByZero);
        }
        let (a_negative, a) = self.magnitude();
        let (negative, m) = div_magnitudes(a_negative, a, b_negative, b);
        Ok(Sisize::from_magnitude(negative, m))
    }
}

impl<R: SignedInteger> TryDivAssign<R> for Sisize {
    fn try_div_assign(&mut self, rhs: R) -> (r: Result<(), DivError>)
        ensures
            rhs.value() == 0 ==> r == Err::<(), DivError>(DivError::DivisionByZero) && *final(self) == *old(self),
            rhs.value() != 0 ==> r is Ok && final(self)@ == clamp(trunc_div(old(self)@, rhs.value()), isize::MIN as int, isize::MAX as int),
    {
        match (*self).try_div(rhs) {
            Ok(q) => {
                *self = q;
                Ok(())
            },
            Err(e) => Err(e),
        }
    }
}

impl<R: SignedInteger> TryRem<R> for Sisize {
    type Output = Sisize;

    fn try_rem(self, rhs: R) -> (r: Result<Sisize, DivError>)
        ensures
            rhs.value() == 0 ==> r == Err::<Sisize, DivError>(DivError::DivisionByZero),
            rhs.value() != 0 && self@ == i128::MIN && rhs.value() == -1 ==> r == Err::<Sisize, DivError>(
                DivError::Overflow,
            ),
            rhs.value() != 0 && !(self@ == i128::MIN && rhs.value() == -1) ==> (r matches Ok(x) && x@ == trunc_rem(self@, rhs.value())),
    {
        proof {
            self.lemma_value();
            rhs.lemma_value();
        }
        let (b_negative, b) = rhs.magnitude();
        if b == 0 {
            return Err(DivError::DivisionByZero);
        }
        let (a_negative, a) = self.magnitude();
        let (negative, m) = rem_magnitudes(a_negative, a, b_negative, b);
        Ok(Sisize::from_magnitude(negative, m))
    }
}

impl<R: SignedInteger> TryRemAssign<R> for Sisize {
    fn try_rem_assign(&mut self, rhs: R) -> (r: Result<(), DivError>)
        ensures
            rhs.value() == 0 ==> r == Err::<(), DivError>(DivError::DivisionByZero) && *final(self) == *old(self),
            rhs.value() != 0 && old(self)@ == i128::MIN && rhs.value() == -1 ==> r == Err::<(), DivError>(
                DivError::Overflow,
            ) && *final(self) == *old(self),
            rhs.value() != 0 && !(old(self)@ == i128::MIN && rhs.value() == -1) ==> r is Ok && final(self)@
                == trunc_rem(old(self)@, rhs.value()),
    {
        match (*self).try_rem(rhs) {
            Ok(x) => {
                *self = x;
                Ok(())
            },
            Err(e) => Err(e),
        }
    }
}

impl<R: SignedInteger> Div<R> for Sisize {
    type Output = Sisize;

    /// Divides `self` by `rhs`, saturating at the numeric bounds. Division by zero
    /// panics, as it does for the primitive integers.
    fn div(self, rhs: R) -> (r: Sisize)
        ensures
            r@ == clamp(trunc_div(self@, rhs.value()), isize::MIN as int, isize::MAX as int),
    {
        proof {
            self.lemma_value();
            rhs.lemma_value();
        }
        let (a_negative, a) = self.magnitude();
        let (b_negative, b) = rhs.magnitude();
        let (negative, m) = div_magnitudes(a_negative, a, b_negative, b);
        let r = Sisize::from_magnitude(negative, m);
        proof {
            r.lemma_value();
        }
        r
    }
}

impl<R: SignedInteger> DivSpecImpl<R> for Sisize {
    open spec fn obeys_div_spec() -> bool {
        true
    }

    open spec fn div_req(self, rhs: R) -> bool {
        rhs.value() != 0
    }

    open spec fn div_spec(self, rhs: R) -> Sisize {
        Sisize::of_value(clamp(trunc_div(self@, rhs.value()), isize::MIN as int, isize::MAX as int))
    }
}

impl<R: SignedInteger> DivAssign<R> for Sisize {
    /// Divides `self` by `rhs` in place; a zero divisor leaves `self` unchanged.
    fn div_assign(&mut self, rhs: R)
        ensures
            rhs.value() == 0 ==> *final(self) == *old(self),
            rhs.value() != 0 ==> final(self)@ == clamp(trunc_div(old(self)@, rhs.value()), isize::MIN as int, isize::MAX as int),
    {
        if let Ok(q) = (*self).try_div(rhs) {
            *self = q;
        }
    }
}

impl<R: SignedInteger> Rem<R> for Sisize {
    type Output = Sisize;

    /// The remainder of dividing `self` by `rhs`. A zero divisor panics, as it does
    /// for the primitive integers.
    fn rem(self, rhs: R) -> (r: Sisize)
        ensures
            r@ == trunc_rem(self@, rhs.value()),
    {
        proof {
            self.lemma_value();
            rhs.lemma_value();
        }
        let (a_negative, a) = self.magnitude();
        let (b_negative, b) = rhs.magnitude();
        let (negative, m) = rem_magnitudes(a_negative, a, b_negative, b);
        let r = Sisize::from_magnitude(negative, m);
        proof {
            r.lemma_value();
        }
        r
    }
}

impl<R: SignedInteger> RemSpecImpl<R> for Sisize {
    open spec fn obeys_rem_spec() -> bool {
        true
    }

    open spec fn rem_req(self, rhs: R) -> bool {
        rhs.value() != 0 && !(self@ == i128::MIN && rhs.value() == -1)
    }

    open spec fn rem_spec(self, rhs: R) -> Sisize {
        Sisize::of_value(trunc_rem(self@, rhs.value()))
    }
}

impl<R: SignedInteger> RemAssign<R> for Sisize {
    /// Replaces `self` by the remainder of dividing it by `rhs`; where that fails
    /// (see [`TryRem`]) `self` is left unchanged.
    fn rem_assign(&mut self, rhs: R)
        ensures
            rhs.value() == 0 || (old(self)@ == i128::MIN && rhs.value() == -1) ==> *final(self) == *old(self),
            rhs.value() != 0 && !(old(self)@ == i128::MIN && rhs.value() == -1) ==> final(self)@ == trunc_rem(old(self)@, rhs.value()),
    {
        if let Ok(x) = (*self).try_rem(rhs) {
            *self = x;
        }
    }
}

impl Shl<u32> for Sisize {
    type Output = Sisize;

    fn shl(self, rhs: u32) -> (r: Sisize)
        ensures
            r@ == (clamp(self@ * pow2(rhs as nat), isize::MIN as int, isize::MAX as int)),
    {
        let (negative, a) = self.magnitude();
        let m = shl_magnitudes(negative, a, rhs);
        proof {
            lemma_represents_clamp(negative, m, self@ * pow2(rhs as nat), isize::MIN as int, isize::MAX as int);
        }
        let r = Sisize::from_magnitude(negative, m);
        proof {
            r.lemma_value();
        }
        r
    }
}

impl ShlSpecImpl<u32> for Sisize {
    open spec fn obeys_shl_spec() -> bool {
        true
    }

    open spec fn shl_req(self, rhs: u32) -> bool {
        true
    }

    open spec fn shl_spec(self, rhs: u32) -> Sisize {
        Sisize::of_value(clamp(self@ * pow2(rhs as nat), isize::MIN as int, isize::MAX as int))
    }
}

impl ShlAssign<u32> for Sisize {
    fn shl_assign(&mut self, rhs: u32)
        ensures
            final(self)@ == (clamp(old(self)@ * pow2(rhs as nat), isize::MIN as int, isize::MAX as int)),
    {
        *self = *self << rhs;
    }
}

impl Shr<u32> for Sisize {
    type Output = Sisize;

    fn shr(self, rhs: u32) -> (r: Sisize)
        ensures
            r@ == self@ / (pow2(rhs as nat) as int),
    {
        let (negative, a) = self.magnitude();
        let (n, m) = shr_magnitudes(negative, a, rhs);
        proof {
            vstd::arithmetic::power2::lemma_pow2_pos(rhs as nat);
            self.lemma_value();
            vstd::arithmetic::div_mod::lemma_div_is_ordered(isize::MIN as int, self@, pow2(rhs as nat) as int);
            vstd::arithmetic::div_mod::lemma_div_is_ordered(self@, isize::MAX as int, pow2(rhs as nat) as int);
            lemma_div_by_power_within(isize::MIN as int, pow2(rhs as nat) as int);
            lemma_div_by_power_within(isize::MAX as int, pow2(rhs as nat) as int);
        }
        let r = Sisize::from_magnitude(n, m);
        proof {
            r.lemma_value();
        }
        r
    }
}

impl ShrSpecImpl<u32> for Sisize {
    open spec fn obeys_shr_spec() -> bool {
        true
    }

    open spec fn shr_req(self, rhs: u32) -> bool {
        true
    }

    open spec fn shr_spec(self, rhs: u32) -> Sisize {
        Sisize::of_value(self@ / (pow2(rhs as nat) as int))
    }
}

impl ShrAssign<u32> for Sisize {
    fn shr_assign(&mut self, rhs: u32)
        ensures
            final(self)@ == old(self)@ / (pow2(rhs as nat) as int),
    {
        *self = *self >> rhs;
    }
}

impl Neg for Sisize {
    type Output = Sisize;

    fn neg(self) -> (r: Sisize)
        ensures
            r@ == clamp(-self@, isize::MIN as int, isize::MAX as int),
    {
        let (negative, a) = self.magnitude();
        let r = Sisize::from_magnitude(!negative, a);
        proof {
            r.lemma_value();
        }
        r
    }
}

impl NegSpecImpl for Sisize {
    open spec fn obeys_neg_spec() -> bool {
        true
    }

    open spec fn neg_req(self) -> bool {
        true
    }

    open spec fn neg_spec(self) -> Sisize {
        Sisize::of_value(clamp(-self@, isize::MIN as int, isize::MAX as int))
    }
}

impl core::iter::Sum for Sisize {
    /// The items combined from left to right, each partial sum saturating.
    fn sum<I: Iterator<Item = Sisize>>(iter: I) -> (r: Sisize)
        ensures
            iter.obeys_prophetic_iter_laws() ==> r@ == iter.remaining().fold_left(
                0,
                (|acc: int, x: Sisize| clamp(acc + x@, isize::MIN as int, isize::MAX as int)),
            ),
    {
        fold_viewed(iter, Sisize::ZERO(), Sisize::sum_step, Ghost(|acc: int, x: Sisize| clamp(acc + x@, isize::MIN as int, isize::MAX as int)))
    }
}

impl<'a> core::iter::Sum<&'a Sisize> for Sisize {
    /// The items combined from left to right, each partial sum saturating.
    fn sum<I: Iterator<Item = &'a Sisize>>(iter: I) -> (r: Sisize)
        ensures
            iter.obeys_prophetic_iter_laws() ==> r@ == iter.remaining().fold_left(
                0,
                (|acc: int, x: &'a Sisize| clamp(acc + x@, isize::MIN as int, isize::MAX as int)),
            ),
    {
        fold_viewed(iter, Sisize::ZERO(), Sisize::sum_step_by_ref, Ghost(|acc: int, x: &'a Sisize| clamp(acc + x@, isize::MIN as int, isize::MAX as int)))
    }
}

impl core::iter::Product for Sisize {
    /// The items combined from left to right, each partial product saturating.
    fn product<I: Iterator<Item = Sisize>>(iter: I) -> (r: Sisize)
        ensures
            iter.obeys_prophetic_iter_laws() ==> r@ == iter.remaining().fold_left(
                1,
                (|acc: int, x: Sisize| clamp(acc * x@, isize::MIN as int, isize::MAX as int)),
            ),
    {
        fold_viewed(iter, Sisize::ONE(), Sisize::product_step, Ghost(|acc: int, x: Sisize| clamp(acc * x@, isize::MIN as int, isize::MAX as int)))
    }
}

impl<'a> core::iter::Product<&'a Sisize> for Sisize {
    /// The items combined from left to right, each partial product saturating.
    fn product<I: Iterator<Item = &'a Sisize>>(iter: I) -> (r: Sisize)
        ensures
            iter.obeys_prophetic_iter_laws() ==> r@ == iter.remaining().fold_left(
                1,
                (|acc: int, x: &'a Sisize| clamp(acc * x@, isize::MIN as int, isize::MAX as int)),
            ),
    {
        fold_viewed(iter, Sisize::ONE(), Sisize::product_step_by_ref, Ghost(|acc: int, x: &'a Sisize| clamp(acc * x@, isize::MIN as int, isize::MAX as int)))
    }
}

impl Sisize {
    /// One step of [`Sum::sum`](core::iter::Sum::sum).
    fn sum_step(a: Sisize, b: Sisize) -> (c: Sisize)
        ensures
            c@ == clamp(a@ + b@, isize::MIN as int, isize::MAX as int),
    {
        a + b
    }

    /// One step of [`Sum::sum`](core::iter::Sum::sum).
    fn sum_step_by_ref(a: Sisize, b: &Sisize) -> (c: Sisize)
        ensures
            c@ == clamp(a@ + b@, isize::MIN as int, isize::MAX as int),
    {
        a + *b
    }

    /// One step of [`Product::product`](core::iter::Product::product).
    fn product_step(a: Sisize, b: Sisize) -> (c: Sisize)
        ensures
            c@ == clamp(a@ * b@, isize::MIN as int, isize::MAX as int),
    {
        a * b
    }

    /// One step of [`Product::product`](core::iter::Product::product).
    fn product_step_by_ref(a: Sisize, b: &Sisize) -> (c: Sisize)
        ensures
            c@ == clamp(a@ * b@, isize::MIN as int, isize::MAX as int),
    {
        a * *b
    }
}

impl<R: Integer> Add<R> for Su8 {
    type Output = Su8;

    fn add(self, rhs: R) -> (r: Su8)
        ensures
            r@ == clamp(self@ + rhs.value(), u8::MIN as int, u8::MAX as int),
    {
        let (a_negative, a) = self.magnitude();
        let (b_negative, b) = rhs.magnitude();
        let (negative, m) = add_magnitudes(a_negative, a, b_negative, b);
        proof {
            lemma_represents_clamp(negative, m, self@ + rhs.value(), u8::MIN as int, u8::MAX as int);
        }
        let r = Su8::from_magnitude(negative, m);
        proof {
            r.lemma_value();
        }
        r
    }
}

impl<R: Integer> AddSpecImpl<R> for Su8 {
    open spec fn obeys_add_spec() -> bool {
        true
    }

    open spec fn add_req(self, rhs: R) -> bool {
        true
    }

    open spec fn add_spec(self, rhs: R) -> Su8 {
        Su8::of_value(clamp(self@ + rhs.value(), u8::MIN as int, u8::MAX as int))
    }
}

impl<R: Integer> AddAssign<R> for Su8 {
    fn add_assign(&mut self, rhs: R)
        ensures
            final(self)@ == clamp(old(self)@ + rhs.value(), u8::MIN as int, u8::MAX as int),
    {
        *self = *self + rhs;
    }
}

impl<R: Integer> Sub<R> for Su8 {
    type Output = Su8;

    fn sub(self, rhs: R) -> (r: Su8)
        ensures
            r@ == clamp(self@ - rhs.value(), u8::MIN as int, u8::MAX as int),
    {
        let (a_negative, a) = self.magnitude();
        let (b_negative, b) = rhs.magnitude();
        let (negative, m) = add_magnitudes(a_negative, a, !b_negative, b);
        proof {
            lemma_represents_clamp(negative, m, self@ - rhs.value(), u8::MIN as int, u8::MAX as int);
        }
        let r = Su8::from_magnitude(negative, m);
        proof {
            r.lemma_value();
        }
        r
    }
}

impl<R: Integer> SubSpecImpl<R> for Su8 {
    open spec fn obeys_sub_spec() -> bool {
        true
    }

    open spec fn sub_req(self, rhs: R) -> bool {
        true
    }

    open spec fn sub_spec(self, rhs: R) -> Su8 {
        Su8::of_value(clamp(self@ - rhs.value(), u8::MIN as int, u8::MAX as int))
    }
}

impl<R: Integer> SubAssign<R> for Su8 {
    fn sub_assign(&mut self, rhs: R)
        ensures
            final(self)@ == clamp(old(self)@ - rhs.value(), u8::MIN as int, u8::MAX as int),
    {
        *self = *self - rhs;
    }
}

impl<R: UnsignedInteger> Mul<R> for Su8 {
    type Output = Su8;

    fn mul(self, rhs: R) -> (r: Su8)
        ensures
            r@ == clamp(self@ * rhs.value(), u8::MIN as int, u8::MAX as int),
    {
        let (a_negative, a) = self.magnitude();
        let (b_negative, b) = rhs.magnitude();
        let (negative, m) = mul_magnitudes(a_negative, a, b_negative, b);
        proof {
            lemma_represents_clamp(negative, m, self@ * rhs.value(), u8::MIN as int, u8::MAX as int);
        }
        let r = Su8::from_magnitude(negative, m);
        proof {
            r.lemma_value();
        }
        r
    }
}

impl<R: UnsignedInteger> MulSpecImpl<R> for Su8 {
    open spec fn obeys_mul_spec() -> bool {
        true
    }

    open spec fn mul_req(self, rhs: R) -> bool {
        true
    }

    open spec fn mul_spec(self, rhs: R) -> Su8 {
        Su8::of_value(clamp(self@ * rhs.value(), u8::MIN as int, u8::MAX as int))
    }
}

impl<R: UnsignedInteger> MulAssign<R> for Su8 {
    fn mul_assign(&mut self, rhs: R)
        ensures
            final(self)@ == clamp(old(self)@ * rhs.value(), u8::MIN as int, u8::MAX as int),
    {
        *self = *self * rhs;
    }
}

impl<R: UnsignedInteger> TryDiv<R> for Su8 {
    type Output = Su8;

    fn try_div(self, rhs: R) -> (r: Result<Su8, DivError>)
        ensures
            rhs.value() == 0 ==> r == Err::<Su8, DivError>(DivError::DivisionByZero),
            rhs.value() != 0 ==> (r matches Ok(q) && q@ == self@ / rhs.value()),
    {
        proof {
            self.lemma_value();
            rhs.lemma_value();
            R::lemma_nonnegative();
        }
        let (b_negative, b) = rhs.magnitude();
        if b == 0 {
            return Err(DivError::DivisionByZero);
        }
        let (a_negative, a) = self.magnitude();
        let (negative, m) = div_magnitudes(a_negative, a, b_negative, b);
        Ok(Su8::from_magnitude(negative, m))
    }
}

impl<R: UnsignedInteger> TryDivAssign<R> for Su8 {
    fn try_div_assign(&mut self, rhs: R) -> (r: Result<(), DivError>)
        ensures
            rhs.value() == 0 ==> r == Err::<(), DivError>(DivError::DivisionByZero) && *final(self) == *old(self),
            rhs.value() != 0 ==> r is Ok && final(self)@ == old(self)@ / rhs.value(),
    {
        match (*self).try_div(rhs) {
            Ok(q) => {
                *self = q;
                Ok(())
            },
            Err(e) => Err(e),
        }
    }
}

impl<R: UnsignedInteger> TryRem<R> for Su8 {
    type Output = Su8;

    fn try_rem(self, rhs: R) -> (r: Result<Su8, DivError>)
        ensures
            rhs.value() == 0 ==> r == Err::<Su8, DivError>(DivError::DivisionByZero),
            rhs.value() != 0 ==> (r matches Ok(x) && x@ == self@ % rhs.value()),
    {
        proof {
            self.lemma_value();
            rhs.lemma_value();
            R::lemma_nonnegative();
        }
        let (b_negative, b) = rhs.magnitude();
        if b == 0 {
            return Err(DivError::DivisionByZero);
        }
        let (a_negative, a) = self.magnitude();
        let (negative, m) = rem_magnitudes(a_negative, a, b_negative, b);
        Ok(Su8::from_magnitude(negative, m))
    }
}

impl<R: UnsignedInteger> TryRemAssign<R> for Su8 {
    fn try_rem_assign(&mut self, rhs: R) -> (r: Result<(), DivError>)
        ensures
            rhs.value() == 0 ==> r == Err::<(), DivError>(DivError::DivisionByZero) && *final(self) == *old(self),
            rhs.value() != 0 ==> r is Ok && final(self)@ == old(self)@ % rhs.value(),
    {
        match (*self).try_rem(rhs) {
            Ok(x) => {
                *self = x;
                Ok(())
            },
            Err(e) => Err(e),
        }
    }
}

impl<R: UnsignedInteger> Div<R> for Su8 {
    type Output = Su8;

    /// Divides `self` by `rhs`, saturating at the numeric bounds. Division by zero
    /// panics, as it does for the primitive integers.
    fn div(self, rhs: R) -> (r: Su8)
        ensures
            r@ == self@ / rhs.value(),
    {
        proof {
            self.lemma_value();
            rhs.lemma_value();
            R::lemma_nonnegative();
        }
        let (a_negative, a) = self.magnitude();
        let (b_negative, b) = rhs.magnitude();
        let (negative, m) = div_magnitudes(a_negative, a, b_negative, b);
        let r = Su8::from_magnitude(negative, m);
        proof {
            r.lemma_value();
        }
        r
    }
}

impl<R: UnsignedInteger> DivSpecImpl<R> for Su8 {
    open spec fn obeys_div_spec() -> bool {
        true
    }

    open spec fn div_req(self, rhs: R) -> bool {
        rhs.value() != 0
    }

    open spec fn div_spec(self, rhs: R) -> Su8 {
        Su8::of_value(self@ / rhs.value())
    }
}

impl<R: UnsignedInteger> DivAssign<R> for Su8 {
    /// Divides `self` by `rhs` in place; a zero divisor leaves `self` unchanged.
    fn div_assign(&mut self, rhs: R)
        ensures
            rhs.value() == 0 ==> *final(self) == *old(self),
            rhs.value() != 0 ==> final(self)@ == old(self)@ / rhs.value(),
    {
        if let Ok(q) = (*self).try_div(rhs) {
            *self = q;
        }
    }
}

impl<R: UnsignedInteger> Rem<R> for Su8 {
    type Output = Su8;

    /// The remainder of dividing `self` by `rhs`. A zero divisor panics, as it does
    /// for the primitive integers.
    fn rem(self, rhs: R) -> (r: Su8)
        ensures
            r@ == self@ % rhs.value(),
    {
        proof {
            self.lemma_value();
            rhs.lemma_value();
            R::lemma_nonnegative();
        }
        let (a_negative, a) = self.magnitude();
        let (b_negative, b) = rhs.magnitude();
        let (negative, m) = rem_magnitudes(a_negative, a, b_negative, b);
        let r = Su8::from_magnitude(negative, m);
        proof {
            r.lemma_value();
        }
        r
    }
}

impl<R: UnsignedInteger> RemSpecImpl<R> for Su8 {
    open spec fn obeys_rem_spec() -> bool {
        true
    }

    open spec fn rem_req(self, rhs: R) -> bool {
        rhs.value() != 0
    }

    open spec fn rem_spec(self, rhs: R) -> Su8 {
        Su8::of_value(self@ % rhs.value())
    }
}

impl<R: UnsignedInteger> RemAssign<R> for Su8 {
    /// Replaces `self` by the remainder of dividing it by `rhs`; where that fails
    /// (see [`TryRem`]) `self` is left unchanged.
    fn rem_assign(&mut self, rhs: R)
        ensures
            rhs.value() == 0 ==> *final(self) == *old(self),
            rhs.value() != 0 ==> final(self)@ == old(self)@ % rhs.value(),
    {
        if let Ok(x) = (*self).try_rem(rhs) {
            *self = x;
        }
    }
}

impl Shl<u32> for Su8 {
    type Output = Su8;

    fn shl(self, rhs: u32) -> (r: Su8)
        ensures
            r@ == (clamp(self@ * pow2(rhs as nat), u8::MIN as int, u8::MAX as int)),
    {
        let (negative, a) = self.magnitude();
        let m = shl_magnitudes(negative, a, rhs);
        proof {
            lemma_represents_clamp(negative, m, self@ * pow2(rhs as nat), u8::MIN as int, u8::MAX as int);
        }
        let r = Su8::from_magnitude(negative, m);
        proof {
            r.lemma_value();
        }
        r
    }
}

impl ShlSpecImpl<u32> for Su8 {
    open spec fn obeys_shl_spec() -> bool {
        true
    }

    open spec fn shl_req(self, rhs: u32) -> bool {
        true
    }

    open spec fn shl_spec(self, rhs: u32) -> Su8 {
        Su8::of_value(clamp(self@ * pow2(rhs as nat), u8::MIN as int, u8::MAX as int))
    }
}

impl ShlAssign<u32> for Su8 {
    fn shl_assign(&mut self, rhs: u32)
        ensures
            final(self)@ == (clamp(old(self)@ * pow2(rhs as nat), u8::MIN as int, u8::MAX as int)),
    {
        *self = *self << rhs;
    }
}

impl Shr<u32> for Su8 {
    type Output = Su8;

    fn shr(self, rhs: u32) -> (r: Su8)
        ensures
            r@ == self@ / (pow2(rhs as nat) as int),
    {
        let (negative, a) = self.magnitude();
        let (n, m) = shr_magnitudes(negative, a, rhs);
        proof {
            vstd::arithmetic::power2::lemma_pow2_pos(rhs as nat);
            self.lemma_value();
            vstd::arithmetic::div_mod::lemma_div_is_ordered(u8::MIN as int, self@, pow2(rhs as nat) as int);
            vstd::arithmetic::div_mod::lemma_div_is_ordered(self@, u8::MAX as int, pow2(rhs as nat) as int);
            lemma_div_by_power_within(u8::MIN as int, pow2(rhs as nat) as int);
            lemma_div_by_power_within(u8::MAX as int, pow2(rhs as nat) as int);
        }
        let r = Su8::from_magnitude(n, m);
        proof {
            r.lemma_value();
        }
        r
    }
}

impl ShrSpecImpl<u32> for Su8 {
    open spec fn obeys_shr_spec() -> bool {
        true
    }

    open spec fn shr_req(self, rhs: u32) -> bool {
        true
    }

    open spec fn shr_spec(self, rhs: u32) -> Su8 {
        Su8::of_value(self@ / (pow2(rhs as nat) as int))
    }
}

impl ShrAssign<u32> for Su8 {
    fn shr_assign(&mut self, rhs: u32)
        ensures
            final(self)@ == old(self)@ / (pow2(rhs as nat) as int),
    {
        *self = *self >> rhs;
    }
}

impl core::iter::Sum for Su8 {
    /// The items combined from left to right, each partial sum saturating.
    fn sum<I: Iterator<Item = Su8>>(iter: I) -> (r: Su8)
        ensures
            iter.obeys_prophetic_iter_laws() ==> r@ == iter.remaining().fold_left(
                0,
                (|acc: int, x: Su8| clamp(acc + x@, u8::MIN as int, u8::MAX as int)),
            ),
    {
        fold_viewed(iter, Su8::ZERO(), Su8::sum_step, Ghost(|acc: int, x: Su8| clamp(acc + x@, u8::MIN as int, u8::MAX as int)))
    }
}

impl<'a> core::iter::Sum<&'a Su8> for Su8 {
    /// The items combined from left to right, each partial sum saturating.
    fn sum<I: Iterator<Item = &'a Su8>>(iter: I) -> (r: Su8)
        ensures
            iter.obeys_prophetic_iter_laws() ==> r@ == iter.remaining().fold_left(
                0,
                (|acc: int, x: &'a Su8| clamp(acc + x@, u8::MIN as int, u8::MAX as int)),
            ),
    {
        fold_viewed(iter, Su8::ZERO(), Su8::sum_step_by_ref, Ghost(|acc: int, x: &'a Su8| clamp(acc + x@, u8::MIN as int, u8::MAX as int)))
    }
}

impl core::iter::Product for Su8 {
    /// The items combined from left to right, each partial product saturating.
    fn product<I: Iterator<Item = Su8>>(iter: I) -> (r: Su8)
        ensures
            iter.obeys_prophetic_iter_laws() ==> r@ == iter.remaining().fold_left(
                1,
                (|acc: int, x: Su8| clamp(acc * x@, u8::MIN as int, u8::MAX as int)),
            ),
    {
        fold_viewed(iter, Su8::ONE(), Su8::product_step, Ghost(|acc: int, x: Su8| clamp(acc * x@, u8::MIN as int, u8::MAX as int)))
    }
}

impl<'a> core::iter::Product<&'a Su8> for Su8 {
    /// The items combined from left to right, each partial product saturating.
    fn product<I: Iterator<Item = &'a Su8>>(iter: I) -> (r: Su8)
        ensures
            iter.obeys_prophetic_iter_laws() ==> r@ == iter.remaining().fold_left(
                1,
                (|acc: int, x: &'a Su8| clamp(acc * x@, u8::MIN as int, u8::MAX as int)),
            ),
    {
        fold_viewed(iter, Su8::ONE(), Su8::product_step_by_ref, Ghost(|acc: int, x: &'a Su8| clamp(acc * x@, u8::MIN as int, u8::MAX as int)))
    }
}

impl Su8 {
    /// One step of [`Sum::sum`](core::iter::Sum::sum).
    fn sum_step(a: Su8, b: Su8) -> (c: Su8)
        ensures
            c@ == clamp(a@ + b@, u8::MIN as int, u8::MAX as int),
    {
        a + b
    }

    /// One step of [`Sum::sum`](core::iter::Sum::sum).
    fn sum_step_by_ref(a: Su8, b: &Su8) -> (c: Su8)
        ensures
            c@ == clamp(a@ + b@, u8::MIN as int, u8::MAX as int),
    {
        a + *b
    }

    /// One step of [`Product::product`](core::iter::Product::product).
    fn product_step(a: Su8, b: Su8) -> (c: Su8)
        ensures
            c@ == clamp(a@ * b@, u8::MIN as int, u8::MAX as int),
    {
        a * b
    }

    /// One step of [`Product::product`](core::iter::Product::product).
    fn product_step_by_ref(a: Su8, b: &Su8) -> (c: Su8)
        ensures
            c@ == clamp(a@ * b@, u8::MIN as int, u8::MAX as int),
    {
        a * *b
    }
}

impl<R: Integer> Add<R> for Su16 {
    type Output = Su16;

    fn add(self, rhs: R) -> (r: Su16)
        ensures
            r@ == clamp(self@ + rhs.value(), u16::MIN as int, u16::MAX as int),
    {
        let (a_negative, a) = self.magnitude();
        let (b_negative, b) = rhs.magnitude();
        let (negative, m) = add_magnitudes(a_negative, a, b_negative, b);
        proof {
            lemma_represents_clamp(negative, m, self@ + rhs.value(), u16::MIN as int, u16::MAX as int);
        }
        let r = Su16::from_magnitude(negative, m);
        proof {
            r.lemma_value();
        }
        r
    }
}

impl<R: Integer> AddSpecImpl<R> for Su16 {
    open spec fn obeys_add_spec() -> bool {
        true
    }

    open spec fn add_req(self, rhs: R) -> bool {
        true
    }

    open spec fn add_spec(self, rhs: R) -> Su16 {
        Su16::of_value(clamp(self@ + rhs.value(), u16::MIN as int, u16::MAX as int))
    }
}

impl<R: Integer> AddAssign<R> for Su16 {
    fn add_assign(&mut self, rhs: R)
        ensures
            final(self)@ == clamp(old(self)@ + rhs.value(), u16::MIN as int, u16::MAX as int),
    {
        *self = *self + rhs;
    }
}

impl<R: Integer> Sub<R> for Su16 {
    type Output = Su16;

    fn sub(self, rhs: R) -> (r: Su16)
        ensures
            r@ == clamp(self@ - rhs.value(), u16::MIN as int, u16::MAX as int),
    {
        let (a_negative, a) = self.magnitude();
        let (b_negative, b) = rhs.magnitude();
        let (negative, m) = add_magnitudes(a_negative, a, !b_negative, b);
        proof {
            lemma_represents_clamp(negative, m, self@ - rhs.value(), u16::MIN as int, u16::MAX as int);
        }
        let r = Su16::from_magnitude(negative, m);
        proof {
            r.lemma_value();
        }
        r
    }
}

impl<R: Integer> SubSpecImpl<R> for Su16 {
    open spec fn obeys_sub_spec() -> bool {
        true
    }

    open spec fn sub_req(self, rhs: R) -> bool {
        true
    }

    open spec fn sub_spec(self, rhs: R) -> Su16 {
        Su16::of_value(clamp(self@ - rhs.value(), u16::MIN as int, u16::MAX as int))
    }
}

impl<R: Integer> SubAssign<R> for Su16 {
    fn sub_assign(&mut self, rhs: R)
        ensures
            final(self)@ == clamp(old(self)@ - rhs.value(), u16::MIN as int, u16::MAX as int),
    {
        *self = *self - rhs;
    }
}

impl<R: UnsignedInteger> Mul<R> for Su16 {
    type Output = Su16;

    fn mul(self, rhs: R) -> (r: Su16)
        ensures
            r@ == clamp(self@ * rhs.value(), u16::MIN as int, u16::MAX as int),
    {
        let (a_negative, a) = self.magnitude();
        let (b_negative, b) = rhs.magnitude();
        let (negative, m) = mul_magnitudes(a_negative, a, b_negative, b);
        proof {
            lemma_represents_clamp(negative, m, self@ * rhs.value(), u16::MIN as int, u16::MAX as int);
        }
        let r = Su16::from_magnitude(negative, m);
        proof {
            r.lemma_value();
        }
        r
    }
}

impl<R: UnsignedInteger> MulSpecImpl<R> for Su16 {
    open spec fn obeys_mul_spec() -> bool {
        true
    }

    open spec fn mul_req(self, rhs: R) -> bool {
        true
    }

    open spec fn mul_spec(self, rhs: R) -> Su16 {
        Su16::of_value(clamp(self@ * rhs.value(), u16::MIN as int, u16::MAX as int))
    }
}

impl<R: UnsignedInteger> MulAssign<R> for Su16 {
    fn mul_assign(&mut self, rhs: R)
        ensures
            final(self)@ == clamp(old(self)@ * rhs.value(), u16::MIN as int, u16::MAX as int),
    {
        *self = *self * rhs;
    }
}

impl<R: UnsignedInteger> TryDiv<R> for Su16 {
    type Output = Su16;

    fn try_div(self, rhs: R) -> (r: Result<Su16, DivError>)
        ensures
            rhs.value() == 0 ==> r == Err::<Su16, DivError>(DivError::DivisionByZero),
            rhs.value() != 0 ==> (r matches Ok(q) && q@ == self@ / rhs.value()),
    {
        proof {
            self.lemma_value();
            rhs.lemma_value();
            R::lemma_nonnegative();
        }
        let (b_negative, b) = rhs.magnitude();
        if b == 0 {
            return Err(DivError::DivisionByZero);
        }
        let (a_negative, a) = self.magnitude();
        let (negative, m) = div_magnitudes(a_negative, a, b_negative, b);
        Ok(Su16::from_magnitude(negative, m))
    }
}

impl<R: UnsignedInteger> TryDivAssign<R> for Su16 {
    fn try_div_assign(&mut self, rhs: R) -> (r: Result<(), DivError>)
        ensures
            rhs.value() == 0 ==> r == Err::<(), DivError>(DivError::DivisionByZero) && *final(self) == *old(self),
            rhs.value() != 0 ==> r is Ok && final(self)@ == old(self)@ / rhs.value(),
    {
        match (*self).try_div(rhs) {
            Ok(q) => {
                *self = q;
                Ok(())
            },
            Err(e) => Err(e),
        }
    }
}

impl<R: UnsignedInteger> TryRem<R> for Su16 {
    type Output = Su16;

    fn try_rem(self, rhs: R) -> (r: Result<Su16, DivError>)
        ensures
            rhs.value() == 0 ==> r == Err::<Su16, DivError>(DivError::DivisionByZero),
            rhs.value() != 0 ==> (r matches Ok(x) && x@ == self@ % rhs.value()),
    {
        proof {
            self.lemma_value();
            rhs.lemma_value();
            R::lemma_nonnegative();
        }
        let (b_negative, b) = rhs.magnitude();
        if b == 0 {
            return Err(DivError::DivisionByZero);
        }
        let (a_negative, a) = self.magnitude();
        let (negative, m) = rem_magnitudes(a_negative, a, b_negative, b);
        Ok(Su16::from_magnitude(negative, m))
    }
}

impl<R: UnsignedInteger> TryRemAssign<R> for Su16 {
    fn try_rem_assign(&mut self, rhs: R) -> (r: Result<(), DivError>)
        ensures
            rhs.value() == 0 ==> r == Err::<(), DivError>(DivError::DivisionByZero) && *final(self) == *old(self),
            rhs.value() != 0 ==> r is Ok && final(self)@ == old(self)@ % rhs.value(),
    {
        match (*self).try_rem(rhs) {
            Ok(x) => {
                *self = x;
                Ok(())
            },
            Err(e) => Err(e),
        }
    }
}

impl<R: UnsignedInteger> Div<R> for Su16 {
    type Output = Su16;

    /// Divides `self` by `rhs`, saturating at the numeric bounds. Division by zero
    /// panics, as it does for the primitive integers.
    fn div(self, rhs: R) -> (r: Su16)
        ensures
            r@ == self@ / rhs.value(),
    {
        proof {
            self.lemma_value();
            rhs.lemma_value();
            R::lemma_nonnegative();
        }
        let (a_negative, a) = self.magnitude();
        let (b_negative, b) = rhs.magnitude();
        let (negative, m) = div_magnitudes(a_negative, a, b_negative, b);
        let r = Su16::from_magnitude(negative, m);
        proof {
            r.lemma_value();
        }
        r
    }
}

impl<R: UnsignedInteger> DivSpecImpl<R> for Su16 {
    open spec fn obeys_div_spec() -> bool {
        true
    }

    open spec fn div_req(self, rhs: R) -> bool {
        rhs.value() != 0
    }

    open spec fn div_spec(self, rhs: R) -> Su16 {
        Su16::of_value(self@ / rhs.value())
    }
}

impl<R: UnsignedInteger> DivAssign<R> for Su16 {
    /// Divides `self` by `rhs` in place; a zero divisor leaves `self` unchanged.
    fn div_assign(&mut self, rhs: R)
        ensures
            rhs.value() == 0 ==> *final(self) == *old(self),
            rhs.value() != 0 ==> final(self)@ == old(self)@ / rhs.value(),
    {
        if let Ok(q) = (*self).try_div(rhs) {
            *self = q;
        }
    }
}

impl<R: UnsignedInteger> Rem<R> for Su16 {
    type Output = Su16;

    /// The remainder of dividing `self` by `rhs`. A zero divisor panics, as it does
    /// for the primitive integers.
    fn rem(self, rhs: R) -> (r: Su16)
        ensures
            r@ == self@ % rhs.value(),
    {
        proof {
            self.lemma_value();
            rhs.lemma_value();
            R::lemma_nonnegative();
        }
        let (a_negative, a) = self.magnitude();
        let (b_negative, b) = rhs.magnitude();
        let (negative, m) = rem_magnitudes(a_negative, a, b_negative, b);
        let r = Su16::from_magnitude(negative, m);
        proof {
            r.lemma_value();
        }
        r
    }
}

impl<R: UnsignedInteger> RemSpecImpl<R> for Su16 {
    open spec fn obeys_rem_spec() -> bool {
        true
    }

    open spec fn rem_req(self, rhs: R) -> bool {
        rhs.value() != 0
    }

    open spec fn rem_spec(self, rhs: R) -> Su16 {
        Su16::of_value(self@ % rhs.value())
    }
}

impl<R: UnsignedInteger> RemAssign<R> for Su16 {
    /// Replaces `self` by the remainder of dividing it by `rhs`; where that fails
    /// (see [`TryRem`]) `self` is left unchanged.
    fn rem_assign(&mut self, rhs: R)
        ensures
            rhs.value() == 0 ==> *final(self) == *old(self),
            rhs.value() != 0 ==> final(self)@ == old(self)@ % rhs.value(),
    {
        if let Ok(x) = (*self).try_rem(rhs) {
            *self = x;
        }
    }
}

impl Shl<u32> for Su16 {
    type Output = Su16;

    fn shl(self, rhs: u32) -> (r: Su16)
        ensures
            r@ == (clamp(self@ * pow2(rhs as nat), u16::MIN as int, u16::MAX as int)),
    {
        let (negative, a) = self.magnitude();
        let m = shl_magnitudes(negative, a, rhs);
        proof {
            lemma_represents_clamp(negative, m, self@ * pow2(rhs as nat), u16::MIN as int, u16::MAX as int);
        }
        let r = Su16::from_magnitude(negative, m);
        proof {
            r.lemma_value();
        }
        r
    }
}

impl ShlSpecImpl<u32> for Su16 {
    open spec fn obeys_shl_spec() -> bool {
        true
    }

    open spec fn shl_req(self, rhs: u32) -> bool {
        true
    }

    open spec fn shl_spec(self, rhs: u32) -> Su16 {
        Su16::of_value(clamp(self@ * pow2(rhs as nat), u16::MIN as int, u16::MAX as int))
    }
}

impl ShlAssign<u32> for Su16 {
    fn shl_assign(&mut self, rhs: u32)
        ensures
            final(self)@ == (clamp(old(self)@ * pow2(rhs as nat), u16::MIN as int, u16::MAX as int)),
    {
        *self = *self << rhs;
    }
}

impl Shr<u32> for Su16 {
    type Output = Su16;

    fn shr(self, rhs: u32) -> (r: Su16)
        ensures
            r@ == self@ / (pow2(rhs as nat) as int),
    {
        let (negative, a) = self.magnitude();
        let (n, m) = shr_magnitudes(negative, a, rhs);
        proof {
            vstd::arithmetic::power2::lemma_pow2_pos(rhs as nat);
            self.lemma_value();
            vstd::arithmetic::div_mod::lemma_div_is_ordered(u16::MIN as int, self@, pow2(rhs as nat) as int);
            vstd::arithmetic::div_mod::lemma_div_is_ordered(self@, u16::MAX as int, pow2(rhs as nat) as int);
            lemma_div_by_power_within(u16::MIN as int, pow2(rhs as nat) as int);
            lemma_div_by_power_within(u16::MAX as int, pow2(rhs as nat) as int);
        }
        let r = Su16::from_magnitude(n, m);
        proof {
            r.lemma_value();
        }
        r
    }
}

impl ShrSpecImpl<u32> for Su16 {
    open spec fn obeys_shr_spec() -> bool {
        true
    }

    open spec fn shr_req(self, rhs: u32) -> bool {
        true
    }

    open spec fn shr_spec(self, rhs: u32) -> Su16 {
        Su16::of_value(self@ / (pow2(rhs as nat) as int))
    }
}

impl ShrAssign<u32> for Su16 {
    fn shr_assign(&mut self, rhs: u32)
        ensures
            final(self)@ == old(self)@ / (pow2(rhs as nat) as int),
    {
        *self = *self >> rhs;
    }
}

impl core::iter::Sum for Su16 {
    /// The items combined from left to right, each partial sum saturating.
    fn sum<I: Iterator<Item = Su16>>(iter: I) -> (r: Su16)
        ensures
            iter.obeys_prophetic_iter_laws() ==> r@ == iter.remaining().fold_left(
                0,
                (|acc: int, x: Su16| clamp(acc + x@, u16::MIN as int, u16::MAX as int)),
            ),
    {
        fold_viewed(iter, Su16::ZERO(), Su16::sum_step, Ghost(|acc: int, x: Su16| clamp(acc + x@, u16::MIN as int, u16::MAX as int)))
    }
}

impl<'a> core::iter::Sum<&'a Su16> for Su16 {
    /// The items combined from left to right, each partial sum saturating.
    fn sum<I: Iterator<Item = &'a Su16>>(iter: I) -> (r: Su16)
        ensures
            iter.obeys_prophetic_iter_laws() ==> r@ == iter.remaining().fold_left(
                0,
                (|acc: int, x: &'a Su16| clamp(acc + x@, u16::MIN as int, u16::MAX as int)),
            ),
    {
        fold_viewed(iter, Su16::ZERO(), Su16::sum_step_by_ref, Ghost(|acc: int, x: &'a Su16| clamp(acc + x@, u16::MIN as int, u16::MAX as int)))
    }
}

impl core::iter::Product for Su16 {
    /// The items combined from left to right, each partial product saturating.
    fn product<I: Iterator<Item = Su16>>(iter: I) -> (r: Su16)
        ensures
            iter.obeys_prophetic_iter_laws() ==> r@ == iter.remaining().fold_left(
                1,
                (|acc: int, x: Su16| clamp(acc * x@, u16::MIN as int, u16::MAX as int)),
            ),
    {
        fold_viewed(iter, Su16::ONE(), Su16::product_step, Ghost(|acc: int, x: Su16| clamp(acc * x@, u16::MIN as int, u16::MAX as int)))
    }
}

impl<'a> core::iter::Product<&'a Su16> for Su16 {
    /// The items combined from left to right, each partial product saturating.
    fn product<I: Iterator<Item = &'a Su16>>(iter: I) -> (r: Su16)
        ensures
            iter.obeys_prophetic_iter_laws() ==> r@ == iter.remaining().fold_left(
                1,
                (|acc: int, x: &'a Su16| clamp(acc * x@, u16::MIN as int, u16::MAX as int)),
            ),
    {
        fold_viewed(iter, Su16::ONE(), Su16::product_step_by_ref, Ghost(|acc: int, x: &'a Su16| clamp(acc * x@, u16::MIN as int, u16::MAX as int)))
    }
}

impl Su16 {
    /// One step of [`Sum::sum`](core::iter::Sum::sum).
    fn sum_step(a: Su16, b: Su16) -> (c: Su16)
        ensures
            c@ == clamp(a@ + b@, u16::MIN as int, u16::MAX as int),
    {
        a + b
    }

    /// One step of [`Sum::sum`](core::iter::Sum::sum).
    fn sum_step_by_ref(a: Su16, b: &Su16) -> (c: Su16)
        ensures
            c@ == clamp(a@ + b@, u16::MIN as int, u16::MAX as int),
    {
        a + *b
    }

    /// One step of [`Product::product`](core::iter::Product::product).
    fn product_step(a: Su16, b: Su16) -> (c: Su16)
        ensures
            c@ == clamp(a@ * b@, u16::MIN as int, u16::MAX as int),
    {
        a * b
    }

    /// One step of [`Product::product`](core::iter::Product::product).
    fn product_step_by_ref(a: Su16, b: &Su16) -> (c: Su16)
        ensures
            c@ == clamp(a@ * b@, u16::MIN as int, u16::MAX as int),
    {
        a * *b
    }
}

impl<R: Integer> Add<R> for Su32 {
    type Output = Su32;

    fn add(self, rhs: R) -> (r: Su32)
        ensures
            r@ == clamp(self@ + rhs.value(), u32::MIN as int, u32::MAX as int),
    {
        let (a_negative, a) = self.magnitude();
        let (b_negative, b) = rhs.magnitude();
        let (negative, m) = add_magnitudes(a_negative, a, b_negative, b);
        proof {
            lemma_represents_clamp(negative, m, self@ + rhs.value(), u32::MIN as int, u32::MAX as int);
        }
        let r = Su32::from_magnitude(negative, m);
        proof {
            r.lemma_value();
        }
        r
    }
}

impl<R: Integer> AddSpecImpl<R> for Su32 {
    open spec fn obeys_add_spec() -> bool {
        true
    }

    open spec fn add_req(self, rhs: R) -> bool {
        true
    }

    open spec fn add_spec(self, rhs: R) -> Su32 {
        Su32::of_value(clamp(self@ + rhs.value(), u32::MIN as int, u32::MAX as int))
    }
}

impl<R: Integer> AddAssign<R> for Su32 {
    fn add_assign(&mut self, rhs: R)
        ensures
            final(self)@ == clamp(old(self)@ + rhs.value(), u32::MIN as int, u32::MAX as int),
    {
        *self = *self + rhs;
    }
}

impl<R: Integer> Sub<R> for Su32 {
    type Output = Su32;

    fn sub(self, rhs: R) -> (r: Su32)
        ensures
            r@ == clamp(self@ - rhs.value(), u32::MIN as int, u32::MAX as int),
    {
        let (a_negative, a) = self.magnitude();
        let (b_negative, b) = rhs.magnitude();
        let (negative, m) = add_magnitudes(a_negative, a, !b_negative, b);
        proof {
            lemma_represents_clamp(negative, m, self@ - rhs.value(), u32::MIN as int, u32::MAX as int);
        }
        let r = Su32::from_magnitude(negative, m);
        proof {
            r.lemma_value();
        }
        r
    }
}

impl<R: Integer> SubSpecImpl<R> for Su32 {
    open spec fn obeys_sub_spec() -> bool {
        true
    }

    open spec fn sub_req(self, rhs: R) -> bool {
        true
    }

    open spec fn sub_spec(self, rhs: R) -> Su32 {
        Su32::of_value(clamp(self@ - rhs.value(), u32::MIN as int, u32::MAX as int))
    }
}

impl<R: Integer> SubAssign<R> for Su32 {
    fn sub_assign(&mut self, rhs: R)
        ensures
            final(self)@ == clamp(old(self)@ - rhs.value(), u32::MIN as int, u32::MAX as int),
    {
        *self = *self - rhs;
    }
}

impl<R: UnsignedInteger> Mul<R> for Su32 {
    type Output = Su32;

    fn mul(self, rhs: R) -> (r: Su32)
        ensures
            r@ == clamp(self@ * rhs.value(), u32::MIN as int, u32::MAX as int),
    {
        let (a_negative, a) = self.magnitude();
        let (b_negative, b) = rhs.magnitude();
        let (negative, m) = mul_magnitudes(a_negative, a, b_negative, b);
        proof {
            lemma_represents_clamp(negative, m, self@ * rhs.value(), u32::MIN as int, u32::MAX as int);
        }
        let r = Su32::from_magnitude(negative, m);
        proof {
            r.lemma_value();
        }
        r
    }
}

impl<R: UnsignedInteger> MulSpecImpl<R> for Su32 {
    open spec fn obeys_mul_spec() -> bool {
        true
    }

    open spec fn mul_req(self, rhs: R) -> bool {
        true
    }

    open spec fn mul_spec(self, rhs: R) -> Su32 {
        Su32::of_value(clamp(self@ * rhs.value(), u32::MIN as int, u32::MAX as int))
    }
}

impl<R: UnsignedInteger> MulAssign<R> for Su32 {
    fn mul_assign(&mut self, rhs: R)
        ensures
            final(self)@ == clamp(old(self)@ * rhs.value(), u32::MIN as int, u32::MAX as int),
    {
        *self = *self * rhs;
    }
}

impl<R: UnsignedInteger> TryDiv<R> for Su32 {
    type Output = Su32;

    fn try_div(self, rhs: R) -> (r: Result<Su32, DivError>)
        ensures
            rhs.value() == 0 ==> r == Err::<Su32, DivError>(DivError::DivisionByZero),
            rhs.value() != 0 ==> (r matches Ok(q) && q@ == self@ / rhs.value()),
    {
        proof {
            self.lemma_value();
            rhs.lemma_value();
            R::lemma_nonnegative();
        }
        let (b_negative, b) = rhs.magnitude();
        if b == 0 {
            return Err(DivError::DivisionByZero);
        }
        let (a_negative, a) = self.magnitude();
        let (negative, m) = div_magnitudes(a_negative, a, b_negative, b);
        Ok(Su32::from_magnitude(negative, m))
    }
}

impl<R: UnsignedInteger> TryDivAssign<R> for Su32 {
    fn try_div_assign(&mut self, rhs: R) -> (r: Result<(), DivError>)
        ensures
            rhs.value() == 0 ==> r == Err::<(), DivError>(DivError::DivisionByZero) && *final(self) == *old(self),
            rhs.value() != 0 ==> r is Ok && final(self)@ == old(self)@ / rhs.value(),
    {
        match (*self).try_div(rhs) {
            Ok(q) => {
                *self = q;
                Ok(())
            },
            Err(e) => Err(e),
        }
    }
}

impl<R: UnsignedInteger> TryRem<R> for Su32 {
    type Output = Su32;

    fn try_rem(self, rhs: R) -> (r: Result<Su32, DivError>)
        ensures
            rhs.value() == 0 ==> r == Err::<Su32, DivError>(DivError::DivisionByZero),
            rhs.value() != 0 ==> (r matches Ok(x) && x@ == self@ % rhs.value()),
    {
        proof {
            self.lemma_value();
            rhs.lemma_value();
            R::lemma_nonnegative();
        }
        let (b_negative, b) = rhs.magnitude();
        if b == 0 {
            return Err(DivError::DivisionByZero);
        }
        let (a_negative, a) = self.magnitude();
        let (negative, m) = rem_magnitudes(a_negative, a, b_negative, b);
        Ok(Su32::from_magnitude(negative, m))
    }
}

impl<R: UnsignedInteger> TryRemAssign<R> for Su32 {
    fn try_rem_assign(&mut self, rhs: R) -> (r: Result<(), DivError>)
        ensures
            rhs.value() == 0 ==> r == Err::<(), DivError>(DivError::DivisionByZero) && *final(self) == *old(self),
            rhs.value() != 0 ==> r is Ok && final(self)@ == old(self)@ % rhs.value(),
    {
        match (*self).try_rem(rhs) {
            Ok(x) => {
                *self = x;
                Ok(())
            },
            Err(e) => Err(e),
        }
    }
}

impl<R: UnsignedInteger> Div<R> for Su32 {
    type Output = Su32;

    /// Divides `self` by `rhs`, saturating at the numeric bounds. Division by zero
    /// panics, as it does for the primitive integers.
    fn div(self, rhs: R) -> (r: Su32)
        ensures
            r@ == self@ / rhs.value(),
    {
        proof {
            self.lemma_value();
            rhs.lemma_value();
            R::lemma_nonnegative();
        }
        let (a_negative, a) = self.magnitude();
        let (b_negative, b) = rhs.magnitude();
        let (negative, m) = div_magnitudes(a_negative, a, b_negative, b);
        let r = Su32::from_magnitude(negative, m);
        proof {
            r.lemma_value();
        }
        r
    }
}

impl<R: UnsignedInteger> DivSpecImpl<R> for Su32 {
    open spec fn obeys_div_spec() -> bool {
        true
    }

    open spec fn div_req(self, rhs: R) -> bool {
        rhs.value() != 0
    }

    open spec fn div_spec(self, rhs: R) -> Su32 {
        Su32::of_value(self@ / rhs.value())
    }
}

impl<R: UnsignedInteger> DivAssign<R> for Su32 {
    /// Divides `self` by `rhs` in place; a zero divisor leaves `self` unchanged.
    fn div_assign(&mut self, rhs: R)
        ensures
            rhs.value() == 0 ==> *final(self) == *old(self),
            rhs.value() != 0 ==> final(self)@ == old(self)@ / rhs.value(),
    {
        if let Ok(q) = (*self).try_div(rhs) {
            *self = q;
        }
    }
}

impl<R: UnsignedInteger> Rem<R> for Su32 {
    type Output = Su32;

    /// The remainder of dividing `self` by `rhs`. A zero divisor panics, as it does
    /// for the primitive integers.
    fn rem(self, rhs: R) -> (r: Su32)
        ensures
            r@ == self@ % rhs.value(),
    {
        proof {
            self.lemma_value();
            rhs.lemma_value();
            R::lemma_nonnegative();
        }
        let (a_negative, a) = self.magnitude();
        let (b_negative, b) = rhs.magnitude();
        let (negative, m) = rem_magnitudes(a_negative, a, b_negative, b);
        let r = Su32::from_magnitude(negative, m);
        proof {
            r.lemma_value();
        }
        r
    }
}

impl<R: UnsignedInteger> RemSpecImpl<R> for Su32 {
    open spec fn obeys_rem_spec() -> bool {
        true
    }

    open spec fn rem_req(self, rhs: R) -> bool {
        rhs.value() != 0
    }

    open spec fn rem_spec(self, rhs: R) -> Su32 {
        Su32::of_value(self@ % rhs.value())
    }
}

impl<R: UnsignedInteger> RemAssign<R> for Su32 {
    /// Replaces `self` by the remainder of dividing it by `rhs`; where that fails
    /// (see [`TryRem`]) `self` is left unchanged.
    fn rem_assign(&mut self, rhs: R)
        ensures
            rhs.value() == 0 ==> *final(self) == *old(self),
            rhs.value() != 0 ==> final(self)@ == old(self)@ % rhs.value(),
    {
        if let Ok(x) = (*self).try_rem(rhs) {
            *self = x;
        }
    }
}

impl Shl<u32> for Su32 {
    type Output = Su32;

    fn shl(self, rhs: u32) -> (r: Su32)
        ensures
            r@ == (clamp(self@ * pow2(rhs as nat), u32::MIN as int, u32::MAX as int)),
    {
        let (negative, a) = self.magnitude();
        let m = shl_magnitudes(negative, a, rhs);
        proof {
            lemma_represents_clamp(negative, m, self@ * pow2(rhs as nat), u32::MIN as int, u32::MAX as int);
        }
        let r = Su32::from_magnitude(negative, m);
        proof {
            r.lemma_value();
        }
        r
    }
}

impl ShlSpecImpl<u32> for Su32 {
    open spec fn obeys_shl_spec() -> bool {
        true
    }

    open spec fn shl_req(self, rhs: u32) -> bool {
        true
    }

    open spec fn shl_spec(self, rhs: u32) -> Su32 {
        Su32::of_value(clamp(self@ * pow2(rhs as nat), u32::MIN as int, u32::MAX as int))
    }
}

impl ShlAssign<u32> for Su32 {
    fn shl_assign(&mut self, rhs: u32)
        ensures
            final(self)@ == (clamp(old(self)@ * pow2(rhs as nat), u32::MIN as int, u32::MAX as int)),
    {
        *self = *self << rhs;
    }
}

impl Shr<u32> for Su32 {
    type Output = Su32;

    fn shr(self, rhs: u32) -> (r: Su32)
        ensures
            r@ == self@ / (pow2(rhs as nat) as int),
    {
        let (negative, a) = self.magnitude();
        let (n, m) = shr_magnitudes(negative, a, rhs);
        proof {
            vstd::arithmetic::power2::lemma_pow2_pos(rhs as nat);
            self.lemma_value();
            vstd::arithmetic::div_mod::lemma_div_is_ordered(u32::MIN as int, self@, pow2(rhs as nat) as int);
            vstd::arithmetic::div_mod::lemma_div_is_ordered(self@, u32::MAX as int, pow2(rhs as nat) as int);
            lemma_div_by_power_within(u32::MIN as int, pow2(rhs as nat) as int);
            lemma_div_by_power_within(u32::MAX as int, pow2(rhs as nat) as int);
        }
        let r = Su32::from_magnitude(n, m);
        proof {
            r.lemma_value();
        }
        r
    }
}

impl ShrSpecImpl<u32> for Su32 {
    open spec fn obeys_shr_spec() -> bool {
        true
    }

    open spec fn shr_req(self, rhs: u32) -> bool {
        true
    }

    open spec fn shr_spec(self, rhs: u32) -> Su32 {
        Su32::of_value(self@ / (pow2(rhs as nat) as int))
    }
}

impl ShrAssign<u32> for Su32 {
    fn shr_assign(&mut self, rhs: u32)
        ensures
            final(self)@ == old(self)@ / (pow2(rhs as nat) as int),
    {
        *self = *self >> rhs;
    }
}

impl core::iter::Sum for Su32 {
    /// The items combined from left to right, each partial sum saturating.
    fn sum<I: Iterator<Item = Su32>>(iter: I) -> (r: Su32)
        ensures
            iter.obeys_prophetic_iter_laws() ==> r@ == iter.remaining().fold_left(
                0,
                (|acc: int, x: Su32| clamp(acc + x@, u32::MIN as int, u32::MAX as int)),
            ),
    {
        fold_viewed(iter, Su32::ZERO(), Su32::sum_step, Ghost(|acc: int, x: Su32| clamp(acc + x@, u32::MIN as int, u32::MAX as int)))
    }
}

impl<'a> core::iter::Sum<&'a Su32> for Su32 {
    /// The items combined from left to right, each partial sum saturating.
    fn sum<I: Iterator<Item = &'a Su32>>(iter: I) -> (r: Su32)
        ensures
            iter.obeys_prophetic_iter_laws() ==> r@ == iter.remaining().fold_left(
                0,
                (|acc: int, x: &'a Su32| clamp(acc + x@, u32::MIN as int, u32::MAX as int)),
            ),
    {
        fold_viewed(iter, Su32::ZERO(), Su32::sum_step_by_ref, Ghost(|acc: int, x: &'a Su32| clamp(acc + x@, u32::MIN as int, u32::MAX as int)))
    }
}

impl core::iter::Product for Su32 {
    /// The items combined from left to right, each partial product saturating.
    fn product<I: Iterator<Item = Su32>>(iter: I) -> (r: Su32)
        ensures
            iter.obeys_prophetic_iter_laws() ==> r@ == iter.remaining().fold_left(
                1,
                (|acc: int, x: Su32| clamp(acc * x@, u32::MIN as int, u32::MAX as int)),
            ),
    {
        fold_viewed(iter, Su32::ONE(), Su32::product_step, Ghost(|acc: int, x: Su32| clamp(acc * x@, u32::MIN as int, u32::MAX as int)))
    }
}

impl<'a> core::iter::Product<&'a Su32> for Su32 {
    /// The items combined from left to right, each partial product saturating.
    fn product<I: Iterator<Item = &'a Su32>>(iter: I) -> (r: Su32)
        ensures
            iter.obeys_prophetic_iter_laws() ==> r@ == iter.remaining().fold_left(
                1,
                (|acc: int, x: &'a Su32| clamp(acc * x@, u32::MIN as int, u32::MAX as int)),
            ),
    {
        fold_viewed(iter, Su32::ONE(), Su32::product_step_by_ref, Ghost(|acc: int, x: &'a Su32| clamp(acc * x@, u32::MIN as int, u32::MAX as int)))
    }
}

impl Su32 {
    /// One step of [`Sum::sum`](core::iter::Sum::sum).
    fn sum_step(a: Su32, b: Su32) -> (c: Su32)
        ensures
            c@ == clamp(a@ + b@, u32::MIN as int, u32::MAX as int),
    {
        a + b
    }

    /// One step of [`Sum::sum`](core::iter::Sum::sum).
    fn sum_step_by_ref(a: Su32, b: &Su32) -> (c: Su32)
        ensures
            c@ == clamp(a@ + b@, u32::MIN as int, u32::MAX as int),
    {
        a + *b
    }

    /// One step of [`Product::product`](core::iter::Product::product).
    fn product_step(a: Su32, b: Su32) -> (c: Su32)
        ensures
            c@ == clamp(a@ * b@, u32::MIN as int, u32::MAX as int),
    {
        a * b
    }

    /// One step of [`Product::product`](core::iter::Product::product).
    fn product_step_by_ref(a: Su32, b: &Su32) -> (c: Su32)
        ensures
            c@ == clamp(a@ * b@, u32::MIN as int, u32::MAX as int),
    {
        a * *b
    }
}

impl<R: Integer> Add<R> for Su64 {
    type Output = Su64;

    fn add(self, rhs: R) -> (r: Su64)
        ensures
            r@ == clamp(self@ + rhs.value(), u64::MIN as int, u64::MAX as int),
    {
        let (a_negative, a) = self.magnitude();
        let (b_negative, b) = rhs.magnitude();
        let (negative, m) = add_magnitudes(a_negative, a, b_negative, b);
        proof {
            lemma_represents_clamp(negative, m, self@ + rhs.value(), u64::MIN as int, u64::MAX as int);
        }
        let r = Su64::from_magnitude(negative, m);
        proof {
            r.lemma_value();
        }
        r
    }
}

impl<R: Integer> AddSpecImpl<R> for Su64 {
    open spec fn obeys_add_spec() -> bool {
        true
    }

    open spec fn add_req(self, rhs: R) -> bool {
        true
    }

    open spec fn add_spec(self, rhs: R) -> Su64 {
        Su64::of_value(clamp(self@ + rhs.value(), u64::MIN as int, u64::MAX as int))
    }
}

impl<R: Integer> AddAssign<R> for Su64 {
    fn add_assign(&mut self, rhs: R)
        ensures
            final(self)@ == clamp(old(self)@ + rhs.value(), u64::MIN as int, u64::MAX as int),
    {
        *self = *self + rhs;
    }
}

impl<R: Integer> Sub<R> for Su64 {
    type Output = Su64;

    fn sub(self, rhs: R) -> (r: Su64)
        ensures
            r@ == clamp(self@ - rhs.value(), u64::MIN as int, u64::MAX as int),
    {
        let (a_negative, a) = self.magnitude();
        let (b_negative, b) = rhs.magnitude();
        let (negative, m) = add_magnitudes(a_negative, a, !b_negative, b);
        proof {
            lemma_represents_clamp(negative, m, self@ - rhs.value(), u64::MIN as int, u64::MAX as int);
        }
        let r = Su64::from_magnitude(negative, m);
        proof {
            r.lemma_value();
        }
        r
    }
}

impl<R: Integer> SubSpecImpl<R> for Su64 {
    open spec fn obeys_sub_spec() -> bool {
        true
    }

    open spec fn sub_req(self, rhs: R) -> bool {
        true
    }

    open spec fn sub_spec(self, rhs: R) -> Su64 {
        Su64::of_value(clamp(self@ - rhs.value(), u64::MIN as int, u64::MAX as int))
    }
}

impl<R: Integer> SubAssign<R> for Su64 {
    fn sub_assign(&mut self, rhs: R)
        ensures
            final(self)@ == clamp(old(self)@ - rhs.value(), u64::MIN as int, u64::MAX as int),
    {
        *self = *self - rhs;
    }
}

impl<R: UnsignedInteger> Mul<R> for Su64 {
    type Output = Su64;

    fn mul(self, rhs: R) -> (r: Su64)
        ensures
            r@ == clamp(self@ * rhs.value(), u64::MIN as int, u64::MAX as int),
    {
        let (a_negative, a) = self.magnitude();
        let (b_negative, b) = rhs.magnitude();
        let (negative, m) = mul_magnitudes(a_negative, a, b_negative, b);
        proof {
            lemma_represents_clamp(negative, m, self@ * rhs.value(), u64::MIN as int, u64::MAX as int);
        }
        let r = Su64::from_magnitude(negative, m);
        proof {
            r.lemma_value();
        }
        r
    }
}

impl<R: UnsignedInteger> MulSpecImpl<R> for Su64 {
    open spec fn obeys_mul_spec() -> bool {
        true
    }

    open spec fn mul_req(self, rhs: R) -> bool {
        true
    }

    open spec fn mul_spec(self, rhs: R) -> Su64 {
        Su64::of_value(clamp(self@ * rhs.value(), u64::MIN as int, u64::MAX as int))
    }
}

impl<R: UnsignedInteger> MulAssign<R> for Su64 {
    fn mul_assign(&mut self, rhs: R)
        ensures
            final(self)@ == clamp(old(self)@ * rhs.value(), u64::MIN as int, u64::MAX as int),
    {
        *self = *self * rhs;
    }
}

impl<R: UnsignedInteger> TryDiv<R> for Su64 {
    type Output = Su64;

    fn try_div(self, rhs: R) -> (r: Result<Su64, DivError>)
        ensures
            rhs.value() == 0 ==> r == Err::<Su64, DivError>(DivError::DivisionByZero),
            rhs.value() != 0 ==> (r matches Ok(q) && q@ == self@ / rhs.value()),
    {
        proof {
            self.lemma_value();
            rhs.lemma_value();
            R::lemma_nonnegative();
        }
        let (b_negative, b) = rhs.magnitude();
        if b == 0 {
            return Err(DivError::DivisionByZero);
        }
        let (a_negative, a) = self.magnitude();
        let (negative, m) = div_magnitudes(a_negative, a, b_negative, b);
        Ok(Su64::from_magnitude(negative, m))
    }
}

impl<R: UnsignedInteger> TryDivAssign<R> for Su64 {
    fn try_div_assign(&mut self, rhs: R) -> (r: Result<(), DivError>)
        ensures
            rhs.value() == 0 ==> r == Err::<(), DivError>(DivError::DivisionByZero) && *final(self) == *old(self),
            rhs.value() != 0 ==> r is Ok && final(self)@ == old(self)@ / rhs.value(),
    {
        match (*self).try_div(rhs) {
            Ok(q) => {
                *self = q;
                Ok(())
            },
            Err(e) => Err(e),
        }
    }
}

impl<R: UnsignedInteger> TryRem<R> for Su64 {
    type Output = Su64;

    fn try_rem(self, rhs: R) -> (r: Result<Su64, DivError>)
        ensures
            rhs.value() == 0 ==> r == Err::<Su64, DivError>(DivError::DivisionByZero),
            rhs.value() != 0 ==> (r matches Ok(x) && x@ == self@ % rhs.value()),
    {
        proof {
            self.lemma_value();
            rhs.lemma_value();
            R::lemma_nonnegative();
        }
        let (b_negative, b) = rhs.magnitude();
        if b == 0 {
            return Err(DivError::DivisionByZero);
        }
        let (a_negative, a) = self.magnitude();
        let (negative, m) = rem_magnitudes(a_negative, a, b_negative, b);
        Ok(Su64::from_magnitude(negative, m))
    }
}

impl<R: UnsignedInteger> TryRemAssign<R> for Su64 {
    fn try_rem_assign(&mut self, rhs: R) -> (r: Result<(), DivError>)
        ensures
            rhs.value() == 0 ==> r == Err::<(), DivError>(DivError::DivisionByZero) && *final(self) == *old(self),
            rhs.value() != 0 ==> r is Ok && final(self)@ == old(self)@ % rhs.value(),
    {
        match (*self).try_rem(rhs) {
            Ok(x) => {
                *self = x;
                Ok(())
            },
            Err(e) => Err(e),
        }
    }
}

impl<R: UnsignedInteger> Div<R> for Su64 {
    type Output = Su64;

    /// Divides `self` by `rhs`, saturating at the numeric bounds. Division by zero
    /// panics, as it does for the primitive integers.
    fn div(self, rhs: R) -> (r: Su64)
        ensures
            r@ == self@ / rhs.value(),
    {
        proof {
            self.lemma_value();
            rhs.lemma_value();
            R::lemma_nonnegative();
        }
        let (a_negative, a) = self.magnitude();
        let (b_negative, b) = rhs.magnitude();
        let (negative, m) = div_magnitudes(a_negative, a, b_negative, b);
        let r = Su64::from_magnitude(negative, m);
        proof {
            r.lemma_value();
        }
        r
    }
}

impl<R: UnsignedInteger> DivSpecImpl<R> for Su64 {
    open spec fn obeys_div_spec() -> bool {
        true
    }

    open spec fn div_req(self, rhs: R) -> bool {
        rhs.value() != 0
    }

    open spec fn div_spec(self, rhs: R) -> Su64 {
        Su64::of_value(self@ / rhs.value())
    }
}

impl<R: UnsignedInteger> DivAssign<R> for Su64 {
    /// Divides `self` by `rhs` in place; a zero divisor leaves `self` unchanged.
    fn div_assign(&mut self, rhs: R)
        ensures
            rhs.value() == 0 ==> *final(self) == *old(self),
            rhs.value() != 0 ==> final(self)@ == old(self)@ / rhs.value(),
    {
        if let Ok(q) = (*self).try_div(rhs) {
            *self = q;
        }
    }
}

impl<R: UnsignedInteger> Rem<R> for Su64 {
    type Output = Su64;

    /// The remainder of dividing `self` by `rhs`. A zero divisor panics, as it does
    /// for the primitive integers.
    fn rem(self, rhs: R) -> (r: Su64)
        ensures
            r@ == self@ % rhs.value(),
    {
        proof {
            self.lemma_value();
            rhs.lemma_value();
            R::lemma_nonnegative();
        }
        let (a_negative, a) = self.magnitude();
        let (b_negative, b) = rhs.magnitude();
        let (negative, m) = rem_magnitudes(a_negative, a, b_negative, b);
        let r = Su64::from_magnitude(negative, m);
        proof {
            r.lemma_value();
        }
        r
    }
}

impl<R: UnsignedInteger> RemSpecImpl<R> for Su64 {
    open spec fn obeys_rem_spec() -> bool {
        true
    }

    open spec fn rem_req(self, rhs: R) -> bool {
        rhs.value() != 0
    }

    open spec fn rem_spec(self, rhs: R) -> Su64 {
        Su64::of_value(self@ % rhs.value())
    }
}

impl<R: UnsignedInteger> RemAssign<R> for Su64 {
    /// Replaces `self` by the remainder of dividing it by `rhs`; where that fails
    /// (see [`TryRem`]) `self` is left unchanged.
    fn rem_assign(&mut self, rhs: R)
        ensures
            rhs.value() == 0 ==> *final(self) == *old(self),
            rhs.value() != 0 ==> final(self)@ == old(self)@ % rhs.value(),
    {
        if let Ok(x) = (*self).try_rem(rhs) {
            *self = x;
        }
    }
}

impl Shl<u32> for Su64 {
    type Output = Su64;

    fn shl(self, rhs: u32) -> (r: Su64)
        ensures
            r@ == (clamp(self@ * pow2(rhs as nat), u64::MIN as int, u64::MAX as int)),
    {
        let (negative, a) = self.magnitude();
        let m = shl_magnitudes(negative, a, rhs);
        proof {
            lemma_represents_clamp(negative, m, self@ * pow2(rhs as nat), u64::MIN as int, u64::MAX as int);
        }
        let r = Su64::from_magnitude(negative, m);
        proof {
            r.lemma_value();
        }
        r
    }
}

impl ShlSpecImpl<u32> for Su64 {
    open spec fn obeys_shl_spec() -> bool {
        true
    }

    open spec fn shl_req(self, rhs: u32) -> bool {
        true
    }

    open spec fn shl_spec(self, rhs: u32) -> Su64 {
        Su64::of_value(clamp(self@ * pow2(rhs as nat), u64::MIN as int, u64::MAX as int))
    }
}

impl ShlAssign<u32> for Su64 {
    fn shl_assign(&mut self, rhs: u32)
        ensures
            final(self)@ == (clamp(old(self)@ * pow2(rhs as nat), u64::MIN as int, u64::MAX as int)),
    {
        *self = *self << rhs;
    }
}

impl Shr<u32> for Su64 {
    type Output = Su64;

    fn shr(self, rhs: u32) -> (r: Su64)
        ensures
            r@ == self@ / (pow2(rhs as nat) as int),
    {
        let (negative, a) = self.magnitude();
        let (n, m) = shr_magnitudes(negative, a, rhs);
        proof {
            vstd::arithmetic::power2::lemma_pow2_pos(rhs as nat);
            self.lemma_value();
            vstd::arithmetic::div_mod::lemma_div_is_ordered(u64::MIN as int, self@, pow2(rhs as nat) as int);
            vstd::arithmetic::div_mod::lemma_div_is_ordered(self@, u64::MAX as int, pow2(rhs as nat) as int);
            lemma_div_by_power_within(u64::MIN as int, pow2(rhs as nat) as int);
            lemma_div_by_power_within(u64::MAX as int, pow2(rhs as nat) as int);
        }
        let r = Su64::from_magnitude(n, m);
        proof {
            r.lemma_value();
        }
        r
    }
}

impl ShrSpecImpl<u32> for Su64 {
    open spec fn obeys_shr_spec() -> bool {
        true
    }

    open spec fn shr_req(self, rhs: u32) -> bool {
        true
    }

    open spec fn shr_spec(self, rhs: u32) -> Su64 {
        Su64::of_value(self@ / (pow2(rhs as nat) as int))
    }
}

impl ShrAssign<u32> for Su64 {
    fn shr_assign(&mut self, rhs: u32)
        ensures
            final(self)@ == old(self)@ / (pow2(rhs as nat) as int),
    {
        *self = *self >> rhs;
    }
}

impl core::iter::Sum for Su64 {
    /// The items combined from left to right, each partial sum saturating.
    fn sum<I: Iterator<Item = Su64>>(iter: I) -> (r: Su64)
        ensures
            iter.obeys_prophetic_iter_laws() ==> r@ == iter.remaining().fold_left(
                0,
                (|acc: int, x: Su64| clamp(acc + x@, u64::MIN as int, u64::MAX as int)),
            ),
    {
        fold_viewed(iter, Su64::ZERO(), Su64::sum_step, Ghost(|acc: int, x: Su64| clamp(acc + x@, u64::MIN as int, u64::MAX as int)))
    }
}

impl<'a> core::iter::Sum<&'a Su64> for Su64 {
    /// The items combined from left to right, each partial sum saturating.
    fn sum<I: Iterator<Item = &'a Su64>>(iter: I) -> (r: Su64)
        ensures
            iter.obeys_prophetic_iter_laws() ==> r@ == iter.remaining().fold_left(
                0,
                (|acc: int, x: &'a Su64| clamp(acc + x@, u64::MIN as int, u64::MAX as int)),
            ),
    {
        fold_viewed(iter, Su64::ZERO(), Su64::sum_step_by_ref, Ghost(|acc: int, x: &'a Su64| clamp(acc + x@, u64::MIN as int, u64::MAX as int)))
    }
}

impl core::iter::Product for Su64 {
    /// The items combined from left to right, each partial product saturating.
    fn product<I: Iterator<Item = Su64>>(iter: I) -> (r: Su64)
        ensures
            iter.obeys_prophetic_iter_laws() ==> r@ == iter.remaining().fold_left(
                1,
                (|acc: int, x: Su64| clamp(acc * x@, u64::MIN as int, u64::MAX as int)),
            ),
    {
        fold_viewed(iter, Su64::ONE(), Su64::product_step, Ghost(|acc: int, x: Su64| clamp(acc * x@, u64::MIN as int, u64::MAX as int)))
    }
}

impl<'a> core::iter::Product<&'a Su64> for Su64 {
    /// The items combined from left to right, each partial product saturating.
    fn product<I: Iterator<Item = &'a Su64>>(iter: I) -> (r: Su64)
        ensures
            iter.obeys_prophetic_iter_laws() ==> r@ == iter.remaining().fold_left(
                1,
                (|acc: int, x: &'a Su64| clamp(acc * x@, u64::MIN as int, u64::MAX as int)),
            ),
    {
        fold_viewed(iter, Su64::ONE(), Su64::product_step_by_ref, Ghost(|acc: int, x: &'a Su64| clamp(acc * x@, u64::MIN as int, u64::MAX as int)))
    }
}

impl Su64 {
    /// One step of [`Sum::sum`](core::iter::Sum::sum).
    fn sum_step(a: Su64, b: Su64) -> (c: Su64)
        ensures
            c@ == clamp(a@ + b@, u64::MIN as int, u64::MAX as int),
    {
        a + b
    }

    /// One step of [`Sum::sum`](core::iter::Sum::sum).
    fn sum_step_by_ref(a: Su64, b: &Su64) -> (c: Su64)
        ensures
            c@ == clamp(a@ + b@, u64::MIN as int, u64::MAX as int),
    {
        a + *b
    }

    /// One step of [`Product::product`](core::iter::Product::product).
    fn product_step(a: Su64, b: Su64) -> (c: Su64)
        ensures
            c@ == clamp(a@ * b@, u64::MIN as int, u64::MAX as int),
    {
        a * b
    }

    /// One step of [`Product::product`](core::iter::Product::product).
    fn product_step_by_ref(a: Su64, b: &Su64) -> (c: Su64)
        ensures
            c@ == clamp(a@ * b@, u64::MIN as int, u64::MAX as int),
    {
        a * *b
    }
}

impl<R: Integer> Add<R> for Su128 {
    type Output = Su128;

    fn add(self, rhs: R) -> (r: Su128)
        ensures
            r@ == clamp(self@ + rhs.value(), u128::MIN as int, u128::MAX as int),
    {
        let (a_negative, a) = self.magnitude();
        let (b_negative, b) = rhs.magnitude();
        let (negative, m) = add_magnitudes(a_negative, a, b_negative, b);
        proof {
            lemma_represents_clamp(negative, m, self@ + rhs.value(), u128::MIN as int, u128::MAX as int);
        }
        let r = Su128::from_magnitude(negative, m);
        proof {
            r.lemma_value();
        }
        r
    }
}

impl<R: Integer> AddSpecImpl<R> for Su128 {
    open spec fn obeys_add_spec() -> bool {
        true
    }

    open spec fn add_req(self, rhs: R) -> bool {
        true
    }

    open spec fn add_spec(self, rhs: R) -> Su128 {
        Su128::of_value(clamp(self@ + rhs.value(), u128::MIN as int, u128::MAX as int))
    }
}

impl<R: Integer> AddAssign<R> for Su128 {
    fn add_assign(&mut self, rhs: R)
        ensures
            final(self)@ == clamp(old(self)@ + rhs.value(), u128::MIN as int, u128::MAX as int),
    {
        *self = *self + rhs;
    }
}

impl<R: Integer> Sub<R> for Su128 {
    type Output = Su128;

    fn sub(self, rhs: R) -> (r: Su128)
        ensures
            r@ == clamp(self@ - rhs.value(), u128::MIN as int, u128::MAX as int),
    {
        let (a_negative, a) = self.magnitude();
        let (b_negative, b) = rhs.magnitude();
        let (negative, m) = add_magnitudes(a_negative, a, !b_negative, b);
        proof {
            lemma_represents_clamp(negative, m, self@ - rhs.value(), u128::MIN as int, u128::MAX as int);
        }
        let r = Su128::from_magnitude(negative, m);
        proof {
            r.lemma_value();
        }
        r
    }
}

impl<R: Integer> SubSpecImpl<R> for Su128 {
    open spec fn obeys_sub_spec() -> bool {
        true
    }

    open spec fn sub_req(self, rhs: R) -> bool {
        true
    }

    open spec fn sub_spec(self, rhs: R) -> Su128 {
        Su128::of_value(clamp(self@ - rhs.value(), u128::MIN as int, u128::MAX as int))
    }
}

impl<R: Integer> SubAssign<R> for Su128 {
    fn sub_assign(&mut self, rhs: R)
        ensures
            final(self)@ == clamp(old(self)@ - rhs.value(), u128::MIN as int, u128::MAX as int),
    {
        *self = *self - rhs;
    }
}

impl<R: UnsignedInteger> Mul<R> for Su128 {
    type Output = Su128;

    fn mul(self, rhs: R) -> (r: Su128)
        ensures
            r@ == clamp(self@ * rhs.value(), u128::MIN as int, u128::MAX as int),
    {
        let (a_negative, a) = self.magnitude();
        let (b_negative, b) = rhs.magnitude();
        let (negative, m) = mul_magnitudes(a_negative, a, b_negative, b);
        proof {
            lemma_represents_clamp(negative, m, self@ * rhs.value(), u128::MIN as int, u128::MAX as int);
        }
        let r = Su128::from_magnitude(negative, m);
        proof {
            r.lemma_value();
        }
        r
    }
}

impl<R: UnsignedInteger> MulSpecImpl<R> for Su128 {
    open spec fn obeys_mul_spec() -> bool {
        true
    }

    open spec fn mul_req(self, rhs: R) -> bool {
        true
    }

    open spec fn mul_spec(self, rhs: R) -> Su128 {
        Su128::of_value(clamp(self@ * rhs.value(), u128::MIN as int, u128::MAX as int))
    }
}

impl<R: UnsignedInteger> MulAssign<R> for Su128 {
    fn mul_assign(&mut self, rhs: R)
        ensures
            final(self)@ == clamp(old(self)@ * rhs.value(), u128::MIN as int, u128::MAX as int),
    {
        *self = *self * rhs;
    }
}

impl<R: UnsignedInteger> TryDiv<R> for Su128 {
    type Output = Su128;

    fn try_div(self, rhs: R) -> (r: Result<Su128, DivError>)
        ensures
            rhs.value() == 0 ==> r == Err::<Su128, DivError>(DivError::DivisionByZero),
            rhs.value() != 0 ==> (r matches Ok(q) && q@ == self@ / rhs.value()),
    {
        proof {
            self.lemma_value();
            rhs.lemma_value();
            R::lemma_nonnegative();
        }
        let (b_negative, b) = rhs.magnitude();
        if b == 0 {
            return Err(DivError::DivisionByZero);
        }
        let (a_negative, a) = self.magnitude();
        let (negative, m) = div_magnitudes(a_negative, a, b_negative, b);
        Ok(Su128::from_magnitude(negative, m))
    }
}

impl<R: UnsignedInteger> TryDivAssign<R> for Su128 {
    fn try_div_assign(&mut self, rhs: R) -> (r: Result<(), DivError>)
        ensures
            rhs.value() == 0 ==> r == Err::<(), DivError>(DivError::DivisionByZero) && *final(self) == *old(self),
            rhs.value() != 0 ==> r is Ok && final(self)@ == old(self)@ / rhs.value(),
    {
        match (*self).try_div(rhs) {
            Ok(q) => {
                *self = q;
                Ok(())
            },
            Err(e) => Err(e),
        }
    }
}

impl<R: UnsignedInteger> TryRem<R> for Su128 {
    type Output = Su128;

    fn try_rem(self, rhs: R) -> (r: Result<Su128, DivError>)
        ensures
            rhs.value() == 0 ==> r == Err::<Su128, DivError>(DivError::DivisionByZero),
            rhs.value() != 0 ==> (r matches Ok(x) && x@ == self@ % rhs.value()),
    {
        proof {
            self.lemma_value();
            rhs.lemma_value();
            R::lemma_nonnegative();
        }
        let (b_negative, b) = rhs.magnitude();
        if b == 0 {
            return Err(DivError::DivisionByZero);
        }
        let (a_negative, a) = self.magnitude();
        let (negative, m) = rem_magnitudes(a_negative, a, b_negative, b);
        Ok(Su128::from_magnitude(negative, m))
    }
}

impl<R: UnsignedInteger> TryRemAssign<R> for Su128 {
    fn try_rem_assign(&mut self, rhs: R) -> (r: Result<(), DivError>)
        ensures
            rhs.value() == 0 ==> r == Err::<(), DivError>(DivError::DivisionByZero) && *final(self) == *old(self),
            rhs.value() != 0 ==> r is Ok && final(self)@ == old(self)@ % rhs.value(),
    {
        match (*self).try_rem(rhs) {
            Ok(x) => {
                *self = x;
                Ok(())
            },
            Err(e) => Err(e),
        }
    }
}

impl<R: UnsignedInteger> Div<R> for Su128 {
    type Output = Su128;

    /// Divides `self` by `rhs`, saturating at the numeric bounds. Division by zero
    /// panics, as it does for the primitive integers.
    fn div(self, rhs: R) -> (r: Su128)
        ensures
            r@ == self@ / rhs.value(),
    {
        proof {
            self.lemma_value();
            rhs.lemma_value();
            R::lemma_nonnegative();
        }
        let (a_negative, a) = self.magnitude();
        let (b_negative, b) = rhs.magnitude();
        let (negative, m) = div_magnitudes(a_negative, a, b_negative, b);
        let r = Su128::from_magnitude(negative, m);
        proof {
            r.lemma_value();
        }
        r
    }
}

impl<R: UnsignedInteger> DivSpecImpl<R> for Su128 {
    open spec fn obeys_div_spec() -> bool {
        true
    }

    open spec fn div_req(self, rhs: R) -> bool {
        rhs.value() != 0
    }

    open spec fn div_spec(self, rhs: R) -> Su128 {
        Su128::of_value(self@ / rhs.value())
    }
}

impl<R: UnsignedInteger> DivAssign<R> for Su128 {
    /// Divides `self` by `rhs` in place; a zero divisor leaves `self` unchanged.
    fn div_assign(&mut self, rhs: R)
        ensures
            rhs.value() == 0 ==> *final(self) == *old(self),
            rhs.value() != 0 ==> final(self)@ == old(self)@ / rhs.value(),
    {
        if let Ok(q) = (*self).try_div(rhs) {
            *self = q;
        }
    }
}

impl<R: UnsignedInteger> Rem<R> for Su128 {
    type Output = Su128;

    /// The remainder of dividing `self` by `rhs`. A zero divisor panics, as it does
    /// for the primitive integers.
    fn rem(self, rhs: R) -> (r: Su128)
        ensures
            r@ == self@ % rhs.value(),
    {
        proof {
            self.lemma_value();
            rhs.lemma_value();
            R::lemma_nonnegative();
        }
        let (a_negative, a) = self.magnitude();
        let (b_negative, b) = rhs.magnitude();
        let (negative, m) = rem_magnitudes(a_negative, a, b_negative, b);
        let r = Su128::from_magnitude(negative, m);
        proof {
            r.lemma_value();
        }
        r
    }
}

impl<R: UnsignedInteger> RemSpecImpl<R> for Su128 {
    open spec fn obeys_rem_spec() -> bool {
        true
    }

    open spec fn rem_req(self, rhs: R) -> bool {
        rhs.value() != 0
    }

    open spec fn rem_spec(self, rhs: R) -> Su128 {
        Su128::of_value(self@ % rhs.value())
    }
}

impl<R: UnsignedInteger> RemAssign<R> for Su128 {
    /// Replaces `self` by the remainder of dividing it by `rhs`; where that fails
    /// (see [`TryRem`]) `self` is left unchanged.
    fn rem_assign(&mut self, rhs: R)
        ensures
            rhs.value() == 0 ==> *final(self) == *old(self),
            rhs.value() != 0 ==> final(self)@ == old(self)@ % rhs.value(),
    {
        if let Ok(x) = (*self).try_rem(rhs) {
            *self = x;
        }
    }
}

impl Shl<u32> for Su128 {
    type Output = Su128;

    fn shl(self, rhs: u32) -> (r: Su128)
        ensures
            r@ == (clamp(self@ * pow2(rhs as nat), u128::MIN as int, u128::MAX as int)),
    {
        let (negative, a) = self.magnitude();
        let m = shl_magnitudes(negative, a, rhs);
        proof {
            lemma_represents_clamp(negative, m, self@ * pow2(rhs as nat), u128::MIN as int, u128::MAX as int);
        }
        let r = Su128::from_magnitude(negative, m);
        proof {
            r.lemma_value();
        }
        r
    }
}

impl ShlSpecImpl<u32> for Su128 {
    open spec fn obeys_shl_spec() -> bool {
        true
    }

    open spec fn shl_req(self, rhs: u32) -> bool {
        true
    }

    open spec fn shl_spec(self, rhs: u32) -> Su128 {
        Su128::of_value(clamp(self@ * pow2(rhs as nat), u128::MIN as int, u128::MAX as int))
    }
}

impl ShlAssign<u32> for Su128 {
    fn shl_assign(&mut self, rhs: u32)
        ensures
            final(self)@ == (clamp(old(self)@ * pow2(rhs as nat), u128::MIN as int, u128::MAX as int)),
    {
        *self = *self << rhs;
    }
}

impl Shr<u32> for Su128 {
    type Output = Su128;

    fn shr(self, rhs: u32) -> (r: Su128)
        ensures
            r@ == self@ / (pow2(rhs as nat) as int),
    {
        let (negative, a) = self.magnitude();
        let (n, m) = shr_magnitudes(negative, a, rhs);
        proof {
            vstd::arithmetic::power2::lemma_pow2_pos(rhs as nat);
            self.lemma_value();
            vstd::arithmetic::div_mod::lemma_div_is_ordered(u128::MIN as int, self@, pow2(rhs as nat) as int);
            vstd::arithmetic::div_mod::lemma_div_is_ordered(self@, u128::MAX as int, pow2(rhs as nat) as int);
            lemma_div_by_power_within(u128::MIN as int, pow2(rhs as nat) as int);
            lemma_div_by_power_within(u128::MAX as int, pow2(rhs as nat) as int);
        }
        let r = Su128::from_magnitude(n, m);
        proof {
            r.lemma_value();
        }
        r
    }
}

impl ShrSpecImpl<u32> for Su128 {
    open spec fn obeys_shr_spec() -> bool {
        true
    }

    open spec fn shr_req(self, rhs: u32) -> bool {
        true
    }

    open spec fn shr_spec(self, rhs: u32) -> Su128 {
        Su128::of_value(self@ / (pow2(rhs as nat) as int))
    }
}

impl ShrAssign<u32> for Su128 {
    fn shr_assign(&mut self, rhs: u32)
        ensures
            final(self)@ == old(self)@ / (pow2(rhs as nat) as int),
    {
        *self = *self >> rhs;
    }
}

impl core::iter::Sum for Su128 {
    /// The items combined from left to right, each partial sum saturating.
    fn sum<I: Iterator<Item = Su128>>(iter: I) -> (r: Su128)
        ensures
            iter.obeys_prophetic_iter_laws() ==> r@ == iter.remaining().fold_left(
                0,
                (|acc: int, x: Su128| clamp(acc + x@, u128::MIN as int, u128::MAX as int)),
            ),
    {
        fold_viewed(iter, Su128::ZERO(), Su128::sum_step, Ghost(|acc: int, x: Su128| clamp(acc + x@, u128::MIN as int, u128::MAX as int)))
    }
}

impl<'a> core::iter::Sum<&'a Su128> for Su128 {
    /// The items combined from left to right, each partial sum saturating.
    fn sum<I: Iterator<Item = &'a Su128>>(iter: I) -> (r: Su128)
        ensures
            iter.obeys_prophetic_iter_laws() ==> r@ == iter.remaining().fold_left(
                0,
                (|acc: int, x: &'a Su128| clamp(acc + x@, u128::MIN as int, u128::MAX as int)),
            ),
    {
        fold_viewed(iter, Su128::ZERO(), Su128::sum_step_by_ref, Ghost(|acc: int, x: &'a Su128| clamp(acc + x@, u128::MIN as int, u128::MAX as int)))
    }
}

impl core::iter::Product for Su128 {
    /// The items combined from left to right, each partial product saturating.
    fn product<I: Iterator<Item = Su128>>(iter: I) -> (r: Su128)
        ensures
            iter.obeys_prophetic_iter_laws() ==> r@ == iter.remaining().fold_left(
                1,
                (|acc: int, x: Su128| clamp(acc * x@, u128::MIN as int, u128::MAX as int)),
            ),
    {
        fold_viewed(iter, Su128::ONE(), Su128::product_step, Ghost(|acc: int, x: Su128| clamp(acc * x@, u128::MIN as int, u128::MAX as int)))
    }
}

impl<'a> core::iter::Product<&'a Su128> for Su128 {
    /// The items combined from left to right, each partial product saturating.
    fn product<I: Iterator<Item = &'a Su128>>(iter: I) -> (r: Su128)
        ensures
            iter.obeys_prophetic_iter_laws() ==> r@ == iter.remaining().fold_left(
                1,
                (|acc: int, x: &'a Su128| clamp(acc * x@, u128::MIN as int, u128::MAX as int)),
            ),
    {
        fold_viewed(iter, Su128::ONE(), Su128::product_step_by_ref, Ghost(|acc: int, x: &'a Su128| clamp(acc * x@, u128::MIN as int, u128::MAX as int)))
    }
}

impl Su128 {
    /// One step of [`Sum::sum`](core::iter::Sum::sum).
    fn sum_step(a: Su128, b: Su128) -> (c: Su128)
        ensures
            c@ == clamp(a@ + b@, u128::MIN as int, u128::MAX as int),
    {
        a + b
    }

    /// One step of [`Sum::sum`](core::iter::Sum::sum).
    fn sum_step_by_ref(a: Su128, b: &Su128) -> (c: Su128)
        ensures
            c@ == clamp(a@ + b@, u128::MIN as int, u128::MAX as int),
    {
        a + *b
    }

    /// One step of [`Product::product`](core::iter::Product::product).
    fn product_step(a: Su128, b: Su128) -> (c: Su128)
        ensures
            c@ == clamp(a@ * b@, u128::MIN as int, u128::MAX as int),
    {
        a * b
    }

    /// One step of [`Product::product`](core::iter::Product::product).
    fn product_step_by_ref(a: Su128, b: &Su128) -> (c: Su128)
        ensures
            c@ == clamp(a@ * b@, u128::MIN as int, u128::MAX as int),
    {
        a * *b
    }
}

impl<R: Integer> Add<R> for Susize {
    type Output = Susize;

    fn add(self, rhs: R) -> (r: Susize)
        ensures
            r@ == clamp(self@ + rhs.value(), usize::MIN as int, usize::MAX as int),
    {
        let (a_negative, a) = self.magnitude();
        let (b_negative, b) = rhs.magnitude();
        let (negative, m) = add_magnitudes(a_negative, a, b_negative, b);
        proof {
            lemma_represents_clamp(negative, m, self@ + rhs.value(), usize::MIN as int, usize::MAX as int);
        }
        let r = Susize::from_magnitude(negative, m);
        proof {
            r.lemma_value();
        }
        r
    }
}

impl<R: Integer> AddSpecImpl<R> for Susize {
    open spec fn obeys_add_spec() -> bool {
        true
    }

    open spec fn add_req(self, rhs: R) -> bool {
        true
    }

    open spec fn add_spec(self, rhs: R) -> Susize {
        Susize::of_value(clamp(self@ + rhs.value(), usize::MIN as int, usize::MAX as int))
    }
}

impl<R: Integer> AddAssign<R> for Susize {
    fn add_assign(&mut self, rhs: R)
        ensures
            final(self)@ == clamp(old(self)@ + rhs.value(), usize::MIN as int, usize::MAX as int),
    {
        *self = *self + rhs;
    }
}

impl<R: Integer> Sub<R> for Susize {
    type Output = Susize;

    fn sub(self, rhs: R) -> (r: Susize)
        ensures
            r@ == clamp(self@ - rhs.value(), usize::MIN as int, usize::MAX as int),
    {
        let (a_negative, a) = self.magnitude();
        let (b_negative, b) = rhs.magnitude();
        let (negative, m) = add_magnitudes(a_negative, a, !b_negative, b);
        proof {
            lemma_represents_clamp(negative, m, self@ - rhs.value(), usize::MIN as int, usize::MAX as int);
        }
        let r = Susize::from_magnitude(negative, m);
        proof {
            r.lemma_value();
        }
        r
    }
}

impl<R: Integer> SubSpecImpl<R> for Susize {
    open spec fn obeys_sub_spec() -> bool {
        true
    }

    open spec fn sub_req(self, rhs: R) -> bool {
        true
    }

    open spec fn sub_spec(self, rhs: R) -> Susize {
        Susize::of_value(clamp(self@ - rhs.value(), usize::MIN as int, usize::MAX as int))
    }
}

impl<R: Integer> SubAssign<R> for Susize {
    fn sub_assign(&mut self, rhs: R)
        ensures
            final(self)@ == clamp(old(self)@ - rhs.value(), usize::MIN as int, usize::MAX as int),
    {
        *self = *self - rhs;
    }
}

impl<R: UnsignedInteger> Mul<R> for Susize {
    type Output = Susize;

    fn mul(self, rhs: R) -> (r: Susize)
        ensures
            r@ == clamp(self@ * rhs.value(), usize::MIN as int, usize::MAX as int),
    {
        let (a_negative, a) = self.magnitude();
        let (b_negative, b) = rhs.magnitude();
        let (negative, m) = mul_magnitudes(a_negative, a, b_negative, b);
        proof {
            lemma_represents_clamp(negative, m, self@ * rhs.value(), usize::MIN as int, usize::MAX as int);
        }
        let r = Susize::from_magnitude(negative, m);
        proof {
            r.lemma_value();
        }
        r
    }
}

impl<R: UnsignedInteger> MulSpecImpl<R> for Susize {
    open spec fn obeys_mul_spec() -> bool {
        true
    }

    open spec fn mul_req(self, rhs: R) -> bool {
        true
    }

    open spec fn mul_spec(self, rhs: R) -> Susize {
        Susize::of_value(clamp(self@ * rhs.value(), usize::MIN as int, usize::MAX as int))
    }
}

impl<R: UnsignedInteger> MulAssign<R> for Susize {
    fn mul_assign(&mut self, rhs: R)
        ensures
            final(self)@ == clamp(old(self)@ * rhs.value(), usize::MIN as int, usize::MAX as int),
    {
        *self = *self * rhs;
    }
}

impl<R: UnsignedInteger> TryDiv<R> for Susize {
    type Output = Susize;

    fn try_div(self, rhs: R) -> (r: Result<Susize, DivError>)
        ensures
            rhs.value() == 0 ==> r == Err::<Susize, DivError>(DivError::DivisionByZero),
            rhs.value() != 0 ==> (r matches Ok(q) && q@ == self@ / rhs.value()),
    {
        proof {
            self.lemma_value();
            rhs.lemma_value();
            R::lemma_nonnegative();
        }
        let (b_negative, b) = rhs.magnitude();
        if b == 0 {
            return Err(DivError::DivisionByZero);
        }
        let (a_negative, a) = self.magnitude();
        let (negative, m) = div_magnitudes(a_negative, a, b_negative, b);
        Ok(Susize::from_magnitude(negative, m))
    }
}

impl<R: UnsignedInteger> TryDivAssign<R> for Susize {
    fn try_div_assign(&mut self, rhs: R) -> (r: Result<(), DivError>)
        ensures
            rhs.value() == 0 ==> r == Err::<(), DivError>(DivError::DivisionByZero) && *final(self) == *old(self),
            rhs.value() != 0 ==> r is Ok && final(self)@ == old(self)@ / rhs.value(),
    {
        match (*self).try_div(rhs) {
            Ok(q) => {
                *self = q;
                Ok(())
            },
            Err(e) => Err(e),
        }
    }
}

impl<R: UnsignedInteger> TryRem<R> for Susize {
    type Output = Susize;

    fn try_rem(self, rhs: R) -> (r: Result<Susize, DivError>)
        ensures
            rhs.value() == 0 ==> r == Err::<Susize, DivError>(DivError::DivisionByZero),
            rhs.value() != 0 ==> (r matches Ok(x) && x@ == self@ % rhs.value()),
    {
        proof {
            self.lemma_value();
            rhs.lemma_value();
            R::lemma_nonnegative();
        }
        let (b_negative, b) = rhs.magnitude();
        if b == 0 {
            return Err(DivError::DivisionByZero);
        }
        let (a_negative, a) = self.magnitude();
        let (negative, m) = rem_magnitudes(a_negative, a, b_negative, b);
        Ok(Susize::from_magnitude(negative, m))
    }
}

impl<R: UnsignedInteger> TryRemAssign<R> for Susize {
    fn try_rem_assign(&mut self, rhs: R) -> (r: Result<(), DivError>)
        ensures
            rhs.value() == 0 ==> r == Err::<(), DivError>(DivError::DivisionByZero) && *final(self) == *old(self),
            rhs.value() != 0 ==> r is Ok && final(self)@ == old(self)@ % rhs.value(),
    {
        match (*self).try_rem(rhs) {
            Ok(x) => {
                *self = x;
                Ok(())
            },
            Err(e) => Err(e),
        }
    }
}

impl<R: UnsignedInteger> Div<R> for Susize {
    type Output = Susize;

    /// Divides `self` by `rhs`, saturating at the numeric bounds. Division by zero
    /// panics, as it does for the primitive integers.
    fn div(self, rhs: R) -> (r: Susize)
        ensures
            r@ == self@ / rhs.value(),
    {
        proof {
            self.lemma_value();
            rhs.lemma_value();
            R::lemma_nonnegative();
        }
        let (a_negative, a) = self.magnitude();
        let (b_negative, b) = rhs.magnitude();
        let (negative, m) = div_magnitudes(a_negative, a, b_negative, b);
        let r = Susize::from_magnitude(negative, m);
        proof {
            r.lemma_value();
        }
        r
    }
}

impl<R: UnsignedInteger> DivSpecImpl<R> for Susize {
    open spec fn obeys_div_spec() -> bool {
        true
    }

    open spec fn div_req(self, rhs: R) -> bool {
        rhs.value() != 0
    }

    open spec fn div_spec(self, rhs: R) -> Susize {
        Susize::of_value(self@ / rhs.value())
    }
}

impl<R: UnsignedInteger> DivAssign<R> for Susize {
    /// Divides `self` by `rhs` in place; a zero divisor leaves `self` unchanged.
    fn div_assign(&mut self, rhs: R)
        ensures
            rhs.value() == 0 ==> *final(self) == *old(self),
            rhs.value() != 0 ==> final(self)@ == old(self)@ / rhs.value(),
    {
        if let Ok(q) = (*self).try_div(rhs) {
            *self = q;
        }
    }
}

impl<R: UnsignedInteger> Rem<R> for Susize {
    type Output = Susize;

    /// The remainder of dividing `self` by `rhs`. A zero divisor panics, as it does
    /// for the primitive integers.
    fn rem(self, rhs: R) -> (r: Susize)
        ensures
            r@ == self@ % rhs.value(),
    {
        proof {
            self.lemma_value();
            rhs.lemma_value();
            R::lemma_nonnegative();
        }
        let (a_negative, a) = self.magnitude();
        let (b_negative, b) = rhs.magnitude();
        let (negative, m) = rem_magnitudes(a_negative, a, b_negative, b);
        let r = Susize::from_magnitude(negative, m);
        proof {
            r.lemma_value();
        }
        r
    }
}

impl<R: UnsignedInteger> RemSpecImpl<R> for Susize {
    open spec fn obeys_rem_spec() -> bool {
        true
    }

    open spec fn rem_req(self, rhs: R) -> bool {
        rhs.value() != 0
    }

    open spec fn rem_spec(self, rhs: R) -> Susize {
        Susize::of_value(self@ % rhs.value())
    }
}

impl<R: UnsignedInteger> RemAssign<R> for Susize {
    /// Replaces `self` by the remainder of dividing it by `rhs`; where that fails
    /// (see [`TryRem`]) `self` is left unchanged.
    fn rem_assign(&mut self, rhs: R)
        ensures
            rhs.value() == 0 ==> *final(self) == *old(self),
            rhs.value() != 0 ==> final(self)@ == old(self)@ % rhs.value(),
    {
        if let Ok(x) = (*self).try_rem(rhs) {
            *self = x;
        }
    }
}

impl Shl<u32> for Susize {
    type Output = Susize;

    fn shl(self, rhs: u32) -> (r: Susize)
        ensures
            r@ == (clamp(self@ * pow2(rhs as nat), usize::MIN as int, usize::MAX as int)),
    {
        let (negative, a) = self.magnitude();
        let m = shl_magnitudes(negative, a, rhs);
        proof {
            lemma_represents_clamp(negative, m, self@ * pow2(rhs as nat), usize::MIN as int, usize::MAX as int);
        }
        let r = Susize::from_magnitude(negative, m);
        proof {
            r.lemma_value();
        }
        r
    }
}

impl ShlSpecImpl<u32> for Susize {
    open spec fn obeys_shl_spec() -> bool {
        true
    }

    open spec fn shl_req(self, rhs: u32) -> bool {
        true
    }

    open spec fn shl_spec(self, rhs: u32) -> Susize {
        Susize::of_value(clamp(self@ * pow2(rhs as nat), usize::MIN as int, usize::MAX as int))
    }
}

impl ShlAssign<u32> for Susize {
    fn shl_assign(&mut self, rhs: u32)
        ensures
            final(self)@ == (clamp(old(self)@ * pow2(rhs as nat), usize::MIN as int, usize::MAX as int)),
    {
        *self = *self << rhs;
    }
}

impl Shr<u32> for Susize {
    type Output = Susize;

    fn shr(self, rhs: u32) -> (r: Susize)
        ensures
            r@ == self@ / (pow2(rhs as nat) as int),
    {
        let (negative, a) = self.magnitude();
        let (n, m) = shr_magnitudes(negative, a, rhs);
        proof {
            vstd::arithmetic::power2::lemma_pow2_pos(rhs as nat);
            self.lemma_value();
            vstd::arithmetic::div_mod::lemma_div_is_ordered(usize::MIN as int, self@, pow2(rhs as nat) as int);
            vstd::arithmetic::div_mod::lemma_div_is_ordered(self@, usize::MAX as int, pow2(rhs as nat) as int);
            lemma_div_by_power_within(usize::MIN as int, pow2(rhs as nat) as int);
            lemma_div_by_power_within(usize::MAX as int, pow2(rhs as nat) as int);
        }
        let r = Susize::from_magnitude(n, m);
        proof {
            r.lemma_value();
        }
        r
    }
}

impl ShrSpecImpl<u32> for Susize {
    open spec fn obeys_shr_spec() -> bool {
        true
    }

    open spec fn shr_req(self, rhs: u32) -> bool {
        true
    }

    open spec fn shr_spec(self, rhs: u32) -> Susize {
        Susize::of_value(self@ / (pow2(rhs as nat) as int))
    }
}

impl ShrAssign<u32> for Susize {
    fn shr_assign(&mut self, rhs: u32)
        ensures
            final(self)@ == old(self)@ / (pow2(rhs as nat) as int),
    {
        *self = *self >> rhs;
    }
}

impl core::iter::Sum for Susize {
    /// The items combined from left to right, each partial sum saturating.
    fn sum<I: Iterator<Item = Susize>>(iter: I) -> (r: Susize)
        ensures
            iter.obeys_prophetic_iter_laws() ==> r@ == iter.remaining().fold_left(
                0,
                (|acc: int, x: Susize| clamp(acc + x@, usize::MIN as int, usize::MAX as int)),
            ),
    {
        fold_viewed(iter, Susize::ZERO(), Susize::sum_step, Ghost(|acc: int, x: Susize| clamp(acc + x@, usize::MIN as int, usize::MAX as int)))
    }
}

impl<'a> core::iter::Sum<&'a Susize> for Susize {
    /// The items combined from left to right, each partial sum saturating.
    fn sum<I: Iterator<Item = &'a Susize>>(iter: I) -> (r: Susize)
        ensures
            iter.obeys_prophetic_iter_laws() ==> r@ == iter.remaining().fold_left(
                0,
                (|acc: int, x: &'a Susize| clamp(acc + x@, usize::MIN as int, usize::MAX as int)),
            ),
    {
        fold_viewed(iter, Susize::ZERO(), Susize::sum_step_by_ref, Ghost(|acc: int, x: &'a Susize| clamp(acc + x@, usize::MIN as int, usize::MAX as int)))
    }
}

impl core::iter::Product for Susize {
    /// The items combined from left to right, each partial product saturating.
    fn product<I: Iterator<Item = Susize>>(iter: I) -> (r: Susize)
        ensures
            iter.obeys_prophetic_iter_laws() ==> r@ == iter.remaining().fold_left(
                1,
                (|acc: int, x: Susize| clamp(acc * x@, usize::MIN as int, usize::MAX as int)),
            ),
    {
        fold_viewed(iter, Susize::ONE(), Susize::product_step, Ghost(|acc: int, x: Susize| clamp(acc * x@, usize::MIN as int, usize::MAX as int)))
    }
}

impl<'a> core::iter::Product<&'a Susize> for Susize {
    /// The items combined from left to right, each partial product saturating.
    fn product<I: Iterator<Item = &'a Susize>>(iter: I) -> (r: Susize)
        ensures
            iter.obeys_prophetic_iter_laws() ==> r@ == iter.remaining().fold_left(
                1,
                (|acc: int, x: &'a Susize| clamp(acc * x@, usize::MIN as int, usize::MAX as int)),
            ),
    {
        fold_viewed(iter, Susize::ONE(), Susize::product_step_by_ref, Ghost(|acc: int, x: &'a Susize| clamp(acc * x@, usize::MIN as int, usize::MAX as int)))
    }
}

impl Susize {
    /// One step of [`Sum::sum`](core::iter::Sum::sum).
    fn sum_step(a: Susize, b: Susize) -> (c: Susize)
        ensures
            c@ == clamp(a@ + b@, usize::MIN as int, usize::MAX as int),
    {
        a + b
    }

    /// One step of [`Sum::sum`](core::iter::Sum::sum).
    fn sum_step_by_ref(a: Susize, b: &Susize) -> (c: Susize)
        ensures
            c@ == clamp(a@ + b@, usize::MIN as int, usize::MAX as int),
    {
        a + *b
    }

    /// One step of [`Product::product`](core::iter::Product::product).
    fn product_step(a: Susize, b: Susize) -> (c: Susize)
        ensures
            c@ == clamp(a@ * b@, usize::MIN as int, usize::MAX as int),
    {
        a * b
    }

    /// One step of [`Product::product`](core::iter::Product::product).
    fn product_step_by_ref(a: Susize, b: &Susize) -> (c: Susize)
        ensures
            c@ == clamp(a@ * b@, usize::MIN as int, usize::MAX as int),
    {
        a * *b
    }
}

} // verus!
