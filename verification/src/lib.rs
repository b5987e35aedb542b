//! Saturating scalar wrappers for signed and unsigned primitive integers.
//!
//! The signed wrappers are `Si8`, `Si16`, `Si32`, `Si64`, `Si128` and `Sisize`; the
//! unsigned wrappers are `Su8`, `Su16`, `Su32`, `Su64`, `Su128` and `Susize`. Their
//! arithmetic operators saturate at the numeric bounds of the left-hand side's type.
mod bits;
pub mod byte_order_laws;
pub mod comparison_laws;
mod common;
mod convert;
mod integer;
pub mod laws;
mod magnitude;
mod math;
mod ops;
mod saturating;
mod sealed;
mod si;
mod su;
mod text;

pub use common::{saturate, saturated, SaturatingFrom, SaturatingInto};
pub use integer::{Integer, SignedInteger, UnsignedInteger};
pub use text::ParseErrorKind;
pub use ops::{DivError, TryDiv, TryDivAssign, TryRem, TryRemAssign, u128_saturating_sub_signed};
pub use si::{Si8, Si16, Si32, Si64, Si128, Sisize, si8, si16, si32, si64, si128, sisize};
pub use su::{Su8, Su16, Su32, Su64, Su128, Susize, su8, su16, su32, su64, su128, susize};
