use satint::{
    SaturatingFrom, SaturatingInto, Si8, Si16, Si32, Si64, Si128, Su8, Su16, Su32, Su64, Su128, si8,
    si16, si32, si64, si128, su8, su16, su32, su64, su128,
};

#[test]
fn saturating_into_blanket() {
    let v: Su8 = (-1i8).saturating_into();
    assert_eq!(v, Su8::ZERO());
    let v: Si8 = u128::MAX.saturating_into();
    assert_eq!(v, Si8::MAX());
    // Converting a type into itself keeps the value.
    let v: u32 = 42u32.saturating_into();
    assert_eq!(v, 42);
}

#[test]
fn const_constructors() {
    assert_eq!(su8(42), Su8::new(42));
    assert_eq!(su16(42), Su16::new(42));
    assert_eq!(su32(42), Su32::new(42));
    assert_eq!(su64(42), Su64::new(42));
    assert_eq!(su128(42), Su128::new(42));
    assert_eq!(si8(-5), Si8::new(-5));
    assert_eq!(si16(-5), Si16::new(-5));
    assert_eq!(si32(-5), Si32::new(-5));
    assert_eq!(si64(-5), Si64::new(-5));
    assert_eq!(si128(-5), Si128::new(-5));
}

#[test]
fn pow_method() {
    assert_eq!(Su8::new(2).pow(3), Su8::new(8));
    assert_eq!(Su8::new(16).pow(3), Su8::MAX());
    assert_eq!(Si8::new(2).pow(3), Si8::new(8));
    assert_eq!(Si8::new(-2).pow(3), Si8::new(-8));
    assert_eq!(Si8::new(-3).pow(5), Si8::MIN());
}

#[test]
fn from_inner_and_back() {
    assert_eq!(Su8::from(42u8), Su8::new(42));
    let s: Si8 = (-5i8).into();
    assert_eq!(s, Si8::new(-5));
    let v: u8 = Su8::new(42).into();
    assert_eq!(v, 42);
    let v: i8 = Si8::new(-5).into();
    assert_eq!(v, -5);
}

#[test]
fn from_str_parsing() {
    let s: Su8 = "42".parse().unwrap();
    assert_eq!(s, Su8::new(42));
    let s: Si8 = "-5".parse().unwrap();
    assert_eq!(s, Si8::new(-5));
    assert!("not_a_number".parse::<Su8>().is_err());
    assert!("256".parse::<Su8>().is_err());
}

#[test]
fn debug_and_display_format() {
    assert_eq!(format!("{:?}", Su8::new(42)), "Su8(42)");
    assert_eq!(format!("{:?}", Si16::new(-5)), "Si16(-5)");
    assert_eq!(Su8::new(42).to_string(), "42");
    assert_eq!(Si16::new(-5).to_string(), "-5");
}

#[test]
fn type_constants() {
    assert_eq!(Su8::BITS, 8);
    assert_eq!(Si128::BITS, 128);
    assert_eq!(Su8::default(), Su8::ZERO());
    assert_eq!(Si16::default(), Si16::ZERO());
}

#[test]
fn copy_clone_ord() {
    let a = Su8::new(42);
    let b = a;
    let c = a;
    assert_eq!(a, b);
    assert_eq!(a, c);
    assert!(Su8::new(1) < Su8::new(2));
    assert!(Si8::new(-1) < Si8::new(0));
}

#[test]
fn from_primitive_to_wrapper() {
    let s: Su16 = 42u8.into();
    assert_eq!(s, Su16::new(42));
    let s: Si32 = (-5i16).into();
    assert_eq!(s, Si32::new(-5));
    let s: Si16 = 42u8.into();
    assert_eq!(s, Si16::new(42));
}

#[test]
fn from_wrapper_to_primitive() {
    let v: u32 = Su8::new(42).into();
    assert_eq!(v, 42);
    let v: i32 = Si8::new(-5).into();
    assert_eq!(v, -5);
}

#[test]
fn saturating_signed_primitive_to_signed_wrapper() {
    assert_eq!(Si8::saturating_from(42i32), Si8::new(42));
    assert_eq!(Si8::saturating_from(1000i32), Si8::MAX());
    assert_eq!(Si8::saturating_from(-1000i32), Si8::MIN());
    assert_eq!(Si16::saturating_from(-100i32), Si16::new(-100));
}

#[test]
fn saturating_unsigned_primitive_to_unsigned_wrapper() {
    assert_eq!(Su8::saturating_from(42u32), Su8::new(42));
    assert_eq!(Su8::saturating_from(1000u32), Su8::MAX());
    assert_eq!(Su16::saturating_from(65535u32), Su16::MAX());
}

#[test]
fn saturating_unsigned_primitive_to_signed_wrapper() {
    assert_eq!(Si8::saturating_from(42u32), Si8::new(42));
    assert_eq!(Si8::saturating_from(200u32), Si8::MAX());
    assert_eq!(Si8::saturating_from(127u32), Si8::MAX());
}

#[test]
fn saturating_signed_primitive_to_unsigned_wrapper() {
    // Negative branch.
    assert_eq!(Su8::saturating_from(-1i32), Su8::ZERO());
    assert_eq!(Su8::saturating_from(-1000i32), Su8::ZERO());
    // Positive branches.
    assert_eq!(Su8::saturating_from(0i32), Su8::ZERO());
    assert_eq!(Su8::saturating_from(42i32), Su8::new(42));
    assert_eq!(Su8::saturating_from(1000i32), Su8::MAX());
}

#[test]
fn saturating_wrapper_to_primitive() {
    let v: u8 = u8::saturating_from(Su16::new(100));
    assert_eq!(v, 100);
    let v: u8 = u8::saturating_from(Su16::new(1000));
    assert_eq!(v, u8::MAX);
    let v: i8 = i8::saturating_from(Si16::new(50));
    assert_eq!(v, 50);
    let v: i8 = i8::saturating_from(Si16::new(1000));
    assert_eq!(v, i8::MAX);
    let v: i8 = i8::saturating_from(Si16::new(-1000));
    assert_eq!(v, i8::MIN);
}

#[test]
fn saturating_signed_wrapper_to_unsigned_primitive() {
    // Negative branch saturates to 0.
    let v: u8 = u8::saturating_from(Si16::new(-1));
    assert_eq!(v, 0);
    let v: u8 = u8::saturating_from(Si16::MIN());
    assert_eq!(v, 0);
    // In-range pass-through.
    let v: u8 = u8::saturating_from(Si16::new(42));
    assert_eq!(v, 42);
    // Above dest MAX saturates to dest MAX.
    let v: u8 = u8::saturating_from(Si16::new(300));
    assert_eq!(v, u8::MAX);
    // u128 destination: source range fits, no clamp.
    let v: u128 = u128::saturating_from(Si128::MAX());
    assert_eq!(v, i128::MAX as u128);
    let v: u128 = u128::saturating_from(Si128::MIN());
    assert_eq!(v, 0);
}

#[test]
fn saturating_unsigned_wrapper_to_signed_primitive() {
    // In-range pass-through.
    let v: i8 = i8::saturating_from(Su16::new(42));
    assert_eq!(v, 42);
    // Above signed dest MAX saturates.
    let v: i8 = i8::saturating_from(Su16::new(200));
    assert_eq!(v, i8::MAX);
    let v: i8 = i8::saturating_from(Su16::MAX());
    assert_eq!(v, i8::MAX);
    // i128 destination: u128 source can overflow signed MAX.
    let v: i128 = i128::saturating_from(Su128::MAX());
    assert_eq!(v, i128::MAX);
    let v: i128 = i128::saturating_from(Su128::new(42));
    assert_eq!(v, 42);
}

#[test]
fn from_wrapper_to_wrapper_lossless() {
    let s: Su16 = Su8::new(42).into();
    assert_eq!(s, Su16::new(42));
    let s: Si32 = Si8::new(-5).into();
    assert_eq!(s, Si32::new(-5));
}

#[test]
fn saturating_wrapper_to_wrapper_same_sign() {
    assert_eq!(Su8::saturating_from(Su16::new(50)), Su8::new(50));
    assert_eq!(Su8::saturating_from(Su16::new(1000)), Su8::MAX());
    assert_eq!(Si8::saturating_from(Si16::new(50)), Si8::new(50));
    assert_eq!(Si8::saturating_from(Si16::new(1000)), Si8::MAX());
    assert_eq!(Si8::saturating_from(Si16::new(-1000)), Si8::MIN());
}

#[test]
fn cross_eq_and_ord_with_inner() {
    let w = Su8::new(42);
    // wrapper <op> inner
    assert!(w == 42u8);
    assert!(w != 41u8);
    assert!(w > 1u8);
    assert!(w < 100u8);
    assert_eq!(w.partial_cmp(&42u8), Some(core::cmp::Ordering::Equal));
    // inner <op> wrapper
    assert!(42u8 == w);
    assert!(41u8 != w);
    assert!(1u8 < w);
    assert_eq!(42u8.partial_cmp(&w), Some(core::cmp::Ordering::Equal));
}

#[test]
fn sum_and_product_iterators() {
    let owned = [Su8::new(1), Su8::new(2), Su8::new(3)];
    let s: Su8 = owned.iter().copied().sum();
    assert_eq!(s, Su8::new(6));
    let s_ref: Su8 = owned.iter().sum();
    assert_eq!(s_ref, Su8::new(6));

    let p: Su8 = owned.iter().copied().product();
    assert_eq!(p, Su8::new(6));
    let p_ref: Su8 = owned.iter().product();
    assert_eq!(p_ref, Su8::new(6));

    // Empty iterator yields ZERO for sum and ONE for product.
    let empty: [Su8; 0] = [];
    let s: Su8 = empty.iter().copied().sum();
    assert_eq!(s, Su8::ZERO());
    let p: Su8 = empty.iter().copied().product();
    assert_eq!(p, Su8::ONE());
}

#[test]
fn bitwise_ops_with_self() {
    let a = Su8::new(0b1100);
    let b = Su8::new(0b1010);
    assert_eq!(a & b, Su8::new(0b1000));
    assert_eq!(a | b, Su8::new(0b1110));
    assert_eq!(a ^ b, Su8::new(0b0110));
    assert_eq!(!Su8::new(0), Su8::MAX());

    let mut x = a;
    x &= b;
    assert_eq!(x, Su8::new(0b1000));
    let mut x = a;
    x |= b;
    assert_eq!(x, Su8::new(0b1110));
    let mut x = a;
    x ^= b;
    assert_eq!(x, Su8::new(0b0110));
}

#[test]
fn bitwise_ops_with_inner() {
    let a = Su8::new(0b1100);
    assert_eq!(a & 0b1010u8, Su8::new(0b1000));
    assert_eq!(a | 0b1010u8, Su8::new(0b1110));
    assert_eq!(a ^ 0b1010u8, Su8::new(0b0110));

    let mut x = a;
    x &= 0b1010u8;
    assert_eq!(x, Su8::new(0b1000));
    let mut x = a;
    x |= 0b1010u8;
    assert_eq!(x, Su8::new(0b1110));
    let mut x = a;
    x ^= 0b1010u8;
    assert_eq!(x, Su8::new(0b0110));
}

#[test]
fn bit_inspection_methods() {
    let v = Su8::new(0b1011_0100);
    assert_eq!(v.count_ones(), 4);
    assert_eq!(v.count_zeros(), 4);
    assert_eq!(v.leading_zeros(), 0);
    assert_eq!(Su8::new(0b0000_1111).leading_zeros(), 4);
    assert_eq!(v.leading_ones(), 1);
    assert_eq!(Su8::new(0b1111_0000).leading_ones(), 4);
    assert_eq!(v.trailing_zeros(), 2);
    assert_eq!(Su8::new(0b0000_0111).trailing_ones(), 3);
    assert_eq!(v.trailing_ones(), 0);
}

#[test]
fn bit_transform_methods() {
    assert_eq!(Su8::new(0b0000_0001).reverse_bits(), Su8::new(0b1000_0000));
    assert_eq!(Su8::new(0b0000_0001).rotate_left(1), Su8::new(0b0000_0010));
    assert_eq!(Su8::new(0b0000_0001).rotate_right(1), Su8::new(0b1000_0000));
    assert_eq!(Su16::new(0x00FF).swap_bytes(), Su16::new(0xFF00));
}

#[test]
fn endian_conversions() {
    let v = Su16::new(0x1234);
    // Round-trip through both endians.
    assert_eq!(Su16::from_be(v.to_be()), v);
    assert_eq!(Su16::from_le(v.to_le()), v);

    let be_bytes = v.to_be_bytes();
    let le_bytes = v.to_le_bytes();
    let ne_bytes = v.to_ne_bytes();
    assert_eq!(be_bytes, [0x12, 0x34]);
    assert_eq!(le_bytes, [0x34, 0x12]);
    assert_eq!(Su16::from_be_bytes(be_bytes), v);
    assert_eq!(Su16::from_le_bytes(le_bytes), v);
    assert_eq!(Su16::from_ne_bytes(ne_bytes), v);
}

#[test]
fn checked_div_and_rem() {
    // Normal division.
    assert_eq!(Si8::new(10).checked_div(Si8::new(3)), Some(Si8::new(3)));
    assert_eq!(Si8::new(10).checked_rem(Si8::new(3)), Some(Si8::new(1)));
    // Division by zero returns None.
    assert_eq!(Si8::new(10).checked_div(Si8::ZERO()), None);
    assert_eq!(Si8::new(10).checked_rem(Si8::ZERO()), None);
    // Signed overflow (MIN / -1, MIN % -1) returns None.
    assert_eq!(Si8::MIN().checked_div(Si8::new(-1)), None);
    assert_eq!(Si8::MIN().checked_rem(Si8::new(-1)), None);

    // Euclidean variants.
    assert_eq!(Si8::new(-7).checked_div_euclid(Si8::new(3)), Some(Si8::new(-3)));
    assert_eq!(Si8::new(-7).checked_rem_euclid(Si8::new(3)), Some(Si8::new(2)));
    assert_eq!(Si8::new(10).checked_div_euclid(Si8::ZERO()), None);
    assert_eq!(Si8::new(10).checked_rem_euclid(Si8::ZERO()), None);
    assert_eq!(Si8::MIN().checked_div_euclid(Si8::new(-1)), None);
    assert_eq!(Si8::MIN().checked_rem_euclid(Si8::new(-1)), None);
}

#[test]
fn checked_ilog_methods() {
    assert_eq!(Su8::new(8).checked_ilog(2), Some(3));
    assert_eq!(Su8::new(0).checked_ilog(2), None);
    assert_eq!(Su8::new(8).checked_ilog2(), Some(3));
    assert_eq!(Su8::new(0).checked_ilog2(), None);
    assert_eq!(Su8::new(100).checked_ilog10(), Some(2));
    assert_eq!(Su8::new(0).checked_ilog10(), None);
}

#[test]
fn is_predicates() {
    assert!(Su8::MIN().is_min());
    assert!(!Su8::new(1).is_min());
    assert!(Su8::MAX().is_max());
    assert!(!Su8::new(1).is_max());
    assert!(Su8::ZERO().is_zero());
    assert!(!Su8::ONE().is_zero());
    assert!(Su8::ONE().is_one());
    assert!(!Su8::ZERO().is_one());
    // Signed wrapper exercises distinct MIN/MAX values.
    assert!(Si8::MIN().is_min());
    assert!(Si8::MAX().is_max());
}
