use core::ops::{DivAssign, RemAssign};
use core::str::FromStr;
use satint::{
    SaturatingFrom, SaturatingInto, Si8, Si16, Si32, Si64, Si128, Sisize, Su8, Su16, Su32, Su64, Su128,
    Susize, ParseErrorKind, si8, si16, si32, si64, si128, su8, su16, su32, su64, su128, u128_saturating_sub_signed,
};

#[test]
fn saturating_into_equals_saturating_from() {
    for v in [i64::MIN, -129, -128, -1, 0, 1, 127, 128, 255, 256, i64::MAX] {
        let a: Si8 = v.saturating_into();
        assert_eq!(a, Si8::saturating_from(v));
        let b: Su8 = v.saturating_into();
        assert_eq!(b, Su8::saturating_from(v));
        let c: u16 = si64(v).saturating_into();
        assert_eq!(c, u16::saturating_from(si64(v)));
    }
}

#[test]
fn saturating_from_is_exact_in_range_and_a_bound_outside() {
    assert_eq!(Si8::saturating_from(-128_i64), si8(-128));
    assert_eq!(Si8::saturating_from(127_u64), si8(127));
    assert_eq!(Si8::saturating_from(128_u64), Si8::MAX());
    assert_eq!(Si8::saturating_from(-129_i32), Si8::MIN());
    assert_eq!(Su16::saturating_from(si32(-1)), Su16::ZERO());
    assert_eq!(Su16::saturating_from(si32(70_000)), Su16::MAX());
    assert_eq!(Su16::saturating_from(si32(65_535)), su16(65_535));
    assert_eq!(i8::saturating_from(Su128::MAX()), i8::MAX);
}

#[test]
fn saturating_from_keeps_order() {
    let values = [i128::MIN, -70_000, -200, -1, 0, 5, 300, 70_000, i128::MAX];
    for pair in values.windows(2) {
        assert!(Su8::saturating_from(pair[0]) <= Su8::saturating_from(pair[1]));
        assert!(Si16::saturating_from(pair[0]) <= Si16::saturating_from(pair[1]));
    }
}

#[test]
fn saturating_through_a_wider_type_is_direct() {
    for v in [i64::MIN, -40_000, -129, -1, 0, 200, 40_000, i64::MAX] {
        assert_eq!(Su8::saturating_from(Si32::saturating_from(v)), Su8::saturating_from(v));
        assert_eq!(Si8::saturating_from(Si16::saturating_from(v)), Si8::saturating_from(v));
    }
}

#[test]
fn widening_then_narrowing_gives_the_value_back() {
    for v in [i8::MIN, -1, 0, 1, i8::MAX] {
        let wide = Si64::saturating_from(si8(v));
        assert_eq!(Si8::saturating_from(wide), si8(v));
    }
    for v in [0u16, 1, 300, u16::MAX] {
        let wide = Si32::saturating_from(su16(v));
        assert_eq!(Su16::saturating_from(wide), su16(v));
    }
}

#[test]
fn bytes_read_back_as_the_same_value() {
    for v in [i32::MIN, -123_456, -1, 0, 1, 0x1234_5678, i32::MAX] {
        let x = si32(v);
        assert_eq!(Si32::from_le_bytes(x.to_le_bytes()), x);
        assert_eq!(Si32::from_be_bytes(x.to_be_bytes()), x);
        assert_eq!(Si32::from_ne_bytes(x.to_ne_bytes()), x);
    }
    let x = su128(0x0102_0304_0506_0708_090a_0b0c_0d0e_0f10);
    assert_eq!(Su128::from_be_bytes(x.to_be_bytes()), x);
    assert_eq!(Su128::from_le_bytes(x.to_le_bytes()), x);
    let bytes = [0x80, 0x01, 0xff, 0x7f];
    assert_eq!(Si32::from_le_bytes(bytes).to_le_bytes(), bytes);
    assert_eq!(Su32::from_be_bytes(bytes).to_be_bytes(), bytes);
}

#[test]
fn byte_orders_have_the_expected_layout() {
    assert_eq!(su32(0x1234_5678).to_be_bytes(), [0x12, 0x34, 0x56, 0x78]);
    assert_eq!(su32(0x1234_5678).to_le_bytes(), [0x78, 0x56, 0x34, 0x12]);
    assert_eq!(si16(-2).to_be_bytes(), [0xff, 0xfe]);
    assert_eq!(Si16::from_le_bytes([0xfe, 0xff]), si16(-2));
    let native = su32(0x1234_5678).to_ne_bytes();
    assert!(native == [0x12, 0x34, 0x56, 0x78] || native == [0x78, 0x56, 0x34, 0x12]);
}

#[test]
fn reversing_bits_twice_gives_the_value_back() {
    for v in [i16::MIN, -2, -1, 0, 1, 0x0f0f, i16::MAX] {
        assert_eq!(si16(v).reverse_bits().reverse_bits(), si16(v));
    }
    assert_eq!(su8(0b0000_0001).reverse_bits(), su8(0b1000_0000));
    assert_eq!(si8(1).reverse_bits(), Si8::MIN());
}

#[test]
fn swapping_bytes_twice_gives_the_value_back() {
    for v in [u64::MIN, 1, 0x0102_0304_0506_0708, u64::MAX] {
        assert_eq!(su64(v).swap_bytes().swap_bytes(), su64(v));
    }
    assert_eq!(su32(0x1234_5678).swap_bytes(), su32(0x7856_3412));
    assert_eq!(si16(0x0080).swap_bytes(), si16(-32_768));
}

#[test]
fn rotations_undo_each_other() {
    for n in [0u32, 1, 7, 8, 9, 63, 64, 65, 1000] {
        let x = si64(-0x1234_5678_9abc);
        assert_eq!(x.rotate_left(n).rotate_right(n), x);
        assert_eq!(x.rotate_right(n).rotate_left(n), x);
    }
    assert_eq!(su8(0b1000_0001).rotate_left(1), su8(0b0000_0011));
    assert_eq!(su8(0b1000_0001).rotate_right(9), su8(0b1100_0000));
}

#[test]
fn negating_twice_gives_the_value_back_except_at_min() {
    for v in [i8::MIN + 1, -5, 0, 5, i8::MAX] {
        assert_eq!(-(-si8(v)), si8(v));
    }
    assert_eq!(-Si8::MIN(), Si8::MAX());
    assert_eq!(-(-Si8::MIN()), si8(-127));
    assert_eq!(-Si128::MIN(), Si128::MAX());
}

#[test]
fn signedness_round_trips() {
    for v in [0u32, 1, 42, i32::MAX as u32] {
        assert_eq!(su32(v).to_signed().to_unsigned(), su32(v));
    }
    assert_eq!(Su32::MAX().to_signed().to_unsigned(), su32(i32::MAX as u32));
    for v in [0i64, 1, i64::MAX] {
        assert_eq!(si64(v).to_unsigned().to_signed(), si64(v));
    }
    assert_eq!(si64(-3).to_unsigned().to_signed(), Si64::ZERO());
}

#[test]
fn decimal_text_reads_back() {
    for v in [i128::MIN, -1, 0, 7, i128::MAX] {
        let x = si128(v);
        assert_eq!(Si128::from_str(&x.to_string()), Ok(x));
    }
    for v in [0u8, 9, 10, 255] {
        let x = su8(v);
        assert_eq!(Su8::from_str(&x.to_string()), Ok(x));
    }
    assert_eq!(sisize_text(-42), "-42");
    assert_eq!(Susize::from_str("+17"), Ok(Susize::new(17)));
}

fn sisize_text(v: isize) -> String {
    Sisize::new(v).to_string()
}

#[test]
fn decimal_text_outside_the_grammar_or_range_is_refused() {
    assert!(Si8::from_str("128").is_err());
    assert!(Si8::from_str("-129").is_err());
    assert!(Su8::from_str("-0").is_err());
    assert!(Su8::from_str("").is_err());
    assert!(Su8::from_str("+").is_err());
    assert!(Si16::from_str("1_000").is_err());
    assert!(Si16::from_str(" 1").is_err());
    assert_eq!(Si16::from_str("-0"), Ok(si16(0)));
    assert_eq!(Su16::from_str("00042"), Ok(su16(42)));
}

#[test]
fn u128_subtraction_of_a_signed_value_saturates() {
    assert_eq!(u128_saturating_sub_signed(10, 3), 7);
    assert_eq!(u128_saturating_sub_signed(3, 10), 0);
    assert_eq!(u128_saturating_sub_signed(10, -3), 13);
    assert_eq!(u128_saturating_sub_signed(u128::MAX - 1, -2), u128::MAX);
    assert_eq!(u128_saturating_sub_signed(0, i128::MIN), 1u128 << 127);
    assert_eq!(u128_saturating_sub_signed(u128::MAX, i128::MIN), u128::MAX);
    assert_eq!(u128_saturating_sub_signed(5, i128::MAX), 0);
}

#[test]
fn sums_and_products_saturate_each_partial_result() {
    let items = [si8(100), si8(100), si8(-100)];
    let total: Si8 = items.iter().sum();
    assert_eq!(total, si8(27));
    let total: Si8 = items.into_iter().sum();
    assert_eq!(total, si8(27));
    let reversed: Si8 = [si8(-100), si8(100), si8(100)].into_iter().sum();
    assert_eq!(reversed, si8(100));
    let empty: Su8 = core::iter::empty::<Su8>().sum();
    assert_eq!(empty, Su8::ZERO());
    let product: Si16 = [si16(300), si16(300), si16(0)].iter().product();
    assert_eq!(product, Si16::ZERO());
    let product: Su16 = [su16(300), su16(300), su16(2)].into_iter().product();
    assert_eq!(product, Su16::MAX());
    let none: Su32 = core::iter::empty::<Su32>().product();
    assert_eq!(none, Su32::ONE());
}

#[test]
fn lossless_from_agrees_with_saturating_from() {
    for v in [i8::MIN, -1, 0, 1, i8::MAX] {
        assert_eq!(Si16::from(v), Si16::saturating_from(v));
        assert_eq!(Si64::from(si8(v)), Si64::saturating_from(si8(v)));
        assert_eq!(i32::from(si8(v)), i32::saturating_from(si8(v)));
    }
    for v in [0u16, 1, 300, u16::MAX] {
        assert_eq!(Si32::from(su16(v)), Si32::saturating_from(su16(v)));
        assert_eq!(Su64::from(v), Su64::saturating_from(v));
    }
}

#[test]
fn any_type_converts_into_itself_unchanged() {
    assert_eq!(u32::saturating_from(42u32), 42u32);
    assert_eq!(Si8::saturating_from(si8(-7)), si8(-7));
    assert_eq!(f64::saturating_from(1.5_f64), 1.5_f64);
    assert_eq!(String::saturating_from(String::from("text")), "text");
    let same: bool = true.saturating_into();
    assert!(same);
    let v: Vec<u8> = vec![1, 2, 3].saturating_into();
    assert_eq!(v, vec![1, 2, 3]);
}

#[test]
fn unsigned_left_shift_saturates_only_when_bits_are_lost() {
    assert_eq!(Su8::ZERO() << 8, Su8::ZERO());
    assert_eq!(Su8::ZERO() << 200, Su8::ZERO());
    assert_eq!(Su64::ZERO() << 64, Su64::ZERO());
    assert_eq!(Si8::ZERO() << 8, Si8::ZERO());
    assert_eq!(su8(1) << 7, su8(128));
    assert_eq!(su8(1) << 8, Su8::MAX());
    assert_eq!(su16(3) << 15, Su16::MAX());
}

fn kind_i8(s: &str) -> ParseErrorKind {
    ParseErrorKind::of(&Si8::from_str(s).unwrap_err())
}

fn kind_u8(s: &str) -> ParseErrorKind {
    ParseErrorKind::of(&Su8::from_str(s).unwrap_err())
}

#[test]
fn refused_text_reports_the_kind_of_error() {
    assert_eq!(kind_i8(""), ParseErrorKind::Empty);
    assert_eq!(kind_u8(""), ParseErrorKind::Empty);
    assert_eq!(kind_i8("+"), ParseErrorKind::InvalidDigit);
    assert_eq!(kind_i8("-"), ParseErrorKind::InvalidDigit);
    assert_eq!(kind_u8("-"), ParseErrorKind::InvalidDigit);
    assert_eq!(kind_u8("-5"), ParseErrorKind::InvalidDigit);
    assert_eq!(kind_i8("12a"), ParseErrorKind::InvalidDigit);
    assert_eq!(kind_i8(" 1"), ParseErrorKind::InvalidDigit);
    assert_eq!(kind_i8("128"), ParseErrorKind::PosOverflow);
    assert_eq!(kind_u8("256"), ParseErrorKind::PosOverflow);
    assert_eq!(kind_u8("+0000300"), ParseErrorKind::PosOverflow);
    assert_eq!(kind_i8("-129"), ParseErrorKind::NegOverflow);
    assert_ne!(kind_u8("999a"), ParseErrorKind::Empty);
    let e = Si128::from_str("170141183460469231731687303715884105728").unwrap_err();
    assert_eq!(ParseErrorKind::of(&e), ParseErrorKind::PosOverflow);
}

fn target_is_little_endian() -> bool {
    1u16.to_ne_bytes()[0] == 1
}

#[test]
fn byte_order_conversions_follow_the_named_order() {
    let x = su32(0x1234_5678);
    assert_eq!(Su32::from_be_for(x, true), su32(0x7856_3412));
    assert_eq!(Su32::from_be_for(x, false), x);
    assert_eq!(Su32::from_le_for(x, true), x);
    assert_eq!(Su32::from_le_for(x, false), su32(0x7856_3412));
    assert_eq!(x.to_ne_bytes_for(true), [0x78, 0x56, 0x34, 0x12]);
    assert_eq!(x.to_ne_bytes_for(false), [0x12, 0x34, 0x56, 0x78]);
    assert_eq!(Su32::from_ne_bytes_for([0x78, 0x56, 0x34, 0x12], true), x);
    assert_eq!(Su32::from_ne_bytes_for([0x78, 0x56, 0x34, 0x12], false), su32(0x7856_3412));
    let le = target_is_little_endian();
    assert_eq!(x.to_ne_bytes(), x.to_ne_bytes_for(le));
    assert_eq!(Su32::from_be(x), Su32::from_be_for(x, le));
    assert_eq!(Su32::from_le(x), Su32::from_le_for(x, le));
    assert_eq!(x.to_be(), Su32::from_be_for(x, le));
    assert_eq!(x.to_le(), Su32::from_le_for(x, le));
}

#[test]
fn byte_order_round_trips_for_each_order() {
    for le in [true, false] {
        for v in [i64::MIN, -2, 0, 1, 0x0102_0304_0506_0708, i64::MAX] {
            let x = si64(v);
            assert_eq!(Si64::from_ne_bytes_for(x.to_ne_bytes_for(le), le), x);
            assert_eq!(Si64::from_be_for(Si64::from_be_for(x, le), le), x);
            assert_eq!(Si64::from_le_for(Si64::from_le_for(x, le), le), x);
        }
    }
    let x = si128(-0x0123_4567_89ab_cdef);
    assert_eq!(Si128::from_ne_bytes(x.to_ne_bytes()), x);
    assert_eq!(Si128::from_be(x.to_be()), x);
    assert_eq!(Si128::from_le(x.to_le()), x);
}

#[test]
fn zero_shifted_left_by_the_width_or_more_stays_zero() {
    assert_eq!(Su8::ZERO() << 8, Su8::ZERO());
    assert_eq!(Su16::ZERO() << 16, Su16::ZERO());
    assert_eq!(Su32::ZERO() << 32, Su32::ZERO());
    assert_eq!(Su64::ZERO() << 1000, Su64::ZERO());
    assert_eq!(Su128::ZERO() << 128, Su128::ZERO());
    assert_eq!(Susize::ZERO() << u32::MAX, Susize::ZERO());
    let mut z = Su16::ZERO();
    z <<= 40;
    assert_eq!(z, Su16::ZERO());
}

#[test]
fn division_assignments_that_fail_leave_the_value_unchanged() {
    let mut a = si8(42);
    a.div_assign(si8(0));
    assert_eq!(a, si8(42));
    let mut b = su32(7);
    b.div_assign(0_u8);
    assert_eq!(b, su32(7));
    let mut c = si16(-9);
    c.rem_assign(0_i32);
    assert_eq!(c, si16(-9));
    let mut d = Si128::MIN();
    d.rem_assign(si8(-1));
    assert_eq!(d, Si128::MIN());
    let mut e = si8(42);
    e /= si8(5);
    assert_eq!(e, si8(8));
}
