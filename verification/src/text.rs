//! Decimal text: parsing with `FromStr` and formatting with `to_string`.
use vstd::prelude::*;
use core::num::{IntErrorKind, ParseIntError};
use core::str::FromStr;
use crate::ops::DivError;
use crate::si::{Si8, Si16, Si32, Si64, Si128, Sisize};
use crate::su::{Su8, Su16, Su32, Su64, Su128, Susize};

verus! {

broadcast use vstd::string::to_string_from_display_ensures_for_str;

#[verifier::external_type_specification]
#[verifier::external_body]
pub struct ExParseIntError(ParseIntError);

/// Why a text was not accepted as an integer: the kinds of error that std's integer
/// parsing reports.
#[derive(Debug, Clone, Copy, PartialEq, Eq, Structural)]
pub enum ParseErrorKind {
    /// The text is empty.
    Empty,
    /// The text holds a character that is not a digit where it stands, such as a
    /// lone sign, a sign in the middle, or any non-ASCII-digit character.
    InvalidDigit,
    /// The value is above the largest value of the type.
    PosOverflow,
    /// The value is below the least value of the type.
    NegOverflow,
    /// A kind that std adds for other integer types (such as the nonzero ones); the
    /// parsing of this crate's types does not report it.
    Other,
}

/// The kind of a parsing error, as `ParseIntError::kind` reports it.
pub uninterp spec fn error_kind(e: ParseIntError) -> ParseErrorKind;

/// Calls `ParseIntError::kind`, and gives its answer as a [`ParseErrorKind`].
#[verifier::external_body]
fn int_error_kind(e: &ParseIntError) -> (k: ParseErrorKind)
    ensures
        k == error_kind(*e),
{
    match e.kind() {
        IntErrorKind::Empty => ParseErrorKind::Empty,
        IntErrorKind::InvalidDigit => ParseErrorKind::InvalidDigit,
        IntErrorKind::PosOverflow => ParseErrorKind::PosOverflow,
        IntErrorKind::NegOverflow => ParseErrorKind::NegOverflow,
        _ => ParseErrorKind::Other,
    }
}

impl ParseErrorKind {
    /// The kind of the parsing error `e`.
    pub fn of(e: &ParseIntError) -> (k: ParseErrorKind)
        ensures
            k == error_kind(*e),
    {
        int_error_kind(e)
    }
}

/// What std's integer parsing reports of a text `s` that it refuses, for a type
/// with range `[lo, hi]` (`allow_minus` for a signed type): `Empty` exactly for the
/// empty text; for a text in the grammar, the overflow on the side of its value;
/// `InvalidDigit` for a lone sign; otherwise one of `InvalidDigit` and the two
/// overflows (the digits are read from the left, so an overflow in the digits
/// before a bad character is reported first).
pub open spec fn refused_kind(s: Seq<char>, allow_minus: bool, lo: int, hi: int, k: ParseErrorKind) -> bool {
    &&& (s.len() == 0 <==> k == ParseErrorKind::Empty)
    &&& (parsed_decimal(s, allow_minus) matches Some(v) && v > hi ==> k == ParseErrorKind::PosOverflow)
    &&& (parsed_decimal(s, allow_minus) matches Some(v) && v < lo ==> k == ParseErrorKind::NegOverflow)
    &&& (s.len() == 1 && (s[0] == '+' || s[0] == '-') ==> k == ParseErrorKind::InvalidDigit)
    &&& s.len() > 0 ==> (k == ParseErrorKind::InvalidDigit || k == ParseErrorKind::PosOverflow || k
        == ParseErrorKind::NegOverflow)
}

/// Whether `c` is one of the ASCII digits `0` to `9`.
pub open spec fn is_decimal_digit(c: char) -> bool {
    '0' <= c <= '9'
}

/// The number that a string of ASCII digits stands for.
pub open spec fn digits_value(s: Seq<char>) -> nat
    decreases s.len(),
{
    if s.len() == 0 {
        0
    } else {
        digits_value(s.drop_last()) * 10 + ((s.last() as int - '0' as int) as nat)
    }
}

/// The integer that `s` writes in decimal: ASCII digits, at least one, after an
/// optional `+`, or, where `allow_minus` holds, an optional `-`. `None` for any other
/// text.
pub open spec fn parsed_decimal(s: Seq<char>, allow_minus: bool) -> Option<int> {
    let negative = allow_minus && s.len() > 0 && s[0] == '-';
    let body = if s.len() > 0 && (s[0] == '+' || negative) {
        s.drop_first()
    } else {
        s
    };
    if body.len() > 0 && forall|i: int| 0 <= i < body.len() ==> is_decimal_digit(#[trigger] body[i]) {
        Some(
            if negative {
                -digits_value(body)
            } else {
                digits_value(body) as int
            },
        )
    } else {
        None
    }
}

/// The ASCII digit for `d`, which is below ten.
pub open spec fn digit_char(d: nat) -> char {
    ('0' as int + d) as char
}

/// The decimal digits of `n`, most significant first, without leading zeros.
pub open spec fn decimal_digits(n: nat) -> Seq<char>
    decreases n,
{
    if n < 10 {
        seq![digit_char(n)]
    } else {
        decimal_digits(n / 10).push(digit_char(n % 10))
    }
}

/// `v` written in decimal, with a leading `-` when it is negative.
pub open spec fn decimal(v: int) -> Seq<char> {
    if v < 0 {
        seq!['-'] + decimal_digits((-v) as nat)
    } else {
        decimal_digits(v as nat)
    }
}

/// Calls `i128::to_string`, which writes the value in decimal with a leading `-`
/// for negative values, as the standard library documents for integers.
#[verifier::external_body]
fn i128_to_string(x: i128) -> (r: String)
    ensures
        r@ == decimal(x as int),
{
    x.to_string()
}

/// Calls `u128::to_string`, which writes the value in decimal.
#[verifier::external_body]
fn u128_to_string(x: u128) -> (r: String)
    ensures
        r@ == decimal(x as int),
{
    x.to_string()
}

impl DivError {
    /// The message for the error.
    pub fn to_string(&self) -> (r: String)
        ensures
            r@ == (match *self {
                DivError::DivisionByZero => "division by zero"@,
                DivError::Overflow => "arithmetic overflow"@,
            }),
    {
        match *self {
            DivError::DivisionByZero => "division by zero".to_string(),
            DivError::Overflow => "arithmetic overflow".to_string(),
        }
    }
}

/// Calls `i8::from_str`, which accepts exactly the decimal texts whose value is in
/// range: ASCII digits after an optional `+` or `-`. Otherwise its error is of the
/// kind that [`refused_kind`] describes, as std documents for `IntErrorKind`.
#[verifier::external_body]
fn parse_i8(s: &str) -> (r: Result<i8, ParseIntError>)
    ensures
        r is Ok <==> (parsed_decimal(s@, true) matches Some(v) && i8::MIN <= v <= i8::MAX),
        r matches Ok(x) ==> parsed_decimal(s@, true) == Some(x as int),
        r matches Err(e) ==> refused_kind(s@, true, i8::MIN as int, i8::MAX as int, error_kind(e)),
{
    <i8 as FromStr>::from_str(s)
}

/// Calls `i16::from_str`, which accepts exactly the decimal texts whose value is in
/// range: ASCII digits after an optional `+` or `-`. Otherwise its error is of the
/// kind that [`refused_kind`] describes, as std documents for `IntErrorKind`.
#[verifier::external_body]
fn parse_i16(s: &str) -> (r: Result<i16, ParseIntError>)
    ensures
        r is Ok <==> (parsed_decimal(s@, true) matches Some(v) && i16::MIN <= v <= i16::MAX),
        r matches Ok(x) ==> parsed_decimal(s@, true) == Some(x as int),
        r matches Err(e) ==> refused_kind(s@, true, i16::MIN as int, i16::MAX as int, error_kind(e)),
{
    <i16 as FromStr>::from_str(s)
}

/// Calls `i32::from_str`, which accepts exactly the decimal texts whose value is in
/// range: ASCII digits after an optional `+` or `-`. Otherwise its error is of the
/// kind that [`refused_kind`] describes, as std documents for `IntErrorKind`.
#[verifier::external_body]
fn parse_i32(s: &str) -> (r: Result<i32, ParseIntError>)
    ensures
        r is Ok <==> (parsed_decimal(s@, true) matches Some(v) && i32::MIN <= v <= i32::MAX),
        r matches Ok(x) ==> parsed_decimal(s@, true) == Some(x as int),
        r matches Err(e) ==> refused_kind(s@, true, i32::MIN as int, i32::MAX as int, error_kind(e)),
{
    <i32 as FromStr>::from_str(s)
}

/// Calls `i64::from_str`, which accepts exactly the decimal texts whose value is in
/// range: ASCII digits after an optional `+` or `-`. Otherwise its error is of the
/// kind that [`refused_kind`] describes, as std documents for `IntErrorKind`.
#[verifier::external_body]
fn parse_i64(s: &str) -> (r: Result<i64, ParseIntError>)
    ensures
        r is Ok <==> (parsed_decimal(s@, true) matches Some(v) && i64::MIN <= v <= i64::MAX),
        r matches Ok(x) ==> parsed_decimal(s@, true) == Some(x as int),
        r matches Err(e) ==> refused_kind(s@, true, i64::MIN as int, i64::MAX as int, error_kind(e)),
{
    <i64 as FromStr>::from_str(s)
}

/// Calls `i128::from_str`, which accepts exactly the decimal texts whose value is in
/// range: ASCII digits after an optional `+` or `-`. Otherwise its error is of the
/// kind that [`refused_kind`] describes, as std documents for `IntErrorKind`.
#[verifier::external_body]
fn parse_i128(s: &str) -> (r: Result<i128, ParseIntError>)
    ensures
        r is Ok <==> (parsed_decimal(s@, true) matches Some(v) && i128::MIN <= v <= i128::MAX),
        r matches Ok(x) ==> parsed_decimal(s@, true) == Some(x as int),
        r matches Err(e) ==> refused_kind(s@, true, i128::MIN as int, i128::MAX as int, error_kind(e)),
{
    <i128 as FromStr>::from_str(s)
}

/// Calls `isize::from_str`, which accepts exactly the decimal texts whose value is in
/// range: ASCII digits after an optional `+` or `-`. Otherwise its error is of the
/// kind that [`refused_kind`] describes, as std documents for `IntErrorKind`.
#[verifier::external_body]
fn parse_isize(s: &str) -> (r: Result<isize, ParseIntError>)
    ensures
        r is Ok <==> (parsed_decimal(s@, true) matches Some(v) && isize::MIN <= v <= isize::MAX),
        r matches Ok(x) ==> parsed_decimal(s@, true) == Some(x as int),
        r matches Err(e) ==> refused_kind(s@, true, isize::MIN as int, isize::MAX as int, error_kind(e)),
{
    <isize as FromStr>::from_str(s)
}

/// Calls `u8::from_str`, which accepts exactly the decimal texts whose value is in
/// range: ASCII digits after an optional `+`. Otherwise its error is of the
/// kind that [`refused_kind`] describes, as std documents for `IntErrorKind`.
#[verifier::external_body]
fn parse_u8(s: &str) -> (r: Result<u8, ParseIntError>)
    ensures
        r is Ok <==> (parsed_decimal(s@, false) matches Some(v) && u8::MIN <= v <= u8::MAX),
        r matches Ok(x) ==> parsed_decimal(s@, false) == Some(x as int),
        r matches Err(e) ==> refused_kind(s@, false, u8::MIN as int, u8::MAX as int, error_kind(e)),
{
    <u8 as FromStr>::from_str(s)
}

/// Calls `u16::from_str`, which accepts exactly the decimal texts whose value is in
/// range: ASCII digits after an optional `+`. Otherwise its error is of the
/// kind that [`refused_kind`] describes, as std documents for `IntErrorKind`.
#[verifier::external_body]
fn parse_u16(s: &str) -> (r: Result<u16, ParseIntError>)
    ensures
        r is Ok <==> (parsed_decimal(s@, false) matches Some(v) && u16::MIN <= v <= u16::MAX),
        r matches Ok(x) ==> parsed_decimal(s@, false) == Some(x as int),
        r matches Err(e) ==> refused_kind(s@, false, u16::MIN as int, u16::MAX as int, error_kind(e)),
{
    <u16 as FromStr>::from_str(s)
}

/// Calls `u32::from_str`, which accepts exactly the decimal texts whose value is in
/// range: ASCII digits after an optional `+`. Otherwise its error is of the
/// kind that [`refused_kind`] describes, as std documents for `IntErrorKind`.
#[verifier::external_body]
fn parse_u32(s: &str) -> (r: Result<u32, ParseIntError>)
    ensures
        r is Ok <==> (parsed_decimal(s@, false) matches Some(v) && u32::MIN <= v <= u32::MAX),
        r matches Ok(x) ==> parsed_decimal(s@, false) == Some(x as int),
        r matches Err(e) ==> refused_kind(s@, false, u32::MIN as int, u32::MAX as int, error_kind(e)),
{
    <u32 as FromStr>::from_str(s)
}

/// Calls `u64::from_str`, which accepts exactly the decimal texts whose value is in
/// range: ASCII digits after an optional `+`. Otherwise its error is of the
/// kind that [`refused_kind`] describes, as std documents for `IntErrorKind`.
#[verifier::external_body]
fn parse_u64(s: &str) -> (r: Result<u64, ParseIntError>)
    ensures
        r is Ok <==> (parsed_decimal(s@, false) matches Some(v) && u64::MIN <= v <= u64::MAX),
        r matches Ok(x) ==> parsed_decimal(s@, false) == Some(x as int),
        r matches Err(e) ==> refused_kind(s@, false, u64::MIN as int, u64::MAX as int, error_kind(e)),
{
    <u64 as FromStr>::from_str(s)
}

/// Calls `u128::from_str`, which accepts exactly the decimal texts whose value is in
/// range: ASCII digits after an optional `+`. Otherwise its error is of the
/// kind that [`refused_kind`] describes, as std documents for `IntErrorKind`.
#[verifier::external_body]
fn parse_u128(s: &str) -> (r: Result<u128, ParseIntError>)
    ensures
        r is Ok <==> (parsed_decimal(s@, false) matches Some(v) && u128::MIN <= v <= u128::MAX),
        r matches Ok(x) ==> parsed_decimal(s@, false) == Some(x as int),
        r matches Err(e) ==> refused_kind(s@, false, u128::MIN as int, u128::MAX as int, error_kind(e)),
{
    <u128 as FromStr>::from_str(s)
}

/// Calls `usize::from_str`, which accepts exactly the decimal texts whose value is in
/// range: ASCII digits after an optional `+`. Otherwise its error is of the
/// kind that [`refused_kind`] describes, as std documents for `IntErrorKind`.
#[verifier::external_body]
fn parse_usize(s: &str) -> (r: Result<usize, ParseIntError>)
    ensures
        r is Ok <==> (parsed_decimal(s@, false) matches Some(v) && usize::MIN <= v <= usize::MAX),
        r matches Ok(x) ==> parsed_decimal(s@, false) == Some(x as int),
        r matches Err(e) ==> refused_kind(s@, false, usize::MIN as int, usize::MAX as int, error_kind(e)),
{
    <usize as FromStr>::from_str(s)
}

impl FromStr for Si8 {
    type Err = ParseIntError;

    fn from_str(s: &str) -> (r: Result<Si8, ParseIntError>)
        ensures
            r is Ok <==> (parsed_decimal(s@, true) matches Some(v) && i8::MIN <= v <= i8::MAX),
            r matches Ok(x) ==> parsed_decimal(s@, true) == Some(x@),
            r matches Err(e) ==> refused_kind(s@, true, i8::MIN as int, i8::MAX as int, error_kind(e)),
    {
        match parse_i8(s) {
            Ok(v) => Ok(Si8::new(v)),
            Err(e) => Err(e),
        }
    }
}

impl Si8 {
    /// The value written in decimal.
    pub fn to_string(&self) -> (r: String)
        ensures
            r@ == decimal(self@),
    {
        i128_to_string(self.into_inner() as i128)
    }
}

impl FromStr for Si16 {
    type Err = ParseIntError;

    fn from_str(s: &str) -> (r: Result<Si16, ParseIntError>)
        ensures
            r is Ok <==> (parsed_decimal(s@, true) matches Some(v) && i16::MIN <= v <= i16::MAX),
            r matches Ok(x) ==> parsed_decimal(s@, true) == Some(x@),
            r matches Err(e) ==> refused_kind(s@, true, i16::MIN as int, i16::MAX as int, error_kind(e)),
    {
        match parse_i16(s) {
            Ok(v) => Ok(Si16::new(v)),
            Err(e) => Err(e),
        }
    }
}

impl Si16 {
    /// The value written in decimal.
    pub fn to_string(&self) -> (r: String)
        ensures
            r@ == decimal(self@),
    {
        i128_to_string(self.into_inner() as i128)
    }
}

impl FromStr for Si32 {
    type Err = ParseIntError;

    fn from_str(s: &str) -> (r: Result<Si32, ParseIntError>)
        ensures
            r is Ok <==> (parsed_decimal(s@, true) matches Some(v) && i32::MIN <= v <= i32::MAX),
            r matches Ok(x) ==> parsed_decimal(s@, true) == Some(x@),
            r matches Err(e) ==> refused_kind(s@, true, i32::MIN as int, i32::MAX as int, error_kind(e)),
    {
        match parse_i32(s) {
            Ok(v) => Ok(Si32::new(v)),
            Err(e) => Err(e),
        }
    }
}

impl Si32 {
    /// The value written in decimal.
    pub fn to_string(&self) -> (r: String)
        ensures
            r@ == decimal(self@),
    {
        i128_to_string(self.into_inner() as i128)
    }
}

impl FromStr for Si64 {
    type Err = ParseIntError;

    fn from_str(s: &str) -> (r: Result<Si64, ParseIntError>)
        ensures
            r is Ok <==> (parsed_decimal(s@, true) matches Some(v) && i64::MIN <= v <= i64::MAX),
            r matches Ok(x) ==> parsed_decimal(s@, true) == Some(x@),
            r matches Err(e) ==> refused_kind(s@, true, i64::MIN as int, i64::MAX as int, error_kind(e)),
    {
        match parse_i64(s) {
            Ok(v) => Ok(Si64::new(v)),
            Err(e) => Err(e),
        }
    }
}

impl Si64 {
    /// The value written in decimal.
    pub fn to_string(&self) -> (r: String)
        ensures
            r@ == decimal(self@),
    {
        i128_to_string(self.into_inner() as i128)
    }
}

impl FromStr for Si128 {
    type Err = ParseIntError;

    fn from_str(s: &str) -> (r: Result<Si128, ParseIntError>)
        ensures
            r is Ok <==> (parsed_decimal(s@, true) matches Some(v) && i128::MIN <= v <= i128::MAX),
            r matches Ok(x) ==> parsed_decimal(s@, true) == Some(x@),
            r matches Err(e) ==> refused_kind(s@, true, i128::MIN as int, i128::MAX as int, error_kind(e)),
    {
        match parse_i128(s) {
            Ok(v) => Ok(Si128::new(v)),
            Err(e) => Err(e),
        }
    }
}

impl Si128 {
    /// The value written in decimal.
    pub fn to_string(&self) -> (r: String)
        ensures
            r@ == decimal(self@),
    {
        i128_to_string(self.into_inner() as i128)
    }
}

impl FromStr for Sisize {
    type Err = ParseIntError;

    fn from_str(s: &str) -> (r: Result<Sisize, ParseIntError>)
        ensures
            r is Ok <==> (parsed_decimal(s@, true) matches Some(v) && isize::MIN <= v <= isize::MAX),
            r matches Ok(x) ==> parsed_decimal(s@, true) == Some(x@),
            r matches Err(e) ==> refused_kind(s@, true, isize::MIN as int, isize::MAX as int, error_kind(e)),
    {
        match parse_isize(s) {
            Ok(v) => Ok(Sisize::new(v)),
            Err(e) => Err(e),
        }
    }
}

impl Sisize {
    /// The value written in decimal.
    pub fn to_string(&self) -> (r: String)
        ensures
            r@ == decimal(self@),
    {
        i128_to_string(self.into_inner() as i128)
    }
}

impl FromStr for Su8 {
    type Err = ParseIntError;

    fn from_str(s: &str) -> (r: Result<Su8, ParseIntError>)
        ensures
            r is Ok <==> (parsed_decimal(s@, false) matches Some(v) && u8::MIN <= v <= u8::MAX),
            r matches Ok(x) ==> parsed_decimal(s@, false) == Some(x@),
            r matches Err(e) ==> refused_kind(s@, false, u8::MIN as int, u8::MAX as int, error_kind(e)),
    {
        match parse_u8(s) {
            Ok(v) => Ok(Su8::new(v)),
            Err(e) => Err(e),
        }
    }
}

impl Su8 {
    /// The value written in decimal.
    pub fn to_string(&self) -> (r: String)
        ensures
            r@ == decimal(self@),
    {
        u128_to_string(self.into_inner() as u128)
    }
}

impl FromStr for Su16 {
    type Err = ParseIntError;

    fn from_str(s: &str) -> (r: Result<Su16, ParseIntError>)
        ensures
            r is Ok <==> (parsed_decimal(s@, false) matches Some(v) && u16::MIN <= v <= u16::MAX),
            r matches Ok(x) ==> parsed_decimal(s@, false) == Some(x@),
            r matches Err(e) ==> refused_kind(s@, false, u16::MIN as int, u16::MAX as int, error_kind(e)),
    {
        match parse_u16(s) {
            Ok(v) => Ok(Su16::new(v)),
            Err(e) => Err(e),
        }
    }
}

impl Su16 {
    /// The value written in decimal.
    pub fn to_string(&self) -> (r: String)
        ensures
            r@ == decimal(self@),
    {
        u128_to_string(self.into_inner() as u128)
    }
}

impl FromStr for Su32 {
    type Err = ParseIntError;

    fn from_str(s: &str) -> (r: Result<Su32, ParseIntError>)
        ensures
            r is Ok <==> (parsed_decimal(s@, false) matches Some(v) && u32::MIN <= v <= u32::MAX),
            r matches Ok(x) ==> parsed_decimal(s@, false) == Some(x@),
            r matches Err(e) ==> refused_kind(s@, false, u32::MIN as int, u32::MAX as int, error_kind(e)),
    {
        match parse_u32(s) {
            Ok(v) => Ok(Su32::new(v)),
            Err(e) => Err(e),
        }
    }
}

impl Su32 {
    /// The value written in decimal.
    pub fn to_string(&self) -> (r: String)
        ensures
            r@ == decimal(self@),
    {
        u128_to_string(self.into_inner() as u128)
    }
}

impl FromStr for Su64 {
    type Err = ParseIntError;

    fn from_str(s: &str) -> (r: Result<Su64, ParseIntError>)
        ensures
            r is Ok <==> (parsed_decimal(s@, false) matches Some(v) && u64::MIN <= v <= u64::MAX),
            r matches Ok(x) ==> parsed_decimal(s@, false) == Some(x@),
            r matches Err(e) ==> refused_kind(s@, false, u64::MIN as int, u64::MAX as int, error_kind(e)),
    {
        match parse_u64(s) {
            Ok(v) => Ok(Su64::new(v)),
            Err(e) => Err(e),
        }
    }
}

impl Su64 {
    /// The value written in decimal.
    pub fn to_string(&self) -> (r: String)
        ensures
            r@ == decimal(self@),
    {
        u128_to_string(self.into_inner() as u128)
    }
}

impl FromStr for Su128 {
    type Err = ParseIntError;

    fn from_str(s: &str) -> (r: Result<Su128, ParseIntError>)
        ensures
            r is Ok <==> (parsed_decimal(s@, false) matches Some(v) && u128::MIN <= v <= u128::MAX),
            r matches Ok(x) ==> parsed_decimal(s@, false) == Some(x@),
            r matches Err(e) ==> refused_kind(s@, false, u128::MIN as int, u128::MAX as int, error_kind(e)),
    {
        match parse_u128(s) {
            Ok(v) => Ok(Su128::new(v)),
            Err(e) => Err(e),
        }
    }
}

impl Su128 {
    /// The value written in decimal.
    pub fn to_string(&self) -> (r: String)
        ensures
            r@ == decimal(self@),
    {
        u128_to_string(self.into_inner() as u128)
    }
}

impl FromStr for Susize {
    type Err = ParseIntError;

    fn from_str(s: &str) -> (r: Result<Susize, ParseIntError>)
        ensures
            r is Ok <==> (parsed_decimal(s@, false) matches Some(v) && usize::MIN <= v <= usize::MAX),
            r matches Ok(x) ==> parsed_decimal(s@, false) == Some(x@),
            r matches Err(e) ==> refused_kind(s@, false, usize::MIN as int, usize::MAX as int, error_kind(e)),
    {
        match parse_usize(s) {
            Ok(v) => Ok(Susize::new(v)),
            Err(e) => Err(e),
        }
    }
}

impl Susize {
    /// The value written in decimal.
    pub fn to_string(&self) -> (r: String)
        ensures
            r@ == decimal(self@),
    {
        u128_to_string(self.into_inner() as u128)
    }
}

} // verus!
