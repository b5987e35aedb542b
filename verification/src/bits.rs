//! Bit-level operations on the two's complement pattern of an integer, held in a
//! `u128` together with its width in bits.
use vstd::prelude::*;
use vstd::arithmetic::power2::{pow2, lemma2_to64, lemma2_to64_rest, lemma_pow2_adds, lemma_pow2_pos, lemma_pow2_strictly_increases, lemma_pow2_unfold};
use crate::math::{pattern_of, signed, value_of_pattern};

verus! {

/// The number of one bits among the low `width` bits of `x`.
pub open spec fn popcount(x: nat, width: nat) -> nat
    decreases width,
{
    if width == 0 {
        0
    } else {
        x % 2 + popcount(x / 2, (width - 1) as nat)
    }
}

/// The number of bits needed to write `x`: the position of its highest one bit plus one.
pub open spec fn bit_length(x: nat) -> nat
    decreases x,
{
    if x == 0 {
        0
    } else {
        1 + bit_length(x / 2)
    }
}

/// The low `width` bits of `x` flipped.
pub open spec fn complement(x: nat, width: nat) -> nat {
    (pow2(width) - 1 - x) as nat
}

/// Flipping the bits of a `width`-bit pattern gives a `width`-bit pattern.
pub proof fn lemma_complement_bound(x: nat, width: nat)
    requires
        x < pow2(width),
    ensures
        complement(x, width) < pow2(width),
        complement(x, width) == pow2(width) - 1 - x,
{
}

/// The number of zero bits below the lowest one bit of `x`, counting at most `width` bits.
pub open spec fn trailing_zero_count(x: nat, width: nat) -> nat
    decreases width,
{
    if width == 0 || x % 2 == 1 {
        0
    } else {
        1 + trailing_zero_count(x / 2, (width - 1) as nat)
    }
}

/// The low `width` bits of `x` in reverse order.
pub open spec fn reversed_bits(x: nat, width: nat) -> nat
    decreases width,
{
    if width == 0 {
        0
    } else {
        (x % 2) * pow2((width - 1) as nat) + reversed_bits(x / 2, (width - 1) as nat)
    }
}

/// The `width`-bit pattern `x` rotated left by `n` bits.
pub open spec fn rotated_left(x: nat, n: nat, width: nat) -> nat
    recommends
        width > 0,
{
    let k = n % width;
    (x % pow2((width - k) as nat)) * pow2(k) + x / pow2((width - k) as nat)
}

/// The `width`-bit pattern `x` rotated right by `n` bits.
pub open spec fn rotated_right(x: nat, n: nat, width: nat) -> nat
    recommends
        width > 0,
{
    let k = n % width;
    x / pow2(k) + (x % pow2(k)) * pow2((width - k) as nat)
}

/// The low `count` bytes of `x` in reverse order.
pub open spec fn reversed_bytes(x: nat, count: nat) -> nat
    decreases count,
{
    if count == 0 {
        0
    } else {
        (x % 256) * pow2((8 * (count - 1)) as nat) + reversed_bytes(x / 256, (count - 1) as nat)
    }
}

/// The low `count` bytes of `x`, least significant first.
pub open spec fn le_bytes(x: nat, count: nat) -> Seq<u8>
    decreases count,
{
    if count == 0 {
        Seq::empty()
    } else {
        seq![(x % 256) as u8] + le_bytes(x / 256, (count - 1) as nat)
    }
}

/// The low `count` bytes of `x`, most significant first.
pub open spec fn be_bytes(x: nat, count: nat) -> Seq<u8> {
    le_bytes(x, count).reverse()
}

/// The number that the bytes stand for, least significant first.
pub open spec fn le_value(bytes: Seq<u8>) -> nat
    decreases bytes.len(),
{
    if bytes.len() == 0 {
        0
    } else {
        (bytes[0] + 256 * le_value(bytes.drop_first())) as nat
    }
}

/// The number that the bytes stand for, most significant first.
pub open spec fn be_value(bytes: Seq<u8>) -> nat {
    le_value(bytes.reverse())
}

/// `2^127` and `2^128` in numbers.
pub proof fn lemma_pow2_top()
    ensures
        pow2(127) == 0x8000_0000_0000_0000_0000_0000_0000_0000,
        pow2(128) == u128::MAX + 1,
{
    lemma2_to64();
    lemma2_to64_rest();
    lemma_pow2_adds(64, 63);
    lemma_pow2_adds(64, 64);
}

/// Powers of two grow with the exponent.
pub proof fn lemma_pow2_le(a: nat, b: nat)
    requires
        a <= b,
    ensures
        pow2(a) <= pow2(b),
{
    if a < b {
        lemma_pow2_strictly_increases(a, b);
    }
}

/// `2^e` for an exponent below 128.
pub fn pow2_u128(e: u32) -> (r: u128)
    requires
        e < 128,
    ensures
        r == pow2(e as nat),
{
    let mut r: u128 = 1;
    let mut i: u32 = 0;
    proof {
        lemma2_to64();
    }
    while i < e
        invariant
            i <= e < 128,
            r == pow2(i as nat),
        decreases e - i,
    {
        proof {
            lemma_pow2_unfold((i + 1) as nat);
            lemma_pow2_le((i + 1) as nat, 127);
            lemma_pow2_top();
        }
        r = r * 2;
        i = i + 1;
    }
    r
}

/// `2^width - 1`: the pattern with the low `width` bits set.
pub fn low_mask(width: u32) -> (r: u128)
    requires
        width <= 128,
    ensures
        r == pow2(width as nat) - 1,
{
    let mut r: u128 = 0;
    let mut i: u32 = 0;
    proof {
        lemma2_to64();
    }
    while i < width
        invariant
            i <= width <= 128,
            r == pow2(i as nat) - 1,
        decreases width - i,
    {
        proof {
            lemma_pow2_unfold((i + 1) as nat);
            lemma_pow2_le((i + 1) as nat, 128);
            lemma_pow2_top();
        }
        r = r * 2 + 1;
        i = i + 1;
    }
    r
}

/// At most `width` of the low `width` bits are set.
pub proof fn lemma_popcount_bound(x: nat, width: nat)
    ensures
        popcount(x, width) <= width,
    decreases width,
{
    if width > 0 {
        lemma_popcount_bound(x / 2, (width - 1) as nat);
    }
}

/// The number of one bits in the `width`-bit pattern `p`.
pub fn count_ones_pattern(p: u128, width: u32) -> (r: u32)
    requires
        width <= 128,
    ensures
        r == popcount(p as nat, width as nat),
{
    let mut x = p;
    let mut ones: u32 = 0;
    let mut i: u32 = 0;
    while i < width
        invariant
            i <= width <= 128,
            ones <= i,
            ones + popcount(x as nat, (width - i) as nat) == popcount(p as nat, width as nat),
        decreases width - i,
    {
        ones = ones + (x % 2) as u32;
        x = x / 2;
        i = i + 1;
    }
    ones
}

/// A number below `2^k` needs at most `k` bits.
pub proof fn lemma_bit_length_bound(x: nat, k: nat)
    requires
        x < pow2(k),
    ensures
        bit_length(x) <= k,
    decreases k,
{
    if x > 0 {
        if k == 0 {
            lemma2_to64();
        } else {
            lemma_pow2_unfold(k);
            lemma_bit_length_bound(x / 2, (k - 1) as nat);
        }
    }
}

/// The number of bits needed to write `p`.
pub fn bit_length_pattern(p: u128) -> (r: u32)
    ensures
        r == bit_length(p as nat),
        r <= 128,
{
    let mut x = p;
    let mut n: u32 = 0;
    proof {
        lemma_pow2_top();
        lemma_bit_length_bound(p as nat, 128);
    }
    while x > 0
        invariant
            n + bit_length(x as nat) == bit_length(p as nat),
            bit_length(p as nat) <= 128,
        decreases x,
    {
        n = n + 1;
        x = x / 2;
    }
    n
}

/// The number of zero bits below the lowest one bit of the `width`-bit pattern `p`.
pub fn trailing_zeros_pattern(p: u128, width: u32) -> (r: u32)
    ensures
        r == trailing_zero_count(p as nat, width as nat),
        r <= width,
{
    let mut x = p;
    let mut i: u32 = 0;
    while i < width && x % 2 == 0
        invariant
            i <= width,
            i + trailing_zero_count(x as nat, (width - i) as nat) == trailing_zero_count(p as nat, width as nat),
        decreases width - i,
    {
        x = x / 2;
        i = i + 1;
    }
    i
}

/// The `width`-bit pattern `p` with its bits in reverse order.
pub fn reverse_bits_pattern(p: u128, width: u32) -> (r: u128)
    requires
        width <= 128,
    ensures
        r == reversed_bits(p as nat, width as nat),
        r < pow2(width as nat),
{
    let mut x = p;
    let mut acc: u128 = 0;
    let mut i: u32 = 0;
    proof {
        lemma2_to64();
    }
    while i < width
        invariant
            i <= width <= 128,
            acc < pow2(i as nat),
            reversed_bits(p as nat, width as nat) == acc * pow2((width - i) as nat) + reversed_bits(
                x as nat,
                (width - i) as nat,
            ),
        decreases width - i,
    {
        let ghost m = (width - i) as nat;
        proof {
            lemma_pow2_unfold(m);
            lemma_pow2_unfold((i + 1) as nat);
            lemma_pow2_le((i + 1) as nat, 128);
            lemma_pow2_top();
            let q = pow2((m - 1) as nat);
            assert(acc * pow2(m) + (x % 2) * q == (2 * acc + x % 2) * q) by (nonlinear_arith)
                requires
                    pow2(m) == 2 * q,
            ;
        }
        acc = 2 * acc + x % 2;
        x = x / 2;
        i = i + 1;
    }
    proof {
        lemma2_to64();
        assert(i == width);
        assert((width - i) as nat == 0);
        assert(pow2(0) == 1);
        assert(reversed_bits(x as nat, 0) == 0);
        assert(acc * pow2(0) == acc);
    }
    acc
}

/// Splitting a pattern below `2^(a + b)` at bit `a` and putting the high part below
/// the low part gives a pattern below `2^(a + b)` again.
proof fn lemma_swap_halves_bound(x: nat, a: nat, b: nat)
    requires
        x < pow2(a + b),
    ensures
        (x % pow2(a)) * pow2(b) + x / pow2(a) < pow2(a + b),
        x / pow2(a) < pow2(b),
{
    lemma_pow2_pos(a);
    lemma_pow2_pos(b);
    lemma_pow2_adds(a, b);
    let pa = pow2(a) as int;
    let pb = pow2(b) as int;
    let xi = x as int;
    vstd::arithmetic::div_mod::lemma_mod_bound(xi, pa);
    vstd::arithmetic::div_mod::lemma_fundamental_div_mod(xi, pa);
    vstd::arithmetic::div_mod::lemma_div_pos_is_pos(xi, pa);
    assert(xi / pa < pb) by (nonlinear_arith)
        requires
            xi < pa * pb,
            xi == pa * (xi / pa) + xi % pa,
            0 <= xi % pa,
            pa > 0,
    ;
    assert((xi % pa) * pb + xi / pa < pa * pb) by (nonlinear_arith)
        requires
            0 <= xi % pa < pa,
            0 <= xi / pa < pb,
    ;
}

/// The `width`-bit pattern `p` rotated left by `n` bits.
pub fn rotate_left_pattern(p: u128, n: u32, width: u32) -> (r: u128)
    requires
        1 <= width <= 128,
        p < pow2(width as nat),
    ensures
        r == rotated_left(p as nat, n as nat, width as nat),
        r < pow2(width as nat),
{
    let k = n % width;
    proof {
        lemma_pow2_top();
        lemma2_to64();
    }
    if k == 0 {
        proof {
            vstd::arithmetic::div_mod::lemma_small_mod(p as nat, pow2(width as nat));
            vstd::arithmetic::div_mod::lemma_basic_div(p as int, pow2(width as nat) as int);
            assert(pow2(0) == 1);
            assert((p as nat % pow2(width as nat)) * pow2(0) == p);
        }
        p
    } else {
        let low_width = width - k;
        let d = pow2_u128(low_width);
        let m = pow2_u128(k);
        proof {
            lemma_pow2_pos(low_width as nat);
            lemma_swap_halves_bound(p as nat, low_width as nat, k as nat);
            lemma_pow2_le(width as nat, 128);
            assert(low_width + k == width);
        }
        let r = (p % d) * m + p / d;
        proof {
            assert(r == rotated_left(p as nat, n as nat, width as nat));
        }
        r
    }
}

/// The `width`-bit pattern `p` rotated right by `n` bits.
pub fn rotate_right_pattern(p: u128, n: u32, width: u32) -> (r: u128)
    requires
        1 <= width <= 128,
        p < pow2(width as nat),
    ensures
        r == rotated_right(p as nat, n as nat, width as nat),
        r < pow2(width as nat),
{
    let k = n % width;
    proof {
        lemma_pow2_top();
        lemma2_to64();
    }
    if k == 0 {
        proof {
            assert(pow2(0) == 1);
            assert(p as nat / pow2(0) == p);
            assert(p as nat % pow2(0) == 0);
            assert((p as nat % pow2(0)) * pow2(width as nat) == 0);
        }
        p
    } else {
        let high_width = width - k;
        let d = pow2_u128(k);
        let m = pow2_u128(high_width);
        proof {
            lemma_pow2_pos(k as nat);
            lemma_swap_halves_bound(p as nat, k as nat, high_width as nat);
            lemma_pow2_le(width as nat, 128);
            assert(high_width + k == width);
        }
        let r = p / d + (p % d) * m;
        proof {
            assert(r == rotated_right(p as nat, n as nat, width as nat));
        }
        r
    }
}

/// The low `count` bytes of `p` in reverse order.
pub fn swap_bytes_pattern(p: u128, count: u32) -> (r: u128)
    requires
        count <= 16,
    ensures
        r == reversed_bytes(p as nat, count as nat),
        r < pow2((8 * count) as nat),
{
    let mut x = p;
    let mut acc: u128 = 0;
    let mut i: u32 = 0;
    proof {
        lemma2_to64();
    }
    while i < count
        invariant
            i <= count <= 16,
            acc < pow2((8 * i) as nat),
            reversed_bytes(p as nat, count as nat) == acc * pow2((8 * (count - i)) as nat) + reversed_bytes(
                x as nat,
                (count - i) as nat,
            ),
        decreases count - i,
    {
        let ghost m = (count - i) as nat;
        proof {
            lemma2_to64();
            assert(8 * m == 8 + 8 * (m - 1));
            lemma_pow2_adds(8, (8 * (m - 1)) as nat);
            assert(8 * (i + 1) == 8 + 8 * i);
            lemma_pow2_adds(8, (8 * i) as nat);
            lemma_pow2_le((8 * (i + 1)) as nat, 128);
            lemma_pow2_top();
            let q = pow2((8 * (m - 1)) as nat);
            let t = pow2((8 * i) as nat);
            assert(acc * pow2((8 * m) as nat) + (x % 256) * q == (256 * acc + x % 256) * q) by (nonlinear_arith)
                requires
                    pow2((8 * m) as nat) == 256 * q,
            ;
            assert(256 * acc + x % 256 < 256 * t) by (nonlinear_arith)
                requires
                    acc < t,
                    x % 256 < 256,
            ;
        }
        acc = 256 * acc + x % 256;
        x = x / 256;
        i = i + 1;
    }
    proof {
        assert(i == count);
        assert(pow2(0) == 1);
        assert(reversed_bytes(x as nat, 0) == 0);
        assert(acc * pow2(0) == acc);
    }
    acc
}

/// The low `count` bytes of `p`, least significant first.
pub fn le_bytes_pattern(p: u128, count: u32) -> (r: Vec<u8>)
    ensures
        r@ == le_bytes(p as nat, count as nat),
{
    let mut r: Vec<u8> = Vec::new();
    let mut x = p;
    let mut i: u32 = 0;
    while i < count
        invariant
            i <= count,
            r@ + le_bytes(x as nat, (count - i) as nat) == le_bytes(p as nat, count as nat),
        decreases count - i,
    {
        let ghost before = r@;
        let ghost rest = le_bytes((x / 256) as nat, (count - i - 1) as nat);
        r.push((x % 256) as u8);
        proof {
            assert(before + (seq![(x % 256) as u8] + rest) =~= r@ + rest);
        }
        x = x / 256;
        i = i + 1;
    }
    proof {
        assert(r@ + le_bytes(x as nat, 0) =~= r@);
    }
    r
}

/// The number that up to sixteen bytes stand for, least significant first.
pub fn le_value_of_bytes(bytes: &[u8]) -> (r: u128)
    requires
        bytes@.len() <= 16,
    ensures
        r == le_value(bytes@),
        r < pow2((8 * bytes@.len()) as nat),
{
    let n = bytes.len();
    let mut acc: u128 = 0;
    let mut i: usize = n;
    proof {
        lemma2_to64();
        assert(bytes@.subrange(n as int, n as int) =~= Seq::<u8>::empty());
    }
    while i > 0
        invariant
            i <= n == bytes@.len() <= 16,
            acc == le_value(bytes@.subrange(i as int, n as int)),
            acc < pow2((8 * (n - i)) as nat),
        decreases i,
    {
        let ghost t = pow2((8 * (n - i)) as nat);
        proof {
            lemma2_to64();
            assert(8 * (n - i + 1) == 8 + 8 * (n - i));
            assert(bytes@.subrange((i - 1) as int, n as int).drop_first() =~= bytes@.subrange(i as int, n as int));
            lemma_pow2_adds(8, (8 * (n - i)) as nat);
            lemma_pow2_le((8 * (n - i + 1)) as nat, 128);
            lemma_pow2_top();
            assert(256 * acc + bytes@[(i - 1) as int] < 256 * t) by (nonlinear_arith)
                requires
                    acc < t,
                    bytes@[(i - 1) as int] < 256,
            ;
        }
        acc = 256 * acc + bytes[i - 1] as u128;
        i = i - 1;
    }
    proof {
        assert(bytes@.subrange(0, n as int) =~= bytes@);
    }
    acc
}

/// The bytes of a number below `2^(8 * count)` stand for that number again.
pub proof fn lemma_le_bytes_round_trip(x: nat, count: nat)
    requires
        x < pow2(8 * count),
    ensures
        le_value(le_bytes(x, count)) == x,
        le_bytes(x, count).len() == count,
    decreases count,
{
    lemma2_to64();
    if count == 0 {
        assert(le_bytes(x, 0) =~= Seq::<u8>::empty());
    } else {
        let rest = le_bytes(x / 256, (count - 1) as nat);
        lemma_pow2_adds(8, (8 * (count - 1)) as nat);
        let q = pow2((8 * (count - 1)) as nat);
        vstd::arithmetic::div_mod::lemma_fundamental_div_mod(x as int, 256);
        assert(x / 256 < q) by (nonlinear_arith)
            requires
                x < 256 * q,
                x == 256 * (x / 256) + x % 256,
                0 <= x % 256,
        ;
        lemma_le_bytes_round_trip(x / 256, (count - 1) as nat);
        let s = le_bytes(x, count);
        assert(s.drop_first() =~= rest);
    }
}

/// Bytes stand for a number whose bytes are the same bytes again.
pub proof fn lemma_le_value_round_trip(bytes: Seq<u8>)
    ensures
        le_bytes(le_value(bytes), bytes.len()) == bytes,
        le_value(bytes) < pow2(8 * bytes.len()),
    decreases bytes.len(),
{
    lemma2_to64();
    if bytes.len() == 0 {
        assert(le_bytes(le_value(bytes), 0) =~= bytes);
    } else {
        let rest = bytes.drop_first();
        lemma_le_value_round_trip(rest);
        let v = le_value(bytes);
        let w = le_value(rest);
        assert(v == bytes[0] + 256 * w);
        assert(v % 256 == bytes[0] && v / 256 == w) by (nonlinear_arith)
            requires
                v == bytes[0] + 256 * w,
                0 <= bytes[0] < 256,
                w >= 0,
        ;
        lemma_pow2_adds(8, (8 * rest.len()) as nat);
        assert(8 * bytes.len() == 8 + 8 * rest.len());
        assert(v < 256 * pow2(8 * rest.len())) by (nonlinear_arith)
            requires
                v == bytes[0] + 256 * w,
                bytes[0] < 256,
                w < pow2(8 * rest.len()),
        ;
        assert(le_bytes(v, bytes.len()) =~= bytes);
    }
}

/// The two's complement pattern, in `width` bits, of the integer with the given sign
/// and magnitude.
pub fn pattern_of_magnitude(negative: bool, magnitude: u128, width: u32) -> (r: u128)
    requires
        1 <= width <= 128,
        magnitude < pow2(width as nat),
    ensures
        r == pattern_of(signed(negative, magnitude as nat), width as nat),
        r < pow2(width as nat),
{
    proof {
        lemma_pow2_pos(width as nat);
    }
    if negative && magnitude > 0 {
        let mask = low_mask(width);
        proof {
            vstd::arithmetic::div_mod::lemma_fundamental_div_mod_converse(
                -(magnitude as int),
                pow2(width as nat) as int,
                -1,
                pow2(width as nat) - magnitude,
            );
        }
        mask - magnitude + 1
    } else {
        proof {
            vstd::arithmetic::div_mod::lemma_small_mod(magnitude as nat, pow2(width as nat));
        }
        magnitude
    }
}

/// The sign and magnitude of the integer that the `width`-bit pattern `p` stands for.
pub fn magnitude_of_pattern(p: u128, width: u32, is_signed: bool) -> (r: (bool, u128))
    requires
        1 <= width <= 128,
        p < pow2(width as nat),
    ensures
        signed(r.0, r.1 as nat) == value_of_pattern(p as nat, width as nat, is_signed),
{
    if is_signed && p >= pow2_u128(width - 1) {
        let mask = low_mask(width);
        proof {
            lemma_pow2_pos((width - 1) as nat);
            lemma_pow2_le(width as nat, 128);
            lemma_pow2_top();
        }
        (true, mask - p + 1)
    } else {
        (false, p)
    }
}

/// `le_bytes` gives as many bytes as asked for.
pub broadcast proof fn lemma_le_bytes_len(x: nat, count: nat)
    ensures
        #[trigger] le_bytes(x, count).len() == count,
    decreases count,
{
    if count > 0 {
        lemma_le_bytes_len(x / 256, (count - 1) as nat);
    }
}

/// Whether the machine that runs the code stores integers least significant byte
/// first, as vstd's `endianness` abstracts it.
pub open spec fn native_little_endian() -> bool {
    vstd::endian::endianness() == vstd::endian::Endian::Little
}

/// The bytes of the `width`-bit pattern of `v`, `count` of them, in the machine's
/// native order.
pub open spec fn native_bytes(v: int, width: nat, count: nat) -> Seq<u8> {
    if native_little_endian() {
        le_bytes(crate::math::pattern_of(v, width), count)
    } else {
        be_bytes(crate::math::pattern_of(v, width), count)
    }
}

/// Calls `u16::to_ne_bytes`, which gives the bytes of `x` in the native order of the
/// machine that runs the code (vstd's `endianness`): least significant first on a
/// little-endian machine, most significant first on a big-endian one. Which of the
/// two the machine uses is left unsaid.
#[verifier::external_body]
fn u16_to_ne_bytes(x: u16) -> (r: [u8; 2])
    ensures
        r@ == le_bytes(x as nat, 2) || r@ == be_bytes(x as nat, 2),
        native_little_endian() ==> r@ == le_bytes(x as nat, 2),
        !native_little_endian() ==> r@ == be_bytes(x as nat, 2),
{
    x.to_ne_bytes()
}

/// Whether the bytes that a target writes for the `u16` value `1` show it to be
/// little-endian: they do when they are the little-endian bytes of `1`, and they do
/// not when they are its big-endian bytes.
pub(crate) fn little_endian_of_probe(probe: [u8; 2]) -> (r: bool)
    ensures
        probe@ == le_bytes(1, 2) ==> r,
        probe@ == be_bytes(1, 2) ==> !r,
{
    proof {
        let le = le_bytes(1, 2);
        assert(le_bytes(0, 1) =~= seq![0u8] + le_bytes(0, 0));
        assert(le =~= seq![1u8, 0u8]);
        assert(le.reverse() =~= seq![0u8, 1u8]);
    }
    probe[0] == 1
}

/// Whether the target stores integers least significant byte first. The functions
/// that depend on it state what holds of either answer, and each hands the answer
/// to a function that fixes its result for both.
pub(crate) fn target_is_little_endian() -> (r: bool)
    ensures
        r == native_little_endian(),
{
    proof {
        let le = le_bytes(1, 2);
        assert(le_bytes(0, 1) =~= seq![0u8] + le_bytes(0, 0));
        assert(le =~= seq![1u8, 0u8]);
        assert(le.reverse() =~= seq![0u8, 1u8]);
    }
    little_endian_of_probe(u16_to_ne_bytes(1))
}

} // verus!
