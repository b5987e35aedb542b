# satint

Saturating integer wrappers, verified with Verus.

`Si8`, `Si16`, `Si32`, `Si64`, `Si128`, `Sisize` wrap the signed primitives and
`Su8`, `Su16`, `Su32`, `Su64`, `Su128`, `Susize` the unsigned ones. Their `+`, `-`,
`*`, `<<` and unary `-` clamp the exact result to the range of the left-hand side's
type; `SaturatingFrom`/`SaturatingInto` clamp between any two different integer
types, primitive or wrapper, and convert any type into itself unchanged;
`TryDiv` reports division by zero, `TryRem` division by zero and overflow.

Every operation carries a contract over the mathematical value of its operands
(`x@` is the `int` that a wrapper holds), and Verus proves each body against it,
except for 19 trusted items, whose contracts are believed, not proved: the calls
into std for decimal parsing (`parse_i8` … `parse_usize`, twelve in all) and for
the kind of a parsing error (`int_error_kind`, with the name `error_kind` for its
answer), for decimal formatting (`i128_to_string`, `u128_to_string`), for the
native byte order (`u16_to_ne_bytes`) and for `Iterator::fold` (`fold_items`), and
the declaration of std's `ParseIntError`.

Where a result depends on the machine's byte order, a function with the suffix
`_for` takes that order as a flag and fixes the result for each value of it.

## Layout

- `src/math.rs` – the vocabulary of the contracts: clamping, truncating division,
  two's complement patterns.
- `src/integer.rs` – the `Integer` trait that gives every primitive and wrapper a
  value, a range, a width, and a lossless sign-and-magnitude form.
- `src/magnitude.rs` – the arithmetic kernel on signs and `u128` magnitudes, with
  the proofs that its results clamp to the exact ones.
- `src/bits.rs` – bit counts, reversals, rotations and byte orders on patterns.
- `src/si.rs`, `src/su.rs` – the wrapper types and their methods.
- `src/ops.rs` – the operator traits, fallible division, sums and products.
- `src/convert.rs` – lossless `From` conversions.
- `src/common.rs`, `src/saturating.rs` – the saturating conversion traits, the
  identity conversion, and the clamping conversion between each pair of integer
  types.
- `src/text.rs` – decimal parsing and formatting.
- `src/laws.rs` – what holds across operations: how conversions compose and which
  transformations undo each other.
- `app/` – what Verus does not check: conversions from and to floating point, and
  the `serde` and `rand` integrations.
