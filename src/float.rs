use vstd::prelude::*;

verus! {

/// Whether the bit pattern `b` encodes a NaN: all exponent bits set and a
/// non-zero fraction.
pub open spec fn is_nan(b: u32) -> bool {
    (b / 0x80_0000) % 0x100 == 0xff && b % 0x80_0000 != 0
}

/// The position of a non-NaN encoding on the number line: the magnitude bits,
/// negated for a set sign bit. Both zeros sit at `0`.
pub open spec fn order_key(b: u32) -> int {
    if b < 0x8000_0000 {
        b as int
    } else {
        -((b - 0x8000_0000) as int)
    }
}

/// `a <= b` on the encoded values; false as soon as either is NaN.
pub open spec fn spec_le(a: u32, b: u32) -> bool {
    !is_nan(a) && !is_nan(b) && order_key(a) <= order_key(b)
}

/// `a < b` on the encoded values; false as soon as either is NaN.
pub open spec fn spec_lt(a: u32, b: u32) -> bool {
    !is_nan(a) && !is_nan(b) && order_key(a) < order_key(b)
}

/// `a == b` on the encoded values: NaN equals nothing, and the two zeros are equal.
pub open spec fn spec_eq(a: u32, b: u32) -> bool {
    !is_nan(a) && !is_nan(b) && order_key(a) == order_key(b)
}

pub fn is_nan_bits(b: u32) -> (r: bool)
    ensures
        r == is_nan(b),
{
    (b / 0x80_0000) % 0x100 == 0xff && b % 0x80_0000 != 0
}

fn key(b: u32) -> (r: i64)
    ensures
        r as int == order_key(b),
{
    if b < 0x8000_0000 {
        b as i64
    } else {
        -((b - 0x8000_0000) as i64)
    }
}

/// Compares two encoded values with `<=`.
pub fn le(a: u32, b: u32) -> (r: bool)
    ensures
        r == spec_le(a, b),
{
    !is_nan_bits(a) && !is_nan_bits(b) && key(a) <= key(b)
}

/// Compares two encoded values with `<`.
pub fn lt(a: u32, b: u32) -> (r: bool)
    ensures
        r == spec_lt(a, b),
{
    !is_nan_bits(a) && !is_nan_bits(b) && key(a) < key(b)
}

/// Compares two encoded values with `==`.
pub fn eq(a: u32, b: u32) -> (r: bool)
    ensures
        r == spec_eq(a, b),
{
    !is_nan_bits(a) && !is_nan_bits(b) && key(a) == key(b)
}

/// The smaller of two encoded values, where a NaN gives way to the other
/// operand. Between the two zeros either may be taken; comparisons do not
/// tell them apart.
pub open spec fn spec_min(a: u32, b: u32) -> u32 {
    if is_nan(a) {
        b
    } else if is_nan(b) {
        a
    } else if order_key(a) <= order_key(b) {
        a
    } else {
        b
    }
}

/// The larger of two encoded values, where a NaN gives way to the other operand.
pub open spec fn spec_max(a: u32, b: u32) -> u32 {
    if is_nan(a) {
        b
    } else if is_nan(b) {
        a
    } else if order_key(a) >= order_key(b) {
        a
    } else {
        b
    }
}

/// Whether `v` lies in the closed interval spanned by `a` and `b`.
pub open spec fn spec_within(v: u32, a: u32, b: u32) -> bool {
    spec_le(spec_min(a, b), v) && spec_le(v, spec_max(a, b))
}

pub fn min(a: u32, b: u32) -> (r: u32)
    ensures
        r == spec_min(a, b),
{
    if is_nan_bits(a) {
        b
    } else if is_nan_bits(b) {
        a
    } else if key(a) <= key(b) {
        a
    } else {
        b
    }
}

pub fn max(a: u32, b: u32) -> (r: u32)
    ensures
        r == spec_max(a, b),
{
    if is_nan_bits(a) {
        b
    } else if is_nan_bits(b) {
        a
    } else if key(a) >= key(b) {
        a
    } else {
        b
    }
}

/// Whether `v` lies in the closed interval spanned by `a` and `b`.
pub fn within(v: u32, a: u32, b: u32) -> (r: bool)
    ensures
        r == spec_within(v, a, b),
{
    le(min(a, b), v) && le(v, max(a, b))
}

/// Whether `v` is a number lying between `a` and `b` on the number line, in
/// either order.
pub open spec fn between(v: u32, a: u32, b: u32) -> bool {
    !is_nan(v) && (order_key(a) <= order_key(v) <= order_key(b) || order_key(b) <= order_key(v)
        <= order_key(a))
}

/// Where neither end is NaN, `within` is membership of the closed interval
/// between the two ends on the number line.
pub proof fn within_interval(v: u32, a: u32, b: u32)
    requires
        !is_nan(a),
        !is_nan(b),
    ensures
        spec_within(v, a, b) <==> between(v, a, b),
{
}

} // verus!
