//! Scalar values carried as bit patterns.
//!
//! Every length, coordinate and factor in this crate is a binary32 value,
//! carried as its 32-bit pattern.  The arithmetic on such values is done by
//! the machine through the trusted functions below.  A machine result is a
//! function of the operand patterns only while it is not NaN: the payload of
//! a NaN result is not specified and differs between targets.  The trusted
//! contracts therefore promise the named result only outside the exactly
//! statable NaN cases, and the verified `add_scalar`, `mul_scalar` and
//! `div_scalar` carry every NaN result as the one canonical quiet-NaN
//! pattern, so that each of them is a total function of its operands.

use vstd::prelude::*;

verus! {

/// Bit pattern of the scalar zero.
pub const ZERO_BITS: u32 = 0;

/// Bit pattern of the scalar one half.
pub const HALF_BITS: u32 = 0x3F00_0000;

/// Bit pattern of the scalar one.
pub const ONE_BITS: u32 = 0x3F80_0000;

/// Bit pattern of the scalar one hundred.
pub const HUNDRED_BITS: u32 = 0x42C8_0000;

/// The canonical quiet-NaN pattern, standing for every NaN result.
pub const NAN_BITS: u32 = 0x7FC0_0000;

/// The magnitude part of a pattern: everything but the sign bit.
pub open spec fn mag_bits(a: u32) -> u32 {
    a & 0x7FFF_FFFF
}

/// Whether the pattern denotes a NaN.
pub open spec fn is_nan_bits(a: u32) -> bool {
    mag_bits(a) > 0x7F80_0000
}

/// Whether the pattern denotes an infinity.
pub open spec fn is_inf_bits(a: u32) -> bool {
    mag_bits(a) == 0x7F80_0000
}

/// Whether the pattern denotes a (signed) zero.
pub open spec fn is_zero_bits(a: u32) -> bool {
    mag_bits(a) == 0
}

/// Whether the two patterns carry opposite signs.
pub open spec fn signs_differ_bits(a: u32, b: u32) -> bool {
    (a ^ b) & 0x8000_0000 != 0
}

/// The inputs on which a binary32 sum is NaN: a NaN operand, or infinities
/// of opposite sign.
#[verifier::opaque]
pub open spec fn sum_nan_case(a: u32, b: u32) -> bool {
    is_nan_bits(a) || is_nan_bits(b) || (is_inf_bits(a) && is_inf_bits(b) && signs_differ_bits(
        a,
        b,
    ))
}

/// The inputs on which a binary32 product is NaN: a NaN operand, or zero
/// times an infinity.
#[verifier::opaque]
pub open spec fn product_nan_case(a: u32, b: u32) -> bool {
    is_nan_bits(a) || is_nan_bits(b) || (is_zero_bits(a) && is_inf_bits(b)) || (is_inf_bits(a)
        && is_zero_bits(b))
}

/// The inputs on which a binary32 quotient is NaN: a NaN operand, zero over
/// zero, or an infinity over an infinity.
#[verifier::opaque]
pub open spec fn quotient_nan_case(a: u32, b: u32) -> bool {
    is_nan_bits(a) || is_nan_bits(b) || (is_zero_bits(a) && is_zero_bits(b)) || (is_inf_bits(a)
        && is_inf_bits(b))
}

/// The bit pattern of the binary32 sum of the values `a` and `b` denote, on
/// the inputs where that sum is not NaN.
pub uninterp spec fn scalar_sum(a: u32, b: u32) -> u32;

/// The bit pattern of the binary32 product of the values `a` and `b` denote,
/// on the inputs where that product is not NaN.
pub uninterp spec fn scalar_product(a: u32, b: u32) -> u32;

/// The bit pattern of the binary32 quotient of the values `a` and `b`
/// denote, on the inputs where that quotient is not NaN.
pub uninterp spec fn scalar_quotient(a: u32, b: u32) -> u32;

/// The decimal rendering of the value `a` denotes, as the standard formatter
/// writes it (every NaN pattern prints the same three letters).
pub uninterp spec fn scalar_text(a: u32) -> Seq<char>;

/// The bit pattern read from `s` by the standard scalar parser, `None` when
/// `s` is rejected.
pub uninterp spec fn scalar_of_text(s: Seq<char>) -> Option<u32>;

/// The sum as the pipeline carries it: the machine result, with every NaN
/// outcome standing as the canonical quiet-NaN pattern — a total function of
/// the two operand patterns.
pub open spec fn sum_bits(a: u32, b: u32) -> u32 {
    if sum_nan_case(a, b) {
        NAN_BITS
    } else {
        scalar_sum(a, b)
    }
}

/// The product as the pipeline carries it; see `sum_bits`.
pub open spec fn product_bits(a: u32, b: u32) -> u32 {
    if product_nan_case(a, b) {
        NAN_BITS
    } else {
        scalar_product(a, b)
    }
}

/// The quotient as the pipeline carries it; see `sum_bits`.
pub open spec fn quotient_bits(a: u32, b: u32) -> u32 {
    if quotient_nan_case(a, b) {
        NAN_BITS
    } else {
        scalar_quotient(a, b)
    }
}

/// Relies on the machine's binary32 addition; `bytemuck::cast` moves between
/// a value and its bit pattern, and `libm::copysignf` (an identity here)
/// fixes the operand type.  Outside the NaN case the result is a function of
/// the operand patterns; in the NaN case only its NaN-ness is promised,
/// since the payload of a NaN result is unspecified.
#[verifier::external_body]
fn machine_add(a: u32, b: u32) -> (r: u32)
    ensures
        !sum_nan_case(a, b) ==> r == scalar_sum(a, b),
        sum_nan_case(a, b) ==> is_nan_bits(r),
{
    let x = libm::copysignf(bytemuck::cast(a), bytemuck::cast(a));
    let y = libm::copysignf(bytemuck::cast(b), bytemuck::cast(b));
    bytemuck::cast::<_, u32>(x + y)
}

/// Relies on the machine's binary32 multiplication; see `machine_add`.
#[verifier::external_body]
fn machine_mul(a: u32, b: u32) -> (r: u32)
    ensures
        !product_nan_case(a, b) ==> r == scalar_product(a, b),
        product_nan_case(a, b) ==> is_nan_bits(r),
{
    let x = libm::copysignf(bytemuck::cast(a), bytemuck::cast(a));
    let y = libm::copysignf(bytemuck::cast(b), bytemuck::cast(b));
    bytemuck::cast::<_, u32>(x * y)
}

/// Relies on the machine's binary32 division; see `machine_add`.
#[verifier::external_body]
fn machine_div(a: u32, b: u32) -> (r: u32)
    ensures
        !quotient_nan_case(a, b) ==> r == scalar_quotient(a, b),
        quotient_nan_case(a, b) ==> is_nan_bits(r),
{
    let x = libm::copysignf(bytemuck::cast(a), bytemuck::cast(a));
    let y = libm::copysignf(bytemuck::cast(b), bytemuck::cast(b));
    bytemuck::cast::<_, u32>(x / y)
}

fn nan_bits(a: u32) -> (r: bool)
    ensures
        r == is_nan_bits(a),
{
    (a & 0x7FFF_FFFF) > 0x7F80_0000
}

fn inf_bits(a: u32) -> (r: bool)
    ensures
        r == is_inf_bits(a),
{
    (a & 0x7FFF_FFFF) == 0x7F80_0000
}

fn zero_bits(a: u32) -> (r: bool)
    ensures
        r == is_zero_bits(a),
{
    (a & 0x7FFF_FFFF) == 0
}

fn sign_bits_differ(a: u32, b: u32) -> (r: bool)
    ensures
        r == signs_differ_bits(a, b),
{
    (a ^ b) & 0x8000_0000 != 0
}

/// The pipeline's scalar addition: the machine sum, with a NaN result
/// carried as the canonical quiet-NaN pattern.
pub(crate) fn add_scalar(a: u32, b: u32) -> (r: u32)
    ensures
        r == sum_bits(a, b),
{
    proof {
        reveal(sum_nan_case);
    }
    if nan_bits(a) || nan_bits(b) || (inf_bits(a) && inf_bits(b) && sign_bits_differ(a, b)) {
        NAN_BITS
    } else {
        machine_add(a, b)
    }
}

/// The pipeline's scalar multiplication; see `add_scalar`.
pub(crate) fn mul_scalar(a: u32, b: u32) -> (r: u32)
    ensures
        r == product_bits(a, b),
{
    proof {
        reveal(product_nan_case);
    }
    if nan_bits(a) || nan_bits(b) || (zero_bits(a) && inf_bits(b)) || (inf_bits(a) && zero_bits(
        b,
    )) {
        NAN_BITS
    } else {
        machine_mul(a, b)
    }
}

/// The pipeline's scalar division; see `add_scalar`.
pub(crate) fn div_scalar(a: u32, b: u32) -> (r: u32)
    ensures
        r == quotient_bits(a, b),
{
    proof {
        reveal(quotient_nan_case);
    }
    if nan_bits(a) || nan_bits(b) || (zero_bits(a) && zero_bits(b)) || (inf_bits(a) && inf_bits(
        b,
    )) {
        NAN_BITS
    } else {
        machine_div(a, b)
    }
}

/// Relies on the standard formatter's decimal rendering of a binary32 value,
/// a function of the bits alone.
#[verifier::external_body]
pub(crate) fn format_scalar(a: u32) -> (r: String)
    ensures
        r@ == scalar_text(a),
{
    let x = libm::copysignf(bytemuck::cast(a), bytemuck::cast(a));
    format!("{}", x)
}

/// Relies on `str::parse` for binary32 values: the result is a function of
/// the text alone, and rejected text gives `None`.
#[verifier::external_body]
pub(crate) fn parse_scalar(s: &str) -> (r: Option<u32>)
    ensures
        r == scalar_of_text(s@),
{
    match s.parse() {
        Ok(v) => Some(bytemuck::cast::<_, u32>(libm::copysignf(v, v))),
        Err(_) => None,
    }
}

} // verus!
