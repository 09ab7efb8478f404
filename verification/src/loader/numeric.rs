//! Number formats of weights, bit by bit.
use crate::error::{invalid_plan, number, AegisError, Value, Values};
use crate::loader::tensors::TensorDType;
use crate::runtime::linear::{self, widen_bf16};
use vstd::arithmetic::power2::pow2;
use vstd::prelude::*;

verus! {

/// Whether the bits of a single-precision number stand for no number.
pub open spec fn is_nan(bits: u32) -> bool {
    bits as int % 0x8000_0000 > 0x7F80_0000
}

/// The BF16 number nearest to a single-precision number, the even one of two that are as
/// near. What is no number becomes one fixed pattern.
pub open spec fn rounded_bf16(bits: u32) -> int {
    let high = bits as int / 0x1_0000;
    let low = bits as int % 0x1_0000;
    if is_nan(bits) {
        0x7FC0
    } else if low > 0x8000 || (low == 0x8000 && high % 2 == 1) {
        high + 1
    } else {
        high
    }
}

/// Rounds a single-precision number, given by its bits, to BF16: to the nearest, ties to
/// even.
pub fn f32_to_bf16_round(bits: u32) -> (half: u16)
    ensures
        half == rounded_bf16(bits),
{
    let magnitude: u32 = bits & 0x7FFF_FFFF;
    assert(magnitude == bits % 0x8000_0000) by (bit_vector)
        requires
            magnitude == bits & 0x7FFF_FFFF,
    ;
    if magnitude > 0x7F80_0000 {
        return 0x7FC0;
    }
    let odd: u32 = (bits >> 16) & 1;
    assert(odd == (bits / 0x1_0000) % 2 && bits <= 0xFF80_0000) by (bit_vector)
        requires
            odd == (bits >> 16) & 1,
            bits % 0x8000_0000 <= 0x7F80_0000,
    ;
    let sum: u32 = bits.wrapping_add(0x7FFF + odd);
    assert(sum == bits + 0x7FFF + odd);
    let half: u32 = sum >> 16;
    assert(half == sum / 0x1_0000 && half < 0x1_0000) by (bit_vector)
        requires
            half == sum >> 16,
    ;
    half as u16
}

/// Rounding a BF16 number that was widened gives it back.
pub proof fn rounding_undoes_widening(half: u16)
    requires
        !is_nan(linear::widened(half)),
    ensures
        rounded_bf16(linear::widened(half)) == half,
{
    let wide = linear::widened(half);
    assert(wide == (half as u32) * 0x1_0000) by (bit_vector)
        requires
            wide == (half as u32) << 16,
    ;
}

/// Rounding moves a number by at most half of the last place that is kept, and to an even
/// one where it moves by exactly that.
pub proof fn rounding_is_nearest_even(bits: u32)
    requires
        !is_nan(bits),
    ensures
        -0x8000 <= rounded_bf16(bits) * 0x1_0000 - bits <= 0x8000,
        rounded_bf16(bits) * 0x1_0000 - bits == 0x8000 || rounded_bf16(bits) * 0x1_0000 - bits
            == -0x8000 ==> rounded_bf16(bits) % 2 == 0,
{
}

/// The bits of the single-precision number that an E4M3 number stands for.
pub open spec fn e4m3_bits(byte: u8) -> u32 {
    let sign: int = if byte >= 128 {
        0x8000_0000
    } else {
        0
    };
    let exponent = (byte as int % 128) / 8;
    let mantissa = byte as int % 8;
    if exponent == 15 && mantissa == 7 {
        0x7FC0_0000
    } else if exponent > 0 {
        (sign + (exponent + 120) * 0x80_0000 + mantissa * 0x10_0000) as u32
    } else if mantissa >= 4 {
        (sign + 120 * 0x80_0000 + (mantissa - 4) * 0x20_0000) as u32
    } else if mantissa >= 2 {
        (sign + 119 * 0x80_0000 + (mantissa - 2) * 0x40_0000) as u32
    } else if mantissa == 1 {
        (sign + 118 * 0x80_0000) as u32
    } else {
        sign as u32
    }
}

/// Decodes an E4M3 number (a sign, four bits of exponent with bias 7, three of mantissa)
/// to the bits of a single-precision number.
pub fn e4m3_to_f32_bits(byte: u8) -> (bits: u32)
    ensures
        bits == e4m3_bits(byte),
{
    let sign: u32 = if byte >= 128 { 0x8000_0000 } else { 0 };
    let exponent: u32 = ((byte % 128) / 8) as u32;
    let mantissa: u32 = (byte % 8) as u32;
    if exponent == 15 && mantissa == 7 {
        0x7FC0_0000
    } else if exponent > 0 {
        sign + (exponent + 120) * 0x80_0000 + mantissa * 0x10_0000
    } else if mantissa >= 4 {
        sign + 120 * 0x80_0000 + (mantissa - 4) * 0x20_0000
    } else if mantissa >= 2 {
        sign + 119 * 0x80_0000 + (mantissa - 2) * 0x40_0000
    } else if mantissa == 1 {
        sign + 118 * 0x80_0000
    } else {
        sign
    }
}

/// The single-precision bits of every E4M3 number, by its byte.
pub fn build_e4m3_signed_lut() -> (table: Vec<u32>)
    ensures
        table@ == Seq::new(256, |i: int| e4m3_bits(i as u8)),
{
    let mut table: Vec<u32> = Vec::new();
    let mut byte: usize = 0;
    while byte < 256
        invariant
            byte <= 256,
            table@ == Seq::new(byte as nat, |i: int| e4m3_bits(i as u8)),
        decreases 256 - byte,
    {
        table.push(e4m3_to_f32_bits(byte as u8));
        byte = byte + 1;
        assert(table@ =~= Seq::new(byte as nat, |i: int| e4m3_bits(i as u8)));
    }
    table
}

/// The magnitude of an E4M3 number, in units of 2^-9.
pub open spec fn e4m3_units(byte: u8) -> int {
    let exponent = (byte as int % 128) / 8;
    let mantissa = byte as int % 8;
    if exponent == 0 {
        mantissa
    } else {
        (8 + mantissa) * pow2((exponent - 1) as nat)
    }
}

/// The magnitude of a single-precision number, in units of 2^-149.
pub open spec fn f32_units(bits: u32) -> int {
    let exponent = (bits as int % 0x8000_0000) / 0x80_0000;
    let fraction = bits as int % 0x80_0000;
    if exponent == 0 {
        fraction
    } else {
        (0x80_0000 + fraction) * pow2((exponent - 1) as nat)
    }
}

/// Decoding E4M3 is exact: sign and magnitude are the same, the magnitude in units that
/// are 2^140 apart.
pub proof fn e4m3_decoding_is_exact(byte: u8)
    requires
        byte % 128 != 127,
    ensures
        f32_units(e4m3_bits(byte)) == e4m3_units(byte) * pow2(140),
        (e4m3_bits(byte) >= 0x8000_0000) == (byte >= 128),
{
    let exponent = (byte as int % 128) / 8;
    let mantissa = byte as int % 8;
    let bits = e4m3_bits(byte);
    vstd::arithmetic::power2::lemma2_to64();
    vstd::arithmetic::power2::lemma_pow2_pos(140);
    let below = bits as int % 0x8000_0000;
    let units = e4m3_units(byte);
    if exponent > 0 {
        let e = (exponent - 1) as nat;
        let scaled = 0x80_0000 + mantissa * 0x10_0000;
        assert(below / 0x80_0000 == exponent + 120);
        assert(bits as int % 0x80_0000 == mantissa * 0x10_0000);
        assert((exponent + 120 - 1) as nat == e + 120);
        vstd::arithmetic::power2::lemma_pow2_adds(e, 120);
        vstd::arithmetic::power2::lemma_pow2_adds(20, 120);
        assert(f32_units(bits) == scaled * (pow2(e) * pow2(120)));
        assert(units * (0x10_0000 * pow2(120)) == scaled * (pow2(e) * pow2(120)))
            by (nonlinear_arith)
            requires
                units == (8 + mantissa) * pow2(e),
                scaled == 0x80_0000 + mantissa * 0x10_0000,
        ;
    } else if mantissa >= 4 {
        assert(below / 0x80_0000 == 120);
        assert(bits as int % 0x80_0000 == (mantissa - 4) * 0x20_0000);
        vstd::arithmetic::power2::lemma_pow2_adds(21, 119);
        assert((0x80_0000 + (mantissa - 4) * 0x20_0000) * pow2(119) == mantissa * (0x20_0000
            * pow2(119))) by (nonlinear_arith);
    } else if mantissa >= 2 {
        assert(below / 0x80_0000 == 119);
        assert(bits as int % 0x80_0000 == (mantissa - 2) * 0x40_0000);
        vstd::arithmetic::power2::lemma_pow2_adds(22, 118);
        assert((0x80_0000 + (mantissa - 2) * 0x40_0000) * pow2(118) == mantissa * (0x40_0000
            * pow2(118))) by (nonlinear_arith);
    } else if mantissa == 1 {
        assert(below / 0x80_0000 == 118);
        assert(bits as int % 0x80_0000 == 0);
        vstd::arithmetic::power2::lemma_pow2_adds(23, 117);
        assert(units * pow2(140) == pow2(140)) by (nonlinear_arith)
            requires
                units == 1,
        ;
    } else {
        assert(bits as int % 0x80_0000 == 0 && below / 0x80_0000 == 0);
        assert(units * pow2(140) == 0) by (nonlinear_arith)
            requires
                units == 0,
        ;
    }
}

/// The 16-bit number of two bytes, the low one first.
pub open spec fn half_at(bytes: Seq<u8>, i: int) -> int {
    bytes[i] + bytes[i + 1] * 0x100
}

/// The 32-bit number of four bytes, the low one first.
pub open spec fn word_at(bytes: Seq<u8>, i: int) -> int {
    bytes[i] + bytes[i + 1] * 0x100 + bytes[i + 2] * 0x1_0000 + bytes[i + 3] * 0x100_0000
}

/// The BF16 numbers of a byte sequence; an odd byte at the end is left out.
pub open spec fn halves(bytes: Seq<u8>) -> Seq<u16> {
    Seq::new((bytes.len() / 2) as nat, |i: int| half_at(bytes, 2 * i) as u16)
}

/// The BF16 numbers of a byte sequence; an odd byte at the end is left out.
pub fn bf16_values(bytes: &[u8]) -> (values: Vec<u16>)
    ensures
        values@ == halves(bytes@),
{
    let mut values: Vec<u16> = Vec::new();
    let total: usize = bytes.len();
    let n: usize = total / 2;
    let mut i: usize = 0;
    while i < n
        invariant
            i <= n,
            n == total / 2,
            total == bytes@.len(),
            values@ == halves(bytes@).take(i as int),
        decreases n - i,
    {
        values.push(bytes[2 * i] as u16 + bytes[2 * i + 1] as u16 * 0x100);
        i += 1;
        assert(values@ =~= halves(bytes@).take(i as int));
    }
    assert(halves(bytes@).take(n as int) =~= halves(bytes@));
    values
}

/// The numbers of a dense vector, as bits of single precision.
pub open spec fn vector_bits(dtype: TensorDType, bytes: Seq<u8>) -> Seq<u32> {
    if dtype == TensorDType::BF16 {
        Seq::new((bytes.len() / 2) as nat, |i: int| linear::widened(half_at(bytes, 2 * i) as u16))
    } else {
        Seq::new((bytes.len() / 4) as nat, |i: int| word_at(bytes, 4 * i) as u32)
    }
}

/// Converts a vector of BF16 or single-precision numbers to bits of single precision.
/// Bytes that make no whole number at the end are left out.
pub fn dense_vector_bits(
    name: &String,
    dtype: TensorDType,
    bytes: &[u8],
) -> (values: Result<Vec<u32>, AegisError>)
    ensures
        match values {
            Ok(values) => (dtype == TensorDType::BF16 || dtype == TensorDType::F32) && values@
                == vector_bits(dtype, bytes@),
            Err(error) => dtype != TensorDType::BF16 && dtype != TensorDType::F32 && error
                == AegisError::invalid_with(
                "`{}` must be BF16 or F32 vector, got {}",
                Values::Two(Value::Name(*name), Value::Label(dtype.label())),
            ),
        },
{
    let mut values: Vec<u32> = Vec::new();
    let mut i: usize = 0;
    if dtype == TensorDType::BF16 {
        let total: usize = bytes.len();
        let n: usize = total / 2;
        while i < n
            invariant
                i <= n,
                n == total / 2,
            total == bytes@.len(),
                dtype == TensorDType::BF16,
                values@ == vector_bits(dtype, bytes@).take(i as int),
            decreases n - i,
        {
            let half: u16 = bytes[2 * i] as u16 + bytes[2 * i + 1] as u16 * 0x100;
            values.push(widen_bf16(half));
            i += 1;
            assert(values@ =~= vector_bits(dtype, bytes@).take(i as int));
        }
        assert(vector_bits(dtype, bytes@).take(n as int) =~= vector_bits(dtype, bytes@));
        return Ok(values);
    }
    if dtype == TensorDType::F32 {
        let total: usize = bytes.len();
        let n: usize = total / 4;
        while i < n
            invariant
                i <= n,
                n == total / 4,
            total == bytes@.len(),
                dtype == TensorDType::F32,
                values@ == vector_bits(dtype, bytes@).take(i as int),
            decreases n - i,
        {
            values.push(
                bytes[4 * i] as u32 + bytes[4 * i + 1] as u32 * 0x100 + bytes[4 * i + 2] as u32
                    * 0x1_0000 + bytes[4 * i + 3] as u32 * 0x100_0000,
            );
            i += 1;
            assert(values@ =~= vector_bits(dtype, bytes@).take(i as int));
        }
        assert(vector_bits(dtype, bytes@).take(n as int) =~= vector_bits(dtype, bytes@));
        return Ok(values);
    }
    Err(
        invalid_plan(
            "`{}` must be BF16 or F32 vector, got {}",
            Values::Two(Value::Name(name.clone()), Value::Label(dtype.show())),
        ),
    )
}

/// Reads a single number, as bits of single precision.
pub fn scalar_bits(
    name: &String,
    dtype: TensorDType,
    bytes: &[u8],
) -> (bits: Result<u32, AegisError>)
    ensures
        bits == if dtype == TensorDType::F32 && bytes@.len() == 4 {
            Ok(word_at(bytes@, 0) as u32)
        } else if dtype == TensorDType::BF16 && bytes@.len() == 2 {
            Ok(linear::widened(half_at(bytes@, 0) as u16))
        } else {
            Err(
                AegisError::invalid_with(
                    "`{}` must be a scalar F32 or BF16 tensor, got {} ({} bytes)",
                    Values::Three(
                        Value::Name(*name),
                        Value::Label(dtype.label()),
                        Value::num(bytes@.len() as int),
                    ),
                ),
            )
        },
{
    if dtype == TensorDType::F32 && bytes.len() == 4 {
        let word: u32 = bytes[0] as u32 + bytes[1] as u32 * 0x100 + bytes[2] as u32 * 0x1_0000
            + bytes[3] as u32 * 0x100_0000;
        return Ok(word);
    }
    if dtype == TensorDType::BF16 && bytes.len() == 2 {
        let half: u16 = bytes[0] as u16 + bytes[1] as u16 * 0x100;
        return Ok(widen_bf16(half));
    }
    Err(
        invalid_plan(
            "`{}` must be a scalar F32 or BF16 tensor, got {} ({} bytes)",
            Values::Three(
                Value::Name(name.clone()),
                Value::Label(dtype.show()),
                number(bytes.len()),
            ),
        ),
    )
}

/// Where the scale of a whole tensor comes from.
#[derive(Clone, Copy, Debug, PartialEq, Eq, Structural)]
pub enum ScaleSource {
    /// A factor, to be used as it is.
    Multiplier,
    /// A divisor, to be inverted.
    Divisor,
    /// Nowhere: the scale is one.
    Absent,
}

/// Where the scale of a whole tensor comes from: a factor where there is one, else a
/// divisor.
pub fn pertensor_scale_source(has_multiplier: bool, has_divisor: bool) -> (source: ScaleSource)
    ensures
        source == if has_multiplier {
            ScaleSource::Multiplier
        } else if has_divisor {
            ScaleSource::Divisor
        } else {
            ScaleSource::Absent
        },
{
    if has_multiplier {
        ScaleSource::Multiplier
    } else if has_divisor {
        ScaleSource::Divisor
    } else {
        ScaleSource::Absent
    }
}

/// Whether a divisor, given by its bits, is larger in magnitude than the smallest normal
/// number; one that is not stands for a scale of one.
pub fn divisor_is_usable(bits: u32) -> (yes: bool)
    ensures
        yes == (0x80_0000 < bits as int % 0x8000_0000 <= 0x7F80_0000),
{
    let magnitude: u32 = bits % 0x8000_0000;
    0x80_0000 < magnitude && magnitude <= 0x7F80_0000
}

} // verus!
