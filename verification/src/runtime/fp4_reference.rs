//! Four-bit quantization as the device does it, bit by bit.
use crate::loader::numeric;
use crate::runtime::fp8_mma_smoke::{self, f32_to_e4m3};
use crate::runtime::cutlass_moe_smoke::{
    self, decode_e2m1_halves, decode_ue4m3_units, GroupedProblem,
};
use vstd::prelude::*;

verus! {

/// The bits of a single-precision number without its sign.
pub open spec fn magnitude(bits: u32) -> int {
    bits as int % 0x8000_0000
}

/// The scale byte for a single-precision number: the nearest one, the even one of two that
/// are as near, and the largest one for what is too large. What is not above zero has none.
pub open spec fn ue4m3_code(bits: u32) -> int {
    if !numeric::is_nan(bits) && (bits >= 0x8000_0000 || magnitude(bits) == 0) {
        0
    } else {
        fp8_mma_smoke::e4m3_nearest(bits)
    }
}

/// The scale byte for a single-precision number, given by its bits.
pub fn fp32_to_ue4m3_kernel_style(bits: u32) -> (byte: u8)
    ensures
        byte == ue4m3_code(bits),
{
    let low: u32 = bits % 0x8000_0000;
    if low <= 0x7F80_0000 && (bits >= 0x8000_0000 || low == 0) {
        return 0;
    }
    f32_to_e4m3(bits)
}

/// Encoding what a scale byte decodes to gives it back.
pub proof fn scale_encoding_undoes_decoding(byte: u8)
    requires
        byte < 127,
    ensures
        ue4m3_code(numeric::e4m3_bits(byte)) == byte,
{
    fp8_mma_smoke::encoding_undoes_decoding(byte);
}

/// The range of the scale bytes for numbers of one exponent.
proof fn lemma_code_range(bits: u32)
    requires
        bits <= 0x7F80_0000,
    ensures
        ({
            let exponent = bits as int / 0x80_0000;
            let code = fp8_mma_smoke::e4m3_nearest(bits);
            &&& exponent >= 136 ==> code == 126
            &&& 121 <= exponent <= 135 ==> (exponent - 120) * 8 <= code <= (exponent - 119) * 8
            &&& exponent == 135 ==> code <= 126
            &&& exponent == 120 ==> 4 <= code <= 8
            &&& exponent == 119 ==> 2 <= code <= 4
            &&& exponent == 118 ==> 1 <= code <= 2
            &&& exponent == 117 ==> 0 <= code <= 1
            &&& exponent < 117 ==> code == 0
        }),
{
    let exponent = bits as int / 0x80_0000;
    let value = 0x80_0000 + bits as int % 0x80_0000;
    assert(bits as int % 0x8000_0000 == bits);
    assert(0x80_0000 <= value < 0x100_0000);
}

/// A larger number never gets a smaller scale byte.
pub proof fn scale_encoding_is_monotone(smaller: u32, larger: u32)
    requires
        smaller <= larger <= 0x7F80_0000,
    ensures
        ue4m3_code(smaller) <= ue4m3_code(larger),
{
    lemma_code_range(smaller);
    lemma_code_range(larger);
    let a = smaller as int / 0x80_0000;
    let b = larger as int / 0x80_0000;
    assert(magnitude(smaller) == smaller && magnitude(larger) == larger);
    assert(a <= b);
    if a == b {
        assert(smaller as int % 0x80_0000 <= larger as int % 0x80_0000);
    }
}

/// The four bits whose number, one of 0, 0.5, 1, 1.5, 2, 3, 4 and 6 with a sign, is nearest
/// to a single-precision number; the lower of two that are as near. There are none for a
/// scale that is not positive or for what is not finite.
pub open spec fn e2m1_code(scale_bits: u32, scaled_bits: u32) -> int {
    let low = magnitude(scaled_bits);
    let code: int = if low <= 0x3E80_0000 {
        0
    } else if low <= 0x3F40_0000 {
        1
    } else if low <= 0x3FA0_0000 {
        2
    } else if low <= 0x3FE0_0000 {
        3
    } else if low <= 0x4020_0000 {
        4
    } else if low <= 0x4060_0000 {
        5
    } else if low <= 0x40A0_0000 {
        6
    } else {
        7
    };
    if !(0 < scale_bits <= 0x7F80_0000) || low >= 0x7F80_0000 {
        0
    } else if scaled_bits >= 0x8000_0000 && code != 0 {
        code + 8
    } else {
        code
    }
}

/// The four bits for a quotient by a scale, both given by their bits.
pub fn moe_best_e2m1_like_kernel(scale_bits: u32, scaled_bits: u32) -> (nibble: u8)
    ensures
        nibble == e2m1_code(scale_bits, scaled_bits),
{
    if scale_bits == 0 || scale_bits > 0x7F80_0000 {
        return 0;
    }
    let low: u32 = scaled_bits % 0x8000_0000;
    if low >= 0x7F80_0000 {
        return 0;
    }
    let code: u8 = if low <= 0x3E80_0000 {
        0
    } else if low <= 0x3F40_0000 {
        1
    } else if low <= 0x3FA0_0000 {
        2
    } else if low <= 0x3FE0_0000 {
        3
    } else if low <= 0x4020_0000 {
        4
    } else if low <= 0x4060_0000 {
        5
    } else if low <= 0x40A0_0000 {
        6
    } else {
        7
    };
    if scaled_bits >= 0x8000_0000 && code != 0 {
        code + 8
    } else {
        code
    }
}

/// The bits of half the integer `halves`, for the magnitudes that four bits can hold.
pub open spec fn halves_bits(halves: int) -> u32 {
    if halves == 0 {
        0
    } else if halves == 1 {
        0x3F00_0000
    } else if halves == 2 {
        0x3F80_0000
    } else if halves == 3 {
        0x3FC0_0000
    } else if halves == 4 {
        0x4000_0000
    } else if halves == 6 {
        0x4040_0000
    } else if halves == 8 {
        0x4080_0000
    } else {
        0x40C0_0000
    }
}

/// A number that four bits can hold is encoded as itself.
pub proof fn code_undoes_decoding(nibble: u8, scale_bits: u32)
    requires
        nibble < 8,
        0 < scale_bits <= 0x7F80_0000,
    ensures
        e2m1_code(scale_bits, halves_bits(cutlass_moe_smoke::e2m1_halves(nibble))) == nibble,
{
}

/// The largest magnitude of some single-precision numbers; what is no number does not count.
pub open spec fn largest_magnitude(values: Seq<u32>) -> int
    decreases values.len(),
{
    if values.len() == 0 {
        0
    } else {
        let before = largest_magnitude(values.drop_last());
        let last = values.last();
        if !numeric::is_nan(last) && magnitude(last) > before {
            magnitude(last)
        } else {
            before
        }
    }
}

/// No number of the block is larger than its largest magnitude.
pub proof fn largest_magnitude_bounds(values: Seq<u32>, i: int)
    requires
        0 <= i < values.len(),
        !numeric::is_nan(values[i]),
    ensures
        magnitude(values[i]) <= largest_magnitude(values),
    decreases values.len(),
{
    if i < values.len() - 1 {
        assert(values.drop_last()[i] == values[i]);
        largest_magnitude_bounds(values.drop_last(), i);
    }
}

/// The bits of the largest magnitude of some single-precision numbers.
pub fn abs_max(values: &[u32]) -> (bits: u32)
    ensures
        bits == largest_magnitude(values@),
{
    let mut best: u32 = 0;
    let mut i: usize = 0;
    assert(values@.take(0) =~= Seq::empty());
    while i < values.len()
        invariant
            i <= values@.len(),
            best == largest_magnitude(values@.take(i as int)),
        decreases values@.len() - i,
    {
        let low: u32 = values[i] % 0x8000_0000;
        if low <= 0x7F80_0000 && low > best {
            best = low;
        }
        assert(values@.take(i + 1).drop_last() =~= values@.take(i as int));
        i = i + 1;
    }
    assert(values@.take(i as int) =~= values@);
    best
}

/// The number of four bits under a scale, in units of 2^-11.
pub open spec fn dequantized(nibble: u8, scale: u8) -> int {
    cutlass_moe_smoke::e2m1_halves(nibble) * cutlass_moe_smoke::ue4m3_units(scale)
}

proof fn lemma_units_bound(scale: u8)
    ensures
        0 <= cutlass_moe_smoke::ue4m3_units(scale) <= 458752,
{
    let low = scale as int % 128;
    let exponent = (low / 8) as nat;
    vstd::arithmetic::power2::lemma2_to64();
    if exponent > 0 && low != 127 {
        vstd::arithmetic::power2::lemma_pow2_pos(exponent);
        if exponent < 15 {
            vstd::arithmetic::power2::lemma_pow2_strictly_increases(exponent, 15);
            vstd::arithmetic::power2::lemma_pow2_unfold(15);
            if exponent < 14 {
                vstd::arithmetic::power2::lemma_pow2_strictly_increases(exponent, 14);
            }
            let power = vstd::arithmetic::power2::pow2(exponent) as int;
            assert(power <= 16384);
            assert((8 + low % 8) * power <= 15 * 16384) by (nonlinear_arith)
                requires
                    low % 8 <= 7,
                    0 < power <= 16384,
            ;
            assert(0 <= (8 + low % 8) * power) by (nonlinear_arith)
                requires
                    0 <= low % 8,
                    0 < power,
            ;
        } else {
            let mantissa = low % 8;
            assert(mantissa <= 6);
            assert(vstd::arithmetic::power2::pow2(exponent) == 32768);
            assert((8 + mantissa) * 32768 <= 458752);
        }
    }
}

/// The number of four bits under a scale, in units of 2^-11.
pub fn dequantize(nibble: u8, scale: u8) -> (units: i32)
    ensures
        units == dequantized(nibble, scale),
{
    let halves: i8 = decode_e2m1_halves(nibble);
    let units: u32 = decode_ue4m3_units(scale);
    proof {
        lemma_units_bound(scale);
        let h = halves as int;
        let u = units as int;
        assert(-12 * 458752 <= h * u <= 12 * 458752) by (nonlinear_arith)
            requires
                -12 <= h <= 12,
                0 <= u <= 458752,
        ;
    }
    halves as i32 * units as i32
}

/// One weight of a group: row `row`, column `col`. Weights stand two to a byte, the lower
/// half first, and sixteen share a scale.
pub open spec fn weight_at(
    problem: GroupedProblem,
    weights: Seq<u8>,
    scales: Seq<u8>,
    g: int,
    row: int,
    col: int,
) -> int {
    let k = problem.k as int;
    let byte = weights[g * problem.weight_bytes() + row * (k / 2) + col / 2];
    let nibble = if col % 2 == 0 {
        byte % 16
    } else {
        byte / 16
    };
    dequantized(nibble, scales[g * problem.weight_scale_bytes() + row * (k / 16) + col / 16])
}

proof fn lemma_within(row: int, part: int, rows: int, parts: int)
    requires
        0 <= row < rows,
        0 <= part < parts,
    ensures
        0 <= row * parts + part < rows * parts,
{
    assert(0 <= row * parts + part < rows * parts) by (nonlinear_arith)
        requires
            0 <= row < rows,
            0 <= part < parts,
    ;
}

/// The weights of a group, row by row, in units of 2^-11.
pub fn dequantize_weights(
    problem: &GroupedProblem,
    weights: &[u8],
    scales: &[u8],
    g: usize,
) -> (units: Vec<i32>)
    requires
        problem.wf(),
        problem.k as int % 16 == 0,
        (g + 1) * problem.weight_bytes() <= weights@.len(),
        (g + 1) * problem.weight_scale_bytes() <= scales@.len(),
    ensures
        units@ == Seq::new(
            (problem.n * problem.k) as nat,
            |i: int|
                weight_at(
                    *problem,
                    weights@,
                    scales@,
                    g as int,
                    i / problem.k as int,
                    i % problem.k as int,
                ) as i32,
        ),
{
    let n: usize = problem.n;
    let k: usize = problem.k;
    let half: usize = k / 2;
    let blocks: usize = k / 16;
    let weight_count: usize = weights.len();
    let scale_count: usize = scales.len();
    proof {
        assert(0 <= n * k <= 65535 * 65535) by (nonlinear_arith)
            requires
                n <= 65535,
                k <= 65535,
        ;
        assert(n * k / 2 == n * half) by (nonlinear_arith)
            requires
                k == 2 * half,
        ;
        assert(0 <= n * half) by (nonlinear_arith);
        assert(0 <= n * blocks <= n * k) by (nonlinear_arith)
            requires
                blocks <= k,
        ;
        let wb = problem.weight_bytes();
        let ws = problem.weight_scale_bytes();
        assert((g + 1) * wb == g * wb + wb) by (nonlinear_arith);
        assert((g + 1) * ws == g * ws + ws) by (nonlinear_arith);
        assert(0 <= g * wb) by (nonlinear_arith)
            requires
                0 <= wb,
        ;
        assert(0 <= g * ws) by (nonlinear_arith)
            requires
                0 <= ws,
        ;
    }
    let count: usize = n * k;
    let weight_base: usize = g * (count / 2);
    let scale_base: usize = g * (n * blocks);
    let mut units: Vec<i32> = Vec::new();
    let mut i: usize = 0;
    while i < count
        invariant
            i <= count,
            count == n * k,
            n == problem.n,
            k == problem.k,
            half == k / 2,
            k == 2 * half,
            blocks == k / 16,
            k == 16 * blocks,
            problem.weight_bytes() == n * half,
            problem.weight_scale_bytes() == n * blocks,
            weight_base == g * problem.weight_bytes(),
            scale_base == g * problem.weight_scale_bytes(),
            weight_count == weights@.len(),
            scale_count == scales@.len(),
            weight_base + problem.weight_bytes() <= weight_count,
            scale_base + problem.weight_scale_bytes() <= scale_count,
            units@ == Seq::new(
                i as nat,
                |j: int|
                    weight_at(*problem, weights@, scales@, g as int, j / k as int, j % k as int)
                        as i32,
            ),
        decreases count - i,
    {
        proof {
            assert(k > 0) by (nonlinear_arith)
                requires
                    i < n * k,
                    i >= 0,
                    k >= 0,
            ;
        }
        let row: usize = i / k;
        let col: usize = i % k;
        proof {
            assert(row < n) by (nonlinear_arith)
                requires
                    i < n * k,
                    k > 0,
                    row == i as int / k as int,
            ;
            lemma_within(row as int, col as int / 2, n as int, half as int);
            lemma_within(row as int, col as int / 16, n as int, blocks as int);
        }
        let byte: u8 = weights[weight_base + (row * half + col / 2)];
        let scale: u8 = scales[scale_base + (row * blocks + col / 16)];
        let nibble: u8 = if col % 2 == 0 {
            byte % 16
        } else {
            byte / 16
        };
        units.push(dequantize(nibble, scale));
        i = i + 1;
        assert(units@ =~= Seq::new(
            i as nat,
            |j: int|
                weight_at(*problem, weights@, scales@, g as int, j / k as int, j % k as int)
                    as i32,
        ));
    }
    units
}

} // verus!
