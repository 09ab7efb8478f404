//! Matrices of FP8 numbers with one scale for each block.
use crate::loader::numeric::{self, f32_to_bf16_round};
use crate::runtime;
use crate::runtime::linear;
use vstd::arithmetic::power2::pow2;
use vstd::prelude::*;

verus! {

/// The usual side of a block.
pub const FP8_BLOCK: usize = 128;

/// The table has one scale for each block of the usual sides.
pub open spec fn is_block_table(rows: int, cols: int, s_rows: int, s_cols: int) -> bool {
    s_rows == runtime::blocks(rows, FP8_BLOCK as int) && s_cols == runtime::blocks(
        cols,
        FP8_BLOCK as int,
    )
}

/// Whether the table has one scale for each block of the usual sides.
pub fn has_block_table(rows: usize, cols: usize, s_rows: usize, s_cols: usize) -> (yes: bool)
    ensures
        yes == is_block_table(rows as int, cols as int, s_rows as int, s_cols as int),
{
    s_rows == runtime::div_ceil(rows, FP8_BLOCK) && s_cols == runtime::div_ceil(cols, FP8_BLOCK)
}

/// The place of an element's scale in the table, for blocks of these sides.
pub open spec fn scale_index(row: int, col: int, s_cols: int, sides: (int, int)) -> int {
    (row / sides.0) * s_cols + col / sides.1
}

/// The sides of the blocks where rows and columns are divided evenly among the scales.
pub open spec fn even_sides(rows: int, cols: int, s_rows: int, s_cols: int) -> (int, int) {
    (
        runtime::blocks(
            rows,
            if s_rows >= 1 {
                s_rows
            } else {
                1
            },
        ),
        runtime::blocks(
            cols,
            if s_cols >= 1 {
                s_cols
            } else {
                1
            },
        ),
    )
}

/// The sides of the blocks where rows and columns are divided evenly among the scales.
pub fn block_size(rows: usize, cols: usize, s_rows: usize, s_cols: usize) -> (sides: (usize, usize))
    ensures
        (sides.0 as int, sides.1 as int) == even_sides(
            rows as int,
            cols as int,
            s_rows as int,
            s_cols as int,
        ),
{
    (
        runtime::div_ceil(rows, if s_rows >= 1 { s_rows } else { 1 }),
        runtime::div_ceil(cols, if s_cols >= 1 { s_cols } else { 1 }),
    )
}

/// The sides of the blocks that a table has scales for: the usual ones where it has one scale
/// for each of them, however many rows and columns the last ones have. Any other table divides
/// rows and columns evenly.
pub open spec fn table_sides(rows: int, cols: int, s_rows: int, s_cols: int) -> (int, int) {
    if is_block_table(rows, cols, s_rows, s_cols) {
        (FP8_BLOCK as int, FP8_BLOCK as int)
    } else {
        even_sides(rows, cols, s_rows, s_cols)
    }
}

/// The sides of the blocks that a table has scales for.
pub fn block_sides(rows: usize, cols: usize, s_rows: usize, s_cols: usize) -> (sides: (
    usize,
    usize,
))
    ensures
        (sides.0 as int, sides.1 as int) == table_sides(
            rows as int,
            cols as int,
            s_rows as int,
            s_cols as int,
        ),
{
    if has_block_table(rows, cols, s_rows, s_cols) {
        return (FP8_BLOCK, FP8_BLOCK);
    }
    block_size(rows, cols, s_rows, s_cols)
}

proof fn lemma_side(extent: int, blocks: int, at: int)
    requires
        0 <= at < extent,
        blocks >= 1,
    ensures
        runtime::blocks(extent, blocks) >= 1,
        0 <= at / runtime::blocks(extent, blocks) < blocks,
{
    runtime::lemma_blocks(extent, blocks);
    let side = runtime::blocks(extent, blocks);
    assert(side >= 1) by (nonlinear_arith)
        requires
            side * blocks >= extent,
            extent > 0,
            blocks >= 1,
    ;
    vstd::arithmetic::div_mod::lemma_fundamental_div_mod(at, side);
    vstd::arithmetic::div_mod::lemma_mod_bound(at, side);
    let place = at / side;
    let rest = at % side;
    assert(0 <= place < blocks) by (nonlinear_arith)
        requires
            at == side * place + rest,
            0 <= rest < side,
            0 <= at < side * blocks,
            side >= 1,
    ;
}

/// Every element of a matrix has a scale in its table, if the table has any.
pub proof fn scale_is_in_table(row: int, col: int, rows: int, cols: int, s_rows: int, s_cols: int)
    requires
        0 <= row < rows,
        0 <= col < cols,
        s_rows >= 1,
        s_cols >= 1,
    ensures
        table_sides(rows, cols, s_rows, s_cols).0 >= 1,
        table_sides(rows, cols, s_rows, s_cols).1 >= 1,
        0 <= scale_index(row, col, s_cols, table_sides(rows, cols, s_rows, s_cols)) < s_rows
            * s_cols,
{
    let sides = table_sides(rows, cols, s_rows, s_cols);
    if is_block_table(rows, cols, s_rows, s_cols) {
        runtime::lemma_blocks(rows, 128);
        runtime::lemma_blocks(cols, 128);
    } else {
        lemma_side(rows, s_rows, row);
        lemma_side(cols, s_cols, col);
    }
    let r = row / sides.0;
    let c = col / sides.1;
    assert(0 <= r < s_rows && 0 <= c < s_cols);
    assert(0 <= r * s_cols + c < s_rows * s_cols) by (nonlinear_arith)
        requires
            0 <= r < s_rows,
            0 <= c < s_cols,
    ;
}

/// A quotient, rounded to the nearest integer, to the even one of two that are as near.
pub open spec fn nearest(dividend: int, divisor: int) -> int {
    let whole = dividend / divisor;
    let rest = dividend % divisor;
    if 2 * rest > divisor || (2 * rest == divisor && whole % 2 == 1) {
        whole + 1
    } else {
        whole
    }
}

/// The bits of the single-precision number nearest to `magnitude`, where `spacing` is the
/// distance of the smallest numbers: between larger ones it doubles whenever 24 binary digits
/// are used up.
pub open spec fn nearest_f32(magnitude: int, spacing: int) -> int
    decreases magnitude - spacing,
{
    if spacing <= 0 || magnitude < spacing * 0x100_0000 {
        nearest(magnitude, spacing)
    } else {
        nearest_f32(magnitude, 2 * spacing) + 0x80_0000
    }
}

proof fn lemma_spacing(magnitude: int, spacing: int, doublings: nat)
    requires
        spacing > 0,
        magnitude < spacing * pow2(doublings) * 0x100_0000,
        doublings > 0 ==> magnitude * 2 >= spacing * pow2(doublings) * 0x100_0000,
    ensures
        nearest_f32(magnitude, spacing) == nearest(magnitude, spacing * pow2(doublings)) + doublings
            * 0x80_0000,
    decreases doublings,
{
    vstd::arithmetic::power2::lemma2_to64();
    if doublings > 0 {
        let half = pow2((doublings - 1) as nat) as int;
        let whole = pow2(doublings) as int;
        vstd::arithmetic::power2::lemma_pow2_unfold(doublings);
        vstd::arithmetic::power2::lemma_pow2_pos((doublings - 1) as nat);
        assert(spacing * whole == (2 * spacing) * half) by (nonlinear_arith)
            requires
                whole == 2 * half,
        ;
        assert(spacing * half >= spacing) by (nonlinear_arith)
            requires
                half >= 1,
                spacing > 0,
        ;
        assert((2 * spacing) * half == 2 * (spacing * half)) by (nonlinear_arith);
        lemma_spacing(magnitude, 2 * spacing, (doublings - 1) as nat);
    } else {
        assert(spacing * pow2(0) == spacing);
    }
}

proof fn lemma_nearest_scales(dividend: int, divisor: int, factor: int)
    requires
        divisor > 0,
        factor > 0,
    ensures
        nearest(dividend * factor, divisor * factor) == nearest(dividend, divisor),
{
    let whole = dividend / divisor;
    let rest = dividend % divisor;
    vstd::arithmetic::div_mod::lemma_fundamental_div_mod(dividend, divisor);
    vstd::arithmetic::div_mod::lemma_mod_bound(dividend, divisor);
    assert(dividend * factor == whole * (divisor * factor) + rest * factor) by (nonlinear_arith)
        requires
            dividend == divisor * whole + rest,
    ;
    assert(0 <= rest * factor < divisor * factor) by (nonlinear_arith)
        requires
            0 <= rest < divisor,
            factor > 0,
    ;
    vstd::arithmetic::div_mod::lemma_fundamental_div_mod_converse(
        dividend * factor,
        divisor * factor,
        whole,
        rest * factor,
    );
    assert((2 * (rest * factor) > divisor * factor) == (2 * rest > divisor)) by (nonlinear_arith)
        requires
            factor > 0,
    ;
    assert((2 * (rest * factor) == divisor * factor) == (2 * rest == divisor)) by (nonlinear_arith)
        requires
            factor > 0,
    ;
}

/// The bits of the single-precision number nearest to `digits * 2^shift` units of 2^-158.
fn f32_from(digits: u32, shift: u32) -> (bits: u32)
    requires
        digits < 0x1000_0000,
        shift <= 267,
    ensures
        bits == nearest_f32(digits * pow2(shift as nat), 0x200),
{
    let mut a: u32 = digits;
    let mut f: u32 = shift;
    let ghost magnitude = digits * pow2(shift as nat);
    while a < 0x80_0000 && f > 9
        invariant
            a < 0x1000_0000,
            f <= 267,
            a * pow2(f as nat) == magnitude,
        decreases f,
    {
        proof {
            vstd::arithmetic::power2::lemma_pow2_unfold(f as nat);
            let half = pow2((f - 1) as nat) as int;
            assert(a * (2 * half) == (2 * a) * half) by (nonlinear_arith);
        }
        a = a * 2;
        f = f - 1;
    }
    let mut k: u32 = if f > 9 { f - 9 } else { 0 };
    let mut d: u32 = 1;
    let mut g: u32 = f;
    proof {
        vstd::arithmetic::power2::lemma2_to64();
    }
    while g < 9
        invariant
            f <= g,
            g <= 9 || g == f,
            d == pow2((g - f) as nat),
            d <= 512,
            g < 9 ==> d <= 256,
        decreases 9 - g,
    {
        proof {
            vstd::arithmetic::power2::lemma2_to64();
            vstd::arithmetic::power2::lemma_pow2_unfold((g + 1 - f) as nat);
            assert(d <= 256);
            assert(g + 1 < 9 ==> pow2((g + 1 - f) as nat) <= 256) by {
                if g + 1 < 9 {
                    let n = (g + 1 - f) as nat;
                    if n < 8 {
                        vstd::arithmetic::power2::lemma_pow2_strictly_increases(n, 8);
                    }
                }
            }
        }
        d = d * 2;
        g = g + 1;
    }
    proof {
        vstd::arithmetic::power2::lemma2_to64();
        if f > 9 {
            vstd::arithmetic::power2::lemma_pow2_adds(9, k as nat);
            assert(1 * pow2(f as nat) == pow2(f as nat));
        } else {
            vstd::arithmetic::power2::lemma_pow2_adds((9 - f) as nat, f as nat);
        }
        assert(d * pow2(f as nat) == 0x200 * pow2(k as nat));
    }
    while a / d >= 0x100_0000
        invariant
            a < 0x1000_0000,
            0 < d <= 512,
            k == 0 || (d <= 32 && k <= 258 + d),
            k > 0 ==> 2 * a >= d * 0x100_0000,
            d * pow2(f as nat) == 0x200 * pow2(k as nat),
        decreases 0x400 - d,
    {
        proof {
            assert(a >= d * 0x100_0000) by (nonlinear_arith)
                requires
                    a / d >= 0x100_0000,
                    d > 0,
            ;
            vstd::arithmetic::power2::lemma_pow2_unfold((k + 1) as nat);
            let unit = pow2(f as nat) as int;
            assert((2 * d) * unit == 2 * (d * unit)) by (nonlinear_arith);
        }
        d = d * 2;
        k = k + 1;
    }
    let whole: u32 = a / d;
    let rest: u32 = a % d;
    proof {
        let unit = pow2(f as nat) as int;
        vstd::arithmetic::power2::lemma_pow2_pos(f as nat);
        assert(a < d * 0x100_0000) by (nonlinear_arith)
            requires
                a / d < 0x100_0000,
                d > 0,
        ;
        assert(a * unit < (d * unit) * 0x100_0000) by (nonlinear_arith)
            requires
                a < d * 0x100_0000,
                unit > 0,
        ;
        if k > 0 {
            assert((a * unit) * 2 >= (d * unit) * 0x100_0000) by (nonlinear_arith)
                requires
                    2 * a >= d * 0x100_0000,
                    unit > 0,
            ;
        }
        lemma_spacing(magnitude as int, 0x200, k as nat);
        lemma_nearest_scales(a as int, d as int, unit);
    }
    let up: u32 = if 2 * rest > d || (2 * rest == d && whole % 2 == 1) { 1 } else { 0 };
    whole + up + k * 0x80_0000
}

/// The bits of the single-precision product of an E4M3 number and a scale, which is given by
/// its bits: the number nearest to the product. Units of 2^-9 and of 2^-149 make units of
/// 2^-158, and 512 of those lie between the smallest numbers.
pub open spec fn scaled_bits(byte: u8, scale: u32) -> int {
    let sign: int = if (byte >= 0x80) != (scale >= 0x8000_0000) {
        0x8000_0000
    } else {
        0
    };
    let magnitude = scale as int % 0x8000_0000;
    if byte % 128 == 127 || magnitude > 0x7F80_0000 || (magnitude == 0x7F80_0000 && byte % 128
        == 0) {
        0x7FC0_0000
    } else if magnitude == 0x7F80_0000 {
        sign + 0x7F80_0000
    } else {
        let bits = nearest_f32(numeric::e4m3_units(byte) * numeric::f32_units(scale), 0x200);
        sign + if bits < 0x7F80_0000 {
            bits
        } else {
            0x7F80_0000
        }
    }
}

/// A single-precision number as binary digits and how far they are shifted, in units of
/// 2^-149.
pub open spec fn f32_digits(scale: u32) -> (int, nat) {
    let magnitude = scale as int % 0x8000_0000;
    if magnitude < 0x80_0000 {
        (magnitude, 0)
    } else {
        (0x80_0000 + magnitude % 0x80_0000, (magnitude / 0x80_0000 - 1) as nat)
    }
}

/// An E4M3 number as binary digits and how far they are shifted, in units of 2^-9.
pub open spec fn e4m3_digits(byte: u8) -> (int, nat) {
    let magnitude = byte as int % 128;
    if magnitude < 8 {
        (magnitude, 0)
    } else {
        (8 + magnitude % 8, (magnitude / 8 - 1) as nat)
    }
}

proof fn lemma_product(byte: u8, scale: u32)
    ensures
        ({
            let (m, s) = e4m3_digits(byte);
            let (n, t) = f32_digits(scale);
            &&& 0 <= m <= 15 && s <= 14
            &&& 0 <= n < 0x100_0000 && t <= 254
            &&& 0 <= m * n < 0x1000_0000
            &&& numeric::e4m3_units(byte) * numeric::f32_units(scale) == (m * n) * pow2(
                (s + t) as nat,
            )
        }),
{
    let (m, s) = e4m3_digits(byte);
    let (n, t) = f32_digits(scale);
    let magnitude = scale as int % 0x8000_0000;
    assert(scale as int % 0x80_0000 == magnitude % 0x80_0000);
    assert(byte as int % 8 == (byte as int % 128) % 8);
    vstd::arithmetic::power2::lemma2_to64();
    let a = pow2(s) as int;
    let b = pow2(t) as int;
    let x = numeric::e4m3_units(byte);
    let y = numeric::f32_units(scale);
    assert(x == m * a) by {
        if byte as int % 128 < 8 {
            assert(m * 1 == m);
        }
    }
    assert(y == n * b) by {
        if magnitude < 0x80_0000 {
            assert(n * 1 == n);
        }
    }
    vstd::arithmetic::power2::lemma_pow2_adds(s, t);
    assert(x * y == (m * n) * (a * b)) by (nonlinear_arith)
        requires
            x == m * a,
            y == n * b,
    ;
    assert(0 <= m * n < 0x1000_0000) by (nonlinear_arith)
        requires
            0 <= m <= 15,
            0 <= n < 0x100_0000,
    ;
}

proof fn lemma_exact(digits: int, shift: nat, spacing: int, doublings: nat)
    requires
        0 <= digits < 0x1000,
        shift >= 16,
        spacing == 0x200 * pow2(doublings),
        doublings > 0 ==> digits * pow2(shift) * 2 >= spacing * 0x100_0000,
        nearest_f32(digits * pow2(shift), spacing) + doublings * 0x80_0000 < 0x7F80_0000,
    ensures
        0 <= nearest_f32(digits * pow2(shift), spacing) + doublings * 0x80_0000,
        numeric::f32_units(
            (nearest_f32(digits * pow2(shift), spacing) + doublings * 0x80_0000) as u32,
        ) * 0x200 == digits * pow2(shift),
    decreases digits * pow2(shift) - spacing,
{
    let p = digits * pow2(shift);
    vstd::arithmetic::power2::lemma2_to64();
    vstd::arithmetic::power2::lemma_pow2_pos(doublings);
    vstd::arithmetic::power2::lemma_pow2_pos(shift);
    vstd::arithmetic::power2::lemma_pow2_adds(9, doublings);
    if p < spacing * 0x100_0000 {
        if doublings > 0 {
            let power = pow2(shift) as int;
            assert(digits * power * 2 < 0x1000 * power * 2) by (nonlinear_arith)
                requires
                    digits < 0x1000,
                    power > 0,
            ;
            vstd::arithmetic::power2::lemma_pow2_adds(13, shift);
            vstd::arithmetic::power2::lemma_pow2_adds(24, 9 + doublings);
            if shift <= 20 + doublings {
                if 13 + shift < 33 + doublings {
                    vstd::arithmetic::power2::lemma_pow2_strictly_increases(
                        13 + shift,
                        33 + doublings,
                    );
                }
                assert(false);
            }
        }
        let rest = (shift - 9 - doublings) as nat;
        vstd::arithmetic::power2::lemma_pow2_adds(9 + doublings, rest);
        let w = digits * pow2(rest);
        assert(p == w * spacing + 0) by (nonlinear_arith)
            requires
                p == digits * (spacing * pow2(rest)),
                w == digits * pow2(rest),
        ;
        vstd::arithmetic::div_mod::lemma_fundamental_div_mod_converse(p, spacing, w, 0);
        assert(nearest(p, spacing) == w);
        assert(0 <= w < 0x100_0000) by (nonlinear_arith)
            requires
                p == w * spacing,
                0 <= p < spacing * 0x100_0000,
                spacing > 0,
        ;
        if doublings > 0 {
            assert(w >= 0x80_0000) by (nonlinear_arith)
                requires
                    p == w * spacing,
                    p * 2 >= spacing * 0x100_0000,
                    spacing > 0,
            ;
        }
        let bits = w + doublings * 0x80_0000;
        assert((bits as u32) as int % 0x8000_0000 == bits);
        if w >= 0x80_0000 {
            assert(bits / 0x80_0000 == doublings + 1);
            assert(bits % 0x80_0000 == w - 0x80_0000);
            let power = pow2(doublings) as int;
            assert((w * power) * 0x200 == w * spacing) by (nonlinear_arith)
                requires
                    spacing == 0x200 * power,
            ;
        } else {
            assert(bits / 0x80_0000 == 0 && bits % 0x80_0000 == w);
        }
    } else {
        vstd::arithmetic::power2::lemma_pow2_unfold(doublings + 1);
        lemma_exact(digits, shift, 2 * spacing, doublings + 1);
    }
}

/// The product of an E4M3 number and a BF16 scale is exact, unless it is too large: its bits
/// stand for the product of the magnitudes, and have the sign of the product.
pub proof fn product_is_exact(byte: u8, scale: u16)
    requires
        byte % 128 != 127,
        scale % 0x8000 < 0x7F80,
        scaled_bits(byte, linear::widened(scale)) % 0x8000_0000 != 0x7F80_0000,
    ensures
        0 <= scaled_bits(byte, linear::widened(scale)) <= u32::MAX,
        numeric::f32_units(scaled_bits(byte, linear::widened(scale)) as u32) * 0x200
            == numeric::e4m3_units(byte) * numeric::f32_units(linear::widened(scale)),
        (scaled_bits(byte, linear::widened(scale)) >= 0x8000_0000) == ((byte >= 0x80) != (scale
            >= 0x8000)),
{
    let wide = linear::widened(scale);
    assert(wide == scale * 0x1_0000) by (bit_vector)
        requires
            wide == (scale as u32) << 16,
    ;
    lemma_product(byte, wide);
    let (m, s) = e4m3_digits(byte);
    let (n, t) = f32_digits(wide);
    let magnitude = scale as int % 0x8000;
    assert(wide as int % 0x8000_0000 == magnitude * 0x1_0000);
    let short = if magnitude < 0x80 {
        magnitude
    } else {
        0x80 + magnitude % 0x80
    };
    assert(n == short * 0x1_0000) by {
        assert((magnitude * 0x1_0000) / 0x80_0000 == magnitude / 0x80);
        assert((magnitude * 0x1_0000) % 0x80_0000 == (magnitude % 0x80) * 0x1_0000);
    }
    vstd::arithmetic::power2::lemma2_to64();
    vstd::arithmetic::power2::lemma_pow2_adds(16, (s + t) as nat);
    let shift = (16 + s + t) as nat;
    let power = pow2((s + t) as nat) as int;
    assert((m * n) * power == (m * short) * (0x1_0000 * power)) by (nonlinear_arith)
        requires
            n == short * 0x1_0000,
    ;
    assert(0 <= m * short < 0x1000) by (nonlinear_arith)
        requires
            0 <= m <= 15,
            0 <= short <= 255,
    ;
    let bits = nearest_f32((m * short) * pow2(shift), 0x200);
    assert(numeric::e4m3_units(byte) * numeric::f32_units(wide) == (m * short) * pow2(shift));
    assert(bits < 0x7F80_0000) by {
        if bits >= 0x7F80_0000 {
            assert(scaled_bits(byte, wide) % 0x8000_0000 == 0x7F80_0000);
        }
    }
    lemma_exact(m * short, shift, 0x200, 0);
    let signed = scaled_bits(byte, wide) as u32;
    assert(signed as int % 0x8000_0000 == bits);
    assert(signed as int % 0x80_0000 == bits % 0x80_0000);
    assert((bits as u32) as int % 0x8000_0000 == bits);
}

/// The bits of the single-precision product of an E4M3 number and a scale.
pub fn scale_e4m3(byte: u8, scale: u32) -> (bits: u32)
    ensures
        bits == scaled_bits(byte, scale),
{
    let low: u8 = byte % 128;
    let magnitude: u32 = scale % 0x8000_0000;
    let sign: u32 = if (byte >= 0x80) != (scale >= 0x8000_0000) { 0x8000_0000 } else { 0 };
    if low == 127 || magnitude > 0x7F80_0000 || (magnitude == 0x7F80_0000 && low == 0) {
        return 0x7FC0_0000;
    }
    if magnitude == 0x7F80_0000 {
        return sign + 0x7F80_0000;
    }
    let m: u32 = if low < 8 { low as u32 } else { 8 + low as u32 % 8 };
    let s: u32 = if low < 8 { 0 } else { low as u32 / 8 - 1 };
    let n: u32 = if magnitude < 0x80_0000 { magnitude } else { 0x80_0000 + magnitude % 0x80_0000 };
    let t: u32 = if magnitude < 0x80_0000 { 0 } else { magnitude / 0x80_0000 - 1 };
    proof {
        lemma_product(byte, scale);
        assert(e4m3_digits(byte) == (m as int, s as nat));
        assert(f32_digits(scale) == (n as int, t as nat));
    }
    let bits: u32 = f32_from(m * n, s + t);
    if bits < 0x7F80_0000 {
        sign + bits
    } else {
        sign + 0x7F80_0000
    }
}

/// One element of a matrix as a BF16 number: the product with the scale of its block, rounded.
pub open spec fn element(byte: u8, scale: u32) -> u16 {
    numeric::rounded_bf16(scaled_bits(byte, scale) as u32) as u16
}

/// The elements of a matrix, row by row, as BF16 numbers.
pub open spec fn dequantized(
    fp8: Seq<u8>,
    scales: Seq<u32>,
    rows: int,
    cols: int,
    s_cols: int,
    sides: (int, int),
) -> Seq<u16> {
    Seq::new(
        (rows * cols) as nat,
        |i: int| element(fp8[i], scales[scale_index(i / cols, i % cols, s_cols, sides)]),
    )
}

/// Every element has a scale: the last one has, and none is further on.
pub open spec fn has_scales(
    len: int,
    rows: int,
    cols: int,
    s_cols: int,
    sides: (int, int),
) -> bool {
    rows > 0 && cols > 0 ==> sides.0 > 0 && sides.1 > 0 && scale_index(
        rows - 1,
        cols - 1,
        s_cols,
        sides,
    ) < len
}

proof fn lemma_last_scale(row: int, col: int, rows: int, cols: int, s_cols: int, sides: (int, int))
    requires
        0 <= row < rows,
        0 <= col < cols,
        s_cols >= 0,
        sides.0 > 0,
        sides.1 > 0,
    ensures
        0 <= row / sides.0,
        0 <= (row / sides.0) * s_cols,
        0 <= col / sides.1,
        scale_index(row, col, s_cols, sides) <= scale_index(rows - 1, cols - 1, s_cols, sides),
{
    vstd::arithmetic::div_mod::lemma_div_is_ordered(row, rows - 1, sides.0);
    vstd::arithmetic::div_mod::lemma_div_is_ordered(col, cols - 1, sides.1);
    vstd::arithmetic::div_mod::lemma_div_pos_is_pos(row, sides.0);
    vstd::arithmetic::div_mod::lemma_div_pos_is_pos(col, sides.1);
    let (low, high) = (row / sides.0, (rows - 1) / sides.0);
    assert(0 <= low * s_cols <= high * s_cols) by (nonlinear_arith)
        requires
            0 <= low <= high,
            s_cols >= 0,
    ;
}

/// Multiplies FP8 numbers by the scales of their blocks, which have `blk_r` rows and `blk_c`
/// columns, and rounds the products to BF16. Scales are bits of single precision.
pub fn dequant_fp8_block(
    fp8: &[u8],
    scales: &[u32],
    rows: usize,
    cols: usize,
    s_cols: usize,
    blk_r: usize,
    blk_c: usize,
) -> (values: Vec<u16>)
    requires
        rows * cols <= fp8.len(),
        has_scales(
            scales@.len() as int,
            rows as int,
            cols as int,
            s_cols as int,
            (blk_r as int, blk_c as int),
        ),
    ensures
        values@ == dequantized(
            fp8@,
            scales@,
            rows as int,
            cols as int,
            s_cols as int,
            (blk_r as int, blk_c as int),
        ),
{
    let ghost sides = (blk_r as int, blk_c as int);
    let ghost numbers = dequantized(fp8@, scales@, rows as int, cols as int, s_cols as int, sides);
    let mut values: Vec<u16> = Vec::new();
    let fp8_len: usize = fp8.len();
    let table: usize = scales.len();
    let len: usize = rows * cols;
    let mut row: usize = 0;
    let mut col: usize = 0;
    let mut i: usize = 0;
    while i < len
        invariant
            len == rows * cols,
            len <= fp8_len == fp8@.len(),
            table == scales@.len(),
            sides == (blk_r as int, blk_c as int),
            has_scales(table as int, rows as int, cols as int, s_cols as int, sides),
            numbers == dequantized(
                fp8@,
                scales@,
                rows as int,
                cols as int,
                s_cols as int,
                sides,
            ),
            i <= len,
            i == row * cols + col,
            cols > 0 ==> col < cols,
            values@ == numbers.take(i as int),
        decreases len - i,
    {
        proof {
            assert(cols > 0 && row < rows) by (nonlinear_arith)
                requires
                    i < rows * cols,
                    i == row * cols + col,
                    cols >= 0,
                    rows >= 0,
                    col >= 0,
                    row >= 0,
            ;
            vstd::arithmetic::div_mod::lemma_fundamental_div_mod_converse(
                i as int,
                cols as int,
                row as int,
                col as int,
            );
            lemma_last_scale(
                row as int,
                col as int,
                rows as int,
                cols as int,
                s_cols as int,
                sides,
            );
        }
        let place: usize = (row / blk_r) * s_cols + col / blk_c;
        let bits: u32 = scale_e4m3(fp8[i], scales[place]);
        values.push(f32_to_bf16_round(bits));
        proof {
            assert(row * cols + cols == (row + 1) * cols) by (nonlinear_arith);
        }
        i = i + 1;
        col = col + 1;
        if col == cols {
            col = 0;
            row = row + 1;
        }
        assert(values@ =~= numbers.take(i as int));
    }
    assert(values@ =~= numbers);
    values
}

/// The bytes of BF16 numbers, the low one of each first.
pub open spec fn le_bytes(values: Seq<u16>) -> Seq<u8> {
    Seq::new(
        2 * values.len(),
        |b: int|
            if b % 2 == 0 {
                (values[b / 2] % 0x100) as u8
            } else {
                (values[b / 2] / 0x100) as u8
            },
    )
}

/// The bytes of numbers read back as the numbers.
pub proof fn bytes_are_numbers(values: Seq<u16>)
    ensures
        numeric::halves(le_bytes(values)) == values,
{
    let bytes = le_bytes(values);
    assert forall|i: int| 0 <= i < values.len() implies numeric::half_at(bytes, 2 * i) == values[i] by {
        assert((2 * i) / 2 == i && (2 * i) % 2 == 0);
        assert((2 * i + 1) / 2 == i && (2 * i + 1) % 2 == 1);
    }
    assert(numeric::halves(bytes) =~= values);
}

/// How many rows of `cols` BF16 numbers are written to `len` bytes, of `rows` rows.
pub open spec fn rows_written(len: int, rows: int, cols: int) -> int {
    if rows <= len / (2 * cols) {
        rows
    } else {
        len / (2 * cols)
    }
}

/// All rows are written where there are bytes for just as many.
pub proof fn lemma_all_rows(rows: int, cols: int)
    requires
        rows >= 0,
        cols > 0,
    ensures
        rows_written(rows * cols * 2, rows, cols) == rows,
        rows * cols * 2 >= 2 * cols || rows == 0,
{
    assert(rows * cols * 2 == rows * (2 * cols) + 0) by (nonlinear_arith);
    assert(rows * cols >= cols || rows == 0) by (nonlinear_arith)
        requires
            rows >= 0,
            cols > 0,
    ;
    vstd::arithmetic::div_mod::lemma_fundamental_div_mod_converse(
        rows * cols * 2,
        2 * cols,
        rows,
        0,
    );
}

/// Multiplies FP8 numbers by the scales of their blocks and writes the products, rounded to
/// BF16, row by row to `dst`, the low byte of each first. What is left of `dst` after the last
/// row stays as it is. Scales are bits of single precision.
pub fn dequant_fp8_block_into_bf16(
    dst: &mut [u8],
    fp8: &[u8],
    scales: &[u32],
    rows: usize,
    cols: usize,
    s_cols: usize,
    blk_r: usize,
    blk_c: usize,
)
    requires
        0 < cols <= usize::MAX / 2,
        old(dst)@.len() >= rows * cols * 2 || old(dst)@.len() as int % (2 * cols) == 0,
        rows_written(old(dst)@.len() as int, rows as int, cols as int) * cols <= fp8@.len(),
        has_scales(
            scales@.len() as int,
            rows_written(old(dst)@.len() as int, rows as int, cols as int),
            cols as int,
            s_cols as int,
            (blk_r as int, blk_c as int),
        ),
    ensures
        ({
            let written = rows_written(old(dst)@.len() as int, rows as int, cols as int);
            let bytes = le_bytes(
                dequantized(
                    fp8@,
                    scales@,
                    written,
                    cols as int,
                    s_cols as int,
                    (blk_r as int, blk_c as int),
                ),
            );
            final(dst)@ == bytes + old(dst)@.skip(bytes.len() as int)
        }),
{
    let ghost before = dst@;
    let len: usize = dst.len();
    let most: usize = len / (2 * cols);
    let written: usize = if rows <= most { rows } else { most };
    let values: Vec<u16> = dequant_fp8_block(fp8, scales, written, cols, s_cols, blk_r, blk_c);
    let ghost bytes = le_bytes(values@);
    let count: usize = values.len();
    proof {
        let chunk = 2 * cols as int;
        vstd::arithmetic::div_mod::lemma_fundamental_div_mod(len as int, chunk);
        vstd::arithmetic::div_mod::lemma_mod_bound(len as int, chunk);
        let whole = len as int / chunk;
        let rest = len as int % chunk;
        assert(2 * (written * cols) <= len) by (nonlinear_arith)
            requires
                written <= whole,
                len == chunk * whole + rest,
                rest >= 0,
                chunk == 2 * cols,
                cols > 0,
        ;
    }
    let mut i: usize = 0;
    while i < count
        invariant
            i <= count,
            count == values@.len(),
            2 * count <= len,
            len == before.len(),
            bytes == le_bytes(values@),
            dst@ == bytes.take(2 * i) + before.skip(2 * i),
        decreases count - i,
    {
        let value: u16 = values[i];
        dst[2 * i] = (value % 0x100) as u8;
        dst[2 * i + 1] = (value / 0x100) as u8;
        proof {
            assert((2 * i) / 2 == i && (2 * i) % 2 == 0);
            assert((2 * i + 1) / 2 == i && (2 * i + 1) % 2 == 1);
        }
        i = i + 1;
        assert(dst@ =~= bytes.take(2 * i) + before.skip(2 * i));
    }
    assert(bytes.take(2 * i) =~= bytes);
}

} // verus!
