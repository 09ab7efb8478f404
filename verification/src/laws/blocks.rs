//! What the scales of FP8 blocks are: the table is read row by row, one scale for each block,
//! and products are rounded to the nearest number.
use crate::loader::fp8_blocks::{self, dequantized, element, nearest, scale_index, table_sides};
use crate::loader::numeric;
use crate::runtime;
use vstd::prelude::*;

verus! {

/// The table is read row by row: the place of an element's scale, divided by the columns of
/// the table, is the row of the element's block, and the remainder the block's column.
pub proof fn scales_lie_row_by_row(row: int, col: int, s_cols: int, sides: (int, int))
    requires
        0 <= row,
        0 <= col,
        sides.0 > 0,
        sides.1 > 0,
        col / sides.1 < s_cols,
    ensures
        scale_index(row, col, s_cols, sides) / s_cols == row / sides.0,
        scale_index(row, col, s_cols, sides) % s_cols == col / sides.1,
{
    vstd::arithmetic::div_mod::lemma_div_pos_is_pos(row, sides.0);
    vstd::arithmetic::div_mod::lemma_div_pos_is_pos(col, sides.1);
    vstd::arithmetic::div_mod::lemma_fundamental_div_mod_converse(
        scale_index(row, col, s_cols, sides),
        s_cols,
        row / sides.0,
        col / sides.1,
    );
}

/// Elements have the same scale exactly if they are of the same block.
pub proof fn blocks_do_not_share_scales(
    row: int,
    col: int,
    other_row: int,
    other_col: int,
    s_cols: int,
    sides: (int, int),
)
    requires
        0 <= row,
        0 <= col,
        0 <= other_row,
        0 <= other_col,
        sides.0 > 0,
        sides.1 > 0,
        col / sides.1 < s_cols,
        other_col / sides.1 < s_cols,
    ensures
        scale_index(row, col, s_cols, sides) == scale_index(other_row, other_col, s_cols, sides)
            <==> row / sides.0 == other_row / sides.0 && col / sides.1 == other_col / sides.1,
{
    scales_lie_row_by_row(row, col, s_cols, sides);
    scales_lie_row_by_row(other_row, other_col, s_cols, sides);
}

/// Every place of a full table holds the scale of some element: the first one of a block.
pub proof fn every_scale_is_used(
    place: int,
    rows: int,
    cols: int,
    s_rows: int,
    s_cols: int,
    sides: (int, int),
)
    requires
        0 <= place < s_rows * s_cols,
        s_cols > 0,
        sides.0 > 0,
        sides.1 > 0,
        (s_rows - 1) * sides.0 < rows,
        (s_cols - 1) * sides.1 < cols,
    ensures
        exists|row: int, col: int|
            0 <= row < rows && 0 <= col < cols && #[trigger] scale_index(row, col, s_cols, sides)
                == place,
{
    let r = place / s_cols;
    let c = place % s_cols;
    vstd::arithmetic::div_mod::lemma_fundamental_div_mod(place, s_cols);
    vstd::arithmetic::div_mod::lemma_mod_bound(place, s_cols);
    vstd::arithmetic::div_mod::lemma_div_pos_is_pos(place, s_cols);
    assert(r <= s_rows - 1) by (nonlinear_arith)
        requires
            place == s_cols * r + c,
            0 <= c,
            place < s_rows * s_cols,
            s_cols > 0,
    ;
    let row = r * sides.0;
    let col = c * sides.1;
    assert(0 <= row <= (s_rows - 1) * sides.0) by (nonlinear_arith)
        requires
            0 <= r <= s_rows - 1,
            sides.0 > 0,
            row == r * sides.0,
    ;
    assert(0 <= col <= (s_cols - 1) * sides.1) by (nonlinear_arith)
        requires
            0 <= c <= s_cols - 1,
            sides.1 > 0,
            col == c * sides.1,
    ;
    vstd::arithmetic::div_mod::lemma_div_by_multiple(r, sides.0);
    vstd::arithmetic::div_mod::lemma_div_by_multiple(c, sides.1);
    vstd::arithmetic::mul::lemma_mul_is_commutative(s_cols, r);
    assert(scale_index(row, col, s_cols, sides) == place);
}

/// A table that has one scale for each block of the usual sides is read so; of any other, the
/// blocks are the smallest that leave no row and no column without a scale.
pub proof fn tables_have_a_scale_for_each_block(rows: int, cols: int, s_rows: int, s_cols: int)
    requires
        rows > 0,
        cols > 0,
        s_rows > 0,
        s_cols > 0,
    ensures
        ({
            let sides = table_sides(rows, cols, s_rows, s_cols);
            let usual = (s_rows - 1) * 128 < rows <= s_rows * 128 && (s_cols - 1) * 128 < cols
                <= s_cols * 128;
            &&& usual ==> sides == (128int, 128int)
            &&& sides.0 > 0 && sides.1 > 0
            &&& s_rows * sides.0 >= rows
            &&& s_cols * sides.1 >= cols
            &&& !usual ==> s_rows * (sides.0 - 1) < rows && s_cols * (sides.1 - 1) < cols
        }),
{
    runtime::lemma_blocks(rows, 128);
    runtime::lemma_blocks(cols, 128);
    runtime::lemma_blocks(rows, s_rows);
    runtime::lemma_blocks(cols, s_cols);
    let (r, c) = (runtime::blocks(rows, s_rows), runtime::blocks(cols, s_cols));
    assert(r > 0 && c > 0 && s_rows * r >= rows && s_cols * c >= cols && s_rows * (r - 1) < rows
        && s_cols * (c - 1) < cols) by (nonlinear_arith)
        requires
            r * s_rows >= rows,
            c * s_cols >= cols,
            (r - 1) * s_rows < rows,
            (c - 1) * s_cols < cols,
            rows > 0,
            cols > 0,
            s_rows > 0,
            s_cols > 0,
    ;
    let (br, bc) = (runtime::blocks(rows, 128), runtime::blocks(cols, 128));
    if (s_rows - 1) * 128 < rows <= s_rows * 128 {
        assert(s_rows == br);
    }
    if (s_cols - 1) * 128 < cols <= s_cols * 128 {
        assert(s_cols == bc);
    }
}

/// Each element of a matrix is the product of its number and the scale in its block's row and
/// column of the table.
pub proof fn elements_have_their_blocks_scale(
    fp8: Seq<u8>,
    scales: Seq<u32>,
    rows: int,
    cols: int,
    s_cols: int,
    sides: (int, int),
    row: int,
    col: int,
)
    requires
        0 <= row < rows,
        0 <= col < cols,
    ensures
        dequantized(fp8, scales, rows, cols, s_cols, sides).len() == rows * cols,
        0 <= row * cols + col < rows * cols,
        dequantized(fp8, scales, rows, cols, s_cols, sides)[row * cols + col] == element(
            fp8[row * cols + col],
            scales[(row / sides.0) * s_cols + col / sides.1],
        ),
{
    assert(0 <= row * cols + col < rows * cols) by (nonlinear_arith)
        requires
            0 <= row < rows,
            0 <= col < cols,
    ;
    vstd::arithmetic::div_mod::lemma_fundamental_div_mod_converse(
        row * cols + col,
        cols,
        row,
        col,
    );
}

/// Another scale for one block changes no element of any other block.
pub proof fn a_scale_is_for_its_block_alone(
    fp8: Seq<u8>,
    scales: Seq<u32>,
    other: u32,
    rows: int,
    cols: int,
    s_cols: int,
    sides: (int, int),
    block: (int, int),
    row: int,
    col: int,
)
    requires
        0 <= row < rows,
        0 <= col < cols,
        sides.0 > 0,
        sides.1 > 0,
        (cols - 1) / sides.1 < s_cols,
        0 <= block.0,
        0 <= block.1 < s_cols,
        block.0 * s_cols + block.1 < scales.len(),
        (row / sides.0) * s_cols + col / sides.1 < scales.len(),
        row / sides.0 != block.0 || col / sides.1 != block.1,
    ensures
        dequantized(
            fp8,
            scales.update(block.0 * s_cols + block.1, other),
            rows,
            cols,
            s_cols,
            sides,
        )[row * cols + col] == dequantized(fp8, scales, rows, cols, s_cols, sides)[row * cols
            + col],
{
    let place = block.0 * s_cols + block.1;
    assert(0 <= place) by (nonlinear_arith)
        requires
            0 <= block.0,
            0 <= block.1 < s_cols,
            place == block.0 * s_cols + block.1,
    ;
    let changed = scales.update(place, other);
    elements_have_their_blocks_scale(fp8, scales, rows, cols, s_cols, sides, row, col);
    elements_have_their_blocks_scale(fp8, changed, rows, cols, s_cols, sides, row, col);
    vstd::arithmetic::div_mod::lemma_div_is_ordered(col, cols - 1, sides.1);
    scales_lie_row_by_row(row, col, s_cols, sides);
    vstd::arithmetic::div_mod::lemma_fundamental_div_mod_converse(
        place,
        s_cols,
        block.0,
        block.1,
    );
    let own = (row / sides.0) * s_cols + col / sides.1;
    vstd::arithmetic::div_mod::lemma_div_pos_is_pos(row, sides.0);
    vstd::arithmetic::div_mod::lemma_div_pos_is_pos(col, sides.1);
    vstd::arithmetic::mul::lemma_mul_nonnegative(row / sides.0, s_cols);
    assert(own == scale_index(row, col, s_cols, sides));
    assert(own != place);
    assert(changed[own] == scales[own]);
}

/// Rounding takes the nearest integer, the even one of two that are as near.
pub proof fn rounding_is_to_nearest_even(dividend: int, divisor: int)
    requires
        divisor > 0,
    ensures
        -divisor <= 2 * (dividend - nearest(dividend, divisor) * divisor) <= divisor,
        2 * (dividend - nearest(dividend, divisor) * divisor) == divisor || 2 * (dividend - nearest(
            dividend,
            divisor,
        ) * divisor) == -divisor ==> nearest(dividend, divisor) % 2 == 0,
{
    let whole = dividend / divisor;
    let rest = dividend % divisor;
    vstd::arithmetic::div_mod::lemma_fundamental_div_mod(dividend, divisor);
    vstd::arithmetic::div_mod::lemma_mod_bound(dividend, divisor);
    assert(whole * divisor == divisor * whole && (whole + 1) * divisor == divisor * whole + divisor)
        by (nonlinear_arith);
}

proof fn lemma_nearest_f32(magnitude: int, spacing: int)
    requires
        0 <= magnitude,
        0 < spacing,
    ensures
        0 <= fp8_blocks::nearest_f32(magnitude, spacing),
        magnitude == 0 ==> fp8_blocks::nearest_f32(magnitude, spacing) == 0,
    decreases magnitude - spacing,
{
    if magnitude >= spacing * 0x100_0000 {
        lemma_nearest_f32(magnitude, 2 * spacing);
    } else {
        vstd::arithmetic::div_mod::lemma_div_pos_is_pos(magnitude, spacing);
        vstd::arithmetic::div_mod::lemma_mod_bound(magnitude, spacing);
        if magnitude == 0 {
            vstd::arithmetic::div_mod::lemma_fundamental_div_mod_converse(0, spacing, 0, 0);
        }
    }
}

/// A product that is a number has the sign that its factors give it, and its bits are those of
/// a number; a zero times a finite number is zero.
pub proof fn products_have_their_sign(byte: u8, scale: u32)
    ensures
        ({
            let bits = fp8_blocks::scaled_bits(byte, scale);
            let finite = scale % 0x8000_0000 < 0x7F80_0000;
            &&& 0 <= bits <= u32::MAX
            &&& bits != 0x7FC0_0000 ==> (bits >= 0x8000_0000 <==> (byte >= 0x80) != (scale
                >= 0x8000_0000))
            &&& byte % 128 == 127 ==> bits == 0x7FC0_0000
            &&& finite && byte % 128 != 127 ==> bits % 0x8000_0000 <= 0x7F80_0000
            &&& finite && byte % 128 == 0 ==> bits % 0x8000_0000 == 0
            &&& finite && byte % 128 != 127 && scale % 0x8000_0000 == 0 ==> bits % 0x8000_0000 == 0
        }),
{
    let units = numeric::e4m3_units(byte) * numeric::f32_units(scale);
    lemma_units(byte, scale);
    lemma_nearest_f32(units, 0x200);
}

proof fn lemma_units(byte: u8, scale: u32)
    ensures
        0 <= numeric::e4m3_units(byte) * numeric::f32_units(scale),
        byte % 128 == 0 || scale % 0x8000_0000 == 0 ==> numeric::e4m3_units(byte)
            * numeric::f32_units(scale) == 0,
{
    let (a, b) = (numeric::e4m3_units(byte), numeric::f32_units(scale));
    if byte % 128 == 0 {
        assert(byte as int % 8 == 0 && (byte as int % 128) / 8 == 0);
        assert(a == 0);
        assert(0 * b == 0);
    }
    if scale % 0x8000_0000 == 0 {
        assert(scale as int % 0x80_0000 == 0 && (scale as int % 0x8000_0000) / 0x80_0000 == 0);
        assert(b == 0);
        assert(a * 0 == 0);
    }
}

/// A BF16 number is the one nearest to the single-precision number that it stands for, the
/// even one of two that are as near.
pub proof fn bf16_rounds_to_nearest_even(bits: u32)
    requires
        !numeric::is_nan(bits),
    ensures
        -0x8000 <= bits - numeric::rounded_bf16(bits) * 0x1_0000 <= 0x8000,
        bits - numeric::rounded_bf16(bits) * 0x1_0000 == 0x8000 || bits - numeric::rounded_bf16(bits)
            * 0x1_0000 == -0x8000 ==> numeric::rounded_bf16(bits) % 2 == 0,
{
}

} // verus!
