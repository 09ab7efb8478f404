//! What trials of the device rest on: groups that lie side by side, four-bit and eight-bit
//! numbers that decode as their formats say, and sums that count every element once.
use crate::loader::numeric;
use crate::runtime;
use crate::runtime::cutlass_moe_smoke::{
    self, e2m1_halves, padded, padded_before, pointers_of, rows_before, shape_slots, GroupBases,
    GroupedLayout, GroupedProblem,
};
use crate::runtime::fp4_reference::{self, e2m1_code, largest_magnitude, magnitude};
use crate::runtime::fp8_mma_smoke::{self, dot, nearest_even, SmokeStage};
use crate::runtime::graph;
use crate::runtime::rng;
use vstd::arithmetic::power2::pow2;
use vstd::prelude::*;

verus! {

/// Rows are padded to whole tiles of 128, and by less than one.
pub proof fn rows_are_padded_to_tiles(rows: int)
    requires
        0 <= rows,
    ensures
        padded(rows) % 128 == 0,
        rows <= padded(rows) < rows + 128,
{
    runtime::lemma_blocks(rows, 128);
}

/// The largest group is one of the groups, and no group is larger.
pub proof fn largest_group_is_found(rows: Seq<usize>, g: int)
    requires
        0 < g <= rows.len(),
    ensures
        forall|i: int| 0 <= i < g ==> #[trigger] rows[i] <= cutlass_moe_smoke::most_rows(rows, g),
        exists|i: int| 0 <= i < g && #[trigger] rows[i] == cutlass_moe_smoke::most_rows(rows, g),
    decreases g,
{
    if g == 1 {
        assert(cutlass_moe_smoke::most_rows(rows, 0) == 0);
        assert(rows[0] == cutlass_moe_smoke::most_rows(rows, 1));
    } else {
        largest_group_is_found(rows, g - 1);
        let before = choose|i: int|
            0 <= i < g - 1 && #[trigger] rows[i] == cutlass_moe_smoke::most_rows(rows, g - 1);
        if rows[g - 1] > cutlass_moe_smoke::most_rows(rows, g - 1) {
            assert(rows[g - 1] == cutlass_moe_smoke::most_rows(rows, g));
        } else {
            assert(rows[before] == cutlass_moe_smoke::most_rows(rows, g));
        }
    }
}

/// The matrices of the groups lie side by side: each pointer of the next group is as far on as
/// the group's own matrix is large, and the first group is at the start of everything.
pub proof fn groups_lie_side_by_side(problem: GroupedProblem, bases: GroupBases, g: int)
    requires
        problem.wf(),
        cutlass_moe_smoke::bases_fit(problem, bases),
        0 <= g < problem.rows@.len(),
        problem.rows@.len() <= 0xFFFF,
    ensures
        ({
            let first = pointers_of(problem, bases, 0);
            let own = pointers_of(problem, bases, g);
            let next = pointers_of(problem, bases, g + 1);
            let rows = problem.rows@[g] as int;
            let (n, k) = (problem.n as int, problem.k as int);
            &&& first.a == bases.payload && first.b == bases.weights && first.sfa == bases.sfa
                && first.sfb == bases.sfb && first.d == bases.output && first.alpha == bases.alphas
            &&& next.a - own.a == rows * (k / 2)
            &&& next.b - own.b == n * k / 2
            &&& next.sfa - own.sfa == padded(rows) * problem.scale_cols()
            &&& next.sfb - own.sfb == padded(n) * problem.scale_cols()
            &&& next.d - own.d == 4 * (rows * n)
            &&& next.alpha - own.alpha == 4
        }),
{
    let rows = problem.rows@;
    let (n, k) = (problem.n as int, problem.k as int);
    let half = k / 2;
    let cols = problem.scale_cols();
    runtime::lemma_blocks(k / 16, 4);
    runtime::lemma_blocks(n, 128);
    lemma_counts(rows, g, rows.len() as int);
    lemma_counts(rows, g + 1, rows.len() as int);
    let (a, b) = (rows_before(rows, g), rows_before(rows, g + 1));
    let (p, q) = (padded_before(rows, g), padded_before(rows, g + 1));
    let m = rows[g] as int;
    assert(0 <= cols <= 0x1_0003 && 0 <= half <= 0x8000);
    lemma_scaled(a, b, half, 0x8000);
    lemma_scaled(p, q, cols, 0x1_0003);
    lemma_scaled(a, b, n, 0xFFFF);
    let (w, s) = (problem.weight_bytes(), problem.sfb_bytes());
    assert(0 <= w <= 0xFFFF_FFFF) by {
        assert(0 <= n * k <= 0xFFFF * 0xFFFF) by (nonlinear_arith)
            requires
                0 <= n <= 0xFFFF,
                0 <= k <= 0xFFFF,
        ;
    }
    assert(0 <= s <= 0x1_0080 * 0x1_0003) by {
        let r = padded(n);
        assert(0 <= r <= 0x1_0080);
        assert(0 <= r * cols <= 0x1_0080 * 0x1_0003) by (nonlinear_arith)
            requires
                0 <= r <= 0x1_0080,
                0 <= cols <= 0x1_0003,
        ;
    }
    lemma_scaled(g, g + 1, w, 0xFFFF_FFFF);
    lemma_scaled(g, g + 1, s, 0x1_0080int * 0x1_0003);
    assert((b - a) * half == m * half && (q - p) * cols == padded(m) * cols && (b - a) * n == m * n);
    assert(0 * half == 0 && 0 * w == 0 && 0 * cols == 0 && 0 * s == 0 && 0 * n == 0);
    assert(rows_before(rows, 0) == 0 && padded_before(rows, 0) == 0);
    let own = pointers_of(problem, bases, g);
    let next = pointers_of(problem, bases, g + 1);
    assert((g + 1) * w - g * w == w && (g + 1) * s - g * s == s) by (nonlinear_arith);
    assert(own.a == bases.payload + a * half && next.a == bases.payload + b * half);
    assert(own.b == bases.weights + g * w && next.b == bases.weights + (g + 1) * w);
    assert(own.sfa == bases.sfa + p * cols && next.sfa == bases.sfa + q * cols);
    assert(own.sfb == bases.sfb + g * s && next.sfb == bases.sfb + (g + 1) * s);
    assert(own.d == bases.output + a * n * 4 && next.d == bases.output + b * n * 4);
}

proof fn lemma_counts(rows: Seq<usize>, g: int, n: int)
    requires
        0 <= g <= n <= rows.len(),
    ensures
        0 <= rows_before(rows, g) <= rows_before(rows, n),
        0 <= padded_before(rows, g) <= padded_before(rows, n),
    decreases n,
{
    if n > g {
        runtime::lemma_blocks(rows[n - 1] as int, 128);
        lemma_counts(rows, g, n - 1);
    } else if n > 0 {
        runtime::lemma_blocks(rows[n - 1] as int, 128);
        lemma_counts(rows, g - 1, n - 1);
    }
}

proof fn lemma_scaled(a: int, b: int, size: int, most: int)
    requires
        0 <= a <= b <= 0x7FFF_FFFF,
        0 <= size <= most,
    ensures
        b * size - a * size == (b - a) * size,
        0 <= a * size <= b * size <= 0x7FFF_FFFF * most,
{
    assert(b * size - a * size == (b - a) * size && 0 <= a * size <= b * size <= 0x7FFF_FFFF * most)
        by (nonlinear_arith)
        requires
            0 <= a <= b <= 0x7FFF_FFFF,
            0 <= size <= most,
    ;
}

/// A trial is prepared exactly if the bridge says of every group what the layout says: the
/// scales of activations and weights take whole tiles.
pub proof fn scale_sizes_agree(
    problem: GroupedProblem,
    replies: Seq<Result<(usize, usize), String>>,
    g: int,
)
    requires
        0 <= g <= replies.len(),
    ensures
        cutlass_moe_smoke::scale_fault(problem, replies, g) is None <==> forall|i: int|
            g <= i < replies.len() ==> (#[trigger] replies[i] matches Ok(sizes) && sizes.0 == padded(
                problem.rows@[i] as int,
            ) * problem.scale_cols() && sizes.1 == padded(problem.n as int) * problem.scale_cols()),
    decreases replies.len() - g,
{
    if g < replies.len() {
        scale_sizes_agree(problem, replies, g + 1);
    }
}

/// Four bytes hold a number, the low one first.
pub proof fn low_bytes_come_first(value: u32)
    ensures
        ({
            let bytes = cutlass_moe_smoke::le_bytes(value);
            &&& bytes.len() == 4
            &&& bytes[0] + 256 * (bytes[1] + 256 * (bytes[2] + 256 * bytes[3])) == value
        }),
{
}

/// The slot of a group holds its rows, `n` and `k`, and nothing after them.
pub proof fn slots_hold_their_shape(problem: GroupedProblem, slot_bytes: int, groups: int, g: int)
    requires
        12 <= slot_bytes,
        0 <= g < groups <= problem.rows@.len(),
    ensures
        ({
            let slots = shape_slots(problem, slot_bytes, groups);
            let at = g * slot_bytes;
            &&& slots.len() == groups * slot_bytes
            &&& slots.subrange(at, at + 4) == cutlass_moe_smoke::le_bytes(problem.rows@[g] as u32)
            &&& slots.subrange(at + 4, at + 8) == cutlass_moe_smoke::le_bytes(problem.n as u32)
            &&& slots.subrange(at + 8, at + 12) == cutlass_moe_smoke::le_bytes(problem.k as u32)
            &&& forall|i: int| at + 12 <= i < at + slot_bytes ==> #[trigger] slots[i] == 0
        }),
    decreases groups,
{
    let slots = shape_slots(problem, slot_bytes, groups);
    let before = shape_slots(problem, slot_bytes, groups - 1);
    let at = g * slot_bytes;
    lemma_slots_len(problem, slot_bytes, groups);
    lemma_slots_len(problem, slot_bytes, groups - 1);
    assert((groups - 1) * slot_bytes + slot_bytes == groups * slot_bytes) by (nonlinear_arith);
    if g < groups - 1 {
        slots_hold_their_shape(problem, slot_bytes, groups - 1, g);
        assert(at + slot_bytes <= (groups - 1) * slot_bytes && 0 <= at) by (nonlinear_arith)
            requires
                at == g * slot_bytes,
                0 <= g < groups - 1,
                12 <= slot_bytes,
        ;
        assert forall|i: int| 0 <= i < before.len() implies #[trigger] slots[i] == before[i] by {}
        assert(slots.subrange(at, at + 4) =~= before.subrange(at, at + 4));
        assert(slots.subrange(at + 4, at + 8) =~= before.subrange(at + 4, at + 8));
        assert(slots.subrange(at + 8, at + 12) =~= before.subrange(at + 8, at + 12));
    } else {
        assert(at == before.len());
        assert(slots.subrange(at, at + 4) =~= cutlass_moe_smoke::le_bytes(
            problem.rows@[g] as u32,
        ));
        assert(slots.subrange(at + 4, at + 8) =~= cutlass_moe_smoke::le_bytes(problem.n as u32));
        assert(slots.subrange(at + 8, at + 12) =~= cutlass_moe_smoke::le_bytes(problem.k as u32));
    }
}

proof fn lemma_slots_len(problem: GroupedProblem, slot_bytes: int, groups: int)
    requires
        12 <= slot_bytes,
        0 <= groups,
    ensures
        shape_slots(problem, slot_bytes, groups).len() == groups * slot_bytes,
    decreases groups,
{
    if groups > 0 {
        lemma_slots_len(problem, slot_bytes, groups - 1);
        assert((groups - 1) * slot_bytes + slot_bytes == groups * slot_bytes) by (nonlinear_arith);
    } else {
        assert(0 * slot_bytes == 0);
    }
}

/// Four bits are a sign, two bits of exponent and one of fraction.
pub proof fn four_bits_are_a_small_float(nibble: u8)
    requires
        nibble < 16,
    ensures
        ({
            let exponent = (nibble as int % 8) / 2;
            let fraction = nibble as int % 2;
            let halves = if exponent == 0 {
                fraction
            } else {
                (2 + fraction) * pow2((exponent - 1) as nat)
            };
            e2m1_halves(nibble) == if nibble >= 8 {
                -halves
            } else {
                halves
            }
        }),
{
    vstd::arithmetic::power2::lemma2_to64();
    let exponent = (nibble as int % 8) / 2;
    let fraction = nibble as int % 2;
    assert(nibble as int % 8 == 2 * exponent + fraction);
    if exponent == 1 {
        assert((2 + fraction) * pow2(0) == 2 + fraction);
    } else if exponent == 2 {
        assert((2 + fraction) * pow2(1) == 2 * (2 + fraction));
    } else if exponent == 3 {
        assert((2 + fraction) * pow2(2) == 4 * (2 + fraction));
    }
}

/// Encoding to four bits rounds to the nearest of the numbers that four bits hold: a code is
/// used up to midway to the next. Signs are kept, but for zero.
pub proof fn four_bit_codes_are_nearest(scale_bits: u32, scaled_bits: u32)
    requires
        0 < scale_bits <= 0x7F80_0000,
        magnitude(scaled_bits) < 0x7F80_0000,
    ensures
        ({
            let low = magnitude(scaled_bits);
            let code = e2m1_code(scale_bits, scaled_bits);
            &&& 0 <= code < 16
            &&& code >= 8 <==> scaled_bits >= 0x8000_0000 && code % 8 > 0
            // The bits of 0.25, 0.75, 1.25, 1.75, 2.5, 3.5 and 5.
            &&& code % 8 <= 0 <==> low <= 0x3E80_0000
            &&& code % 8 <= 1 <==> low <= 0x3F40_0000
            &&& code % 8 <= 2 <==> low <= 0x3FA0_0000
            &&& code % 8 <= 3 <==> low <= 0x3FE0_0000
            &&& code % 8 <= 4 <==> low <= 0x4020_0000
            &&& code % 8 <= 5 <==> low <= 0x4060_0000
            &&& code % 8 <= 6 <==> low <= 0x40A0_0000
        }),
{
}

/// Encoding to eight bits keeps what is no number none, and takes what is too large to the
/// largest number of its sign.
pub proof fn eight_bit_codes_have_ends(bits: u32)
    requires
        magnitude(bits) >= 0x43E0_0000,
    ensures
        numeric::is_nan(bits) ==> fp8_mma_smoke::e4m3_nearest(bits) == 0x7F,
        !numeric::is_nan(bits) ==> fp8_mma_smoke::e4m3_nearest(bits) == (if bits < 0x8000_0000 {
            0x7Eint
        } else {
            0xFEint
        }),
{
}

/// There are no bits for what is not finite, or where the scale is not positive.
pub proof fn what_has_no_code_is_zero(scale_bits: u32, scaled_bits: u32)
    requires
        scale_bits == 0 || scale_bits > 0x7F80_0000 || magnitude(scaled_bits) >= 0x7F80_0000,
    ensures
        e2m1_code(scale_bits, scaled_bits) == 0,
{
}

/// Scores of sixteen queries take four bytes each, the same quantized one byte each up to a
/// word, and a scale for each query four bytes more.
pub proof fn attention_trial_holds_its_scores(context: int)
    requires
        0 <= context,
    ensures
        ({
            let bytes = fp8_mma_smoke::attention_shared_bytes(context);
            &&& bytes % 4 == 0
            &&& 0 <= bytes - (4 * (16 * context) + 16 * context + 4 * 16) < 4
        }),
{
}

/// Groups follow each other without a gap in every part of a layout, from its start to its
/// total.
pub proof fn layouts_have_no_gaps(layout: GroupedLayout, problem: GroupedProblem, g: int)
    requires
        problem.wf(),
        cutlass_moe_smoke::is_layout(layout, problem),
        0 <= g < problem.rows@.len(),
    ensures
        ({
            let groups = problem.rows@.len() as int;
            let rows = problem.rows@[g] as int;
            &&& layout.token_offsets@.len() == groups + 1 && layout.token_offsets@[0] == 0
            &&& layout.token_offsets@[g + 1] - layout.token_offsets@[g] == rows
            &&& layout.payload_offsets@.len() == groups && layout.payload_offsets@[0] == 0
            &&& next_offset(layout.payload_offsets@, layout.payload_total, g)
                - layout.payload_offsets@[g] == rows * (problem.k as int / 2)
            &&& layout.sfa_offsets@.len() == groups && layout.sfa_offsets@[0] == 0
            &&& next_offset(layout.sfa_offsets@, layout.sfa_total, g) - layout.sfa_offsets@[g]
                == padded(rows) * problem.scale_cols()
            &&& layout.sfb_offsets@.len() == groups && layout.sfb_offsets@[0] == 0
            &&& next_offset(layout.sfb_offsets@, layout.sfb_total, g) - layout.sfb_offsets@[g]
                == padded(problem.n as int) * problem.scale_cols()
        }),
{
    let rows = problem.rows@;
    let groups = rows.len() as int;
    let half = problem.k as int / 2;
    let cols = problem.scale_cols();
    let s = problem.sfb_bytes();
    runtime::lemma_blocks(problem.k as int / 16, 4);
    runtime::lemma_blocks(problem.n as int, 128);
    lemma_counts(rows, g, groups);
    lemma_counts(rows, g + 1, groups);
    let (a, b) = (rows_before(rows, g), rows_before(rows, g + 1));
    let (p, q) = (padded_before(rows, g), padded_before(rows, g + 1));
    lemma_scaled(a, b, half, 0x8000);
    lemma_scaled(p, q, cols, 0x1_0003);
    let r = padded(problem.n as int);
    assert(0 <= r * cols <= 0x1_0080 * 0x1_0003) by (nonlinear_arith)
        requires
            0 <= r <= 0x1_0080,
            0 <= cols <= 0x1_0003,
    ;
    lemma_scaled(g, g + 1, s, 0x1_0080int * 0x1_0003);
    assert(0 * half == 0 && 0 * cols == 0 && 0 * s == 0);
    assert((g + 1) * s - g * s == s) by (nonlinear_arith);
    assert(rows_before(rows, 0) == 0 && padded_before(rows, 0) == 0);
    assert(b - a == rows[g] && q - p == padded(rows[g] as int));
    assert(layout.payload_offsets@[g] == a * half && layout.sfa_offsets@[g] == p * cols
        && layout.sfb_offsets@[g] == g * s);
    assert(next_offset(layout.payload_offsets@, layout.payload_total, g) == b * half);
    assert(next_offset(layout.sfa_offsets@, layout.sfa_total, g) == q * cols);
    assert(next_offset(layout.sfb_offsets@, layout.sfb_total, g) == (g + 1) * s);
}

/// Where the part after `g` starts, or where all of them end.
pub open spec fn next_offset(offsets: Seq<u64>, total: u64, g: int) -> int {
    if g + 1 < offsets.len() {
        offsets[g + 1] as int
    } else {
        total as int
    }
}

/// The largest magnitude is that of one of the numbers, or zero where there is none.
pub proof fn largest_magnitude_is_attained(values: Seq<u32>)
    ensures
        largest_magnitude(values) == 0 || exists|i: int|
            0 <= i < values.len() && magnitude(#[trigger] values[i]) == largest_magnitude(values),
    decreases values.len(),
{
    if values.len() > 0 {
        largest_magnitude_is_attained(values.drop_last());
        let before = values.drop_last();
        if largest_magnitude(values) == largest_magnitude(before) {
            if largest_magnitude(before) != 0 {
                let i = choose|i: int|
                    0 <= i < before.len() && magnitude(#[trigger] before[i]) == largest_magnitude(
                        before,
                    );
                assert(values[i] == before[i]);
            }
        } else {
            assert(values[values.len() - 1] == values.last());
        }
    }
}

/// Two weights lie in a byte, the one of the even column in its low half, with a scale for
/// each sixteen columns; rows follow each other, and groups do.
pub proof fn weights_lie_two_to_a_byte(
    problem: GroupedProblem,
    weights: Seq<u8>,
    scales: Seq<u8>,
    g: int,
    row: int,
    pair: int,
)
    ensures
        ({
            let (n, k) = (problem.n as int, problem.k as int);
            let byte = weights[g * (n * k / 2) + row * (k / 2) + pair];
            let scale = scales[g * (n * (k / 16)) + row * (k / 16) + pair / 8];
            let weight = |col: int| fp4_reference::weight_at(problem, weights, scales, g, row, col);
            &&& weight(2 * pair) == e2m1_halves((byte % 16) as u8) * cutlass_moe_smoke::ue4m3_units(
                scale,
            )
            &&& weight(2 * pair + 1) == e2m1_halves((byte / 16) as u8)
                * cutlass_moe_smoke::ue4m3_units(scale)
        }),
{
    assert((2 * pair) / 2 == pair && (2 * pair + 1) / 2 == pair);
    assert((2 * pair) % 2 == 0 && (2 * pair + 1) % 2 == 1);
    assert((2 * pair) / 16 == pair / 8 && (2 * pair + 1) / 16 == pair / 8);
}

/// Rounding takes the nearest integer, the even one of two that are as near.
pub proof fn trial_rounding_is_to_nearest_even(value: int, divisor: int)
    requires
        divisor > 0,
    ensures
        -divisor <= 2 * (value - nearest_even(value, divisor) * divisor) <= divisor,
        2 * (value - nearest_even(value, divisor) * divisor) == divisor || 2 * (value - nearest_even(
            value,
            divisor,
        ) * divisor) == -divisor ==> nearest_even(value, divisor) % 2 == 0,
{
    let whole = value / divisor;
    vstd::arithmetic::div_mod::lemma_fundamental_div_mod(value, divisor);
    vstd::arithmetic::div_mod::lemma_mod_bound(value, divisor);
    assert(whole * divisor == divisor * whole && (whole + 1) * divisor == divisor * whole + divisor)
        by (nonlinear_arith);
}

/// A product counts every element of the row and the column once: it is symmetric in the two
/// matrices, and a row with a single one in it picks out that element of the column.
pub proof fn products_count_every_element_once(
    a: Seq<i32>,
    b: Seq<i32>,
    row: int,
    col: int,
    k: int,
    n: int,
    at: int,
)
    requires
        0 <= at < n,
        forall|i: int|
            0 <= i < n ==> #[trigger] a[row * k + i] == (if i == at {
                1i32
            } else {
                0i32
            }),
    ensures
        dot(a, b, row, col, k, n) == b[col * k + at],
        dot(b, a, col, row, k, n) == b[col * k + at],
    decreases n,
{
    lemma_symmetric(a, b, row, col, k, n);
    assert(a[row * k + (n - 1)] == (if n - 1 == at {
        1i32
    } else {
        0i32
    }));
    assert(row * k + n - 1 == row * k + (n - 1) && col * k + n - 1 == col * k + (n - 1));
    let last = b[col * k + (n - 1)] as int;
    assert(1 * last == last && 0 * last == 0);
    if at < n - 1 {
        products_count_every_element_once(a, b, row, col, k, n - 1, at);
    } else {
        lemma_zero_row(a, b, row, col, k, n - 1);
    }
}

proof fn lemma_zero_row(a: Seq<i32>, b: Seq<i32>, row: int, col: int, k: int, n: int)
    requires
        forall|i: int| 0 <= i < n ==> #[trigger] a[row * k + i] == 0,
    ensures
        dot(a, b, row, col, k, n) == 0,
    decreases n,
{
    if n > 0 {
        lemma_zero_row(a, b, row, col, k, n - 1);
        assert(a[row * k + (n - 1)] == 0);
        assert(row * k + n - 1 == row * k + (n - 1));
        let last = b[col * k + n - 1] as int;
        assert(0 * last == 0);
    }
}

proof fn lemma_symmetric(a: Seq<i32>, b: Seq<i32>, row: int, col: int, k: int, n: int)
    ensures
        dot(a, b, row, col, k, n) == dot(b, a, col, row, k, n),
    decreases n,
{
    if n > 0 {
        lemma_symmetric(a, b, row, col, k, n - 1);
        vstd::arithmetic::mul::lemma_mul_is_commutative(
            a[row * k + n - 1] as int,
            b[col * k + n - 1] as int,
        );
    }
}

/// The buffers of a trial hold its matrices, and its blocks cover them: tiles of sixteen rows
/// by eight columns for the product, one block for each head for attention, with the scores of
/// sixteen queries as numbers and as bytes.
pub proof fn trials_fit_their_buffers()
    ensures
        ({
            let bare = SmokeStage::BareMma;
            let (lens, config) = (bare.spec_lens(), bare.spec_config());
            &&& bare.spec_numbers().len() == 0
            &&& lens == seq![16 * 32int, 8 * 32int, 16 * 8int]
            &&& config.grid_dim == (1u32, 1u32, 1u32) && config.block_dim == (32u32, 1u32, 1u32)
            &&& config.shared_mem_bytes == 0
        }),
        ({
            let tiled = SmokeStage::TiledGemm;
            let (numbers, lens, config) = (
                tiled.spec_numbers(),
                tiled.spec_lens(),
                tiled.spec_config(),
            );
            &&& numbers.len() == 3 && lens.len() == 3
            &&& lens[0] == numbers[0] * numbers[2]
            &&& lens[1] == numbers[1] * numbers[2]
            &&& lens[2] == numbers[0] * numbers[1]
            &&& config.grid_dim.0 * 8 == numbers[1]
            &&& config.grid_dim.1 * 16 == numbers[0]
            &&& config.grid_dim.2 == 1 && config.block_dim == (32u32, 1u32, 1u32)
            &&& config.shared_mem_bytes == 0
        }),
        ({
            let heads = SmokeStage::Attention;
            let (numbers, lens, config) = (
                heads.spec_numbers(),
                heads.spec_lens(),
                heads.spec_config(),
            );
            &&& numbers.len() == 3 && lens.len() == 7
            &&& lens[0] == numbers[0] * 16 * numbers[2]
            &&& lens[1] == numbers[0] * numbers[1] * numbers[2]
            &&& lens[2] == lens[1]
            &&& lens[3] == numbers[0] * 16
            &&& lens[4] == numbers[0] * numbers[1]
            &&& lens[5] == lens[4]
            &&& lens[6] == lens[0]
            &&& config.grid_dim.0 == numbers[0]
            &&& config.grid_dim.1 == 1 && config.grid_dim.2 == 1
            &&& config.block_dim == (32u32, 1u32, 1u32)
            &&& config.shared_mem_bytes == 16 * numbers[1] * 4 + 16 * numbers[1] + 64
        }),
{
}

/// Runs that are alike agree with each other, not only with the first.
pub proof fn alike_runs_agree(runs: Seq<Vec<u32>>, a: int, b: int, j: int)
    requires
        fp8_mma_smoke::all_alike(runs),
        0 <= a < runs.len(),
        0 <= b < runs.len(),
        0 <= j < runs[a]@.len(),
        j < runs[b]@.len(),
        j < runs[0]@.len(),
    ensures
        runs[a]@[j] == runs[b]@[j],
{
}

/// Drawn weights and scales are in the range of their formats: the first four bits drawn are
/// the low ones of a byte, the next the high ones; scales are numbers from one on.
pub proof fn drawn_numbers_are_in_range(seed: u32, before: nat, x: u32)
    ensures
        ({
            let byte = cutlass_moe_smoke::weight_byte(seed, before as int);
            let low = rng::nibble_of(rng::drawn(seed, before + 1));
            let high = rng::nibble_of(rng::drawn(seed, before + 2));
            byte % 16 == low && byte / 16 == high
        }),
        rng::nibble_of(x) == x % 16,
        0x38 <= rng::scale_of(x) <= 0x42,
        -7 <= rng::small_of(x) <= 7,
        (rng::small_of(x) - (x - 7)) % 15 == 0,
{
    let low = rng::nibble_of(rng::drawn(seed, before + 1));
    let high = rng::nibble_of(rng::drawn(seed, before + 2));
    let (p, q) = (rng::drawn(seed, before + 1), rng::drawn(seed, before + 2));
    assert((p & 0xf) as u8 == p % 16 && (q & 0xf) as u8 == q % 16 && (x & 0xf) as u8 == x % 16) by (
        bit_vector);
    assert((low | (high << 4)) % 16 == low && (low | (high << 4)) / 16 == high) by (bit_vector)
        requires
            low < 16,
            high < 16,
    ;
    vstd::arithmetic::div_mod::lemma_fundamental_div_mod(x as int, 15);
}

/// Only launches, copies and fills are told apart among the nodes of a graph.
pub proof fn graph_nodes_have_their_kind(code: u32)
    ensures
        graph::kind_of(code) is Kernel <==> code == 0,
        graph::kind_of(code) is Memcpy <==> code == 1,
        graph::kind_of(code) is Memset <==> code == 2,
        graph::kind_of(code) is Other <==> code > 2,
{
}

} // verus!
