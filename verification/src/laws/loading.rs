//! What loading comes to: shapes count every element, parts lie where they belong, and texts
//! are read as they are written.
use crate::compile;
use crate::error::AegisError;
use crate::launch::{Operand, StepView};
use crate::laws::blocks;
use crate::loader::bf16::{self, leading_rows, product};
use crate::loader::fp8_blocks;
use crate::loader::layers::{self, Nvfp4Blocks};
use crate::loader::numeric;
use crate::loader::prefetch::{self, Prefetched, TensorPair};
use crate::loader::storage;
use crate::loader::tensors::{place_of, ModelArtifact, TensorDType, TensorInfo};
use crate::loader::CudaWeightLoader;
use crate::runtime;
use crate::runtime::linear;
use crate::text;
use crate::types::{DeviceBf16Matrix, HostWeightBytes};
use vstd::prelude::*;

verus! {

/// A shape counts the elements of all of its parts.
pub proof fn shapes_multiply(front: Seq<usize>, back: Seq<usize>)
    ensures
        product(front + back) == product(front) * product(back),
        product(Seq::<usize>::empty()) == 1,
    decreases back.len(),
{
    if back.len() == 0 {
        assert(front + back =~= front);
    } else {
        let rest = back.drop_last();
        shapes_multiply(front, rest);
        assert((front + back).drop_last() =~= front + rest);
        let (a, b, c) = (product(front), product(rest), back.last() as int);
        assert((a * b) * c == a * (b * c)) by (nonlinear_arith);
    }
}

/// A tensor is as many rows as its leading extents count, of as many columns as its last.
pub proof fn rows_and_columns_hold_every_element(shape: Seq<usize>)
    requires
        shape.len() > 0,
    ensures
        leading_rows(shape) * shape.last() == product(shape),
        shape.len() == 2 ==> leading_rows(shape) == shape[0],
        shape.len() == 1 ==> leading_rows(shape) == 1,
{
    if shape.len() == 2 {
        assert(shape.drop_last().drop_last() =~= Seq::empty());
        assert(1 * shape[0] == shape[0]);
        assert(product(shape.drop_last().drop_last()) == 1);
    }
    if shape.len() == 1 {
        assert(shape.drop_last() =~= Seq::empty());
    }
}

/// Gate and up are stacked: the fused matrix has all gate rows, and below them all up rows,
/// before anything uses it.
pub proof fn gates_lie_on_top_of_ups(rows: int, cols: int, per_matrix: usize, row: int, col: int)
    requires
        per_matrix == rows * cols,
        2 * per_matrix <= usize::MAX,
        0 <= row < rows,
        0 <= col < cols,
    ensures
        ({
            let steps = bf16::stacking(per_matrix);
            &&& steps.len() == 3
            &&& steps[0] matches StepView::Copy { engine: _, from: gate, to: top, stage: _ }
            &&& steps[1] matches StepView::Copy { engine: _, from: up, to: bottom, stage: _ }
            &&& steps[2] is Synchronize
            &&& gate.operand == Operand::GateValues && top.operand == Operand::Fused
            &&& up.operand == Operand::UpValues && bottom.operand == Operand::Fused
            &&& gate.end - gate.start == top.end - top.start
            &&& up.end - up.start == bottom.end - bottom.start
            // A gate element keeps its row; an up element comes `rows` rows further on.
            &&& gate.start <= row * cols + col < gate.end
            &&& top.start + (row * cols + col - gate.start) == row * cols + col
            &&& up.start <= row * cols + col < up.end
            &&& bottom.start + (row * cols + col - up.start) == (rows + row) * cols + col
            &&& top.end == bottom.start && bottom.end == 2 * per_matrix
        }),
{
    assert(0 <= row * cols + col < rows * cols && (rows + row) * cols + col == rows * cols + row
        * cols + col) by (nonlinear_arith)
        requires
            0 <= row < rows,
            0 <= col < cols,
    ;
}

/// Gate and up are fused exactly if both are on the device, are of one shape, and have all
/// their values.
pub proof fn like_matrices_are_fused(gate: DeviceBf16Matrix, up: DeviceBf16Matrix)
    ensures
        bf16::fusion_refusal(gate, up) is None <==> {
            &&& gate.host_values is None && up.host_values is None
            &&& gate.rows == up.rows && gate.cols == up.cols
            &&& 2 * (gate.rows * gate.cols) <= usize::MAX
            &&& gate.rows * gate.cols <= gate.values.len()
            &&& up.rows * up.cols <= up.values.len()
        },
{
    assert(0 <= gate.rows * gate.cols) by (nonlinear_arith);
}

/// A row of a part of a layer takes half a byte for each value, and a byte of scale for each
/// small block of them.
pub proof fn slices_take_half_a_byte_each(prefix: &String, cols: usize, blocks: Nvfp4Blocks)
    requires
        blocks.block > 0,
        blocks.sub_block > 0,
        blocks.block as int % 2 == 0,
        blocks.block as int % blocks.sub_block as int == 0,
    ensures
        layers::slice_row_bytes(prefix, cols, blocks) is Ok <==> cols > 0 && cols as int
            % blocks.block as int == 0,
        layers::slice_row_bytes(prefix, cols, blocks) matches Ok((packed, scales)) ==> 2 * packed
            == cols && scales * blocks.sub_block == cols,
{
    if cols > 0 && cols as int % blocks.block as int == 0 {
        let b = blocks.block as int;
        let s = blocks.sub_block as int;
        let n = cols as int / b;
        let m = b / s;
        vstd::arithmetic::div_mod::lemma_fundamental_div_mod(cols as int, b);
        vstd::arithmetic::div_mod::lemma_fundamental_div_mod(b, s);
        vstd::arithmetic::div_mod::lemma_fundamental_div_mod(b, 2);
        vstd::arithmetic::div_mod::lemma_div_pos_is_pos(cols as int, b);
        vstd::arithmetic::div_mod::lemma_div_pos_is_pos(b, s);
        let h = b / 2;
        assert(cols == 2 * (n * h)) by (nonlinear_arith)
            requires
                cols == b * n,
                b == 2 * h,
        ;
        assert((n * m) * s == cols) by (nonlinear_arith)
            requires
                cols == b * n,
                b == s * m,
        ;
        assert(0 <= n * m <= cols) by (nonlinear_arith)
            requires
                (n * m) * s == cols,
                s >= 1,
                0 <= n,
                0 <= m,
        ;
    }
}

/// Restored weights: each element is its FP8 number by the scale in its block's place of the
/// table, which is read as BF16 numbers, two bytes each.
pub proof fn restored_elements_have_their_scale(
    weight: TensorInfo,
    scale: TensorInfo,
    fp8: Seq<u8>,
    scales: Seq<u8>,
    row: int,
    col: int,
)
    requires
        weight.shape@.len() == 2,
        scale.shape@.len() == 2,
        0 <= row < weight.shape@[0],
        0 <= col < weight.shape@[1],
    ensures
        ({
            let rows = weight.shape@[0] as int;
            let cols = weight.shape@[1] as int;
            let s_cols = scale.shape@[1] as int;
            let sides = fp8_blocks::table_sides(rows, cols, scale.shape@[0] as int, s_cols);
            let place = (row / sides.0) * s_cols + col / sides.1;
            let made = bf16::restored(weight, scale, fp8, scales);
            &&& made.len() == rows * cols
            &&& 0 <= place < scales.len() / 2 ==> made[row * cols + col] == fp8_blocks::element(
                fp8[row * cols + col],
                linear::widened((scales[2 * place] + 256 * scales[2 * place + 1]) as u16),
            )
        }),
{
    let rows = weight.shape@[0] as int;
    let cols = weight.shape@[1] as int;
    let s_cols = scale.shape@[1] as int;
    let sides = fp8_blocks::table_sides(rows, cols, scale.shape@[0] as int, s_cols);
    blocks::elements_have_their_blocks_scale(
        fp8,
        numeric::vector_bits(TensorDType::BF16, scales),
        rows,
        cols,
        s_cols,
        sides,
        row,
        col,
    );
}

/// Vectors are read two bytes to a BF16 number and four to a single-precision one, the low
/// byte first.
pub proof fn vectors_are_read_low_byte_first(bytes: Seq<u8>, i: int)
    ensures
        0 <= i < bytes.len() / 2 ==> numeric::vector_bits(TensorDType::BF16, bytes)[i]
            == linear::widened((bytes[2 * i] + 256 * bytes[2 * i + 1]) as u16),
        0 <= i < bytes.len() / 4 ==> numeric::vector_bits(TensorDType::F32, bytes)[i] == bytes[4 * i]
            + 256 * (bytes[4 * i + 1] + 256 * (bytes[4 * i + 2] + 256 * bytes[4 * i + 3])),
        numeric::vector_bits(TensorDType::BF16, bytes).len() == bytes.len() / 2,
        numeric::vector_bits(TensorDType::F32, bytes).len() == bytes.len() / 4,
{
}

/// A tensor is found by its name, the first one of that name, and not found only if there is
/// none.
pub proof fn first_of_a_name_is_found(tensors: Seq<TensorInfo>, name: Seq<char>)
    ensures
        place_of(tensors, name) matches Some(at) ==> 0 <= at < tensors.len() && tensors[at].name@
            == name && forall|i: int| 0 <= i < at ==> (#[trigger] tensors[i]).name@ != name,
        place_of(tensors, name) is None ==> forall|i: int|
            0 <= i < tensors.len() ==> (#[trigger] tensors[i]).name@ != name,
    decreases tensors.len(),
{
    if tensors.len() > 0 && tensors[0].name@ != name {
        let rest = tensors.drop_first();
        first_of_a_name_is_found(rest, name);
        assert forall|i: int| 1 <= i < tensors.len() implies #[trigger] tensors[i] == rest[i - 1] by {}
    }
}

/// A layer's weights and scales are the tensors of its name with their suffixes.
pub proof fn layers_have_their_tensors(artifact: &ModelArtifact, prefix: &String)
    ensures
        artifact.spec_weight(prefix) matches Ok(tensor) ==> tensor.name@ == prefix@ + ".weight"@
            && artifact.tensors@.contains(tensor),
        artifact.spec_weight_scale(prefix) matches Ok(tensor) ==> tensor.name@ == prefix@
            + ".weight_scale"@ && artifact.tensors@.contains(tensor),
        artifact.spec_weight(prefix) is Err ==> forall|i: int|
            0 <= i < artifact.tensors@.len() ==> (#[trigger] artifact.tensors@[i]).name@ != prefix@
                + ".weight"@,
        artifact.spec_weight_scale(prefix) is Err ==> forall|i: int|
            0 <= i < artifact.tensors@.len() ==> (#[trigger] artifact.tensors@[i]).name@ != prefix@
                + ".weight_scale"@,
{
    first_of_a_name_is_found(artifact.tensors@, prefix@ + ".weight"@);
    first_of_a_name_is_found(artifact.tensors@, prefix@ + ".weight_scale"@);
}

/// Nothing is missing exactly if every layer has its weights and its scales.
pub proof fn nothing_is_missing(artifact: &ModelArtifact, prefixes: Seq<String>)
    ensures
        prefetch::missing_tensor(artifact, prefixes) is None <==> forall|i: int|
            0 <= i < prefixes.len() ==> artifact.spec_weight(&#[trigger] prefixes[i]) is Ok
                && artifact.spec_weight_scale(&prefixes[i]) is Ok,
    decreases prefixes.len(),
{
    if prefixes.len() > 0 {
        let rest = prefixes.drop_first();
        nothing_is_missing(artifact, rest);
        assert forall|i: int| 1 <= i < prefixes.len() implies #[trigger] prefixes[i] == rest[i - 1] by {}
        assert forall|i: int| 0 <= i < rest.len() implies #[trigger] rest[i] == prefixes[i + 1] by {}
    }
}

/// Prefetched layers lie in the arena one after the other, each with its scales directly
/// behind its weights, from where the arena was used up to before.
pub proof fn prefetched_layers_lie_in_a_row(
    before: CudaWeightLoader<'_>,
    after: CudaWeightLoader<'_>,
    pairs: Seq<TensorPair<'_>>,
    shard_len: Result<u64, AegisError>,
    available: Option<u64>,
    answer: Prefetched,
    i: int,
)
    requires
        prefetch::prefetched(before, after, pairs, shard_len, available, Ok(answer)),
        before.arena matches Some(arena) && arena.spec_used() + prefetch::pair_bytes(
            pairs,
            pairs.len() as int,
        ) <= usize::MAX,
        0 <= i < pairs.len(),
    ensures
        answer.places@.len() == pairs.len(),
        ({
            let (packed, scales) = answer.places@[i];
            &&& packed matches HostWeightBytes::Arena { offset, len }
            &&& scales matches HostWeightBytes::Arena { offset: next, len: rest }
            &&& len == pairs[i].packed.data_len_bytes
            &&& rest == pairs[i].scales.data_len_bytes
            &&& next == offset + len
            &&& i == 0 ==> offset == (before.arena->Some_0).spec_used()
            &&& i + 1 < pairs.len() ==> (answer.places@[i + 1].0 matches HostWeightBytes::Arena {
                offset: following,
                len: _,
            } && following == next + rest)
            &&& i + 1 == pairs.len() ==> (after.arena matches Some(grown) && grown.spec_used()
                == next + rest)
        }),
{
    lemma_pairs_grow(pairs, i, pairs.len() as int);
    lemma_pairs_grow(pairs, i + 1, pairs.len() as int);
}

proof fn lemma_pairs_grow(pairs: Seq<TensorPair<'_>>, i: int, n: int)
    requires
        0 <= i <= n,
    ensures
        0 <= prefetch::pair_bytes(pairs, i) <= prefetch::pair_bytes(pairs, n),
    decreases n,
{
    if n > i {
        lemma_pairs_grow(pairs, i, n - 1);
    } else if n > 0 {
        lemma_pairs_grow(pairs, i - 1, n - 1);
    }
}

/// A shard that is held is used again; another is read whole only if memory has room for it
/// twice and four gibibytes more, as far as is known.
pub proof fn shards_are_read_where_there_is_room(
    held: Option<Seq<char>>,
    path: Seq<char>,
    len: u64,
    available: Option<u64>,
)
    ensures
        ({
            let answer = prefetch::buffering_of(held, path, Ok(len), available);
            let room = available matches Some(bytes) ==> bytes >= 2 * len + 4 * 1024 * 1024 * 1024;
            &&& answer is Ok
            &&& answer->Ok_0 is Reuse <==> held == Some(path)
            &&& answer->Ok_0 is Read <==> held != Some(path) && room
            &&& answer->Ok_0 is Decline <==> held != Some(path) && !room
        }),
{
}

/// Reads below a mebibyte are done in one part, longer ones in at most eight.
pub proof fn reads_come_in_few_parts(len: int)
    requires
        0 < len,
    ensures
        len < 1024 * 1024 ==> storage::chunk_count(len) == 1,
        1 <= storage::chunk_count(len) <= 8,
{
    runtime::lemma_blocks(len, 8);
    if len < 1024 * 1024 {
        runtime::lemma_blocks(len, len);
        let n = runtime::blocks(len, len);
        assert(n == 1) by (nonlinear_arith)
            requires
                n * len >= len,
                (n - 1) * len < len,
                len > 0,
                0 <= n,
        ;
    } else {
        let size = runtime::blocks(len, 8);
        assert(size > 0);
        runtime::lemma_blocks(len, size);
        let n = runtime::blocks(len, size);
        assert(1 <= n <= 8) by (nonlinear_arith)
            requires
                n * size >= len,
                (n - 1) * size < len,
                len > 0,
                size > 0,
                size * 8 >= len,
        ;
    }
}

/// A numeral has the value of its decimal digits: one more multiplies by ten and adds, and
/// leading zeros or a plus make no difference.
pub proof fn numerals_are_decimal(digits: Seq<char>, digit: char)
    requires
        storage::all_digits(digits),
        storage::is_digit(digit),
    ensures
        storage::digits_value(digits.push(digit)) == 10 * storage::digits_value(digits) + (digit
            as int - '0' as int),
        storage::digits_value(seq!['0'] + digits) == storage::digits_value(digits),
        storage::digits_value(digits) >= 0,
        digits.len() > 0 ==> storage::numeral_value(seq!['+'] + digits) == storage::numeral_value(
            digits,
        ),
{
    assert(digits.push(digit).drop_last() =~= digits);
    lemma_leading_zero(digits);
    if digits.len() > 0 {
        assert((seq!['+'] + digits).skip(1) =~= digits);
        assert(storage::is_digit(digits[0]));
    }
}

proof fn lemma_leading_zero(digits: Seq<char>)
    requires
        storage::all_digits(digits),
    ensures
        storage::digits_value(seq!['0'] + digits) == storage::digits_value(digits),
        storage::digits_value(digits) >= 0,
    decreases digits.len(),
{
    let with = seq!['0'] + digits;
    if digits.len() == 0 {
        assert(with.drop_last() =~= Seq::empty());
        assert(storage::digits_value(with.drop_last()) == 0);
    } else {
        assert(with.drop_last() =~= seq!['0'] + digits.drop_last());
        assert forall|i: int| 0 <= i < digits.drop_last().len() implies storage::is_digit(
            #[trigger] digits.drop_last()[i],
        ) by {
            assert(storage::is_digit(digits[i]));
        }
        assert(storage::is_digit(digits[digits.len() - 1]));
        lemma_leading_zero(digits.drop_last());
    }
}

/// Trimming takes white characters off both ends, all of them and nothing else.
pub proof fn trimming_takes_white_ends(line: Seq<char>)
    ensures
        ({
            let kept = storage::trimmed(line);
            let front = storage::lead(line) as int;
            &&& front + kept.len() <= line.len()
            &&& kept == line.subrange(front, front + kept.len())
            &&& forall|i: int| 0 <= i < front ==> storage::is_white(#[trigger] line[i])
            &&& forall|i: int|
                front + kept.len() <= i < line.len() ==> storage::is_white(#[trigger] line[i])
            &&& kept.len() > 0 ==> !storage::is_white(kept[0]) && !storage::is_white(kept.last())
        }),
{
    lemma_lead(line);
    let front = storage::lead(line) as int;
    let rest = line.skip(front);
    lemma_tail(rest);
    let kept = storage::trimmed(line);
    assert(kept =~= line.subrange(front, front + kept.len()));
    assert forall|i: int| front + kept.len() <= i < line.len() implies storage::is_white(
        #[trigger] line[i],
    ) by {
        assert(rest[i - front] == line[i]);
    }
    if kept.len() > 0 {
        assert(kept[0] == line[front]);
        assert(kept.last() == rest[kept.len() - 1]);
    }
}

proof fn lemma_lead(line: Seq<char>)
    ensures
        storage::lead(line) <= line.len(),
        forall|i: int| 0 <= i < storage::lead(line) ==> storage::is_white(#[trigger] line[i]),
        storage::lead(line) < line.len() ==> !storage::is_white(line[storage::lead(line) as int]),
    decreases line.len(),
{
    if line.len() > 0 && storage::is_white(line[0]) {
        let rest = line.drop_first();
        lemma_lead(rest);
        assert forall|i: int| 1 <= i < line.len() implies #[trigger] line[i] == rest[i - 1] by {}
    }
}

proof fn lemma_tail(line: Seq<char>)
    ensures
        storage::tail(line) <= line.len(),
        forall|i: int|
            storage::tail(line) <= i < line.len() ==> storage::is_white(#[trigger] line[i]),
        storage::tail(line) > 0 ==> !storage::is_white(line[storage::tail(line) - 1]),
    decreases line.len(),
{
    if line.len() > 0 && storage::is_white(line.last()) {
        let rest = line.drop_last();
        lemma_tail(rest);
        assert forall|i: int| 0 <= i < rest.len() implies #[trigger] line[i] == rest[i] by {}
    }
}

/// What is available is what the first line of that name says, whatever follows it.
pub proof fn first_line_counts(before: Seq<char>, rest: Seq<char>, more: Seq<char>)
    requires
        forall|i: int| 0 <= i < before.len() ==> #[trigger] before[i] != '\n',
        forall|i: int| 0 <= i < rest.len() ==> #[trigger] rest[i] != '\n',
        !text::begins(before, "MemAvailable:"@),
    ensures
        storage::available(before + seq!['\n'] + "MemAvailable:"@ + rest + seq!['\n'] + more)
            == storage::line_bytes(rest),
        storage::available("MemAvailable:"@ + rest) == storage::line_bytes(rest),
{
    reveal_strlit("MemAvailable:");
    let name = "MemAvailable:"@;
    let line = name + rest;
    assert forall|i: int| 0 <= i < line.len() implies #[trigger] line[i] != '\n' by {
        if i >= name.len() {
            assert(line[i] == rest[i - name.len()]);
        }
    }
    lemma_line(line, Seq::empty());
    assert(line + Seq::<char>::empty() =~= line);
    assert(line.take(line.len() as int) =~= line);
    assert(line.take(name.len() as int) =~= name);
    assert(line.skip(name.len() as int) =~= rest);
    let after = seq!['\n'] + more;
    let second = line + after;
    let whole = before + seq!['\n'] + name + rest + seq!['\n'] + more;
    assert(whole =~= before + (seq!['\n'] + second));
    lemma_line(before, seq!['\n'] + second);
    assert(whole.take(before.len() as int) =~= before);
    assert(whole.skip(before.len() as int + 1) =~= second);
    lemma_line(line, after);
    assert(second.take(line.len() as int) =~= line);
    assert(storage::available(second) == storage::line_bytes(rest));
}

proof fn lemma_line(line: Seq<char>, after: Seq<char>)
    requires
        forall|i: int| 0 <= i < line.len() ==> #[trigger] line[i] != '\n',
        after.len() == 0 || after[0] == '\n',
    ensures
        storage::line_len(line + after) == line.len(),
    decreases line.len(),
{
    let whole = line + after;
    if line.len() > 0 {
        assert(whole.drop_first() =~= line.drop_first() + after);
        assert(whole[0] == line[0]);
        assert forall|i: int| 0 <= i < line.drop_first().len() implies #[trigger]
        line.drop_first()[i] != '\n' by {
            assert(line[i + 1] != '\n');
        }
        lemma_line(line.drop_first(), after);
    } else {
        assert(whole =~= after);
    }
}

/// Kilobytes are 1024 bytes, as many as a number can count.
pub proof fn kilobytes_are_counted_in_bytes(rest: Seq<char>)
    ensures
        storage::line_bytes(rest) matches Some(bytes) ==> 0 <= bytes <= u64::MAX && (bytes % 1024 == 0
            || bytes == u64::MAX),
{
    let inner = storage::trimmed(text::trimmed_end(storage::trimmed(rest), seq!['k', 'B']));
    let digits = storage::unsigned(inner);
    if storage::numeral_value(inner) is Some {
        lemma_leading_zero(digits);
    }
}

/// A suffix comes off what it was put on, and nothing else comes off.
pub proof fn suffixes_come_off(base: Seq<char>, suffix: Seq<char>)
    ensures
        text::stripped(base + suffix, suffix) == Some(base),
        text::stripped(base, suffix) matches Some(rest) ==> rest + suffix == base,
        text::ends(base + suffix, suffix),
        text::begins(base + suffix, base),
{
    let whole = base + suffix;
    assert(whole.take(base.len() as int) =~= base);
    assert(whole.skip(base.len() as int) =~= suffix);
    if text::stripped(base, suffix) is Some {
        assert(base.take(base.len() - suffix.len()) + base.skip(base.len() - suffix.len())
            =~= base);
    }
}

/// Every repetition of a suffix comes off, and what is left does not end with it.
pub proof fn repeated_suffixes_come_off(base: Seq<char>, suffix: Seq<char>)
    requires
        suffix.len() > 0,
    ensures
        text::trimmed_end(base + suffix, suffix) == text::trimmed_end(base, suffix),
        !text::ends(text::trimmed_end(base, suffix), suffix),
        !text::ends(base, suffix) ==> text::trimmed_end(base, suffix) == base,
    decreases base.len(),
{
    suffixes_come_off(base, suffix);
    assert((base + suffix).take(base.len() as int) =~= base);
    if text::ends(base, suffix) {
        repeated_suffixes_come_off(base.take(base.len() - suffix.len()), suffix);
    }
}

/// Directories are searched root by root, under each root suffix by suffix.
pub proof fn directories_are_listed_root_by_root(
    roots: Seq<Seq<char>>,
    suffixes: Seq<Seq<char>>,
    r: int,
    s: int,
)
    requires
        0 <= r < roots.len(),
        0 <= s < suffixes.len(),
    ensures
        compile::under(roots, suffixes).len() == roots.len() * suffixes.len(),
        compile::under(roots, suffixes)[r * suffixes.len() + s] == roots[r] + suffixes[s],
    decreases roots.len(),
{
    let before = roots.drop_last();
    let n = suffixes.len() as int;
    lemma_under_len(roots, suffixes);
    lemma_under_len(before, suffixes);
    assert(0 <= r * n && r * n + s < (r + 1) * n) by (nonlinear_arith)
        requires
            0 <= r,
            0 <= s < n,
    ;
    if r < before.len() {
        assert((r + 1) * n <= before.len() * n) by (nonlinear_arith)
            requires
                r + 1 <= before.len(),
                0 <= n,
        ;
        directories_are_listed_root_by_root(before, suffixes, r, s);
    }
}

proof fn lemma_under_len(roots: Seq<Seq<char>>, suffixes: Seq<Seq<char>>)
    ensures
        compile::under(roots, suffixes).len() == roots.len() * suffixes.len(),
    decreases roots.len(),
{
    if roots.len() > 0 {
        lemma_under_len(roots.drop_last(), suffixes);
        assert((roots.len() - 1) * suffixes.len() + suffixes.len() == roots.len() * suffixes.len())
            by (nonlinear_arith);
    }
}

/// Kernels are compiled for the architecture of the device's generation.
pub proof fn architectures_follow_the_generation(minor: Seq<char>)
    ensures
        compile::arch_for_capability("12."@ + minor)@ == "compute_120a"@,
        compile::arch_for_capability("10."@ + minor)@ == "compute_100"@,
        compile::arch_for_capability("9."@ + minor)@ == "compute_90"@,
        minor == "9"@ ==> compile::arch_for_capability("8."@ + minor)@ == "compute_89"@,
        minor != "9"@ ==> compile::arch_for_capability("8."@ + minor)@ == "compute_80"@,
{
    reveal_strlit("12.");
    reveal_strlit("10.");
    reveal_strlit("9.");
    reveal_strlit("8.");
    reveal_strlit("8.9");
    reveal_strlit("9");
    let (a, b, c, d) = ("12."@ + minor, "10."@ + minor, "9."@ + minor, "8."@ + minor);
    assert(a.take(3) =~= "12."@);
    assert(b.take(3) =~= "10."@);
    assert(c.take(2) =~= "9."@);
    assert(b[1] == '0' && b[0] == '1');
    assert(b.take(3)[1] == '0' && "12."@[1] == '2');
    assert(c[0] == '9' && d[0] == '8');
    if c.len() >= 3 {
        assert(c.take(3)[0] == '9' && "12."@[0] == '1' && "10."@[0] == '1');
    }
    if d.len() >= 3 {
        assert(d.take(3)[0] == '8');
    }
    assert(d.take(2)[0] == '8');
    if minor == "9"@ {
        assert(d =~= "8.9"@);
    } else if d == "8.9"@ {
        assert(d.skip(2) =~= minor);
        assert("8.9"@.skip(2) =~= "9"@);
    }
}

/// A device's capability is that of the first entry of its index.
pub proof fn first_entry_of_an_index_counts(
    before: Seq<compile::GpuInfo>,
    entry: compile::GpuInfo,
    after: Seq<compile::GpuInfo>,
    device: usize,
)
    requires
        entry.index == device,
        forall|i: int| 0 <= i < before.len() ==> (#[trigger] before[i]).index != device,
    ensures
        compile::reported_capability(before.push(entry) + after, device) == (
        match entry.compute_capability {
            Some(text) => Some(text@),
            None => None,
        }),
        compile::reported_capability(before, device) is None,
    decreases before.len(),
{
    let all = before.push(entry) + after;
    if before.len() == 0 {
        assert(all[0] == entry);
    } else {
        let rest = before.skip(1);
        assert(all.skip(1) =~= rest.push(entry) + after);
        assert(all[0] == before[0]);
        assert forall|i: int| 0 <= i < rest.len() implies (#[trigger] rest[i]).index != device by {
            assert(before[i + 1].index != device);
        }
        first_entry_of_an_index_counts(rest, entry, after, device);
    }
}

/// Tensors share a file exactly if there are some, and all of them, weights and scales, name
/// the same one.
pub proof fn shared_files_hold_every_tensor(pairs: Seq<TensorPair<'_>>)
    ensures
        prefetch::share_a_shard(pairs) <==> pairs.len() > 0 && forall|i: int, j: int|
            0 <= i < pairs.len() && 0 <= j < pairs.len() ==> (#[trigger] pairs[i]).packed.shard_path@
                == (#[trigger] pairs[j]).scales.shard_path@,
{
    let alike = forall|i: int, j: int|
        0 <= i < pairs.len() && 0 <= j < pairs.len() ==> (#[trigger] pairs[i]).packed.shard_path@
            == (#[trigger] pairs[j]).scales.shard_path@;
    if pairs.len() > 0 && alike {
        assert forall|i: int| 0 <= i < pairs.len() implies (#[trigger] pairs[i]).packed.shard_path@
            == pairs[0].packed.shard_path@ && pairs[i].scales.shard_path@
            == pairs[0].packed.shard_path@ by {
            assert(pairs[i].packed.shard_path@ == pairs[0].scales.shard_path@);
            assert(pairs[0].packed.shard_path@ == pairs[0].scales.shard_path@);
            assert(pairs[0].packed.shard_path@ == pairs[i].scales.shard_path@);
        }
    }
}

/// Of each sign one E4M3 code is no number; it is read as the quiet one, and every other code
/// as a number.
pub proof fn one_code_of_each_sign_is_no_number(byte: u8)
    ensures
        numeric::is_nan(numeric::e4m3_bits(byte)) <==> byte == 0x7F || byte == 0xFF,
        byte == 0x7F || byte == 0xFF ==> numeric::e4m3_bits(byte) == 0x7FC0_0000,
{
}

} // verus!
