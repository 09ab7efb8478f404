//! What decoding computes: one query token, each head over its own key/value head, with the
//! chunks of a split sequence combined head by head.
use crate::functions::Kernel;
use crate::kernels::{self, Decode};
use crate::launch::{Arg, LaunchView, Operand, StepView};
use crate::runtime;
use crate::runtime::attention;
use crate::runtime::attention::decode::{self, DecodeTexts, EagerTexts, SplitTexts};
use vstd::prelude::*;

verus! {

/// A launch decodes with these extents, one block for each query head along the first axis.
pub open spec fn decodes(
    launch: LaunchView,
    length: Arg,
    heads: int,
    kv_heads: int,
    head_dim: int,
    window: int,
) -> bool {
    &&& kernels::decode(launch) == (Decode {
        keys: Arg::Buffer(Operand::KeyCache),
        values: Arg::Buffer(Operand::ValueCache),
        query: Arg::Buffer(Operand::Query),
        length,
        heads,
        kv_heads,
        head_dim,
        window,
    })
    &&& heads % kv_heads == 0
    &&& launch.config.grid_dim.0 == heads
    &&& launch.config.block_dim == (kernels::attention_threads(launch.kernel) as u32, 1u32, 1u32)
}

/// Decoding on a length that the device reads: every head's row lies within the query and
/// the output, and shared memory holds the scores of the longest sequence and one number for
/// each thread. Caches of eight-bit numbers go to the kernel for them.
pub proof fn decode_on_device_length_attends(
    fp8: bool,
    query: int,
    output: int,
    heads: int,
    kv_heads: int,
    head_dim: int,
    window_size: int,
)
    requires
        0 <= heads,
        0 <= kv_heads,
        0 <= head_dim,
        0 <= window_size,
    ensures
        decode::decode_ptr_steps(
            if fp8 {
                DecodeTexts::spec_fp8()
            } else {
                DecodeTexts::spec_half()
            },
            query,
            output,
            heads,
            kv_heads,
            head_dim,
            window_size,
        ) matches Ok(steps) ==> {
            &&& steps.len() == 1
            &&& steps[0] matches StepView::Launch(launch)
            &&& launch.kernel == (if fp8 {
                Kernel::AttentionDecodePtrFp8
            } else {
                Kernel::AttentionPtr
            })
            &&& decodes(
                launch,
                Arg::Buffer(Operand::SeqLen),
                heads,
                kv_heads,
                head_dim,
                window_size,
            )
            &&& launch.args.len() == 9
            &&& launch.args[8] == Arg::Buffer(Operand::Output)
            &&& launch.config.grid_dim.1 == 1 && launch.config.grid_dim.2 == 1
            &&& launch.config.shared_mem_bytes == 4 * (8192 + 128)
            &&& heads * head_dim <= query
            &&& heads * head_dim <= output
        },
{
}

/// Split decoding: one block for each head and chunk; the chunks hold the sequence; each
/// head's partial rows lie within the scratch; the combination takes as many chunks from
/// there for each head as were left.
pub proof fn split_decode_attends(
    fp8: bool,
    key_cache: int,
    query: int,
    output: int,
    acc: int,
    m: int,
    l: int,
    heads: int,
    kv_heads: int,
    head_dim: int,
    window_size: int,
    seq_len_hint: int,
)
    requires
        0 <= key_cache,
        0 <= heads,
        0 <= kv_heads,
        0 <= head_dim,
        0 <= window_size,
        0 <= seq_len_hint,
    ensures
        decode::decode_split_steps(
            if fp8 {
                SplitTexts::spec_fp8()
            } else {
                SplitTexts::spec_half()
            },
            key_cache,
            query,
            output,
            acc,
            m,
            l,
            heads,
            kv_heads,
            head_dim,
            window_size,
            seq_len_hint,
        ) matches Ok(steps) ==> {
            &&& steps.len() == 2
            &&& steps[0] matches StepView::Launch(split)
            &&& steps[1] matches StepView::Launch(joined)
            &&& {
                let chunks = kernels::number(split.args[7]);
                let chunk = kernels::number(split.args[8]);
                let capacity = kernels::number(split.args[10]);
                &&& split.kernel == (if fp8 {
                    Kernel::AttentionDecodePtrSplitFp8
                } else {
                    Kernel::AttentionDecodePtrSplit
                })
                &&& decodes(
                    split,
                    Arg::Buffer(Operand::SeqLen),
                    heads,
                    kv_heads,
                    head_dim,
                    window_size,
                )
                &&& split.args.len() == 14
                &&& split.config.grid_dim.1 == chunks && split.config.grid_dim.2 == 1
                &&& chunks == 16
                &&& chunk >= 512 && chunks * chunk >= seq_len_hint
                &&& chunk > 512 ==> chunks * (chunk - 1) < seq_len_hint
                &&& split.config.shared_mem_bytes == 4 * (chunk + 4 + 4 * head_dim)
                &&& capacity * (kv_heads * head_dim) <= key_cache < (capacity + 1) * (kv_heads
                    * head_dim)
                &&& split.args[11] == Arg::Buffer(Operand::SplitAcc)
                &&& split.args[12] == Arg::Buffer(Operand::SplitM)
                &&& split.args[13] == Arg::Buffer(Operand::SplitL)
                &&& heads * chunks * head_dim <= acc
                &&& heads * chunks <= m
                &&& heads * chunks <= l
                &&& joined.kernel is AttentionDecodePtrCombine
                &&& joined.args.len() == 6
                &&& joined.args[0] == split.args[11]
                &&& joined.args[1] == split.args[12]
                &&& joined.args[2] == split.args[13]
                &&& kernels::number(joined.args[3]) == head_dim
                &&& kernels::number(joined.args[4]) == chunks
                &&& joined.args[5] == Arg::Buffer(Operand::Output)
                &&& joined.config.grid_dim.0 == heads
                &&& joined.config.grid_dim.1 == 1 && joined.config.grid_dim.2 == 1
                &&& joined.config.block_dim == (128u32, 1u32, 1u32)
                &&& joined.config.shared_mem_bytes == 0
                &&& heads * head_dim <= query
                &&& heads * head_dim <= output
            }
        },
{
    runtime::lemma_blocks(seq_len_hint, 16);
    if kv_heads > 0 && head_dim > 0 {
        let width = kv_heads * head_dim;
        vstd::arithmetic::mul::lemma_mul_strictly_positive(kv_heads, head_dim);
        vstd::arithmetic::div_mod::lemma_fundamental_div_mod(key_cache, width);
        vstd::arithmetic::div_mod::lemma_mod_bound(key_cache, width);
        vstd::arithmetic::div_mod::lemma_div_pos_is_pos(key_cache, width);
        let whole = key_cache / width;
        assert(whole * width <= key_cache < (whole + 1) * width) by (nonlinear_arith)
            requires
                key_cache == width * whole + key_cache % width,
                0 <= key_cache % width < width,
        ;
    }
}

/// Decoding on a length that the host knows: both caches hold every position of the
/// sequence; the plain kernel serves it exactly while its scores and one number for each
/// thread fit in the shared memory that every kernel has, the streaming kernel beyond.
pub proof fn eager_decode_attends(
    fp8: bool,
    key_cache: int,
    value_cache: int,
    query: int,
    output: int,
    seq_len: int,
    heads: int,
    kv_heads: int,
    head_dim: int,
    window_size: int,
)
    requires
        0 <= seq_len,
        0 <= heads,
        0 <= kv_heads,
        0 <= head_dim,
        0 <= window_size,
    ensures
        decode::decode_eager_steps(
            if fp8 {
                EagerTexts::spec_fp8()
            } else {
                EagerTexts::spec_half()
            },
            key_cache,
            value_cache,
            query,
            output,
            seq_len,
            heads,
            kv_heads,
            head_dim,
            window_size,
        ) matches Ok(steps) ==> {
            let plain = 4 * (seq_len + 128) <= 48 * 1024;
            &&& steps.len() == 1
            &&& steps[0] matches StepView::Launch(launch)
            &&& launch.kernel == (if fp8 && plain {
                Kernel::AttentionDecodeFp8
            } else if fp8 {
                Kernel::AttentionDecodeStreamingFp8
            } else if plain {
                Kernel::Attention
            } else {
                Kernel::AttentionDecodeStreaming
            })
            &&& decodes(
                launch,
                Arg::U32(seq_len as u32),
                heads,
                kv_heads,
                head_dim,
                window_size,
            )
            &&& kernels::number(launch.args[3]) == seq_len
            &&& launch.args.len() == 9
            &&& launch.args[8] == Arg::Buffer(Operand::Output)
            &&& launch.config.grid_dim.1 == 1 && launch.config.grid_dim.2 == 1
            &&& launch.config.shared_mem_bytes == 4 * (if plain {
                seq_len + 128
            } else {
                head_dim + 3 + 128
            })
            &&& seq_len >= 1
            &&& seq_len * (kv_heads * head_dim) <= key_cache
            &&& seq_len * (kv_heads * head_dim) <= value_cache
            &&& heads * head_dim <= query
            &&& heads * head_dim <= output
        },
{
}

/// Decoding is accepted wherever the heads are divided evenly, the buffers hold them, and
/// every extent fits its parameter and the shared memory its block.
pub proof fn decodes_what_fits(
    texts: EagerTexts,
    key_cache: int,
    value_cache: int,
    query: int,
    output: int,
    seq_len: int,
    heads: int,
    kv_heads: int,
    head_dim: int,
    window_size: int,
)
    requires
        0 < seq_len <= u32::MAX,
        0 < heads <= u32::MAX,
        0 < kv_heads <= u32::MAX,
        0 < head_dim <= 8192,
        0 <= window_size <= u32::MAX,
        heads % kv_heads == 0,
        heads * head_dim <= query <= usize::MAX,
        heads * head_dim <= output <= usize::MAX,
        seq_len * (kv_heads * head_dim) <= key_cache <= usize::MAX,
        seq_len * (kv_heads * head_dim) <= value_cache <= usize::MAX,
    ensures
        decode::decode_eager_steps(
            texts,
            key_cache,
            value_cache,
            query,
            output,
            seq_len,
            heads,
            kv_heads,
            head_dim,
            window_size,
        ) is Ok,
{
    attention::lemma_kv_width(heads, kv_heads, head_dim);
}

} // verus!
