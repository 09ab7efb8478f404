//! Decode attention: one query token against a key/value cache.
use super::{
    checked_len, u32_arg, validate_dynamic_shared_bytes, validate_dynamic_shared_bytes_with_cap,
    CUDA_ATTENTION_BLOCK_DIM, CUDA_GRAPH_ATTN_MAX_SEQ_LEN, DECODE_MAX_CHUNK_LEN, DECODE_SPLIT_K,
    SHARED_BYTES_LIMIT, SHARED_BYTES_OPT_IN,
};
use crate::error::{invalid_plan, number, AegisError, Value, Values};
use crate::functions::Kernel;
use crate::launch::{Arg, Launch, LaunchConfig, Operand, Plan, StepView};
use crate::runtime::{self, div_ceil, CudaRuntime};
use crate::types::{DeviceBuffer, F32};
use vstd::prelude::*;

verus! {

/// What tells the variants of a decode launch apart: the kernel and the words
/// of its messages.
#[derive(Clone, Copy)]
pub struct DecodeTexts {
    pub zero_dims: &'static str,
    pub query: &'static str,
    pub mismatch: &'static str,
    pub indivisible: &'static str,
    pub shared: &'static str,
    pub stage: &'static str,
    pub kernel: Kernel,
}

/// What tells the variants of a split-K decode apart.
#[derive(Clone, Copy)]
pub struct SplitTexts {
    pub zero_dims: &'static str,
    pub query: &'static str,
    pub mismatch: &'static str,
    /// The mismatch message shows the lengths.
    pub mismatch_lengths: bool,
    pub partial: &'static str,
    pub partial_acc: &'static str,
    pub scratch: &'static str,
    pub indivisible: &'static str,
    pub shared: &'static str,
    pub split_stage: &'static str,
    pub combine_stage: &'static str,
    pub kernel: Kernel,
}

/// What tells the variants of an eager decode apart.
#[derive(Clone, Copy)]
pub struct EagerTexts {
    pub zero_dims: &'static str,
    pub query: &'static str,
    pub kv_width: &'static str,
    pub mismatch: &'static str,
    pub key_cache: &'static str,
    pub value_cache: &'static str,
    pub cache_mismatch: &'static str,
    pub indivisible: &'static str,
    pub streaming_shared: &'static str,
    pub shared: &'static str,
    pub stage: &'static str,
    pub streaming_kernel: Kernel,
    pub kernel: Kernel,
}

/// The error for heads or a head dimension of zero.
pub open spec fn zero_dims(text: &'static str, heads: int, kv_heads: int, head_dim: int) -> AegisError {
    AegisError::invalid_with(
        text,
        Values::Three(Value::num(heads), Value::num(kv_heads), Value::num(head_dim)),
    )
}

/// Decode whose sequence length is read on the device: one block per query head
/// and shared memory for the longest sequence of a captured graph.
pub open spec fn decode_ptr_steps(
    texts: DecodeTexts,
    query: int,
    output: int,
    heads: int,
    kv_heads: int,
    head_dim: int,
    window_size: int,
) -> Result<Seq<StepView>, AegisError> {
    if kv_heads == 0 || heads == 0 || head_dim == 0 {
        Err(zero_dims(texts.zero_dims, heads, kv_heads, head_dim))
    } else if heads * head_dim > usize::MAX {
        Err(super::long_product(texts.query, heads, head_dim))
    } else if query < heads * head_dim || output < heads * head_dim {
        Err(AegisError::invalid(texts.mismatch))
    } else if heads % kv_heads != 0 {
        Err(AegisError::invalid(texts.indivisible))
    } else if heads > u32::MAX {
        Err(super::wide("num_attention_heads", heads))
    } else if kv_heads > u32::MAX {
        Err(super::wide("num_kv_heads", kv_heads))
    } else if head_dim > u32::MAX {
        Err(super::wide("head_dim", head_dim))
    } else if window_size > u32::MAX {
        Err(super::wide("window_size", window_size))
    } else {
        Ok(
            seq![
                StepView::launching(
                    texts.kernel,
                    texts.stage,
                    LaunchConfig::of(
                        heads,
                        1,
                        1,
                        CUDA_ATTENTION_BLOCK_DIM as int,
                        (CUDA_GRAPH_ATTN_MAX_SEQ_LEN + CUDA_ATTENTION_BLOCK_DIM) * 4,
                    ),
                    seq![
                        Arg::Buffer(Operand::KeyCache),
                        Arg::Buffer(Operand::ValueCache),
                        Arg::Buffer(Operand::Query),
                        Arg::Buffer(Operand::SeqLen),
                        Arg::word(heads),
                        Arg::word(kv_heads),
                        Arg::word(head_dim),
                        Arg::word(window_size),
                        Arg::Buffer(Operand::Output),
                    ],
                ),
            ],
        )
    }
}

/// Plans the launch of [`decode_ptr_steps`].
fn plan_decode_ptr(
    texts: DecodeTexts,
    query: &DeviceBuffer<F32>,
    num_attention_heads: usize,
    num_kv_heads: usize,
    head_dim: usize,
    window_size: usize,
    output: &DeviceBuffer<F32>,
) -> (plan: Result<Plan, AegisError>)
    ensures
        Plan::outcome(plan) =~~= decode_ptr_steps(
            texts,
            query.len() as int,
            output.len() as int,
            num_attention_heads as int,
            num_kv_heads as int,
            head_dim as int,
            window_size as int,
        ),
{
    if num_kv_heads == 0 || num_attention_heads == 0 || head_dim == 0 {
        return Err(
            invalid_plan(
                texts.zero_dims,
                Values::Three(number(num_attention_heads), number(num_kv_heads), number(head_dim)),
            ),
        );
    }
    let query_len: usize = checked_len(texts.query, num_attention_heads, head_dim)?;
    if query.len() < query_len || output.len() < query_len {
        return Err(invalid_plan(texts.mismatch, Values::Zero));
    }
    if num_attention_heads % num_kv_heads != 0 {
        return Err(invalid_plan(texts.indivisible, Values::Zero));
    }
    let heads: u32 = u32_arg("num_attention_heads", num_attention_heads)?;
    let kv_heads: u32 = u32_arg("num_kv_heads", num_kv_heads)?;
    let dim: u32 = u32_arg("head_dim", head_dim)?;
    let window: u32 = u32_arg("window_size", window_size)?;
    let shared_mem_bytes: u32 = validate_dynamic_shared_bytes(
        texts.shared,
        (CUDA_GRAPH_ATTN_MAX_SEQ_LEN as u64 + CUDA_ATTENTION_BLOCK_DIM as u64) * 4,
    )?;
    let args = vec![
        Arg::Buffer(Operand::KeyCache),
        Arg::Buffer(Operand::ValueCache),
        Arg::Buffer(Operand::Query),
        Arg::Buffer(Operand::SeqLen),
        Arg::U32(heads),
        Arg::U32(kv_heads),
        Arg::U32(dim),
        Arg::U32(window),
        Arg::Buffer(Operand::Output),
    ];
    let config = LaunchConfig {
        grid_dim: (heads, 1, 1),
        block_dim: (CUDA_ATTENTION_BLOCK_DIM, 1, 1),
        shared_mem_bytes,
    };
    Ok(Plan::launch(texts.kernel, texts.stage, config, args))
}

/// Score slots per chunk: those of a captured graph, or as many as the chunk of
/// a longer sequence needs.
pub open spec fn effective_chunk_len(seq_len_hint: int) -> int {
    let chunk = runtime::blocks(seq_len_hint, DECODE_SPLIT_K as int);
    if chunk > DECODE_MAX_CHUNK_LEN {
        chunk
    } else {
        DECODE_MAX_CHUNK_LEN as int
    }
}

/// Shared memory of a split: the scores of a chunk, one partial maximum per
/// warp, and one value vector per warp.
pub open spec fn split_shared_bytes(seq_len_hint: int, head_dim: int) -> int {
    (effective_chunk_len(seq_len_hint) + 4 + 4 * head_dim) * 4
}

/// Split-K decode: one block per head and chunk, and a second launch that
/// combines the chunks of each head.
pub open spec fn decode_split_steps(
    texts: SplitTexts,
    key_cache: int,
    query: int,
    output: int,
    acc: int,
    m: int,
    l: int,
    heads: int,
    kv_heads: int,
    head_dim: int,
    window_size: int,
    seq_len_hint: int,
) -> Result<Seq<StepView>, AegisError> {
    let query_len = heads * head_dim;
    let partial = heads * DECODE_SPLIT_K;
    let partial_acc = partial * head_dim;
    let chunk = effective_chunk_len(seq_len_hint);
    let cache_capacity = key_cache / (kv_heads * head_dim);
    let shared = split_shared_bytes(seq_len_hint, head_dim);
    if kv_heads == 0 || heads == 0 || head_dim == 0 {
        Err(zero_dims(texts.zero_dims, heads, kv_heads, head_dim))
    } else if query_len > usize::MAX {
        Err(super::long_product(texts.query, heads, head_dim))
    } else if query < query_len || output < query_len {
        Err(
            AegisError::invalid_with(
                texts.mismatch,
                if texts.mismatch_lengths {
                    Values::Three(Value::num(query), Value::num(output), Value::num(query_len))
                } else {
                    Values::Zero
                },
            ),
        )
    } else if partial > usize::MAX {
        Err(super::long_product(texts.partial, heads, DECODE_SPLIT_K as int))
    } else if partial_acc > usize::MAX {
        Err(super::long_product(texts.partial_acc, partial, head_dim))
    } else if acc < partial_acc || m < partial || l < partial {
        Err(
            AegisError::invalid_with(
                texts.scratch,
                Values::Five(
                    Value::num(acc),
                    Value::num(m),
                    Value::num(l),
                    Value::num(partial_acc),
                    Value::num(partial),
                ),
            ),
        )
    } else if heads % kv_heads != 0 {
        Err(AegisError::invalid(texts.indivisible))
    } else if heads > u32::MAX {
        Err(super::wide("num_attention_heads", heads))
    } else if kv_heads > u32::MAX {
        Err(super::wide("num_kv_heads", kv_heads))
    } else if head_dim > u32::MAX {
        Err(super::wide("head_dim", head_dim))
    } else if chunk > u32::MAX {
        Err(super::wide("max_chunk_len", chunk))
    } else if window_size > u32::MAX {
        Err(super::wide("window_size", window_size))
    } else if cache_capacity > u32::MAX {
        Err(super::wide("cache_capacity", cache_capacity))
    } else if shared > SHARED_BYTES_OPT_IN {
        Err(super::shared_excess_with_cap(texts.shared, shared, SHARED_BYTES_OPT_IN as int))
    } else {
        Ok(
            seq![
                StepView::launching(
                    texts.kernel,
                    texts.split_stage,
                    LaunchConfig::of(
                        heads,
                        DECODE_SPLIT_K as int,
                        1,
                        CUDA_ATTENTION_BLOCK_DIM as int,
                        shared,
                    ),
                    seq![
                        Arg::Buffer(Operand::KeyCache),
                        Arg::Buffer(Operand::ValueCache),
                        Arg::Buffer(Operand::Query),
                        Arg::Buffer(Operand::SeqLen),
                        Arg::word(heads),
                        Arg::word(kv_heads),
                        Arg::word(head_dim),
                        Arg::word(DECODE_SPLIT_K as int),
                        Arg::word(chunk),
                        Arg::word(window_size),
                        Arg::word(cache_capacity),
                        Arg::Buffer(Operand::SplitAcc),
                        Arg::Buffer(Operand::SplitM),
                        Arg::Buffer(Operand::SplitL),
                    ],
                ),
                StepView::launching(
                    Kernel::AttentionDecodePtrCombine,
                    texts.combine_stage,
                    LaunchConfig::of(heads, 1, 1, CUDA_ATTENTION_BLOCK_DIM as int, 0),
                    seq![
                        Arg::Buffer(Operand::SplitAcc),
                        Arg::Buffer(Operand::SplitM),
                        Arg::Buffer(Operand::SplitL),
                        Arg::word(head_dim),
                        Arg::word(DECODE_SPLIT_K as int),
                        Arg::Buffer(Operand::Output),
                    ],
                ),
            ],
        )
    }
}

/// Plans the launches of [`decode_split_steps`].
fn plan_decode_split<T>(
    texts: SplitTexts,
    key_cache: &DeviceBuffer<T>,
    query: &DeviceBuffer<F32>,
    num_attention_heads: usize,
    num_kv_heads: usize,
    head_dim: usize,
    window_size: usize,
    seq_len_hint: usize,
    partial_acc: &DeviceBuffer<F32>,
    partial_m: &DeviceBuffer<F32>,
    partial_l: &DeviceBuffer<F32>,
    output: &DeviceBuffer<F32>,
) -> (plan: Result<Plan, AegisError>)
    ensures
        Plan::outcome(plan) =~~= decode_split_steps(
            texts,
            key_cache.len() as int,
            query.len() as int,
            output.len() as int,
            partial_acc.len() as int,
            partial_m.len() as int,
            partial_l.len() as int,
            num_attention_heads as int,
            num_kv_heads as int,
            head_dim as int,
            window_size as int,
            seq_len_hint as int,
        ),
{
    if num_kv_heads == 0 || num_attention_heads == 0 || head_dim == 0 {
        return Err(
            invalid_plan(
                texts.zero_dims,
                Values::Three(number(num_attention_heads), number(num_kv_heads), number(head_dim)),
            ),
        );
    }
    let query_len: usize = checked_len(texts.query, num_attention_heads, head_dim)?;
    if query.len() < query_len || output.len() < query_len {
        return Err(
            invalid_plan(
                texts.mismatch,
                if texts.mismatch_lengths {
                    Values::Three(number(query.len()), number(output.len()), number(query_len))
                } else {
                    Values::Zero
                },
            ),
        );
    }
    let partial_len: usize = checked_len(texts.partial, num_attention_heads, DECODE_SPLIT_K)?;
    let partial_acc_len: usize = checked_len(texts.partial_acc, partial_len, head_dim)?;
    if partial_acc.len() < partial_acc_len || partial_m.len() < partial_len || partial_l.len()
        < partial_len {
        return Err(
            invalid_plan(
                texts.scratch,
                Values::Five(
                    number(partial_acc.len()),
                    number(partial_m.len()),
                    number(partial_l.len()),
                    number(partial_acc_len),
                    number(partial_len),
                ),
            ),
        );
    }
    if num_attention_heads % num_kv_heads != 0 {
        return Err(invalid_plan(texts.indivisible, Values::Zero));
    }
    let heads: u32 = u32_arg("num_attention_heads", num_attention_heads)?;
    let kv_heads: u32 = u32_arg("num_kv_heads", num_kv_heads)?;
    let dim: u32 = u32_arg("head_dim", head_dim)?;
    let split_k: u32 = u32_arg("split_k", DECODE_SPLIT_K)?;
    let chunk_for_seq: usize = div_ceil(seq_len_hint, DECODE_SPLIT_K);
    let chunk_len: usize = if chunk_for_seq > DECODE_MAX_CHUNK_LEN {
        chunk_for_seq
    } else {
        DECODE_MAX_CHUNK_LEN
    };
    let chunk: u32 = u32_arg("max_chunk_len", chunk_len)?;
    let window: u32 = u32_arg("window_size", window_size)?;
    proof {
        super::lemma_kv_width(num_attention_heads as int, num_kv_heads as int, head_dim as int);
    }
    let kv_width: usize = num_kv_heads * head_dim;
    let cache_capacity: u32 = u32_arg("cache_capacity", key_cache.len() / kv_width)?;
    let split_shared: u32 = validate_dynamic_shared_bytes_with_cap(
        texts.shared,
        (chunk as u64 + 4 + 4 * dim as u64) * 4,
        SHARED_BYTES_OPT_IN as u32,
    )?;
    let split = Launch::new(
        texts.kernel,
        texts.split_stage,
        LaunchConfig {
            grid_dim: (heads, split_k, 1),
            block_dim: (CUDA_ATTENTION_BLOCK_DIM, 1, 1),
            shared_mem_bytes: split_shared,
        },
        vec![
            Arg::Buffer(Operand::KeyCache),
            Arg::Buffer(Operand::ValueCache),
            Arg::Buffer(Operand::Query),
            Arg::Buffer(Operand::SeqLen),
            Arg::U32(heads),
            Arg::U32(kv_heads),
            Arg::U32(dim),
            Arg::U32(split_k),
            Arg::U32(chunk),
            Arg::U32(window),
            Arg::U32(cache_capacity),
            Arg::Buffer(Operand::SplitAcc),
            Arg::Buffer(Operand::SplitM),
            Arg::Buffer(Operand::SplitL),
        ],
    );
    let combine = Launch::new(
        Kernel::AttentionDecodePtrCombine,
        texts.combine_stage,
        LaunchConfig {
            grid_dim: (heads, 1, 1),
            block_dim: (CUDA_ATTENTION_BLOCK_DIM, 1, 1),
            shared_mem_bytes: 0,
        },
        vec![
            Arg::Buffer(Operand::SplitAcc),
            Arg::Buffer(Operand::SplitM),
            Arg::Buffer(Operand::SplitL),
            Arg::U32(dim),
            Arg::U32(split_k),
            Arg::Buffer(Operand::Output),
        ],
    );
    Ok(Plan::launch_both(split, combine))
}

/// Shared memory of the plain eager decode kernel: the scores of the sequence
/// and one slot per thread.
pub open spec fn eager_shared_bytes(seq_len: int) -> int {
    seq_len * 4 + CUDA_ATTENTION_BLOCK_DIM * 4
}

/// Decode whose sequence length the host knows: the plain kernel while the scores
/// fit in shared memory, the streaming kernel beyond.
pub open spec fn decode_eager_steps(
    texts: EagerTexts,
    key_cache: int,
    value_cache: int,
    query: int,
    output: int,
    seq_len: int,
    heads: int,
    kv_heads: int,
    head_dim: int,
    window_size: int,
) -> Result<Seq<StepView>, AegisError> {
    let query_len = heads * head_dim;
    let kv_width = kv_heads * head_dim;
    let cache_len = seq_len * kv_width;
    let plain = eager_shared_bytes(seq_len) <= SHARED_BYTES_LIMIT;
    let streaming_shared = (CUDA_ATTENTION_BLOCK_DIM + head_dim + 3) * 4;
    if kv_heads == 0 || heads == 0 || head_dim == 0 {
        Err(zero_dims(texts.zero_dims, heads, kv_heads, head_dim))
    } else if query_len > usize::MAX {
        Err(super::long_product(texts.query, heads, head_dim))
    } else if kv_width > usize::MAX {
        Err(super::long_product(texts.kv_width, kv_heads, head_dim))
    } else if query < query_len || output < query_len {
        Err(AegisError::invalid(texts.mismatch))
    } else if cache_len > usize::MAX {
        Err(super::long_product(texts.key_cache, seq_len, kv_width))
    } else if seq_len == 0 || key_cache < cache_len || value_cache < cache_len {
        Err(
            AegisError::invalid_with(
                texts.cache_mismatch,
                Values::Four(
                    Value::num(seq_len),
                    Value::num(kv_width),
                    Value::num(key_cache),
                    Value::num(value_cache),
                ),
            ),
        )
    } else if heads % kv_heads != 0 {
        Err(AegisError::invalid(texts.indivisible))
    } else if seq_len > u32::MAX {
        Err(super::wide("seq_len", seq_len))
    } else if heads > u32::MAX {
        Err(super::wide("num_attention_heads", heads))
    } else if kv_heads > u32::MAX {
        Err(super::wide("num_kv_heads", kv_heads))
    } else if head_dim > u32::MAX {
        Err(super::wide("head_dim", head_dim))
    } else if window_size > u32::MAX {
        Err(super::wide("window_size", window_size))
    } else if !plain && streaming_shared > SHARED_BYTES_LIMIT {
        Err(super::shared_excess(texts.streaming_shared, streaming_shared))
    } else {
        Ok(
            seq![
                StepView::launching(
                    if plain {
                        texts.kernel
                    } else {
                        texts.streaming_kernel
                    },
                    texts.stage,
                    LaunchConfig::of(
                        heads,
                        1,
                        1,
                        CUDA_ATTENTION_BLOCK_DIM as int,
                        if plain {
                            eager_shared_bytes(seq_len)
                        } else {
                            streaming_shared
                        },
                    ),
                    seq![
                        Arg::Buffer(Operand::KeyCache),
                        Arg::Buffer(Operand::ValueCache),
                        Arg::Buffer(Operand::Query),
                        Arg::word(seq_len),
                        Arg::word(heads),
                        Arg::word(kv_heads),
                        Arg::word(head_dim),
                        Arg::word(window_size),
                        Arg::Buffer(Operand::Output),
                    ],
                ),
            ],
        )
    }
}

/// Plans the launch of [`decode_eager_steps`].
fn plan_decode_eager<T>(
    texts: EagerTexts,
    key_cache: &DeviceBuffer<T>,
    value_cache: &DeviceBuffer<T>,
    query: &DeviceBuffer<F32>,
    seq_len: usize,
    num_attention_heads: usize,
    num_kv_heads: usize,
    head_dim: usize,
    window_size: usize,
    output: &DeviceBuffer<F32>,
) -> (plan: Result<Plan, AegisError>)
    ensures
        Plan::outcome(plan) =~~= decode_eager_steps(
            texts,
            key_cache.len() as int,
            value_cache.len() as int,
            query.len() as int,
            output.len() as int,
            seq_len as int,
            num_attention_heads as int,
            num_kv_heads as int,
            head_dim as int,
            window_size as int,
        ),
{
    if num_kv_heads == 0 || num_attention_heads == 0 || head_dim == 0 {
        return Err(
            invalid_plan(
                texts.zero_dims,
                Values::Three(number(num_attention_heads), number(num_kv_heads), number(head_dim)),
            ),
        );
    }
    let query_len: usize = checked_len(texts.query, num_attention_heads, head_dim)?;
    let kv_width: usize = checked_len(texts.kv_width, num_kv_heads, head_dim)?;
    if query.len() < query_len || output.len() < query_len {
        return Err(invalid_plan(texts.mismatch, Values::Zero));
    }
    let missing = seq_len == 0 || key_cache.len() < checked_len(texts.key_cache, seq_len, kv_width)?
        || value_cache.len() < checked_len(texts.value_cache, seq_len, kv_width)?;
    if missing {
        return Err(
            invalid_plan(
                texts.cache_mismatch,
                Values::Four(
                    number(seq_len),
                    number(kv_width),
                    number(key_cache.len()),
                    number(value_cache.len()),
                ),
            ),
        );
    }
    if num_attention_heads % num_kv_heads != 0 {
        return Err(invalid_plan(texts.indivisible, Values::Zero));
    }
    let seq: u32 = u32_arg("seq_len", seq_len)?;
    let heads: u32 = u32_arg("num_attention_heads", num_attention_heads)?;
    let kv_heads: u32 = u32_arg("num_kv_heads", num_kv_heads)?;
    let dim: u32 = u32_arg("head_dim", head_dim)?;
    let window: u32 = u32_arg("window_size", window_size)?;
    let legacy_shared: u64 = seq as u64 * 4 + CUDA_ATTENTION_BLOCK_DIM as u64 * 4;
    let streaming = legacy_shared > SHARED_BYTES_LIMIT;
    let shared_mem_bytes: u32 = if streaming {
        validate_dynamic_shared_bytes(
            texts.streaming_shared,
            (CUDA_ATTENTION_BLOCK_DIM as u64 + dim as u64 + 3) * 4,
        )?
    } else {
        validate_dynamic_shared_bytes(texts.shared, legacy_shared)?
    };
    let kernel = if streaming {
        texts.streaming_kernel
    } else {
        texts.kernel
    };
    Ok(
        Plan::launch(
            kernel,
            texts.stage,
            LaunchConfig {
                grid_dim: (heads, 1, 1),
                block_dim: (CUDA_ATTENTION_BLOCK_DIM, 1, 1),
                shared_mem_bytes,
            },
            vec![
                Arg::Buffer(Operand::KeyCache),
                Arg::Buffer(Operand::ValueCache),
                Arg::Buffer(Operand::Query),
                Arg::U32(seq),
                Arg::U32(heads),
                Arg::U32(kv_heads),
                Arg::U32(dim),
                Arg::U32(window),
                Arg::Buffer(Operand::Output),
            ],
        ),
    )
}

impl DecodeTexts {
    /// Decode over a half-precision cache.
    pub open spec fn spec_half() -> DecodeTexts {
        DecodeTexts {
            zero_dims: "attention_ptr dimensions must be non-zero: q_heads={} kv_heads={} head_dim={}",
            query: "decode_ptr query",
            mismatch: "attention_ptr query/output shape mismatch",
            indivisible: "attention_ptr heads must be divisible by kv heads",
            shared: "attention_decode_ptr",
            stage: "launch attention_decode_ptr",
            kernel: Kernel::AttentionPtr,
        }
    }

    /// Decode over a half-precision cache.
    #[verifier::when_used_as_spec(spec_half)]
    pub fn half() -> (texts: DecodeTexts)
        ensures
            texts == DecodeTexts::spec_half(),
    {
        DecodeTexts {
            zero_dims: "attention_ptr dimensions must be non-zero: q_heads={} kv_heads={} head_dim={}",
            query: "decode_ptr query",
            mismatch: "attention_ptr query/output shape mismatch",
            indivisible: "attention_ptr heads must be divisible by kv heads",
            shared: "attention_decode_ptr",
            stage: "launch attention_decode_ptr",
            kernel: Kernel::AttentionPtr,
        }
    }
}

impl DecodeTexts {
    /// Decode over an FP8 cache.
    pub open spec fn spec_fp8() -> DecodeTexts {
        DecodeTexts {
            zero_dims: "attention_ptr_fp8: non-zero dims required q_heads={} kv_heads={} head_dim={}",
            query: "fp8_ptr query",
            mismatch: "attention_ptr_fp8 query/output shape mismatch",
            indivisible: "attention_ptr_fp8 heads not divisible by kv heads",
            shared: "attention_decode_ptr_fp8",
            stage: "launch attention_decode_ptr_fp8",
            kernel: Kernel::AttentionDecodePtrFp8,
        }
    }

    /// Decode over an FP8 cache.
    #[verifier::when_used_as_spec(spec_fp8)]
    pub fn fp8() -> (texts: DecodeTexts)
        ensures
            texts == DecodeTexts::spec_fp8(),
    {
        DecodeTexts {
            zero_dims: "attention_ptr_fp8: non-zero dims required q_heads={} kv_heads={} head_dim={}",
            query: "fp8_ptr query",
            mismatch: "attention_ptr_fp8 query/output shape mismatch",
            indivisible: "attention_ptr_fp8 heads not divisible by kv heads",
            shared: "attention_decode_ptr_fp8",
            stage: "launch attention_decode_ptr_fp8",
            kernel: Kernel::AttentionDecodePtrFp8,
        }
    }
}

impl SplitTexts {
    /// Split-K decode over a half-precision cache.
    pub open spec fn spec_half() -> SplitTexts {
        SplitTexts {
            zero_dims: "attention_split_ptr dimensions must be non-zero: q_heads={} kv_heads={} head_dim={}",
            query: "decode_split query",
            mismatch: "attention_split_ptr query/output too small: query={} output={} expected_min={}",
            mismatch_lengths: true,
            partial: "decode_split partial",
            partial_acc: "decode_split partial_acc",
            scratch: "attention_split_ptr partial buffers too small: acc={} m={} l={} required acc={} ml={}",
            indivisible: "attention_split_ptr heads must be divisible by kv heads",
            shared: "attention_decode_ptr_split",
            split_stage: "launch attention_decode_ptr_split",
            combine_stage: "launch attention_decode_ptr_combine",
            kernel: Kernel::AttentionDecodePtrSplit,
        }
    }

    /// Split-K decode over a half-precision cache.
    #[verifier::when_used_as_spec(spec_half)]
    pub fn half() -> (texts: SplitTexts)
        ensures
            texts == SplitTexts::spec_half(),
    {
        SplitTexts {
            zero_dims: "attention_split_ptr dimensions must be non-zero: q_heads={} kv_heads={} head_dim={}",
            query: "decode_split query",
            mismatch: "attention_split_ptr query/output too small: query={} output={} expected_min={}",
            mismatch_lengths: true,
            partial: "decode_split partial",
            partial_acc: "decode_split partial_acc",
            scratch: "attention_split_ptr partial buffers too small: acc={} m={} l={} required acc={} ml={}",
            indivisible: "attention_split_ptr heads must be divisible by kv heads",
            shared: "attention_decode_ptr_split",
            split_stage: "launch attention_decode_ptr_split",
            combine_stage: "launch attention_decode_ptr_combine",
            kernel: Kernel::AttentionDecodePtrSplit,
        }
    }
}

impl SplitTexts {
    /// Split-K decode over an FP8 cache.
    pub open spec fn spec_fp8() -> SplitTexts {
        SplitTexts {
            zero_dims: "attention_split_fp8: non-zero dims required q_heads={} kv_heads={} head_dim={}",
            query: "fp8_split query",
            mismatch: "attention_split_fp8 query/output shape mismatch",
            mismatch_lengths: false,
            partial: "fp8_split partial",
            partial_acc: "fp8_split partial_acc",
            scratch: "attention_split_fp8 partial buffers too small: acc={} m={} l={} req_acc={} req_ml={}",
            indivisible: "attention_split_fp8 heads not divisible by kv heads",
            shared: "attention_decode_ptr_split_fp8",
            split_stage: "launch attention_decode_ptr_split_fp8",
            combine_stage: "launch attention_decode_ptr_combine (fp8)",
            kernel: Kernel::AttentionDecodePtrSplitFp8,
        }
    }

    /// Split-K decode over an FP8 cache.
    #[verifier::when_used_as_spec(spec_fp8)]
    pub fn fp8() -> (texts: SplitTexts)
        ensures
            texts == SplitTexts::spec_fp8(),
    {
        SplitTexts {
            zero_dims: "attention_split_fp8: non-zero dims required q_heads={} kv_heads={} head_dim={}",
            query: "fp8_split query",
            mismatch: "attention_split_fp8 query/output shape mismatch",
            mismatch_lengths: false,
            partial: "fp8_split partial",
            partial_acc: "fp8_split partial_acc",
            scratch: "attention_split_fp8 partial buffers too small: acc={} m={} l={} req_acc={} req_ml={}",
            indivisible: "attention_split_fp8 heads not divisible by kv heads",
            shared: "attention_decode_ptr_split_fp8",
            split_stage: "launch attention_decode_ptr_split_fp8",
            combine_stage: "launch attention_decode_ptr_combine (fp8)",
            kernel: Kernel::AttentionDecodePtrSplitFp8,
        }
    }
}

impl EagerTexts {
    /// Eager decode over a half-precision cache.
    pub open spec fn spec_half() -> EagerTexts {
        EagerTexts {
            zero_dims: "attention dimensions must be non-zero: q_heads={} kv_heads={} head_dim={}",
            query: "decode query",
            kv_width: "decode kv width",
            mismatch: "attention query/output shape mismatch",
            key_cache: "decode key cache",
            value_cache: "decode value cache",
            cache_mismatch: "attention kv shape mismatch: seq_len={} kv_width={} key_cache={} value_cache={}",
            indivisible: "attention heads must be divisible by kv heads",
            streaming_shared: "attention_decode_streaming",
            shared: "attention_decode",
            stage: "launch attention decode",
            streaming_kernel: Kernel::AttentionDecodeStreaming,
            kernel: Kernel::Attention,
        }
    }

    /// Eager decode over a half-precision cache.
    #[verifier::when_used_as_spec(spec_half)]
    pub fn half() -> (texts: EagerTexts)
        ensures
            texts == EagerTexts::spec_half(),
    {
        EagerTexts {
            zero_dims: "attention dimensions must be non-zero: q_heads={} kv_heads={} head_dim={}",
            query: "decode query",
            kv_width: "decode kv width",
            mismatch: "attention query/output shape mismatch",
            key_cache: "decode key cache",
            value_cache: "decode value cache",
            cache_mismatch: "attention kv shape mismatch: seq_len={} kv_width={} key_cache={} value_cache={}",
            indivisible: "attention heads must be divisible by kv heads",
            streaming_shared: "attention_decode_streaming",
            shared: "attention_decode",
            stage: "launch attention decode",
            streaming_kernel: Kernel::AttentionDecodeStreaming,
            kernel: Kernel::Attention,
        }
    }
}

impl EagerTexts {
    /// Eager decode over an FP8 cache.
    pub open spec fn spec_fp8() -> EagerTexts {
        EagerTexts {
            zero_dims: "attention_fp8 dimensions non-zero required q_heads={} kv_heads={} head_dim={}",
            query: "fp8 decode query",
            kv_width: "fp8 decode kv width",
            mismatch: "attention_fp8 query/output shape mismatch",
            key_cache: "fp8 key cache",
            value_cache: "fp8 value cache",
            cache_mismatch: "attention_fp8 cache shape mismatch: seq={} kv_width={} key={} value={}",
            indivisible: "attention_fp8 heads not divisible by kv heads",
            streaming_shared: "attention_decode_streaming_fp8",
            shared: "attention_decode_fp8",
            stage: "launch attention_decode_fp8",
            streaming_kernel: Kernel::AttentionDecodeStreamingFp8,
            kernel: Kernel::AttentionDecodeFp8,
        }
    }

    /// Eager decode over an FP8 cache.
    #[verifier::when_used_as_spec(spec_fp8)]
    pub fn fp8() -> (texts: EagerTexts)
        ensures
            texts == EagerTexts::spec_fp8(),
    {
        EagerTexts {
            zero_dims: "attention_fp8 dimensions non-zero required q_heads={} kv_heads={} head_dim={}",
            query: "fp8 decode query",
            kv_width: "fp8 decode kv width",
            mismatch: "attention_fp8 query/output shape mismatch",
            key_cache: "fp8 key cache",
            value_cache: "fp8 value cache",
            cache_mismatch: "attention_fp8 cache shape mismatch: seq={} kv_width={} key={} value={}",
            indivisible: "attention_fp8 heads not divisible by kv heads",
            streaming_shared: "attention_decode_streaming_fp8",
            shared: "attention_decode_fp8",
            stage: "launch attention_decode_fp8",
            streaming_kernel: Kernel::AttentionDecodeStreamingFp8,
            kernel: Kernel::AttentionDecodeFp8,
        }
    }
}

impl CudaRuntime {
    /// Decode attention whose sequence length is read from device memory, so that a
    /// captured graph can be replayed for every length up to the graph's limit.
    pub fn attention_decode_ptr_device(
        &self,
        key_cache: &DeviceBuffer<u16>,
        value_cache: &DeviceBuffer<u16>,
        query: &DeviceBuffer<F32>,
        p_seq_len: &DeviceBuffer<u32>,
        num_attention_heads: usize,
        num_kv_heads: usize,
        head_dim: usize,
        window_size: usize,
        output: &DeviceBuffer<F32>,
    ) -> (plan: Result<Plan, AegisError>)
        ensures
            Plan::outcome(plan) == decode_ptr_steps(
                DecodeTexts::half(),
                query.len() as int,
                output.len() as int,
                num_attention_heads as int,
                num_kv_heads as int,
                head_dim as int,
                window_size as int,
            ),
    {
        plan_decode_ptr(
            DecodeTexts::half(),
            query,
            num_attention_heads,
            num_kv_heads,
            head_dim,
            window_size,
            output,
        )
    }

    /// Split-K decode attention whose sequence length is read from device memory.
    /// `seq_len_hint` is the length the host knows; it only sizes the shared memory
    /// that holds the scores of a chunk.
    pub fn attention_decode_split_ptr_device(
        &self,
        key_cache: &DeviceBuffer<u16>,
        value_cache: &DeviceBuffer<u16>,
        query: &DeviceBuffer<F32>,
        p_seq_len: &DeviceBuffer<u32>,
        num_attention_heads: usize,
        num_kv_heads: usize,
        head_dim: usize,
        window_size: usize,
        seq_len_hint: usize,
        partial_acc: &DeviceBuffer<F32>,
        partial_m: &DeviceBuffer<F32>,
        partial_l: &DeviceBuffer<F32>,
        output: &DeviceBuffer<F32>,
    ) -> (plan: Result<Plan, AegisError>)
        ensures
            Plan::outcome(plan) == decode_split_steps(
                SplitTexts::half(),
                key_cache.len() as int,
                query.len() as int,
                output.len() as int,
                partial_acc.len() as int,
                partial_m.len() as int,
                partial_l.len() as int,
                num_attention_heads as int,
                num_kv_heads as int,
                head_dim as int,
                window_size as int,
                seq_len_hint as int,
            ),
    {
        plan_decode_split(
            SplitTexts::half(),
            key_cache,
            query,
            num_attention_heads,
            num_kv_heads,
            head_dim,
            window_size,
            seq_len_hint,
            partial_acc,
            partial_m,
            partial_l,
            output,
        )
    }

    /// [`Self::attention_decode_ptr_device`] over an FP8 cache.
    pub fn attention_decode_ptr_fp8_device(
        &self,
        key_cache: &DeviceBuffer<u8>,
        value_cache: &DeviceBuffer<u8>,
        query: &DeviceBuffer<F32>,
        p_seq_len: &DeviceBuffer<u32>,
        num_attention_heads: usize,
        num_kv_heads: usize,
        head_dim: usize,
        window_size: usize,
        output: &DeviceBuffer<F32>,
    ) -> (plan: Result<Plan, AegisError>)
        ensures
            Plan::outcome(plan) == decode_ptr_steps(
                DecodeTexts::fp8(),
                query.len() as int,
                output.len() as int,
                num_attention_heads as int,
                num_kv_heads as int,
                head_dim as int,
                window_size as int,
            ),
    {
        plan_decode_ptr(
            DecodeTexts::fp8(),
            query,
            num_attention_heads,
            num_kv_heads,
            head_dim,
            window_size,
            output,
        )
    }

    /// [`Self::attention_decode_split_ptr_device`] over an FP8 cache; the combining
    /// launch is the same, as it never reads the cache.
    pub fn attention_decode_split_ptr_fp8_device(
        &self,
        key_cache: &DeviceBuffer<u8>,
        value_cache: &DeviceBuffer<u8>,
        query: &DeviceBuffer<F32>,
        p_seq_len: &DeviceBuffer<u32>,
        num_attention_heads: usize,
        num_kv_heads: usize,
        head_dim: usize,
        window_size: usize,
        seq_len_hint: usize,
        partial_acc: &DeviceBuffer<F32>,
        partial_m: &DeviceBuffer<F32>,
        partial_l: &DeviceBuffer<F32>,
        output: &DeviceBuffer<F32>,
    ) -> (plan: Result<Plan, AegisError>)
        ensures
            Plan::outcome(plan) == decode_split_steps(
                SplitTexts::fp8(),
                key_cache.len() as int,
                query.len() as int,
                output.len() as int,
                partial_acc.len() as int,
                partial_m.len() as int,
                partial_l.len() as int,
                num_attention_heads as int,
                num_kv_heads as int,
                head_dim as int,
                window_size as int,
                seq_len_hint as int,
            ),
    {
        plan_decode_split(
            SplitTexts::fp8(),
            key_cache,
            query,
            num_attention_heads,
            num_kv_heads,
            head_dim,
            window_size,
            seq_len_hint,
            partial_acc,
            partial_m,
            partial_l,
            output,
        )
    }

    /// [`Self::attention_decode_device`] over an FP8 cache.
    pub fn attention_decode_fp8_device(
        &self,
        key_cache: &DeviceBuffer<u8>,
        value_cache: &DeviceBuffer<u8>,
        query: &DeviceBuffer<F32>,
        seq_len: usize,
        num_attention_heads: usize,
        num_kv_heads: usize,
        head_dim: usize,
        window_size: usize,
        output: &DeviceBuffer<F32>,
    ) -> (plan: Result<Plan, AegisError>)
        ensures
            Plan::outcome(plan) == decode_eager_steps(
                EagerTexts::fp8(),
                key_cache.len() as int,
                value_cache.len() as int,
                query.len() as int,
                output.len() as int,
                seq_len as int,
                num_attention_heads as int,
                num_kv_heads as int,
                head_dim as int,
                window_size as int,
            ),
    {
        plan_decode_eager(
            EagerTexts::fp8(),
            key_cache,
            value_cache,
            query,
            seq_len,
            num_attention_heads,
            num_kv_heads,
            head_dim,
            window_size,
            output,
        )
    }

    /// Decode attention over the first `seq_len` positions of the cache.
    pub fn attention_decode_device(
        &self,
        key_cache: &DeviceBuffer<u16>,
        value_cache: &DeviceBuffer<u16>,
        query: &DeviceBuffer<F32>,
        seq_len: usize,
        num_attention_heads: usize,
        num_kv_heads: usize,
        head_dim: usize,
        window_size: usize,
        output: &DeviceBuffer<F32>,
    ) -> (plan: Result<Plan, AegisError>)
        ensures
            Plan::outcome(plan) == decode_eager_steps(
                EagerTexts::half(),
                key_cache.len() as int,
                value_cache.len() as int,
                query.len() as int,
                output.len() as int,
                seq_len as int,
                num_attention_heads as int,
                num_kv_heads as int,
                head_dim as int,
                window_size as int,
            ),
    {
        plan_decode_eager(
            EagerTexts::half(),
            key_cache,
            value_cache,
            query,
            seq_len,
            num_attention_heads,
            num_kv_heads,
            head_dim,
            window_size,
            output,
        )
    }
}

} // verus!
