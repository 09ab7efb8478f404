//! Attention launches: what they check, which kernel they pick, and how they
//! shape its launch.
use crate::config::{AttentionSwitches, CudaPrefillAttentionKernel};
use crate::error::{invalid_plan, number, AegisError, Value, Values};
use crate::runtime::{self, div_ceil};
use crate::types::{DeviceBuffer, F32};
use vstd::prelude::*;

pub mod decode;
pub mod dispatch;
pub mod prefill_dense;
pub mod prefill_paged;

verus! {

/// Longest sequence that a captured decode graph attends to.
pub const CUDA_GRAPH_ATTN_MAX_SEQ_LEN: usize = 8192;

/// Number of chunks that split-K decode divides a sequence into.
pub const DECODE_SPLIT_K: usize = 16;

/// Longest chunk of split-K decode inside a captured graph.
pub const DECODE_MAX_CHUNK_LEN: usize = 512;

/// Tokens per page of the paged key/value cache.
pub const FLASH_COMPAT_PAGE_TOKENS: usize = 256;

/// Tokens per split of paged split-K prefill.
pub const FLASH_SPLIT_K_TOKENS: usize = 256;

/// Queries per block of paged split-K prefill.
pub const FLASH_SPLIT_Q_BLOCK: usize = 4;

/// Queries per block of the tiled half-precision kernels.
pub const TILED_HALFQ_Q_BLOCK: usize = 4;

/// Queries per block of the dense warp-tile kernel.
pub const DENSE_WARP_TILE_Q_BLOCK: usize = 16;

/// Keys per tile of the dense warp-tile kernel.
pub const DENSE_WARP_TILE_K_TILE: usize = 32;

/// Queries per block of the dense tensor-core kernels.
pub const DENSE_WMMA_Q_BLOCK: usize = 16;

/// Queries per block of the dense flash-style tensor-core kernel.
pub const DENSE_WMMA_FA_Q_BLOCK: usize = 16;

/// Tokens per block of the dense grouped-query kernel.
pub const DENSE_WMMA_GQA4_Q_TOKENS: usize = 8;

/// Query heads per block of the dense grouped-query kernel.
pub const DENSE_WMMA_GQA4_HEADS: usize = 4;

/// Tokens per block of the dense grouped-query split-K kernel.
pub const DENSE_WMMA_GQA4_SPLIT_Q_TOKENS: usize = 8;

/// Tokens per block of the paged grouped-query kernel.
pub const PAGED_WMMA_GQA4_Q_TOKENS: usize = 8;

/// Query heads per block of the paged grouped-query kernel.
pub const PAGED_WMMA_GQA4_HEADS: usize = 4;

/// Queries per block of the persistent dense kernel.
pub const DENSE_WMMA_Q32_BLOCK: usize = 32;

/// Keys per tile of the dense tensor-core kernels.
pub const DENSE_WMMA_K_TILE: usize = 32;

/// Queries per block of the fourth-generation flash kernel.
pub const FA4_HDIM128_Q_BLOCK: usize = 8;

/// Keys per tile of the fourth-generation flash kernel.
pub const FA4_HDIM128_K_TILE: usize = 32;

/// Threads per block of the plain attention kernels.
pub const CUDA_ATTENTION_BLOCK_DIM: u32 = 128;

/// Dynamic shared memory that every kernel may use.
pub const SHARED_BYTES_LIMIT: u64 = 49152;

/// Dynamic shared memory of the kernels that opt in to more.
pub const SHARED_BYTES_OPT_IN: u64 = 98304;

/// The error for an argument that does not fit 32 bits.
pub open spec fn wide(name: &'static str, value: int) -> AegisError {
    AegisError::invalid_with(
        "CUDA attention argument {} exceeds u32 range: {}",
        Values::Two(Value::Label(name), Value::num(value)),
    )
}

/// The error for a product that is no length.
pub open spec fn long_product(label: &'static str, lhs: int, rhs: int) -> AegisError {
    AegisError::invalid_with(
        "CUDA attention {} length overflow: {} * {}",
        Values::Three(Value::Label(label), Value::num(lhs), Value::num(rhs)),
    )
}

/// The error for a sum that is no length.
pub open spec fn long_sum(label: &'static str, lhs: int, rhs: int) -> AegisError {
    AegisError::invalid_with(
        "CUDA attention {} length overflow: {} + {}",
        Values::Three(Value::Label(label), Value::num(lhs), Value::num(rhs)),
    )
}

/// The error for a launch that needs more shared memory than every kernel has.
pub open spec fn shared_excess(kernel: &'static str, bytes: int) -> AegisError {
    AegisError::invalid_with(
        "CUDA kernel `{}` requires {} bytes of dynamic shared memory, exceeding the conservative 48KiB launch limit",
        Values::Two(Value::Label(kernel), Value::num(bytes)),
    )
}

/// The error for a launch that needs more shared memory than its kernel has.
pub open spec fn shared_excess_with_cap(kernel: &'static str, bytes: int, cap: int) -> AegisError {
    AegisError::invalid_with(
        "CUDA kernel `{}` requires {} bytes of dynamic shared memory, exceeding the {}-byte launch limit",
        Values::Three(Value::Label(kernel), Value::num(bytes), Value::num(cap)),
    )
}

/// Narrows an argument to 32 bits.
pub fn u32_arg(name: &'static str, value: usize) -> (word: Result<u32, AegisError>)
    ensures
        match word {
            Ok(narrow) => narrow == value,
            Err(error) => value > u32::MAX && error == wide(name, value as int),
        },
{
    if value as u64 <= u32::MAX as u64 {
        Ok(value as u32)
    } else {
        Err(
            invalid_plan("CUDA attention argument {} exceeds u32 range: {}", Values::Two(Value::Label(name), number(value))),
        )
    }
}

/// The product of two extents, if it is a length.
pub fn checked_len(label: &'static str, lhs: usize, rhs: usize) -> (len: Result<usize, AegisError>)
    ensures
        match len {
            Ok(product) => product == lhs * rhs,
            Err(error) => lhs * rhs > usize::MAX && error == long_product(label, lhs as int, rhs as int),
        },
{
    match lhs.checked_mul(rhs) {
        Some(product) => Ok(product),
        None => Err(
            invalid_plan("CUDA attention {} length overflow: {} * {}", Values::Three(
                        Value::Label(label),
                        number(lhs),
                        number(rhs),
                    )),
        ),
    }
}

/// The sum of two extents, if it is a length.
pub fn checked_sum(label: &'static str, lhs: usize, rhs: usize) -> (len: Result<usize, AegisError>)
    ensures
        match len {
            Ok(sum) => sum == lhs + rhs,
            Err(error) => lhs + rhs > usize::MAX && error == long_sum(label, lhs as int, rhs as int),
        },
{
    match lhs.checked_add(rhs) {
        Some(sum) => Ok(sum),
        None => Err(
            invalid_plan("CUDA attention {} length overflow: {} + {}", Values::Three(
                        Value::Label(label),
                        number(lhs),
                        number(rhs),
                    )),
        ),
    }
}

/// Dynamic shared memory of a launch, held to what every kernel has.
pub fn validate_dynamic_shared_bytes(kernel: &'static str, bytes: u64) -> (granted: Result<u32, AegisError>)
    ensures
        match granted {
            Ok(narrow) => narrow == bytes && bytes <= SHARED_BYTES_LIMIT,
            Err(error) => bytes > SHARED_BYTES_LIMIT && error == shared_excess(kernel, bytes as int),
        },
{
    if bytes > SHARED_BYTES_LIMIT {
        return Err(
            invalid_plan("CUDA kernel `{}` requires {} bytes of dynamic shared memory, exceeding the conservative 48KiB launch limit", Values::Two(Value::Label(kernel), Value::Number(bytes))),
        );
    }
    Ok(bytes as u32)
}

/// Dynamic shared memory of a launch, held to what its kernel opted in to.
pub fn validate_dynamic_shared_bytes_with_cap(kernel: &'static str, bytes: u64, cap: u32) -> (granted: Result<
    u32,
    AegisError,
>)
    ensures
        match granted {
            Ok(narrow) => narrow == bytes && bytes <= cap,
            Err(error) => bytes > cap && error == shared_excess_with_cap(
                kernel,
                bytes as int,
                cap as int,
            ),
        },
{
    if bytes > cap as u64 {
        return Err(
            invalid_plan("CUDA kernel `{}` requires {} bytes of dynamic shared memory, exceeding the {}-byte launch limit", Values::Three(
                        Value::Label(kernel),
                        Value::Number(bytes),
                        Value::Number(cap as u64),
                    )),
        );
    }
    Ok(bytes as u32)
}

/// Where the query heads are a multiple of the key/value heads, a key/value row
/// is no wider than a query row.
pub proof fn lemma_kv_width(heads: int, kv_heads: int, head_dim: int)
    requires
        heads > 0,
        kv_heads > 0,
        head_dim >= 0,
        heads % kv_heads == 0,
    ensures
        kv_heads <= heads,
        kv_heads * head_dim <= heads * head_dim,
        head_dim > 0 ==> kv_heads * head_dim > 0,
{
    if kv_heads > heads {
        vstd::arithmetic::div_mod::lemma_small_mod(heads as nat, kv_heads as nat);
    }
    vstd::arithmetic::mul::lemma_mul_inequality(kv_heads, heads, head_dim);
    if head_dim > 0 {
        vstd::arithmetic::mul::lemma_mul_strictly_positive(kv_heads, head_dim);
    }
}

/// Blocks of four query heads, counted over all key/value heads, are no more than
/// the query heads themselves.
pub proof fn lemma_group_blocks(heads: int, kv_heads: int, group_tiles: int)
    requires
        heads >= 0,
        kv_heads > 0,
        0 <= group_tiles <= heads / kv_heads,
    ensures
        kv_heads * group_tiles <= heads,
{
    vstd::arithmetic::div_mod::lemma_fundamental_div_mod(heads, kv_heads);
    vstd::arithmetic::mul::lemma_mul_inequality(group_tiles, heads / kv_heads, kv_heads);
    vstd::arithmetic::mul::lemma_mul_is_commutative(group_tiles, kv_heads);
    vstd::arithmetic::mul::lemma_mul_is_commutative(heads / kv_heads, kv_heads);
}

/// The kernel of a batched prefill over an unpaged cache.
#[derive(Clone, Copy, Debug, PartialEq, Eq, Structural)]
pub enum PrefillBatchedKernel {
    CacheOnly,
    Continuation,
    Warp,
}

/// The error of a reference prefill whose prefix is too long.
pub open spec fn reference_too_long(legacy_shared_bytes: int) -> AegisError {
    AegisError::invalid_with(
        "CUDA reference prefill attention requires {} bytes of dynamic shared memory; use cuda.prefill-attention=aegis-varlen, auto, or continuation for long prefixes",
        Values::One(Value::num(legacy_shared_bytes)),
    )
}

/// Which kernel serves a batched prefill: the warp kernel where the setting
/// allows it and it applies, the continuation kernel where it is asked for or
/// where the scores outgrow shared memory, the plain kernel otherwise. Settings
/// that insist on the plain kernel refuse what it cannot hold.
pub open spec fn batched_kernel(
    config: CudaPrefillAttentionKernel,
    start_position: int,
    head_dim: int,
    legacy_shared_bytes: int,
) -> Result<PrefillBatchedKernel, AegisError> {
    let plain_only = config is Off || config is Reference;
    if (config is Auto || config is AegisVarlen || config is WarpFlash) && start_position == 0
        && head_dim % 32 == 0 && head_dim <= 256 {
        Ok(PrefillBatchedKernel::Warp)
    } else if config is Continuation {
        Ok(PrefillBatchedKernel::Continuation)
    } else if legacy_shared_bytes <= SHARED_BYTES_LIMIT {
        Ok(PrefillBatchedKernel::CacheOnly)
    } else if plain_only {
        Err(reference_too_long(legacy_shared_bytes))
    } else {
        Ok(PrefillBatchedKernel::Continuation)
    }
}

/// Picks the kernel of a batched prefill.
pub fn select_prefill_batched_kernel(
    config: CudaPrefillAttentionKernel,
    start_position: usize,
    head_dim: usize,
    legacy_shared_bytes: u64,
) -> (kernel: Result<PrefillBatchedKernel, AegisError>)
    ensures
        kernel == batched_kernel(
            config,
            start_position as int,
            head_dim as int,
            legacy_shared_bytes as int,
        ),
{
    let warp_eligible = start_position == 0 && head_dim % 32 == 0 && head_dim <= 256;
    let warp_allowed = matches!(
        config,
        CudaPrefillAttentionKernel::Auto
            | CudaPrefillAttentionKernel::AegisVarlen
            | CudaPrefillAttentionKernel::WarpFlash
    );
    if warp_allowed && warp_eligible {
        return Ok(PrefillBatchedKernel::Warp);
    }
    if matches!(config, CudaPrefillAttentionKernel::Continuation) {
        return Ok(PrefillBatchedKernel::Continuation);
    }
    if legacy_shared_bytes > SHARED_BYTES_LIMIT {
        if matches!(config, CudaPrefillAttentionKernel::Off | CudaPrefillAttentionKernel::Reference) {
            return Err(
                invalid_plan("CUDA reference prefill attention requires {} bytes of dynamic shared memory; use cuda.prefill-attention=aegis-varlen, auto, or continuation for long prefixes", Values::One(Value::Number(legacy_shared_bytes))),
            );
        }
        return Ok(PrefillBatchedKernel::Continuation);
    }
    Ok(PrefillBatchedKernel::CacheOnly)
}

impl AttentionSwitches {
    /// Dense split-K attention is asked for and not disabled.
    pub open spec fn split_k(&self) -> bool {
        !self.disable_split_k && self.experimental_split_k
    }
}

/// Whether dense split-K attention may be used.
pub fn dense_wmma_split_k_enabled(switches: &AttentionSwitches) -> (enabled: bool)
    ensures
        enabled == switches.split_k(),
{
    !switches.disable_split_k && switches.experimental_split_k
}

/// Whether the persistent dense kernel may be used.
pub fn dense_wmma_q32_enabled(switches: &AttentionSwitches) -> (enabled: bool)
    ensures
        enabled == switches.experimental_persistent,
{
    switches.experimental_persistent
}

/// Whether the legacy dense tensor-core kernel is preferred.
pub fn dense_wmma_legacy_enabled(switches: &AttentionSwitches) -> (enabled: bool)
    ensures
        enabled == switches.legacy_wmma,
{
    switches.legacy_wmma
}

/// Whether the clustered dense kernel may be used.
pub fn dense_wmma_cluster2_enabled(switches: &AttentionSwitches) -> (enabled: bool)
    ensures
        enabled == switches.experimental_cluster,
{
    switches.experimental_cluster
}

/// How many splits of `split_tokens` tokens a context has, at least one.
pub open spec fn split_count(context_len: int, split_tokens: int) -> int {
    let count = runtime::blocks(context_len, split_tokens);
    if count < 1 {
        1
    } else {
        count
    }
}

/// Rows of dense split-K scratch: one per query slot, head and split.
pub open spec fn split_rows(batch: int, context_len: int, heads: int, split_tokens: int) -> int {
    runtime::blocks(batch, DENSE_WMMA_Q_BLOCK as int) * heads * split_count(context_len, split_tokens)
        * DENSE_WMMA_Q_BLOCK
}

/// The scratch holds an accumulator row and its two statistics for every row.
pub open spec fn split_scratch_fits(
    acc: int,
    m: int,
    l: int,
    batch: int,
    context_len: int,
    heads: int,
    head_dim: int,
    split_tokens: int,
) -> bool {
    let rows = split_rows(batch, context_len, heads, split_tokens);
    &&& acc >= rows * head_dim
    &&& m >= rows
    &&& l >= rows
}

/// `count` splits of a context, at least one.
pub fn split_count_of(context_len: usize, split_tokens: usize) -> (count: usize)
    requires
        split_tokens > 0,
    ensures
        count == split_count(context_len as int, split_tokens as int),
        count >= 1,
{
    let count: usize = div_ceil(context_len, split_tokens);
    if count < 1 {
        1
    } else {
        count
    }
}

/// Whether the scratch of dense split-K attention is large enough. Scratch that
/// could not be addressed is never large enough.
pub fn dense_wmma_split_scratch_ready(
    split_acc: &DeviceBuffer<F32>,
    split_m: &DeviceBuffer<F32>,
    split_l: &DeviceBuffer<F32>,
    batch: usize,
    context_len: usize,
    num_attention_heads: usize,
    head_dim: usize,
    split_tokens: usize,
) -> (ready: bool)
    requires
        split_tokens > 0,
    ensures
        ready == split_scratch_fits(
            split_acc.len() as int,
            split_m.len() as int,
            split_l.len() as int,
            batch as int,
            context_len as int,
            num_attention_heads as int,
            head_dim as int,
            split_tokens as int,
        ),
{
    let splits: usize = split_count_of(context_len, split_tokens);
    let q_blocks: usize = div_ceil(batch, DENSE_WMMA_Q_BLOCK);
    let ghost rows_int = split_rows(
        batch as int,
        context_len as int,
        num_attention_heads as int,
        split_tokens as int,
    );
    let by_head: usize = match q_blocks.checked_mul(num_attention_heads) {
        Some(value) => value,
        None => {
            assert(rows_int > usize::MAX) by (nonlinear_arith)
                requires
                    rows_int == q_blocks * num_attention_heads * splits * 16,
                    q_blocks * num_attention_heads > usize::MAX,
                    splits >= 1,
            ;
            return false;
        },
    };
    let by_split: usize = match by_head.checked_mul(splits) {
        Some(value) => value,
        None => {
            return false;
        },
    };
    let rows: usize = match by_split.checked_mul(DENSE_WMMA_Q_BLOCK) {
        Some(value) => value,
        None => {
            return false;
        },
    };
    match rows.checked_mul(head_dim) {
        Some(acc_len) => split_acc.len() >= acc_len && split_m.len() >= rows && split_l.len() >= rows,
        None => false,
    }
}

} // verus!
