//! What holds of plans whatever they are asked for: copies stay within the memory they were
//! planned for, launches within the shared memory of their kernels, and splits cover what
//! they split. The modules below say, subject by subject, what the plans come to where their
//! kernels read them.
use crate::config::CudaPrefillAttentionKernel;
use crate::error::AegisError;
use crate::functions::Kernel;
use crate::launch::{Engine, Operand, Plan, StepView};
use crate::runtime;
use crate::runtime::attention;
use crate::runtime::attention::decode::{self, DecodeTexts, EagerTexts, SplitTexts};
use crate::runtime::attention::prefill_dense::{
    self, BatchedPrefill, DensePrefill, DenseScratch,
};
use crate::runtime::attention::prefill_paged::{self, PagedGroupedPrefill};
use crate::runtime::kv::{self, UploadTexts, WritebackTexts};
use crate::runtime::memory;
use crate::types::{DeviceBuffer, F32};
use vstd::prelude::*;

pub mod blocks;
pub mod caching;
pub mod copying;
pub mod decoding;
pub mod experts;
pub mod fused;
pub mod layers;
pub mod loading;
pub mod messages;
pub mod paged;
pub mod placement;
pub mod prefill;
pub mod products;
pub mod serving;
pub mod trials;

verus! {

/// A copy fills as many elements as it reads, and stays within what both operands hold.
pub open spec fn copy_fits(step: StepView, lens: spec_fn(Operand) -> int) -> bool {
    match step {
        StepView::Copy { engine: _, from, to, stage: _ } => {
            &&& from.start <= from.end <= lens(from.operand)
            &&& to.start <= to.end <= lens(to.operand)
            &&& from.end - from.start == to.end - to.start
        },
        _ => true,
    }
}

/// Every copy of a plan fits.
pub open spec fn copies_fit(
    outcome: Result<Seq<StepView>, AegisError>,
    lens: spec_fn(Operand) -> int,
) -> bool {
    outcome matches Ok(steps) ==> forall|i: int|
        0 <= i < steps.len() ==> copy_fits(#[trigger] steps[i], lens)
}

/// The lengths of a pair of operands.
pub open spec fn pair_lens(from: Operand, from_len: int, to_len: int) -> spec_fn(Operand) -> int {
    |operand: Operand|
        if operand == from {
            from_len
        } else {
            to_len
        }
}

/// Uploads of keys and values stay within the host memory and the staging.
pub proof fn kv_uploads_fit(
    texts: UploadTexts,
    engine: Engine,
    staging_len: int,
    host_len: int,
    count: int,
)
    requires
        0 <= count <= usize::MAX,
    ensures
        copies_fit(
            kv::upload_steps(texts, engine, staging_len, host_len, count),
            pair_lens(Operand::Host, host_len, staging_len),
        ),
{
}

/// Writebacks stay within the staging, the host memory and what was downloaded.
pub proof fn kv_writebacks_fit(
    texts: WritebackTexts,
    host_len: int,
    staging_len: int,
    slot: int,
    batch: int,
    kv_width: int,
)
    requires
        0 <= slot,
        0 <= batch,
        0 <= kv_width,
    ensures
        copies_fit(
            kv::writeback_async_steps(texts, host_len, staging_len, slot, batch, kv_width),
            pair_lens(Operand::Staging, staging_len, host_len),
        ),
        copies_fit(
            kv::writeback_steps(texts, host_len, staging_len, slot, batch, kv_width),
            |operand: Operand|
                if operand == Operand::Staging {
                    staging_len
                } else if operand == Operand::Host {
                    host_len
                } else {
                    batch * kv_width
                },
        ),
{
    assert(0 <= slot * kv_width) by (nonlinear_arith)
        requires
            0 <= slot,
            0 <= kv_width,
    ;
    assert(0 <= batch * kv_width) by (nonlinear_arith)
        requires
            0 <= batch,
            0 <= kv_width,
    ;
}

/// A writeback goes to the place in host memory that the positions have in staging.
pub proof fn kv_writebacks_keep_their_place(
    texts: WritebackTexts,
    host_len: int,
    staging_len: int,
    slot: int,
    batch: int,
    kv_width: int,
)
    requires
        0 <= slot,
        0 <= batch,
        0 <= kv_width,
    ensures
        kv::writeback_async_steps(
            texts,
            host_len,
            staging_len,
            slot,
            batch,
            kv_width,
        ) matches Ok(steps) ==> {
            &&& steps[1] matches StepView::Copy { engine: _, from, to, stage: _ }
            &&& from.start == slot * kv_width && to.start == slot * kv_width
            &&& from.end == (slot + batch) * kv_width && to.end == (slot + batch) * kv_width
        },
{
    assert((slot + batch) * kv_width == slot * kv_width + batch * kv_width) by (nonlinear_arith);
    assert(0 <= slot * kv_width) by (nonlinear_arith)
        requires
            0 <= slot,
            0 <= kv_width,
    ;
    assert(0 <= batch * kv_width) by (nonlinear_arith)
        requires
            0 <= batch,
            0 <= kv_width,
    ;
}

/// Uploads stay within the buffer that they fill.
pub proof fn uploads_fit(
    longs: &[u64],
    words: &[u32],
    bytes: &[u8],
    count: usize,
    long_buffer: &DeviceBuffer<u64>,
    word_buffer: &DeviceBuffer<u32>,
    byte_buffer: &DeviceBuffer<u8>,
    real_buffer: &DeviceBuffer<F32>,
)
    ensures
        copies_fit(
            memory::u64_slice_to_upload_steps(longs, long_buffer),
            pair_lens(Operand::Host, longs@.len() as int, long_buffer.len() as int),
        ),
        copies_fit(
            memory::u32_slice_to_upload_steps(words, word_buffer),
            pair_lens(Operand::Host, words@.len() as int, word_buffer.len() as int),
        ),
        copies_fit(
            memory::u8_slice_to_upload_steps(bytes, byte_buffer),
            pair_lens(Operand::Host, bytes@.len() as int, byte_buffer.len() as int),
        ),
        copies_fit(
            memory::f32_slice_to_upload_steps(count, real_buffer),
            pair_lens(Operand::Host, count as int, real_buffer.len() as int),
        ),
        copies_fit(
            memory::u32_slice_to_async_upload_steps(words, word_buffer),
            pair_lens(Operand::Host, words@.len() as int, word_buffer.len() as int),
        ),
        copies_fit(
            memory::f32_slice_to_async_upload_steps(count, real_buffer),
            pair_lens(Operand::Host, count as int, real_buffer.len() as int),
        ),
{
}

/// Copies of ranges stay within both buffers.
pub proof fn range_copies_fit(
    word_src: &DeviceBuffer<u32>,
    word_dst: &DeviceBuffer<u32>,
    real_src: &DeviceBuffer<F32>,
    real_dst: &DeviceBuffer<F32>,
    src_offset: usize,
    dst_offset: usize,
    len: usize,
    bytes: &[u8],
    byte_dst: &DeviceBuffer<u8>,
)
    ensures
        copies_fit(
            memory::copy_u32_d2d_range_steps(word_src, src_offset, word_dst, dst_offset, len),
            pair_lens(Operand::Source, word_src.len() as int, word_dst.len() as int),
        ),
        copies_fit(
            memory::copy_f32_d2d_range_steps(real_src, src_offset, real_dst, dst_offset, len),
            pair_lens(Operand::Source, real_src.len() as int, real_dst.len() as int),
        ),
        copies_fit(
            memory::copy_host_u8_to_device_at_offset_steps(bytes, byte_dst, dst_offset),
            pair_lens(Operand::Host, bytes@.len() as int, byte_dst.len() as int),
        ),
        copies_fit(
            memory::copy_host_u8_to_device_at_offset_async_steps(bytes, byte_dst, dst_offset),
            pair_lens(Operand::Host, bytes@.len() as int, byte_dst.len() as int),
        ),
{
}

/// Transfers between page-locked host memory and the device stay within both.
pub proof fn pinned_transfers_fit(
    src: &DeviceBuffer<u32>,
    dst_len: usize,
    count: usize,
    src_len: int,
    len: int,
    device_len: int,
)
    requires
        0 <= len <= usize::MAX,
    ensures
        copies_fit(
            memory::download_pinned_steps(src, dst_len, count),
            pair_lens(Operand::Source, src.len() as int, dst_len as int),
        ),
        copies_fit(
            memory::copy_pinned_steps(src_len, len, device_len),
            pair_lens(Operand::Host, src_len, device_len),
        ),
{
}

/// A launch asks for no more shared memory than its kernel may use, be it from loading or
/// from a step before it.
pub open spec fn launch_fits(steps: Seq<StepView>, i: int) -> bool {
    match steps[i] {
        StepView::Launch(launch) => {
            ||| launch.config.shared_mem_bytes <= launch.kernel.shared_capacity()
            ||| exists|j: int|
                0 <= j < i && (#[trigger] steps[j] matches StepView::RaiseSharedLimit {
                    kernel,
                    bytes,
                    stage: _,
                } && kernel == launch.kernel && launch.config.shared_mem_bytes <= bytes)
        },
        _ => true,
    }
}

/// Every launch of a plan fits.
pub open spec fn launches_fit(outcome: Result<Seq<StepView>, AegisError>) -> bool {
    outcome matches Ok(steps) ==> forall|i: int|
        0 <= i < steps.len() ==> #[trigger] launch_fits(steps, i)
}

/// Decoding on a length that is read on the device stays within shared memory.
pub proof fn decode_on_device_length_fits(
    query: int,
    output: int,
    heads: int,
    kv_heads: int,
    head_dim: int,
    window_size: int,
)
    ensures
        launches_fit(
            decode::decode_ptr_steps(
                DecodeTexts::spec_half(),
                query,
                output,
                heads,
                kv_heads,
                head_dim,
                window_size,
            ),
        ),
        launches_fit(
            decode::decode_ptr_steps(
                DecodeTexts::spec_fp8(),
                query,
                output,
                heads,
                kv_heads,
                head_dim,
                window_size,
            ),
        ),
{
}

/// Split decoding stays within shared memory.
pub proof fn split_decode_fits(
    key_cache: int,
    query: int,
    output: int,
    acc: int,
    m: int,
    l: int,
    heads: int,
    kv_heads: int,
    head_dim: int,
    window_size: int,
    seq_len_hint: int,
)
    requires
        0 <= head_dim,
        0 <= seq_len_hint,
    ensures
        launches_fit(
            decode::decode_split_steps(
                SplitTexts::spec_half(),
                key_cache,
                query,
                output,
                acc,
                m,
                l,
                heads,
                kv_heads,
                head_dim,
                window_size,
                seq_len_hint,
            ),
        ),
        launches_fit(
            decode::decode_split_steps(
                SplitTexts::spec_fp8(),
                key_cache,
                query,
                output,
                acc,
                m,
                l,
                heads,
                kv_heads,
                head_dim,
                window_size,
                seq_len_hint,
            ),
        ),
{
    runtime::lemma_blocks(seq_len_hint, attention::DECODE_SPLIT_K as int);
}

/// Decoding on a length that the host knows stays within shared memory.
pub proof fn eager_decode_fits(
    key_cache: int,
    value_cache: int,
    query: int,
    output: int,
    seq_len: int,
    heads: int,
    kv_heads: int,
    head_dim: int,
    window_size: int,
)
    requires
        0 <= head_dim,
        0 <= seq_len,
    ensures
        launches_fit(
            decode::decode_eager_steps(
                EagerTexts::spec_half(),
                key_cache,
                value_cache,
                query,
                output,
                seq_len,
                heads,
                kv_heads,
                head_dim,
                window_size,
            ),
        ),
        launches_fit(
            decode::decode_eager_steps(
                EagerTexts::spec_fp8(),
                key_cache,
                value_cache,
                query,
                output,
                seq_len,
                heads,
                kv_heads,
                head_dim,
                window_size,
            ),
        ),
{
}

/// Batched prefill stays within shared memory, whatever kernel serves it.
pub proof fn batched_prefill_fits(request: BatchedPrefill<'_>, config: CudaPrefillAttentionKernel)
    ensures
        launches_fit(request.steps(config)),
{
}

/// Dense prefill stays within shared memory, whatever kernel serves it.
pub proof fn dense_prefill_fits(
    request: DensePrefill<'_>,
    scratch: DenseScratch<'_>,
    split_tokens: int,
)
    ensures
        launches_fit(request.block4_steps()),
        launches_fit(request.warp_tile_steps()),
        launches_fit(request.wmma_steps()),
        launches_fit(request.flash_steps()),
        launches_fit(request.cluster2_steps()),
        launches_fit(request.persistent_steps()),
        launches_fit(request.grouped_steps()),
        launches_fit(request.grouped_split_steps(scratch, split_tokens)),
        launches_fit(request.split_steps(scratch, split_tokens)),
{
    lemma_raised(
        Kernel::AttentionPrefillDenseHalfqWmmaHdim128Q32,
        "set q32 wmma max dynamic shared memory",
        prefill_dense::wmma_shared_bytes(attention::DENSE_WMMA_Q32_BLOCK as int, 128),
        request.persistent_launch(),
    );
    lemma_grouped_bytes();
    lemma_raised(
        Kernel::AttentionPrefillDenseHalfqWmmaHdim128Gqa4,
        "set gqa4 padded wmma max dynamic shared memory",
        prefill_dense::grouped_shared_bytes(),
        request.grouped_launch(),
    );
}

/// Paged grouped-query prefill stays within shared memory.
pub proof fn paged_grouped_prefill_fits(request: PagedGroupedPrefill<'_>)
    ensures
        launches_fit(request.steps()),
{
    lemma_grouped_bytes();
    lemma_raised(
        Kernel::AttentionPrefillPagedVarlenHalfqWmmaHdim128Gqa4,
        "set paged gqa4 padded wmma max dynamic shared memory",
        prefill_paged::paged_gqa4_shared_bytes(),
        request.launch_steps(),
    );
}

/// What the grouped-query kernels ask for.
proof fn lemma_grouped_bytes()
    ensures
        prefill_dense::grouped_shared_bytes() == 50048,
        prefill_paged::paged_gqa4_shared_bytes() == 50048,
{
    let rows: int = 32;
    let stride: int = 40;
    assert(rows * stride == 1280);
    assert(attention::DENSE_WMMA_GQA4_Q_TOKENS * attention::DENSE_WMMA_GQA4_HEADS == rows);
    assert(attention::PAGED_WMMA_GQA4_Q_TOKENS * attention::PAGED_WMMA_GQA4_HEADS == rows);
    assert(attention::DENSE_WMMA_K_TILE + 8 == stride);
}

/// A single launch that follows the raise of its kernel's limit fits it.
proof fn lemma_raised(
    kernel: Kernel,
    stage: &'static str,
    bytes: int,
    rest: Result<Seq<StepView>, AegisError>,
)
    requires
        0 <= bytes <= i32::MAX,
        rest matches Ok(steps) ==> steps.len() == 1 && (steps[0] matches StepView::Launch(launch)
            && launch.kernel == kernel && launch.config.shared_mem_bytes == bytes),
    ensures
        launches_fit(
            Ok(
                Plan::spec_then(
                    seq![StepView::RaiseSharedLimit { kernel, bytes: bytes as i32, stage }],
                    rest,
                ),
            ),
        ),
{
    let raise = StepView::RaiseSharedLimit { kernel, bytes: bytes as i32, stage };
    let steps = Plan::spec_then(seq![raise], rest);
    assert forall|i: int| 0 <= i < steps.len() implies #[trigger] launch_fits(steps, i) by {
        assert(steps[0] == raise);
    }
}

/// The chunks of split decoding cover the sequence.
pub proof fn decode_chunks_cover(seq_len_hint: int)
    requires
        0 <= seq_len_hint,
    ensures
        decode::effective_chunk_len(seq_len_hint)
            * attention::DECODE_SPLIT_K >= seq_len_hint,
{
    let parts = attention::DECODE_SPLIT_K as int;
    runtime::lemma_blocks(seq_len_hint, parts);
    let chunk = runtime::blocks(seq_len_hint, parts);
    let held = decode::effective_chunk_len(seq_len_hint);
    assert(held * parts >= chunk * parts) by (nonlinear_arith)
        requires
            held >= chunk,
            parts > 0,
    ;
}

/// The splits of dense attention cover the context, and none of them is empty but for an
/// empty context.
pub proof fn dense_splits_cover(context_len: int, split_tokens: int)
    requires
        0 <= context_len,
        0 < split_tokens,
    ensures
        attention::split_count(context_len, split_tokens) * split_tokens >= context_len,
        attention::split_count(context_len, split_tokens) >= 1,
        context_len > 0 ==> (attention::split_count(context_len, split_tokens) - 1) * split_tokens
            < context_len,
{
    runtime::lemma_blocks(context_len, split_tokens);
    if context_len > 0 {
        let n = runtime::blocks(context_len, split_tokens);
        assert(n >= 1) by (nonlinear_arith)
            requires
                n * split_tokens >= context_len,
                context_len > 0,
                split_tokens > 0,
        ;
    }
}

/// Only the settings that insist on the plain kernel refuse a long prefix; all others serve
/// every length, and the plain kernel only serves what its shared memory holds.
pub proof fn long_prefixes_are_served(
    config: CudaPrefillAttentionKernel,
    start_position: int,
    head_dim: int,
    legacy_shared_bytes: int,
)
    ensures
        attention::batched_kernel(
            config,
            start_position,
            head_dim,
            legacy_shared_bytes,
        ) is Err <==> (config is Off || config is Reference) && legacy_shared_bytes
            > attention::SHARED_BYTES_LIMIT,
        attention::batched_kernel(
            config,
            start_position,
            head_dim,
            legacy_shared_bytes,
        ) matches Ok(kernel) && kernel is CacheOnly ==> legacy_shared_bytes
            <= attention::SHARED_BYTES_LIMIT,
{
}

} // verus!
