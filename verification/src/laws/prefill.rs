//! What attention plans compute: each query head attends over its own key/value head, every
//! token is served, and every row lies within its buffer.
use crate::config::CudaPrefillAttentionKernel;
use crate::error::AegisError;
use crate::functions::Kernel;
use crate::kernels::{self, CausalPrefill};
use crate::launch::{Arg, LaunchView, Operand, StepView};
use crate::runtime;
use crate::runtime::attention;
use crate::runtime::attention::prefill_dense::{
    self, BatchedPrefill, DensePrefill, DenseScratch,
};
use vstd::prelude::*;

verus! {

/// Every row of queries and of output lies within `len` numbers.
pub open spec fn rows_fit(work: CausalPrefill, len: int) -> bool {
    forall|token: int, head: int|
        0 <= token < work.tokens && 0 <= head < work.heads ==> 0 <= #[trigger] work.row(
            token,
            head,
        ) && work.row(token, head) + work.head_dim <= len
}

/// Every row that a query head sees of a position lies within `len` numbers.
pub open spec fn cached_rows_fit(work: CausalPrefill, len: int) -> bool {
    forall|position: int, head: int|
        0 <= position < work.start + work.tokens && 0 <= head < work.heads ==> 0 <= #[trigger] work.cached(position, head)
            && work.cached(position, head) + work.head_dim <= len
}

/// `count` rows of `width` numbers lie within `len` numbers where all of them fit.
proof fn lemma_row_fits(row: int, count: int, width: int, len: int)
    requires
        0 <= row < count,
        0 <= width,
        count * width <= len,
    ensures
        0 <= row * width,
        row * width + width <= len,
{
    assert(0 <= row * width && row * width + width <= len) by (nonlinear_arith)
        requires
            0 <= row < count,
            0 <= width,
            count * width <= len,
    ;
}

proof fn lemma_rows_fit(work: CausalPrefill, len: int)
    requires
        0 <= work.head_dim,
        0 <= work.heads,
        work.tokens * (work.heads * work.head_dim) <= len,
    ensures
        rows_fit(work, len),
{
    assert forall|token: int, head: int|
        0 <= token < work.tokens && 0 <= head < work.heads implies 0 <= #[trigger] work.row(
        token,
        head,
    ) && work.row(token, head) + work.head_dim <= len by {
        let row = token * work.heads + head;
        assert(0 <= row < work.tokens * work.heads) by (nonlinear_arith)
            requires
                0 <= token < work.tokens,
                0 <= head < work.heads,
                row == token * work.heads + head,
        ;
        vstd::arithmetic::mul::lemma_mul_is_associative(work.tokens, work.heads, work.head_dim);
        lemma_row_fits(row, work.tokens * work.heads, work.head_dim, len);
    }
}

/// A query head's key/value head is one of them.
proof fn lemma_kv_head(work: CausalPrefill, head: int)
    requires
        0 <= head < work.heads,
        0 < work.kv_heads,
        work.heads % work.kv_heads == 0,
    ensures
        0 <= work.kv_head(head) < work.kv_heads,
        work.heads / work.kv_heads >= 1,
{
    let group = work.heads / work.kv_heads;
    vstd::arithmetic::div_mod::lemma_fundamental_div_mod(work.heads, work.kv_heads);
    assert(group >= 1) by (nonlinear_arith)
        requires
            work.heads == work.kv_heads * group,
            work.heads > 0,
            work.kv_heads > 0,
    ;
    vstd::arithmetic::div_mod::lemma_fundamental_div_mod(head, group);
    vstd::arithmetic::div_mod::lemma_mod_bound(head, group);
    let q = head / group;
    vstd::arithmetic::div_mod::lemma_div_pos_is_pos(head, group);
    assert(q < work.kv_heads) by (nonlinear_arith)
        requires
            head == group * q + head % group,
            0 <= head % group,
            head < work.kv_heads * group,
            group >= 1,
    ;
}

proof fn lemma_cached_rows_fit(work: CausalPrefill, bound: int, len: int)
    requires
        bound == work.capacity || bound == work.start + work.tokens,
        0 <= work.head_dim,
        0 < work.capacity,
        0 < work.kv_heads,
        work.heads % work.kv_heads == 0,
        bound * (work.kv_heads * work.head_dim) <= len,
    ensures
        cached_rows_fit(work, len),
{
    assert forall|position: int, head: int|
        0 <= position < work.start + work.tokens && 0 <= head < work.heads implies 0 <= #[trigger] work.cached(position, head)
        && work.cached(position, head) + work.head_dim <= len by {
        lemma_kv_head(work, head);
        let slot = position % work.capacity;
        vstd::arithmetic::div_mod::lemma_mod_bound(position, work.capacity);
        vstd::arithmetic::div_mod::lemma_mod_decreases(position as nat, work.capacity as nat);
        let row = slot * work.kv_heads + work.kv_head(head);
        assert(0 <= row < bound * work.kv_heads) by (nonlinear_arith)
            requires
                0 <= slot < bound,
                0 <= work.kv_head(head) < work.kv_heads,
                row == slot * work.kv_heads + work.kv_head(head),
        ;
        vstd::arithmetic::mul::lemma_mul_is_associative(bound, work.kv_heads, work.head_dim);
        lemma_row_fits(row, bound * work.kv_heads, work.head_dim, len);
    }
}

/// The capacity that a cache of `len` numbers has for rows of `width` numbers: as many whole
/// rows as fit.
pub(crate) proof fn lemma_capacity(len: int, width: int)
    requires
        0 <= len,
        0 < width,
    ensures
        0 <= (len / width) * width <= len,
        0 <= len / width <= len,
        len >= width ==> len / width >= 1,
        len % width == 0 ==> (len / width) * width == len,
{
    vstd::arithmetic::div_mod::lemma_fundamental_div_mod(len, width);
    vstd::arithmetic::div_mod::lemma_mod_bound(len, width);
    vstd::arithmetic::div_mod::lemma_div_pos_is_pos(len, width);
    let q = len / width;
    assert(0 <= q * width <= len && q <= len && (len >= width ==> q >= 1) && (len % width == 0
        ==> q * width == len)) by (nonlinear_arith)
        requires
            len == width * q + len % width,
            0 <= len % width < width,
            0 <= q,
            0 < width,
    ;
}

/// A batched prefill launches one block for each query head and token. The block reads the
/// token's row of that head from the queries, and of each position up to the token's own the
/// rows of the head's key/value head, each within its buffer; the result goes to the row of
/// the same token and head. Continuations also read the chunk's own keys and values.
pub proof fn batched_prefill_attends(
    request: BatchedPrefill<'_>,
    config: CudaPrefillAttentionKernel,
)
    ensures
        request.steps(config) matches Ok(steps) ==> {
            &&& steps.len() == 1
            &&& steps[0] matches StepView::Launch(launch)
            &&& {
                let work = kernels::batched_prefill(launch);
                let continued = launch.kernel is AttentionPrefillContinuation;
                let last: int = if continued {
                    11
                } else {
                    9
                };
                &&& launch.kernel is AttentionPrefillBatched || launch.kernel
                    is AttentionPrefillBatchedWarp || continued
                &&& launch.args.len() == last + 1
                &&& work == (CausalPrefill {
                    keys: Arg::Buffer(Operand::KeyCache),
                    values: Arg::Buffer(Operand::ValueCache),
                    queries: Arg::Buffer(Operand::Query),
                    start: request.start_position as int,
                    tokens: request.batch as int,
                    heads: request.num_attention_heads as int,
                    kv_heads: request.num_kv_heads as int,
                    head_dim: request.head_dim as int,
                    capacity: work.capacity,
                })
                &&& launch.args[last] == Arg::Buffer(Operand::Output)
                &&& continued ==> launch.args[2] == Arg::Buffer(Operand::KeyChunk)
                    && launch.args[3] == Arg::Buffer(Operand::ValueChunk)
                &&& launch.config.grid_dim.0 == work.heads
                &&& launch.config.grid_dim.1 == work.tokens
                &&& launch.config.grid_dim.2 == 1
                &&& launch.config.block_dim == (kernels::attention_threads(launch.kernel) as u32, 1u32, 1u32)
                &&& rows_fit(work, request.query.len() as int)
                &&& rows_fit(work, request.output.len() as int)
                &&& cached_rows_fit(work, request.key_cache.len() as int)
                &&& cached_rows_fit(work, request.value_cache.len() as int)
                &&& work.tokens * (work.kv_heads * work.head_dim) <= request.key_chunk.len()
                &&& work.tokens * (work.kv_heads * work.head_dim) <= request.value_chunk.len()
                // No position that is seen was overwritten by a later one.
                &&& forall|token: int|
                    0 <= token < work.tokens ==> #[trigger] work.last_position(token)
                        < work.capacity
                &&& work.capacity * (work.kv_heads * work.head_dim) <= request.key_cache.len()
                    < (work.capacity + 1) * (work.kv_heads * work.head_dim)
                &&& launch.config.shared_mem_bytes == 4 * (if continued {
                    128 + work.head_dim + 3
                } else {
                    128 + work.start + work.tokens
                })
            }
        },
{
    if request.steps(config) is Ok {
        let steps = request.steps(config)->Ok_0;
        let launch = steps[0]->Launch_0;
        let work = kernels::batched_prefill(launch);
        let width = request.num_kv_heads * request.head_dim;
        let key_len = request.key_cache.len() as int;
        attention::lemma_kv_width(
            request.num_attention_heads as int,
            request.num_kv_heads as int,
            request.head_dim as int,
        );
        let max = request.max_seq_len();
        assert(width <= max * width) by (nonlinear_arith)
            requires
                max >= 1,
                width > 0,
        ;
        lemma_capacity(key_len, width);
        assert(launch.args[0] == Arg::Buffer(Operand::KeyCache));
        assert(work.capacity == key_len / width);
        assert(max <= work.capacity) by {
            vstd::arithmetic::div_mod::lemma_fundamental_div_mod(key_len, width);
            vstd::arithmetic::div_mod::lemma_mod_bound(key_len, width);
            assert(max <= key_len / width) by (nonlinear_arith)
                requires
                    max * width <= key_len,
                    key_len == width * (key_len / width) + key_len % width,
                    key_len % width < width,
                    width > 0,
            ;
        }
        assert(key_len < (work.capacity + 1) * width) by {
            vstd::arithmetic::div_mod::lemma_fundamental_div_mod(key_len, width);
            vstd::arithmetic::div_mod::lemma_mod_bound(key_len, width);
            assert(key_len < (key_len / width + 1) * width) by (nonlinear_arith)
                requires
                    key_len == width * (key_len / width) + key_len % width,
                    key_len % width < width,
            ;
        }
        lemma_rows_fit(work, request.query.len() as int);
        lemma_rows_fit(work, request.output.len() as int);
        lemma_cached_rows_fit(work, work.capacity, key_len);
        lemma_cached_rows_fit(work, max, request.value_cache.len() as int);
        vstd::arithmetic::mul::lemma_mul_is_associative(
            work.tokens,
            work.kv_heads,
            work.head_dim,
        );
    }
}

/// A dense launch computes the attention that was asked for: of every token and query head
/// over the head's own key/value head, each row within its buffer.
pub open spec fn dense_served(request: DensePrefill<'_>, launch: LaunchView) -> bool {
    let work = kernels::dense_prefill(launch);
    let grid = launch.config.grid_dim;
    &&& work == (CausalPrefill {
        keys: Arg::Buffer(Operand::KeyCache),
        values: Arg::Buffer(Operand::ValueCache),
        queries: Arg::Buffer(Operand::QueryHalf),
        start: request.start_position as int,
        tokens: request.batch as int,
        heads: request.num_attention_heads as int,
        kv_heads: request.num_kv_heads as int,
        head_dim: request.head_dim as int,
        capacity: work.capacity,
    })
    &&& work.capacity * (work.kv_heads * work.head_dim) == request.key_cache.len()
    &&& kernels::number(launch.args[5]) == request.context_len
    &&& kernels::heads_served(launch.kernel, grid.0 as int, work.heads, work.kv_heads)
    &&& kernels::tiled(grid.1 as int, kernels::tokens_per_block(launch.kernel), work.tokens)
    &&& launch.config.block_dim == (kernels::attention_threads(launch.kernel) as u32, 1u32, 1u32)
    &&& launch.config.shared_mem_bytes == kernels::dense_shared_bytes(
        launch.kernel,
        work.head_dim,
    )
    &&& rows_fit(work, request.query_half.len() as int)
    &&& rows_fit(work, request.output.len() as int)
    &&& work.heads % work.kv_heads == 0 ==> cached_rows_fit(work, request.key_cache.len() as int)
        && cached_rows_fit(work, request.value_cache.len() as int)
}

/// The outcome is a refusal, or the launch of `kernel` alone, after its shared-memory limit
/// is raised where `raised` says so; the launch writes to the output.
pub open spec fn dense_alone(
    request: DensePrefill<'_>,
    outcome: Result<Seq<StepView>, AegisError>,
    kernel: Kernel,
    raised: bool,
) -> bool {
    outcome matches Ok(steps) ==> {
        let i: int = if raised {
            1
        } else {
            0
        };
        &&& steps.len() == i + 1
        &&& raised ==> (steps[0] matches StepView::RaiseSharedLimit { kernel: k, bytes, stage: _ }
            && k == kernel && bytes == kernels::dense_shared_bytes(kernel, 128))
        &&& raised && steps[i] is Refuse || (steps[i] matches StepView::Launch(launch) && {
            &&& launch.kernel == kernel
            &&& dense_served(request, launch)
            &&& launch.args.len() == 11
            &&& launch.args[10] == Arg::Buffer(Operand::Output)
            &&& launch.config.grid_dim.2 == 1
        })
    }
}

/// The splits and their combination: the splits hold the context, each leaves its rows in the
/// scratch, and the combination takes as many from there for each token and head.
pub open spec fn dense_split(
    request: DensePrefill<'_>,
    scratch: DenseScratch<'_>,
    split_tokens: int,
    outcome: Result<Seq<StepView>, AegisError>,
    kernel: Kernel,
) -> bool {
    outcome matches Ok(steps) ==> {
        &&& steps.len() == 2
        &&& steps[0] matches StepView::Launch(split)
        &&& steps[1] matches StepView::Launch(joined)
        &&& {
            let splits = split.config.grid_dim.2 as int;
            let rows = splits * request.num_attention_heads * request.batch;
            &&& split.kernel == kernel
            &&& dense_served(request, split)
            &&& split.args.len() == 15
            &&& kernels::number(split.args[10]) == split_tokens
            &&& kernels::number(split.args[11]) == splits
            &&& splits >= 1 && splits * split_tokens >= request.context_len
            &&& split.args[12] == Arg::Buffer(Operand::SplitAcc)
            &&& split.args[13] == Arg::Buffer(Operand::SplitM)
            &&& split.args[14] == Arg::Buffer(Operand::SplitL)
            &&& rows * request.head_dim <= scratch.acc.len()
            &&& rows <= scratch.m.len()
            &&& rows <= scratch.l.len()
            &&& joined.kernel is AttentionPrefillDenseHalfqWmmaHdim128Combine
            &&& joined.args.len() == 8
            &&& joined.args[0] == split.args[12]
            &&& joined.args[1] == split.args[13]
            &&& joined.args[2] == split.args[14]
            &&& kernels::number(joined.args[3]) == request.batch
            &&& kernels::number(joined.args[4]) == request.num_attention_heads
            &&& kernels::number(joined.args[5]) == request.head_dim
            &&& kernels::number(joined.args[6]) == splits
            &&& joined.args[7] == Arg::Buffer(Operand::Output)
            &&& joined.config.grid_dim.0 == request.num_attention_heads
            &&& kernels::tiled(
                joined.config.grid_dim.1 as int,
                kernels::tokens_per_block(joined.kernel),
                request.batch as int,
            )
            &&& joined.config.grid_dim.2 == 1
            &&& joined.config.block_dim == (
                kernels::attention_threads(joined.kernel) as u32,
                1u32,
                1u32,
            )
            &&& joined.config.shared_mem_bytes == kernels::dense_shared_bytes(
                joined.kernel,
                request.head_dim as int,
            )
        }
    }
}

/// The attention that a dense request asks for.
spec fn dense_work(request: DensePrefill<'_>) -> CausalPrefill {
    CausalPrefill {
        keys: Arg::Buffer(Operand::KeyCache),
        values: Arg::Buffer(Operand::ValueCache),
        queries: Arg::Buffer(Operand::QueryHalf),
        start: request.start_position as int,
        tokens: request.batch as int,
        heads: request.num_attention_heads as int,
        kv_heads: request.num_kv_heads as int,
        head_dim: request.head_dim as int,
        capacity: request.cache_capacity(),
    }
}

/// Where the lengths are right, the rows lie within the buffers.
proof fn lemma_dense_rows(request: DensePrefill<'_>, texts: prefill_dense::DenseTexts)
    requires
        request.has_verdict(),
    ensures
        request.shape_fault(texts) is None ==> {
            let work = dense_work(request);
            &&& request.has_width()
            &&& 0 < work.capacity
            &&& work.capacity * (work.kv_heads * work.head_dim) == request.key_cache.len()
            &&& rows_fit(work, request.query_half.len() as int)
            &&& rows_fit(work, request.output.len() as int)
            &&& work.heads % work.kv_heads == 0 ==> cached_rows_fit(
                work,
                request.key_cache.len() as int,
            ) && cached_rows_fit(work, request.value_cache.len() as int)
        },
{
    if request.shape_fault(texts) is None {
        let work = dense_work(request);
        let width = request.kv_width();
        vstd::arithmetic::mul::lemma_mul_strictly_positive(
            request.num_kv_heads as int,
            request.head_dim as int,
        );
        lemma_capacity(request.key_cache.len() as int, width);
        assert(work.capacity > 0) by (nonlinear_arith)
            requires
                work.capacity * width > 0,
                width > 0,
        ;
        lemma_rows_fit(work, request.query_half.len() as int);
        lemma_rows_fit(work, request.output.len() as int);
        if work.heads % work.kv_heads == 0 {
            lemma_cached_rows_fit(work, work.capacity, request.key_cache.len() as int);
            lemma_cached_rows_fit(work, work.capacity, request.value_cache.len() as int);
        }
    }
}

/// Rounding up to tiles.
pub(crate) proof fn lemma_tiled(count: int, tile: int)
    requires
        count >= 0,
        tile > 0,
    ensures
        kernels::tiled(runtime::blocks(count, tile), tile, count),
{
    runtime::lemma_blocks(count, tile);
    if count == 0 {
        assert((0int - 1) * tile < 0) by (nonlinear_arith)
            requires
                tile > 0,
        ;
    }
}

/// Each dense kernel with its own launch serves the whole request.
pub proof fn plain_dense_prefill_attends(request: DensePrefill<'_>)
    requires
        request.has_verdict(),
    ensures
        dense_alone(
            request,
            request.block4_steps(),
            Kernel::AttentionPrefillDenseHalfqBlock4,
            false,
        ),
        dense_alone(
            request,
            request.warp_tile_steps(),
            Kernel::AttentionPrefillDenseHalfqWarpTileHdim128,
            false,
        ),
        dense_alone(
            request,
            request.wmma_steps(),
            if request.head_dim == 128 {
                Kernel::AttentionPrefillDenseHalfqWmmaHdim128
            } else {
                Kernel::AttentionPrefillDenseHalfqWmmaHdim256
            },
            false,
        ),
        request.wmma_steps() is Ok ==> request.head_dim == 128 || request.head_dim == 256,
        dense_alone(
            request,
            request.flash_steps(),
            Kernel::AttentionPrefillDenseHalfqWmmaHdim128Fa,
            false,
        ),
        dense_alone(
            request,
            request.cluster2_steps(),
            Kernel::AttentionPrefillDenseHalfqWmmaHdim128Cluster2,
            false,
        ),
{
    lemma_tiled(request.batch as int, 4);
    lemma_tiled(request.batch as int, 16);
    runtime::lemma_blocks(request.batch as int, 4);
    runtime::lemma_blocks(request.batch as int, 16);
    lemma_dense_rows(request, prefill_dense::DenseTexts::block4());
    lemma_dense_rows(request, prefill_dense::DenseTexts::warp_tile());
    lemma_dense_rows(request, prefill_dense::DenseTexts::wmma());
    lemma_dense_rows(request, prefill_dense::DenseTexts::flash());
    lemma_dense_rows(request, prefill_dense::DenseTexts::cluster2());
}

/// So do the persistent and the grouped-query kernel, once their limits are raised.
pub proof fn raised_dense_prefill_attends(request: DensePrefill<'_>)
    requires
        request.has_verdict(),
    ensures
        dense_alone(
            request,
            request.persistent_steps(),
            Kernel::AttentionPrefillDenseHalfqWmmaHdim128Q32,
            true,
        ),
        dense_alone(
            request,
            request.grouped_steps(),
            Kernel::AttentionPrefillDenseHalfqWmmaHdim128Gqa4,
            true,
        ),
{
    lemma_tiled(request.batch as int, 32);
    lemma_tiled(request.batch as int, 8);
    runtime::lemma_blocks(request.batch as int, 32);
    runtime::lemma_blocks(request.batch as int, 8);
    lemma_dense_rows(request, prefill_dense::DenseTexts::persistent());
    lemma_dense_rows(request, prefill_dense::DenseTexts::grouped());
    if request.num_kv_heads > 0 {
        lemma_group_tiles(request.num_attention_heads as int, request.num_kv_heads as int);
    }
    super::lemma_grouped_bytes();
}

/// Four heads at a time, as many blocks for each group as hold it serve every group.
pub(crate) proof fn lemma_group_tiles(heads: int, kv_heads: int)
    requires
        heads >= 0,
        kv_heads > 0,
    ensures
        0 <= kv_heads * runtime::blocks(heads / kv_heads, 4) <= heads,
        kernels::heads_served(
            Kernel::AttentionPrefillDenseHalfqWmmaHdim128Gqa4,
            kv_heads * runtime::blocks(heads / kv_heads, 4),
            heads,
            kv_heads,
        ),
{
    vstd::arithmetic::div_mod::lemma_div_pos_is_pos(heads, kv_heads);
    let group = heads / kv_heads;
    lemma_tiled(group, 4);
    runtime::lemma_blocks(group, 4);
    attention::lemma_group_blocks(heads, kv_heads, runtime::blocks(group, 4));
    vstd::arithmetic::mul::lemma_mul_nonnegative(kv_heads, runtime::blocks(group, 4));
}

/// The kernels that split the context, and what combines their splits, serve the whole
/// request.
pub proof fn split_dense_prefill_attends(
    request: DensePrefill<'_>,
    scratch: DenseScratch<'_>,
    split_tokens: int,
)
    requires
        request.has_verdict(),
        0 < split_tokens,
    ensures
        dense_split(
            request,
            scratch,
            split_tokens,
            request.split_steps(scratch, split_tokens),
            Kernel::AttentionPrefillDenseHalfqWmmaHdim128Split,
        ),
        dense_split(
            request,
            scratch,
            split_tokens,
            request.grouped_split_steps(scratch, split_tokens),
            Kernel::AttentionPrefillDenseHalfqWmmaHdim128Gqa4Split,
        ),
{
    let batch = request.batch as int;
    let heads = request.num_attention_heads as int;
    let head_dim = request.head_dim as int;
    let splits = request.splits(split_tokens);
    lemma_tiled(batch, 16);
    lemma_tiled(batch, 8);
    runtime::lemma_blocks(batch, 16);
    runtime::lemma_blocks(batch, 8);
    super::dense_splits_cover(request.context_len as int, split_tokens);
    runtime::lemma_blocks(request.context_len as int, split_tokens);
    lemma_dense_rows(request, prefill_dense::DenseTexts::split());
    lemma_dense_rows(request, prefill_dense::DenseTexts::grouped_split());
    if request.num_kv_heads > 0 {
        lemma_group_tiles(request.num_attention_heads as int, request.num_kv_heads as int);
    }
    let blocks = runtime::blocks(batch, 16);
    let held = blocks * heads * splits * 16;
    let rows = splits * heads * batch;
    assert(rows <= held) by (nonlinear_arith)
        requires
            blocks * 16 >= batch,
            heads >= 0,
            splits >= 0,
            held == blocks * heads * splits * 16,
            rows == splits * heads * batch,
    ;
    assert(rows * head_dim <= held * head_dim) by (nonlinear_arith)
        requires
            rows <= held,
            head_dim >= 0,
    ;
}

/// Which batched kernel is launched: the warp kernel for first prefills of whole warps, where
/// the setting allows it; the continuation kernel where it is asked for, or where the scores
/// outgrow shared memory; the plain kernel for the rest.
pub proof fn batched_kernels_apply(request: BatchedPrefill<'_>, config: CudaPrefillAttentionKernel)
    ensures
        request.steps(config) matches Ok(steps) ==> {
            let kernel = steps[0]->Launch_0.kernel;
            let warps = (config is Auto || config is AegisVarlen || config is WarpFlash)
                && request.start_position == 0 && request.head_dim as int % 32 == 0
                && request.head_dim <= 256;
            let fits = 4 * (request.start_position + request.batch + 128) <= 48 * 1024;
            &&& kernel is AttentionPrefillBatchedWarp <==> warps
            &&& kernel is AttentionPrefillContinuation <==> !warps && (config is Continuation
                || !fits)
            &&& kernel is AttentionPrefillBatched <==> !warps && !(config is Continuation) && fits
            &&& config is Off || config is Reference ==> fits
        },
{
}

} // verus!
