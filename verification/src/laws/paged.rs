//! What prefill over paged caches computes, and what the prefill of one sequence comes to
//! whichever implementation serves it.
use crate::config::{AttentionSwitches, CudaAttentionBackend};
use crate::error::AegisError;
use crate::functions::Kernel;
use crate::kernels::{self, PagedPrefill};
use crate::launch::{Arg, LaunchView, Operand, StepView};
use crate::laws::prefill;
use crate::runtime;
use crate::runtime::attention;
use crate::runtime::attention::dispatch;
use crate::runtime::attention::prefill_dense::{self, CompatPrefill};
use crate::runtime::CudaRuntime;
use crate::types::CudaAttentionRequest;
use vstd::prelude::*;

verus! {

/// `len` entries hold a table of `stride` for each of `sequences`, as far as a length can
/// say so.
pub open spec fn holds_tables(len: int, sequences: int, stride: int) -> bool {
    len >= sequences * stride || len == usize::MAX
}

/// A paged launch computes the attention that was asked for: its parameters are those of the
/// request, the caches hold the physical slots, and every table and row lies within its
/// buffer.
pub open spec fn paged_served(request: CudaAttentionRequest<'_>, launch: LaunchView) -> bool {
    let work = kernels::paged_prefill(launch);
    &&& work == (PagedPrefill {
        keys: Arg::Buffer(Operand::KeyCache),
        values: Arg::Buffer(Operand::ValueCache),
        queries: Arg::Buffer(
            if request.q_half is Some {
                Operand::QueryHalf
            } else {
                Operand::Query
            },
        ),
        slots: Arg::Buffer(Operand::SlotMapping),
        query_starts: Arg::Buffer(Operand::CuQ),
        context_lens: Arg::Buffer(Operand::ContextLens),
        block_tables: Arg::Buffer(Operand::BlockTables),
        sequences: request.num_sequences as int,
        tokens: request.num_prefill_tokens as int,
        heads: request.num_q_heads as int,
        kv_heads: request.num_kv_heads as int,
        head_dim: request.head_dim as int,
        page_tokens: 256,
        table_stride: request.block_table_stride as int,
        physical_slots: work.physical_slots,
    })
    &&& work.heads % work.kv_heads == 0
    &&& work.physical_slots * (work.kv_heads * work.head_dim) == request.k_cache.len()
    &&& request.k_cache.len() == request.v_cache.len()
    &&& request.max_k <= work.physical_slots
    &&& request.max_k <= work.table_stride * work.page_tokens
    &&& work.tokens * (work.heads * work.head_dim) <= request.output.len()
    &&& work.tokens * (work.heads * work.head_dim) <= request.q.len()
    &&& request.q_half matches Some(half) ==> work.tokens * (work.heads * work.head_dim)
        <= half.len()
    &&& work.tokens <= request.slot_mapping.len()
    &&& work.sequences + 1 <= request.cu_q.len()
    &&& work.sequences <= request.context_lens.len()
    &&& holds_tables(request.block_tables.len() as int, work.sequences, work.table_stride)
}

/// The blocks of a paged launch serve every head and every token, one sequence or split after
/// the other.
pub open spec fn paged_geometry(
    request: CudaAttentionRequest<'_>,
    launch: LaunchView,
    layers: int,
) -> bool {
    let grouped = launch.kernel is AttentionPrefillPagedVarlenHalfqWmmaHdim128Gqa4;
    let grid = launch.config.grid_dim;
    &&& kernels::heads_served(
        launch.kernel,
        grid.0 as int,
        request.num_q_heads as int,
        request.num_kv_heads as int,
    )
    &&& kernels::tiled(
        grid.1 as int,
        kernels::tokens_per_block(launch.kernel),
        if grouped {
            request.max_q as int
        } else {
            request.num_prefill_tokens as int
        },
    )
    &&& grid.2 == (if grouped {
        request.num_sequences as int
    } else {
        layers
    })
    &&& launch.config.block_dim == (kernels::attention_threads(launch.kernel) as u32, 1u32, 1u32)
    &&& launch.config.shared_mem_bytes == kernels::paged_shared_bytes(
        launch.kernel,
        request.head_dim as int,
    )
}

/// Whether the step is a launch that attends to the whole request by itself.
pub open spec fn paged_alone(
    request: CudaAttentionRequest<'_>,
    backend: CudaAttentionBackend,
    step: StepView,
) -> bool {
    &&& step matches StepView::Launch(launch)
    &&& paged_served(request, launch)
    &&& launch.args.len() == 16
    &&& launch.args[15] == Arg::Buffer(Operand::Output)
    &&& launch.kernel is AttentionPrefillPagedVarlen <==> request.q_half is None
    // A run of fewer tokens than half a tile goes to the plain kernel with the tile's grid.
    &&& (backend is FlashAttention4 ==> request.num_prefill_tokens >= 4) ==> paged_geometry(
        request,
        launch,
        1,
    )
}

/// The splits of a paged prefill and their combination.
pub open spec fn paged_split(
    request: CudaAttentionRequest<'_>,
    split: StepView,
    joined: StepView,
) -> bool {
    &&& split matches StepView::Launch(split)
    &&& joined matches StepView::Launch(joined)
    &&& {
        let splits = kernels::number(split.args[14]);
        let rows = splits * request.num_q_heads * request.num_prefill_tokens;
        &&& paged_served(request, split)
        &&& split.kernel is AttentionPrefillPagedVarlenHalfqBlock4Split
        &&& paged_geometry(request, split, splits)
        &&& split.args.len() == 20
        &&& kernels::number(split.args[13]) * splits >= request.max_k
        &&& (splits - 1) * kernels::number(split.args[13]) < request.max_k
        &&& split.args[17] == Arg::Buffer(Operand::SplitAcc)
        &&& split.args[18] == Arg::Buffer(Operand::SplitM)
        &&& split.args[19] == Arg::Buffer(Operand::SplitL)
        &&& request.split_scratch matches Some(scratch)
        &&& rows * request.head_dim <= scratch.acc.len()
        &&& rows <= scratch.m.len()
        &&& rows <= scratch.l.len()
        &&& joined.kernel is AttentionPrefillPagedVarlenHalfqBlock4Combine
        &&& paged_geometry(request, joined, 1)
        &&& joined.args.len() == 8
        &&& joined.args[0] == split.args[17]
        &&& joined.args[1] == split.args[18]
        &&& joined.args[2] == split.args[19]
        &&& kernels::number(joined.args[3]) == request.num_prefill_tokens
        &&& kernels::number(joined.args[4]) == request.num_q_heads
        &&& kernels::number(joined.args[5]) == request.head_dim
        &&& kernels::number(joined.args[6]) == splits
        &&& joined.args[7] == Arg::Buffer(Operand::Output)
    }
}

/// What a paged plan does: one launch, a pair that splits the context and combines the
/// splits, or one launch after its limit is raised.
pub open spec fn paged_plan(
    request: CudaAttentionRequest<'_>,
    backend: CudaAttentionBackend,
    steps: Seq<StepView>,
) -> bool {
    ||| steps.len() == 1 && paged_alone(request, backend, steps[0])
    ||| steps.len() == 2 && paged_split(request, steps[0], steps[1])
    ||| {
        &&& steps.len() == 2
        &&& steps[0] matches StepView::RaiseSharedLimit { kernel, bytes, stage: _ }
        &&& kernel is AttentionPrefillPagedVarlenHalfqWmmaHdim128Gqa4
        &&& bytes == kernels::paged_shared_bytes(kernel, 128)
        &&& steps[1] is Refuse || (paged_alone(request, backend, steps[1])
            && steps[1]->Launch_0.kernel == kernel)
    }
}

proof fn lemma_paged_lengths(request: CudaAttentionRequest<'_>)
    requires
        request.metadata_fault() is None,
        request.length_fault() is None,
    ensures
        0 <= request.physical_slots() <= usize::MAX,
        request.physical_slots() * (request.num_kv_heads * request.head_dim)
            == request.k_cache.len(),
        request.max_k <= request.block_table_stride * 256,
        holds_tables(
            request.block_tables.len() as int,
            request.num_sequences as int,
            request.block_table_stride as int,
        ),
        request.splits() * 256 >= request.max_k,
        (request.splits() - 1) * 256 < request.max_k,
        request.splits() >= 1,
{
    vstd::arithmetic::mul::lemma_mul_strictly_positive(
        request.num_kv_heads as int,
        request.head_dim as int,
    );
    prefill::lemma_capacity(request.k_cache.len() as int, request.kv_width());
    runtime::lemma_blocks(request.max_k as int, 256);
}

/// A paged prefill that is accepted computes the attention that was asked for.
pub proof fn paged_prefill_attends(
    request: CudaAttentionRequest<'_>,
    backend: CudaAttentionBackend,
)
    ensures
        request.metadata_fault() is None ==> (request.backend_steps(backend) matches Ok(steps)
            ==> paged_plan(request, backend, steps)),
{
    if request.metadata_fault() is None && request.backend_steps(backend) is Ok {
        let steps = request.backend_steps(backend)->Ok_0;
        lemma_paged_lengths(request);
        prefill::lemma_tiled(request.num_prefill_tokens as int, 4);
        prefill::lemma_tiled(request.num_prefill_tokens as int, 8);
        runtime::lemma_blocks(request.num_prefill_tokens as int, 4);
        runtime::lemma_blocks(request.num_prefill_tokens as int, 8);
        if request.grouped(backend) && !request.split(backend) {
            let inner = request.as_grouped();
            prefill::lemma_tiled(request.max_q as int, 8);
            runtime::lemma_blocks(request.max_q as int, 8);
            prefill::lemma_group_tiles(
                request.num_q_heads as int,
                request.num_kv_heads as int,
            );
            super::lemma_grouped_bytes();
            assert(paged_plan(request, backend, steps));
        } else if request.split(backend) {
            lemma_scratch_rows(request);
            assert(paged_split(request, steps[0], steps[1]));
        } else {
            assert(paged_alone(request, backend, steps[0]));
        }
    }
}

/// The scratch has a row for each token, head and split.
proof fn lemma_scratch_rows(request: CudaAttentionRequest<'_>)
    requires
        request.splits() >= 1,
    ensures
        request.splits() * request.num_q_heads * request.num_prefill_tokens
            <= request.scratch_rows(),
        request.splits() * request.num_q_heads * request.num_prefill_tokens * request.head_dim
            <= request.scratch_rows() * request.head_dim,
{
    let tokens = request.num_prefill_tokens as int;
    let heads = request.num_q_heads as int;
    let splits = request.splits();
    let blocks = runtime::blocks(tokens, 4);
    runtime::lemma_blocks(tokens, 4);
    let held = blocks * heads * splits * 4;
    let rows = splits * heads * tokens;
    assert(rows <= held) by (nonlinear_arith)
        requires
            blocks * 4 >= tokens,
            heads >= 0,
            splits >= 0,
            held == blocks * heads * splits * 4,
            rows == splits * heads * tokens,
    ;
    vstd::arithmetic::mul::lemma_mul_inequality(rows, held, request.head_dim as int);
}

/// Which kernels a paged prefill launches: grouped queries only for a head dimension of 128,
/// four heads a group and eight tokens; the flash kernel only for a single sequence of that
/// head dimension where it was picked; blocks of four tokens only for a single sequence with
/// as many; splits only of long contexts.
pub proof fn paged_kernels_apply(request: CudaAttentionRequest<'_>, backend: CudaAttentionBackend)
    requires
        request.num_kv_heads > 0,
    ensures
        request.backend_steps(backend) matches Ok(steps) ==> forall|i: int|
            0 <= i < steps.len() && (#[trigger] steps[i]) is Launch ==> {
                let kernel = steps[i]->Launch_0.kernel;
                let half = request.q_half is Some;
                let heads = request.num_q_heads as int;
                let group = heads / request.num_kv_heads as int;
                let single = request.num_sequences == 1;
                let tokens = request.num_prefill_tokens;
                let fits_group = half && request.head_dim == 128 && group >= 4 && tokens >= 8
                    && backend is AegisVarlen;
                let fits_flash = half && single && request.head_dim == 128 && backend
                    is FlashAttention4;
                let fits_block = half && single && request.head_dim <= 256 && tokens >= 4;
                let split = kernel is AttentionPrefillPagedVarlenHalfqBlock4Split || kernel
                    is AttentionPrefillPagedVarlenHalfqBlock4Combine;
                let rows = runtime::blocks(tokens as int, 4) * heads * runtime::blocks(
                    request.max_k as int,
                    256,
                ) * 4;
                let room = request.split_scratch matches Some(scratch) && scratch.acc.len() >= rows
                    * request.head_dim && scratch.m.len() >= rows && scratch.l.len() >= rows;
                &&& split <==> fits_block && !fits_flash && request.max_k >= 4096 && room
                &&& kernel is AttentionPrefillPagedVarlenHalfqWmmaHdim128Gqa4 <==> fits_group
                    && !split
                &&& kernel is AttentionPrefillPagedVarlenFa4Hdim128 <==> fits_flash && tokens >= 4
                &&& kernel is AttentionPrefillPagedVarlenHalfqBlock4 <==> fits_block && !fits_flash
                    && !fits_group && !split
                &&& kernel is AttentionPrefillPagedVarlenHalfq <==> half && !fits_block
                    && !fits_group
                &&& kernel is AttentionPrefillPagedVarlen <==> !half
            },
{
    if request.backend_steps(backend) is Ok {
        let steps = request.backend_steps(backend)->Ok_0;
        if request.max_k >= 4096 {
            runtime::lemma_blocks(request.max_k as int, 256);
        }
        if request.grouped(backend) && !request.split(backend) {
            assert forall|i: int| 0 <= i < steps.len() && (#[trigger] steps[i]) is Launch implies
            steps[i]->Launch_0.kernel
                is AttentionPrefillPagedVarlenHalfqWmmaHdim128Gqa4 by {}
        }
    }
}

/// A setting that names an implementation gets it; where the runtime picks, it takes paged
/// attention exactly for long contexts on devices with tensor-core attention; the paged
/// flash kernel is refused on other devices than the ones it is for.
pub proof fn settings_pick_their_backend(rt: CudaRuntime, context_len: int)
    ensures
        ({
            let setting = rt.config.prefill_attention;
            let picked = dispatch::prefill_backend(rt, context_len);
            let target = rt.tuning.auto_target;
            let tensor_cores = target is FlashAttention2 || target is FlashAttention3 || target
                is FlashAttention4;
            let long = context_len >= rt.tuning.varlen_min_context;
            &&& setting is AegisVarlen ==> picked == Ok::<_, AegisError>(
                CudaAttentionBackend::AegisVarlen,
            )
            &&& setting is Off || setting is Reference || setting is WarpFlash || setting
                is Continuation ==> picked == Ok::<_, AegisError>(CudaAttentionBackend::Reference)
            &&& setting is FlashAttention2 || setting is FlashAttention3 ==> picked is Err
            &&& setting is FlashAttention4 ==> (picked is Ok <==> rt.is_sm120())
            &&& picked matches Ok(backend) ==> (backend is FlashAttention4 <==> setting
                is FlashAttention4)
            &&& setting is Auto ==> (picked == Ok::<_, AegisError>(
                if tensor_cores && long {
                    CudaAttentionBackend::AegisVarlen
                } else {
                    CudaAttentionBackend::Reference
                },
            ))
        }),
{
}

/// A launch computes attention of these extents.
pub open spec fn attends(
    launch: LaunchView,
    start: int,
    tokens: int,
    heads: int,
    kv_heads: int,
    head_dim: int,
) -> bool {
    let a = launch.args;
    if kernels::is_batched(launch.kernel) {
        let work = kernels::batched_prefill(launch);
        &&& work.start == start && work.tokens == tokens && work.head_dim == head_dim
        &&& work.heads == heads && work.kv_heads == kv_heads
        &&& work.queries == Arg::Buffer(Operand::Query)
    } else if kernels::is_dense(launch.kernel) {
        let work = kernels::dense_prefill(launch);
        &&& work.start == start && work.tokens == tokens && work.head_dim == head_dim
        &&& work.heads == heads && work.kv_heads == kv_heads
        &&& work.queries == Arg::Buffer(Operand::QueryHalf)
        &&& kernels::number(a[5]) == start + tokens
    } else if kernels::is_paged(launch.kernel) {
        let work = kernels::paged_prefill(launch);
        &&& work.sequences == 1 && work.tokens == tokens && work.head_dim == head_dim
        &&& work.heads == heads && work.kv_heads == kv_heads
    } else {
        &&& kernels::is_prefill_combine(launch.kernel)
        &&& kernels::number(a[3]) == tokens
        &&& kernels::number(a[4]) == heads
        &&& kernels::number(a[5]) == head_dim
    }
}

/// Every launch of a plan computes attention of these extents, and the last step is a launch
/// that writes the output, or a refusal.
pub open spec fn plan_attends(
    steps: Seq<StepView>,
    start: int,
    tokens: int,
    heads: int,
    kv_heads: int,
    head_dim: int,
) -> bool {
    &&& steps.len() >= 1
    &&& forall|i: int|
        0 <= i < steps.len() ==> (#[trigger] steps[i] matches StepView::Launch(launch) ==> attends(
            launch,
            start,
            tokens,
            heads,
            kv_heads,
            head_dim,
        ))
    &&& steps.last() is Refuse || (steps.last() matches StepView::Launch(launch)
        && launch.args.len() > 0 && launch.args.last() == Arg::Buffer(Operand::Output))
}

/// The launches of a plan take the queries in half precision.
pub open spec fn takes_half(steps: Seq<StepView>) -> bool {
    exists|i: int|
        0 <= i < steps.len() && (#[trigger] steps[i] matches StepView::Launch(launch)
            && !kernels::is_batched(launch.kernel) && !kernels::is_prefill_combine(launch.kernel))
}

proof fn lemma_batched_attends(
    request: prefill_dense::BatchedPrefill<'_>,
    config: crate::config::CudaPrefillAttentionKernel,
)
    ensures
        request.steps(config) matches Ok(steps) ==> {
            &&& plan_attends(
                steps,
                request.start_position as int,
                request.batch as int,
                request.num_attention_heads as int,
                request.num_kv_heads as int,
                request.head_dim as int,
            )
            &&& !takes_half(steps)
            &&& steps.len() == 1
            &&& kernels::is_batched(steps[0]->Launch_0.kernel)
        },
{
    prefill::batched_prefill_attends(request, config);
}

/// What a dense outcome comes to.
spec fn dense_attends(
    request: prefill_dense::DensePrefill<'_>,
    outcome: Result<Seq<StepView>, AegisError>,
    kernel: Kernel,
) -> bool {
    outcome matches Ok(steps) ==> {
        &&& plan_attends(
            steps,
            request.start_position as int,
            request.batch as int,
            request.num_attention_heads as int,
            request.num_kv_heads as int,
            request.head_dim as int,
        )
        &&& forall|i: int|
            0 <= i < steps.len() ==> (#[trigger] steps[i] matches StepView::Launch(launch)
                ==> launch.kernel == kernel || launch.kernel
                is AttentionPrefillDenseHalfqWmmaHdim128Combine)
        &&& forall|i: int|
            0 <= i < steps.len() ==> (#[trigger] steps[i] matches StepView::RaiseSharedLimit {
                kernel: raised,
                bytes: _,
                stage: _,
            } ==> raised == kernel)
        &&& steps[0] is Launch || steps[0] is RaiseSharedLimit
    }
}

proof fn lemma_dense_attends(
    request: prefill_dense::DensePrefill<'_>,
    scratch: prefill_dense::DenseScratch<'_>,
    split_tokens: int,
)
    requires
        request.context_len == request.start_position + request.batch,
        request.has_verdict(),
        0 < split_tokens,
    ensures
        dense_attends(
            request,
            request.block4_steps(),
            Kernel::AttentionPrefillDenseHalfqBlock4,
        ),
        dense_attends(
            request,
            request.warp_tile_steps(),
            Kernel::AttentionPrefillDenseHalfqWarpTileHdim128,
        ),
        dense_attends(
            request,
            request.wmma_steps(),
            if request.head_dim == 128 {
                Kernel::AttentionPrefillDenseHalfqWmmaHdim128
            } else {
                Kernel::AttentionPrefillDenseHalfqWmmaHdim256
            },
        ),
        dense_attends(
            request,
            request.flash_steps(),
            Kernel::AttentionPrefillDenseHalfqWmmaHdim128Fa,
        ),
        dense_attends(
            request,
            request.cluster2_steps(),
            Kernel::AttentionPrefillDenseHalfqWmmaHdim128Cluster2,
        ),
        dense_attends(
            request,
            request.persistent_steps(),
            Kernel::AttentionPrefillDenseHalfqWmmaHdim128Q32,
        ),
        dense_attends(
            request,
            request.grouped_steps(),
            Kernel::AttentionPrefillDenseHalfqWmmaHdim128Gqa4,
        ),
        dense_attends(
            request,
            request.split_steps(scratch, split_tokens),
            Kernel::AttentionPrefillDenseHalfqWmmaHdim128Split,
        ),
        dense_attends(
            request,
            request.grouped_split_steps(scratch, split_tokens),
            Kernel::AttentionPrefillDenseHalfqWmmaHdim128Gqa4Split,
        ),
{
    prefill::plain_dense_prefill_attends(request);
    prefill::raised_dense_prefill_attends(request);
    prefill::split_dense_prefill_attends(request, scratch, split_tokens);
}

/// The prefill of one sequence, whichever implementation serves it, attends with the
/// sequence's own extents, and brings the queries to half precision first, all of them and
/// only where a launch takes them so and they are not at hand.
pub proof fn sequence_prefill_attends(
    request: CompatPrefill<'_>,
    rt: CudaRuntime,
    switches: AttentionSwitches,
)
    requires
        rt.wf(),
        request.head_dim > 0 || !request.tiled(rt) || request.key_cache.len()
            != request.value_cache.len(),
    ensures
        request.steps(rt, switches) matches Ok(steps) ==> {
            &&& plan_attends(
                steps,
                request.start_position as int,
                request.batch as int,
                request.num_attention_heads as int,
                request.num_kv_heads as int,
                request.head_dim as int,
            )
            &&& request.query_half_ready ==> !(steps[0] is ConvertToHalf)
            &&& takes_half(steps) && !request.query_half_ready ==> (steps[0]
                matches StepView::ConvertToHalf { input, len, output } && input == Operand::Query
                && output == Operand::QueryHalf && len == request.batch * (
            request.num_attention_heads * request.head_dim))
            &&& request.num_attention_heads as int % request.num_kv_heads as int == 0
        },
{
    if request.steps(rt, switches) is Ok {
        let steps = request.steps(rt, switches)->Ok_0;
        let config = rt.config.prefill_attention;
        let dense = request.as_dense();
        let split_tokens = rt.tuning.dense_split_k_tokens as int;
        lemma_batched_attends(request.as_batched(), config);
        if request.dense_for(config, 256) {
            lemma_dense_attends(dense, request.scratch(), split_tokens);
            lemma_converted(request, dense.wmma_steps());
        } else if request.dense_for(config, 128) {
            lemma_dense_attends(dense, request.scratch(), split_tokens);
            lemma_converted(request, request.hdim128_steps(rt, switches));
        } else if !request.batched_first(config) {
            let backend = dispatch::prefill_backend(rt, request.context_len());
            if (backend->Ok_0 is AegisVarlen || backend->Ok_0 is FlashAttention4)
                && request.context_len() >= rt.tuning.varlen_min_context {
                if request.tiled(rt) {
                    lemma_dense_attends(dense, request.scratch(), split_tokens);
                } else {
                    lemma_paged_attends(request, rt);
                    lemma_converted(request, request.as_paged().steps(rt));
                }
            }
        }
    }
}

proof fn lemma_paged_attends(request: CompatPrefill<'_>, rt: CudaRuntime)
    requires
        request.fault() is None,
    ensures
        request.as_paged().steps(rt) matches Ok(steps) ==> plan_attends(
            steps,
            request.start_position as int,
            request.batch as int,
            request.num_attention_heads as int,
            request.num_kv_heads as int,
            request.head_dim as int,
        ) && !(steps[0] is ConvertToHalf),
{
    let paged = request.as_paged();
    if paged.steps(rt) is Ok {
        let backend = dispatch::prefill_backend(rt, paged.max_k as int)->Ok_0;
        paged_prefill_attends(paged, backend);
        paged_kernels_apply(paged, backend);
    }
}

/// A conversion before the launches leaves them as they are.
proof fn lemma_converted(request: CompatPrefill<'_>, rest: Result<Seq<StepView>, AegisError>)
    requires
        rest matches Ok(steps) ==> plan_attends(
            steps,
            request.start_position as int,
            request.batch as int,
            request.num_attention_heads as int,
            request.num_kv_heads as int,
            request.head_dim as int,
        ) && !(steps[0] is ConvertToHalf),
        0 <= request.q_len() <= usize::MAX,
    ensures
        request.after_conversion(rest) matches Ok(steps) ==> {
            &&& plan_attends(
                steps,
                request.start_position as int,
                request.batch as int,
                request.num_attention_heads as int,
                request.num_kv_heads as int,
                request.head_dim as int,
            )
            &&& request.query_half_ready ==> !(steps[0] is ConvertToHalf)
            &&& !request.query_half_ready ==> (steps[0] matches StepView::ConvertToHalf {
                input,
                len,
                output,
            } && input == Operand::Query && output == Operand::QueryHalf && len
                == request.q_len())
        },
{
    if !request.query_half_ready && rest is Ok {
        let first = request.after_conversion(rest)->Ok_0;
        let steps = rest->Ok_0;
        assert(first.last() == steps.last());
        assert forall|i: int| 1 <= i < first.len() implies #[trigger] first[i] == steps[i - 1] by {}
    }
}

/// Which kernel serves the prefill of one sequence. The dense tensor-core kernels serve runs
/// of at least sixteen tokens whose heads have one of their two dimensions: the warp tiles
/// where the setting asks for them, splits where they are switched on, the context holds two
/// of them and the scratch has room, the experimental kernels where they are switched on and
/// the context is long, grouped queries where four or more heads share their keys, and
/// otherwise the flash-style kernel.
pub proof fn sequence_kernels_apply(
    request: CompatPrefill<'_>,
    rt: CudaRuntime,
    switches: AttentionSwitches,
)
    requires
        rt.wf(),
        request.head_dim > 0 || !request.tiled(rt) || request.key_cache.len()
            != request.value_cache.len(),
    ensures
        request.steps(rt, switches) matches Ok(steps) ==> forall|i: int|
            0 <= i < steps.len() && (#[trigger] steps[i]) is Launch ==> {
                let kernel = steps[i]->Launch_0.kernel;
                let setting = rt.config.prefill_attention;
                let dense_allowed = (setting is Auto || setting is AegisVarlen || setting
                    is WarpFlash) && request.batch >= 16;
                let context = request.start_position + request.batch;
                let tokens = rt.tuning.dense_split_k_tokens as int;
                let rows = runtime::blocks(request.batch as int, 16) * request.num_attention_heads
                    * attention::split_count(context, tokens) * 16;
                let split = switches.experimental_split_k && !switches.disable_split_k && context
                    >= 2 * tokens && request.split_acc.len() >= rows * request.head_dim
                    && request.split_m.len() >= rows && request.split_l.len() >= rows;
                let heads = request.num_attention_heads as int;
                let shared = heads / request.num_kv_heads as int >= 4;
                let joined = kernel is AttentionPrefillDenseHalfqWmmaHdim128Combine;
                let cluster = switches.experimental_cluster && context >= 1024;
                let persistent = switches.experimental_persistent && context >= 1024;
                &&& kernel is AttentionPrefillDenseHalfqWmmaHdim256 <==> dense_allowed
                    && request.head_dim == 256
                &&& kernels::is_dense_128(kernel) || joined <==> dense_allowed && request.head_dim
                    == 128
                &&& kernels::is_dense_128(kernel) || joined ==> {
                    &&& kernel is AttentionPrefillDenseHalfqWarpTileHdim128 <==> setting
                        is WarpFlash
                    &&& kernels::is_dense_split(kernel) || joined <==> split && !(setting
                        is WarpFlash)
                    &&& kernels::is_dense_split(kernel) ==> (kernels::is_grouped(kernel) <==> shared)
                    &&& kernel is AttentionPrefillDenseHalfqWmmaHdim128Cluster2 <==> !split
                        && cluster && !(setting is WarpFlash)
                    &&& kernel is AttentionPrefillDenseHalfqWmmaHdim128Q32 <==> !split && !cluster
                        && persistent && !(setting is WarpFlash)
                    &&& kernel is AttentionPrefillDenseHalfqWmmaHdim128Gqa4 <==> !split && !cluster
                        && !persistent && shared && !(setting is WarpFlash)
                    &&& kernel is AttentionPrefillDenseHalfqWmmaHdim128 ==> switches.legacy_wmma
                    &&& kernel is AttentionPrefillDenseHalfqWmmaHdim128Fa ==> !switches.legacy_wmma
                }
                &&& kernel is AttentionPrefillBatchedWarp ==> request.start_position == 0
                    && request.head_dim as int % 32 == 0 && request.head_dim <= 256
                &&& kernel is AttentionPrefillDenseHalfqBlock4 ==> request.head_dim <= 256
                    && request.batch >= 4
            },
{
    if request.steps(rt, switches) is Ok {
        let steps = request.steps(rt, switches)->Ok_0;
        let config = rt.config.prefill_attention;
        let dense = request.as_dense();
        let split_tokens = rt.tuning.dense_split_k_tokens as int;
        lemma_batched_attends(request.as_batched(), config);
        if request.dense_for(config, 256) {
            lemma_dense_attends(dense, request.scratch(), split_tokens);
            lemma_kept(request, dense.wmma_steps());
        } else if request.dense_for(config, 128) {
            lemma_dense_attends(dense, request.scratch(), split_tokens);
            lemma_kept(request, request.hdim128_steps(rt, switches));
        } else if !request.batched_first(config) {
            let backend = dispatch::prefill_backend(rt, request.context_len());
            if (backend->Ok_0 is AegisVarlen || backend->Ok_0 is FlashAttention4)
                && request.context_len() >= rt.tuning.varlen_min_context {
                if request.tiled(rt) {
                    lemma_dense_attends(dense, request.scratch(), split_tokens);
                } else {
                    let paged = request.as_paged();
                    if paged.steps(rt) is Ok {
                        paged_kernels_apply(
                            paged,
                            dispatch::prefill_backend(rt, paged.max_k as int)->Ok_0,
                        );
                    }
                    lemma_kept(request, request.as_paged().steps(rt));
                }
            }
        }
    }
}

/// The launches after a conversion are those before it.
proof fn lemma_kept(request: CompatPrefill<'_>, rest: Result<Seq<StepView>, AegisError>)
    ensures
        request.after_conversion(rest) matches Ok(steps) ==> forall|i: int|
            0 <= i < steps.len() && (#[trigger] steps[i]) is Launch ==> rest is Ok && exists|j: int|
                0 <= j < rest->Ok_0.len() && #[trigger] rest->Ok_0[j] == steps[i],
{
    if request.after_conversion(rest) is Ok {
        let steps = request.after_conversion(rest)->Ok_0;
        assert forall|i: int|
            0 <= i < steps.len() && (#[trigger] steps[i]) is Launch implies rest is Ok && exists|
            j: int,
        |
            0 <= j < rest->Ok_0.len() && #[trigger] rest->Ok_0[j] == steps[i] by {
            if request.query_half_ready {
                assert(rest->Ok_0[i] == steps[i]);
            } else {
                assert(rest->Ok_0[i - 1] == steps[i]);
            }
        }
    }
}

} // verus!
