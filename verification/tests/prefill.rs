//! Which kernel serves a prefill, and how it is launched.
use aegisllm_cuda::config::{
    AttentionSwitches, CudaAttentionBackend, CudaPrefillAttentionKernel, CudaRuntimeConfig,
    PrefillTuning,
};
use aegisllm_cuda::error::AegisError;
use aegisllm_cuda::functions::Kernel;
use aegisllm_cuda::launch::{Arg, Launch, LaunchConfig, Operand, Plan, Step};
use aegisllm_cuda::runtime::attention::prefill_dense::{DensePrefill, DenseScratch};
use aegisllm_cuda::runtime::CudaRuntime;
use aegisllm_cuda::types::{
    CudaAttentionRequest, CudaAttentionSplitScratch, DensePrefillMetadataProof, DeviceBuffer, F32,
};

fn runtime(setting: CudaPrefillAttentionKernel) -> CudaRuntime {
    CudaRuntime::new_with_config(
        0,
        Some("12.0".to_owned()),
        CudaRuntimeConfig {
            prefill_attention: setting,
            native_mxfp4_repack: false,
            native_mxfp4_inference: false,
            cutlass_nvfp4_repack: false,
        },
        PrefillTuning {
            auto_target: CudaAttentionBackend::FlashAttention4,
            varlen_min_context: 1024,
            dense_split_k_tokens: 512,
        },
    )
}

fn reals(len: usize) -> DeviceBuffer<F32> {
    DeviceBuffer::with_len(len)
}

fn halves(len: usize) -> DeviceBuffer<u16> {
    DeviceBuffer::with_len(len)
}

fn words(len: usize) -> DeviceBuffer<u32> {
    DeviceBuffer::with_len(len)
}

fn launches(plan: &Plan) -> Vec<&Launch> {
    plan.steps
        .iter()
        .filter_map(|step| match step {
            Step::Launch(launch) => Some(launch),
            _ => None,
        })
        .collect()
}

fn message(outcome: Result<Plan, AegisError>) -> String {
    outcome.unwrap_err().message()
}

fn geometry(grid: (u32, u32, u32), block: u32, shared: u32) -> LaunchConfig {
    LaunchConfig { grid_dim: grid, block_dim: (block, 1, 1), shared_mem_bytes: shared }
}

const OFF: AttentionSwitches = AttentionSwitches {
    disable_split_k: false,
    experimental_split_k: false,
    experimental_persistent: false,
    legacy_wmma: false,
    experimental_cluster: false,
};

struct Chunk {
    start: usize,
    batch: usize,
    heads: usize,
    kv_heads: usize,
    dim: usize,
    ready: bool,
    scratch: usize,
}

const CHUNK: Chunk =
    Chunk { start: 2000, batch: 20, heads: 8, kv_heads: 2, dim: 128, ready: true, scratch: 0 };

fn compat(
    setting: CudaPrefillAttentionKernel,
    chunk: &Chunk,
    switches: &AttentionSwitches,
) -> Result<Plan, AegisError> {
    let context = chunk.start + chunk.batch;
    let cache = halves((context + 1) * chunk.kv_heads * chunk.dim);
    let width = chunk.heads * chunk.dim;
    let pages = context.div_ceil(256);
    runtime(setting).attention_prefill_dense_compat_device(
        &cache,
        &cache,
        &reals(chunk.batch * chunk.kv_heads * chunk.dim),
        &reals(chunk.batch * chunk.kv_heads * chunk.dim),
        &reals(chunk.batch * width),
        &halves(chunk.batch * width),
        chunk.ready,
        &reals(chunk.scratch * chunk.dim),
        &reals(chunk.scratch),
        &reals(chunk.scratch),
        &words(chunk.batch),
        &words(2),
        &words(2),
        &words(1),
        &words(pages),
        1,
        chunk.start,
        chunk.batch,
        chunk.heads,
        chunk.kv_heads,
        chunk.dim,
        &reals(chunk.batch * width),
        DensePrefillMetadataProof {
            start_position: chunk.start,
            batch: chunk.batch,
            context_len: context,
        },
        switches,
    )
}

fn first_kernel(setting: CudaPrefillAttentionKernel, chunk: &Chunk, switches: &AttentionSwitches) -> Kernel {
    launches(&compat(setting, chunk, switches).unwrap())[0].kernel
}

#[test]
fn wide_heads_take_the_tensor_cores() {
    let chunk = Chunk { dim: 256, ready: false, ..CHUNK };
    for setting in [
        CudaPrefillAttentionKernel::Auto,
        CudaPrefillAttentionKernel::AegisVarlen,
        CudaPrefillAttentionKernel::WarpFlash,
    ] {
        let plan = compat(setting, &chunk, &OFF).unwrap();
        assert!(matches!(
            plan.steps[0],
            Step::ConvertToHalf { input: Operand::Query, len: 40960, output: Operand::QueryHalf }
        ));
        let launch = launches(&plan)[0];
        assert_eq!(launch.kernel, Kernel::AttentionPrefillDenseHalfqWmmaHdim256);
        assert_eq!(launch.stage, "launch dense halfq wmma prefill attention");
        assert_eq!(launch.config, geometry((8, 2, 1), 512, 76992));
    }
    let short = Chunk { dim: 256, batch: 15, ..CHUNK };
    assert_eq!(
        first_kernel(CudaPrefillAttentionKernel::Auto, &short, &OFF),
        Kernel::AttentionPrefillDenseHalfqBlock4
    );
}

#[test]
fn grouped_heads_share_their_keys() {
    let plan = compat(CudaPrefillAttentionKernel::Auto, &CHUNK, &OFF).unwrap();
    assert_eq!(plan.steps.len(), 2);
    assert!(matches!(plan.steps[0], Step::RaiseSharedLimit { bytes: 50048, .. }));
    let launch = launches(&plan)[0];
    assert_eq!(launch.kernel, Kernel::AttentionPrefillDenseHalfqWmmaHdim128Gqa4);
    assert_eq!(launch.config, geometry((2, 3, 1), 256, 50048));
    assert_eq!(
        launch.args,
        vec![
            Arg::Buffer(Operand::KeyCache),
            Arg::Buffer(Operand::ValueCache),
            Arg::Buffer(Operand::QueryHalf),
            Arg::U32(2000),
            Arg::U32(20),
            Arg::U32(2020),
            Arg::U32(8),
            Arg::U32(2),
            Arg::U32(128),
            Arg::U32(2021),
            Arg::Buffer(Operand::Output),
        ]
    );
    let six = Chunk { heads: 12, ..CHUNK };
    let plan = compat(CudaPrefillAttentionKernel::Auto, &six, &OFF).unwrap();
    assert_eq!(launches(&plan)[0].config.grid_dim, (4, 3, 1));
}

#[test]
fn switches_pick_among_the_tensor_core_kernels() {
    let auto = CudaPrefillAttentionKernel::Auto;
    let few = Chunk { heads: 4, ..CHUNK };
    let plan = compat(auto, &few, &OFF).unwrap();
    let launch = launches(&plan)[0];
    assert_eq!(launch.kernel, Kernel::AttentionPrefillDenseHalfqWmmaHdim128Fa);
    assert_eq!(launch.config, geometry((4, 2, 1), 256, 31936));
    let legacy = AttentionSwitches { legacy_wmma: true, ..OFF };
    let plan = compat(auto, &few, &legacy).unwrap();
    let launch = launches(&plan)[0];
    assert_eq!(launch.kernel, Kernel::AttentionPrefillDenseHalfqWmmaHdim128);
    assert_eq!(launch.config, geometry((4, 2, 1), 256, 40128));
    assert_eq!(
        first_kernel(auto, &CHUNK, &legacy),
        Kernel::AttentionPrefillDenseHalfqWmmaHdim128Gqa4
    );
    let cluster = AttentionSwitches { experimental_cluster: true, ..OFF };
    let plan = compat(auto, &CHUNK, &cluster).unwrap();
    let launch = launches(&plan)[0];
    assert_eq!(launch.kernel, Kernel::AttentionPrefillDenseHalfqWmmaHdim128Cluster2);
    assert_eq!(launch.stage, "launch dense cluster2 halfq wmma prefill attention");
    assert_eq!(launch.config, geometry((16, 2, 1), 256, 31936));
    let persistent = AttentionSwitches { experimental_persistent: true, ..OFF };
    let plan = compat(auto, &CHUNK, &persistent).unwrap();
    assert!(matches!(
        plan.steps[0],
        Step::RaiseSharedLimit {
            kernel: Kernel::AttentionPrefillDenseHalfqWmmaHdim128Q32,
            bytes: 63872,
            stage: "set q32 wmma max dynamic shared memory",
        }
    ));
    assert_eq!(launches(&plan)[0].config, geometry((8, 1, 1), 256, 63872));
    let short = Chunk { start: 1003, ..CHUNK };
    for switches in [cluster, persistent] {
        assert_eq!(
            first_kernel(auto, &short, &switches),
            Kernel::AttentionPrefillDenseHalfqWmmaHdim128Gqa4
        );
    }
    let plan = compat(CudaPrefillAttentionKernel::WarpFlash, &CHUNK, &cluster).unwrap();
    assert_eq!(
        launches(&plan)[0].kernel,
        Kernel::AttentionPrefillDenseHalfqWarpTileHdim128
    );
}

#[test]
fn long_contexts_are_split_where_scratch_allows() {
    let auto = CudaPrefillAttentionKernel::Auto;
    let split = AttentionSwitches { experimental_split_k: true, ..OFF };
    let rows = 2 * 8 * 4 * 16;
    let chunk = Chunk { scratch: rows, ..CHUNK };
    let plan = compat(auto, &chunk, &split).unwrap();
    let all = launches(&plan);
    assert_eq!(all.len(), 2);
    assert_eq!(all[0].kernel, Kernel::AttentionPrefillDenseHalfqWmmaHdim128Gqa4Split);
    assert_eq!(all[0].stage, "launch split-K dense gqa4 halfq wmma prefill attention");
    assert_eq!(all[0].config, geometry((2, 3, 4), 256, 47488));
    assert_eq!(
        all[0].args[9..],
        [
            Arg::U32(2021),
            Arg::U32(512),
            Arg::U32(4),
            Arg::Buffer(Operand::SplitAcc),
            Arg::Buffer(Operand::SplitM),
            Arg::Buffer(Operand::SplitL),
        ]
    );
    assert_eq!(all[1].kernel, Kernel::AttentionPrefillDenseHalfqWmmaHdim128Combine);
    assert_eq!(
        all[1].stage,
        "launch combine split-K dense gqa4 halfq wmma prefill attention"
    );
    assert_eq!(all[1].config, geometry((8, 2, 1), 256, 8384));
    assert_eq!(
        all[1].args,
        vec![
            Arg::Buffer(Operand::SplitAcc),
            Arg::Buffer(Operand::SplitM),
            Arg::Buffer(Operand::SplitL),
            Arg::U32(20),
            Arg::U32(8),
            Arg::U32(128),
            Arg::U32(4),
            Arg::Buffer(Operand::Output),
        ]
    );
    let short_of_scratch = Chunk { scratch: rows - 1, ..CHUNK };
    assert_eq!(
        first_kernel(auto, &short_of_scratch, &split),
        Kernel::AttentionPrefillDenseHalfqWmmaHdim128Gqa4
    );
    let few = Chunk { heads: 4, scratch: rows / 2, ..CHUNK };
    let plan = compat(auto, &few, &split).unwrap();
    let all = launches(&plan);
    assert_eq!(all[0].kernel, Kernel::AttentionPrefillDenseHalfqWmmaHdim128Split);
    assert_eq!(all[0].config, geometry((4, 2, 4), 256, 40128));
    assert_eq!(
        all[1].stage,
        "launch combine split-K dense halfq wmma prefill attention"
    );
    let short = Chunk { start: 1003, scratch: rows, ..CHUNK };
    assert_eq!(
        first_kernel(auto, &short, &split),
        Kernel::AttentionPrefillDenseHalfqWmmaHdim128Gqa4
    );
}

#[test]
fn other_heads_take_the_general_kernels() {
    let varlen = CudaPrefillAttentionKernel::AegisVarlen;
    let first = Chunk { start: 0, batch: 20, dim: 64, ..CHUNK };
    let plan = compat(varlen, &first, &OFF).unwrap();
    let launch = launches(&plan)[0];
    assert_eq!(launch.kernel, Kernel::AttentionPrefillBatchedWarp);
    assert_eq!(launch.config, geometry((8, 20, 1), 128, (20 + 128) * 4));
    let later = Chunk { dim: 64, ..CHUNK };
    let plan = compat(varlen, &later, &OFF).unwrap();
    let launch = launches(&plan)[0];
    assert_eq!(launch.kernel, Kernel::AttentionPrefillDenseHalfqBlock4);
    assert_eq!(launch.config, geometry((8, 5, 1), 64, (8 + 640 + 16) * 4));
    let unready = Chunk { dim: 64, ready: false, ..CHUNK };
    let plan = compat(varlen, &unready, &OFF).unwrap();
    assert!(matches!(plan.steps[0], Step::ConvertToHalf { len: 10240, .. }));
    assert_eq!(
        launches(&plan)[0].kernel,
        Kernel::AttentionPrefillPagedVarlenHalfqBlock4
    );
    let short = Chunk { start: 40, dim: 64, ..CHUNK };
    assert_eq!(
        first_kernel(varlen, &short, &OFF),
        Kernel::AttentionPrefillBatched
    );
    assert_eq!(
        first_kernel(CudaPrefillAttentionKernel::Continuation, &later, &OFF),
        Kernel::AttentionPrefillContinuation
    );
    assert_eq!(
        message(compat(CudaPrefillAttentionKernel::FlashAttention2, &later, &OFF)),
        "cuda.prefill-attention=fa2 is reserved for the production Ampere/Ada FA2 backend; use \
         aegis-varlen, off, or auto until that kernel lands"
    );
    let odd = Chunk { kv_heads: 3, ..CHUNK };
    assert_eq!(
        message(compat(varlen, &odd, &OFF)),
        "dense prefill attention heads must be divisible by kv heads"
    );
}

fn dense<'a>(
    cache: &'a DeviceBuffer<u16>,
    query: &'a DeviceBuffer<u16>,
    output: &'a DeviceBuffer<F32>,
    heads: usize,
    kv_heads: usize,
    head_dim: usize,
) -> DensePrefill<'a> {
    DensePrefill {
        key_cache: cache,
        value_cache: cache,
        query_half: query,
        start_position: 40,
        batch: 20,
        context_len: 60,
        num_attention_heads: heads,
        num_kv_heads: kv_heads,
        head_dim,
        output,
    }
}

#[test]
fn dense_kernels_name_what_does_not_fit() {
    let runtime = runtime(CudaPrefillAttentionKernel::Auto);
    let query = halves(20 * 8 * 128);
    let short = halves(20 * 8 * 128 - 1);
    let output = reals(20 * 8 * 128);
    let cache = halves(64 * 256);
    let ragged = halves(64 * 256 + 1);
    let fit = |cache, query| dense(cache, query, &output, 8, 2, 128);
    assert_eq!(
        message(runtime.attention_prefill_dense_halfq_wmma_hdim128_fa_device(&fit(&cache, &short))),
        "dense fa wmma attention q/output shape mismatch: query_half=20479 output=20480 \
         required=20480"
    );
    assert_eq!(
        message(
            runtime.attention_prefill_dense_halfq_wmma_hdim128_cluster2_device(&fit(&ragged, &query))
        ),
        "dense cluster2 wmma attention kv cache shape mismatch: key_cache=16385 \
         value_cache=16385 required=15360"
    );
    assert_eq!(
        message(runtime.attention_prefill_dense_halfq_wmma_hdim128_q32_device(&fit(&ragged, &query))),
        "dense q32 wmma attention kv cache shape mismatch: key_cache=16385 value_cache=16385 \
         required=15360"
    );
    let unequal = DensePrefill { value_cache: &ragged, ..dense(&cache, &query, &output, 8, 0, 128) };
    assert_eq!(
        message(runtime.attention_prefill_dense_halfq_wmma_hdim128_fa_device(&unequal)),
        "dense fa wmma attention kv cache shape mismatch: key_cache=16384 value_cache=16385 \
         required=0"
    );
    let narrow = dense(&cache, &short, &output, 8, 0, 128);
    assert_eq!(
        message(runtime.attention_prefill_dense_halfq_wmma_hdim_device(&narrow)),
        "dense wmma attention q/output shape mismatch: query_half=20479 output=20480 \
         required=20480"
    );
    let third = dense(&cache, &query, &output, 5, 2, 128);
    assert_eq!(
        message(runtime.attention_prefill_dense_halfq_wmma_hdim128_cluster2_device(&third)),
        "dense cluster2 wmma attention heads must be divisible by kv heads"
    );
    assert!(runtime.attention_prefill_dense_halfq_wmma_hdim128_q32_device(&third).is_ok());
    assert_eq!(
        message(runtime.attention_prefill_dense_halfq_wmma_hdim_device(&dense(
            &cache, &query, &output, 8, 2, 64
        ))),
        "dense wmma prefill attention requires head_dim ∈ {128, 256}; got 64"
    );
    assert_eq!(
        message(runtime.attention_prefill_dense_halfq_wmma_hdim128_gqa4_device(&dense(
            &cache, &query, &output, 6, 2, 128
        ))),
        "dense gqa4 wmma attention requires GQA group >= 4, got 3"
    );
    let (acc, m) = (reals(2 * 8 * 16 * 128), reals(256));
    let tiny = reals(255);
    assert_eq!(
        message(runtime.attention_prefill_dense_halfq_wmma_hdim128_gqa4_split_device(
            &fit(&cache, &query),
            &DenseScratch { acc: &acc, m: &m, l: &tiny }
        )),
        "dense gqa4 split wmma attention scratch buffers are too small"
    );
    assert!(runtime
        .attention_prefill_dense_halfq_wmma_hdim128_gqa4_split_device(
            &fit(&cache, &query),
            &DenseScratch { acc: &acc, m: &m, l: &m }
        )
        .is_ok());
}

struct Paged {
    setting: CudaPrefillAttentionKernel,
    sequences: usize,
    tokens: usize,
    max_k: usize,
    heads: usize,
    dim: usize,
    half: bool,
    scratch: bool,
}

const PAGED: Paged = Paged {
    setting: CudaPrefillAttentionKernel::AegisVarlen,
    sequences: 1,
    tokens: 20,
    max_k: 600,
    heads: 4,
    dim: 64,
    half: true,
    scratch: false,
};

fn paged(case: &Paged) -> Result<Plan, AegisError> {
    let q = reals(case.tokens * case.heads * case.dim);
    let q_half = halves(case.tokens * case.heads * case.dim);
    let cache = halves((case.max_k + 3) * 2 * case.dim);
    let meta = words(256);
    let rows = case.tokens.div_ceil(4) * case.heads * case.max_k.div_ceil(256) * 4;
    let (acc, m) = (reals(rows * case.dim), reals(rows));
    runtime(case.setting).attention_prefill_request_device(&CudaAttentionRequest {
        q: &q,
        q_half: if case.half { Some(&q_half) } else { None },
        k_cache: &cache,
        v_cache: &cache,
        cu_q: &meta,
        cu_k: &meta,
        context_lens: &meta,
        slot_mapping: &meta,
        block_tables: &meta,
        split_scratch: if case.scratch {
            Some(CudaAttentionSplitScratch { acc: &acc, m: &m, l: &m })
        } else {
            None
        },
        output: &q,
        num_sequences: case.sequences,
        num_prefill_tokens: case.tokens,
        num_decode_tokens: 0,
        max_q: case.tokens,
        max_k: case.max_k,
        block_table_stride: case.max_k.div_ceil(256),
        head_dim: case.dim,
        num_q_heads: case.heads,
        num_kv_heads: 2,
        causal: true,
    })
}

#[test]
fn paged_requests_take_the_kernel_for_their_shape() {
    let plan = paged(&PAGED).unwrap();
    let launch = launches(&plan)[0];
    assert_eq!(launch.kernel, Kernel::AttentionPrefillPagedVarlenHalfqBlock4);
    assert_eq!(launch.stage, "launch paged varlen prefill attention");
    assert_eq!(launch.config, geometry((4, 5, 1), 128, (16 + 640 + 16) * 4));
    assert_eq!(
        launch.args,
        vec![
            Arg::Buffer(Operand::KeyCache),
            Arg::Buffer(Operand::ValueCache),
            Arg::Buffer(Operand::QueryHalf),
            Arg::Buffer(Operand::SlotMapping),
            Arg::Buffer(Operand::CuQ),
            Arg::Buffer(Operand::ContextLens),
            Arg::Buffer(Operand::BlockTables),
            Arg::U32(1),
            Arg::U32(20),
            Arg::U32(4),
            Arg::U32(2),
            Arg::U32(64),
            Arg::U32(256),
            Arg::U32(3),
            Arg::U32(603),
            Arg::Buffer(Operand::Output),
        ]
    );
    let plan = paged(&Paged { sequences: 2, ..PAGED }).unwrap();
    let launch = launches(&plan)[0];
    assert_eq!(launch.kernel, Kernel::AttentionPrefillPagedVarlenHalfq);
    assert_eq!(launch.config, geometry((4, 20, 1), 128, (128 + 64 + 4 + 64) * 4));
    let plan = paged(&Paged { half: false, ..PAGED }).unwrap();
    let launch = launches(&plan)[0];
    assert_eq!(launch.kernel, Kernel::AttentionPrefillPagedVarlen);
    assert_eq!(launch.config, geometry((4, 20, 1), 128, (128 + 64 + 4) * 4));
    assert_eq!(launch.args[2], Arg::Buffer(Operand::Query));
    let plan = paged(&Paged { heads: 8, dim: 128, ..PAGED }).unwrap();
    let launch = launches(&plan)[0];
    assert_eq!(
        launch.kernel,
        Kernel::AttentionPrefillPagedVarlenHalfqWmmaHdim128Gqa4
    );
    assert_eq!(launch.config, geometry((2, 3, 1), 256, 50048));
    let plan = paged(&Paged { heads: 8, dim: 128, tokens: 7, ..PAGED }).unwrap();
    assert_eq!(
        launches(&plan)[0].kernel,
        Kernel::AttentionPrefillPagedVarlenHalfqBlock4
    );
}

#[test]
fn paged_requests_are_split_from_4096_positions_on() {
    let long = Paged { max_k: 4096, scratch: true, ..PAGED };
    let plan = paged(&long).unwrap();
    let all = launches(&plan);
    assert_eq!(all.len(), 2);
    assert_eq!(all[0].kernel, Kernel::AttentionPrefillPagedVarlenHalfqBlock4Split);
    assert_eq!(all[0].stage, "launch split-K paged varlen prefill attention");
    assert_eq!(all[0].config, geometry((4, 5, 16), 128, 2688));
    assert_eq!(
        all[0].args[12..],
        [
            Arg::U32(256),
            Arg::U32(256),
            Arg::U32(16),
            Arg::U32(16),
            Arg::U32(4099),
            Arg::Buffer(Operand::SplitAcc),
            Arg::Buffer(Operand::SplitM),
            Arg::Buffer(Operand::SplitL),
        ]
    );
    assert_eq!(all[1].kernel, Kernel::AttentionPrefillPagedVarlenHalfqBlock4Combine);
    assert_eq!(all[1].config, geometry((4, 5, 1), 128, (4 * 64 + 16) * 4));
    let plan = paged(&Paged { max_k: 4095, scratch: true, ..PAGED }).unwrap();
    assert_eq!(
        launches(&plan)[0].kernel,
        Kernel::AttentionPrefillPagedVarlenHalfqBlock4
    );
    let plan = paged(&Paged { max_k: 4096, ..PAGED }).unwrap();
    assert_eq!(
        launches(&plan)[0].kernel,
        Kernel::AttentionPrefillPagedVarlenHalfqBlock4
    );
    let grouped = Paged { heads: 8, dim: 128, ..long };
    let plan = paged(&grouped).unwrap();
    assert_eq!(
        launches(&plan)[0].kernel,
        Kernel::AttentionPrefillPagedVarlenHalfqBlock4Split
    );
}

#[test]
fn the_fourth_flash_kernel_needs_its_shape() {
    let fa4 = Paged { setting: CudaPrefillAttentionKernel::FlashAttention4, dim: 128, ..PAGED };
    let plan = paged(&fa4).unwrap();
    let launch = launches(&plan)[0];
    assert_eq!(launch.kernel, Kernel::AttentionPrefillPagedVarlenFa4Hdim128);
    assert_eq!(launch.config, geometry((4, 3, 1), 128, 46336));
    let plan = paged(&Paged { tokens: 3, ..fa4 }).unwrap();
    let launch = launches(&plan)[0];
    assert_eq!(launch.kernel, Kernel::AttentionPrefillPagedVarlenHalfq);
    assert_eq!(launch.config, geometry((4, 1, 1), 128, 46336));
    assert_eq!(
        message(paged(&Paged { sequences: 2, ..fa4 })),
        "cuda.prefill-attention=fa4 currently supports only single-sequence causal prefill with \
         q_half, paged f16 KV cache, head_dim=128, and no decode tokens; got seqs=2 prefill=20 \
         decode=0 head_dim=128 q_half=true"
    );
    assert_eq!(
        message(paged(&Paged { setting: CudaPrefillAttentionKernel::Off, ..PAGED })),
        "paged attention ABI was invoked for backend reference; expected aegis-varlen or fa4"
    );
    assert!(message(paged(&Paged { dim: 16384, ..PAGED })).starts_with(
        "CUDA kernel `prefill_paged_varlen` requires "
    ));
}
