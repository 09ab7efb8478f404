//! Attention: which kernel serves a request, and what is launched.
use aegisllm_cuda::config::{
    AttentionSwitches, CudaAttentionBackend, CudaPrefillAttentionKernel, CudaRuntimeConfig,
    PrefillTuning,
};
use aegisllm_cuda::error::AegisError;
use aegisllm_cuda::functions::Kernel;
use aegisllm_cuda::launch::{Arg, Launch, LaunchConfig, Operand, Plan, Step};
use aegisllm_cuda::runtime::attention::prefill_dense::{DensePrefill, DenseScratch};
use aegisllm_cuda::runtime::attention::prefill_paged::PagedGroupedPrefill;
use aegisllm_cuda::runtime::attention::{
    dense_wmma_split_k_enabled, dense_wmma_split_scratch_ready, select_prefill_batched_kernel,
    validate_dynamic_shared_bytes, validate_dynamic_shared_bytes_with_cap, PrefillBatchedKernel,
};
use aegisllm_cuda::runtime::CudaRuntime;
use aegisllm_cuda::types::{
    CudaAttentionRequest, DensePrefillMetadataProof, DeviceBuffer, F32,
};

fn runtime_with(kernel: CudaPrefillAttentionKernel, capability: Option<&str>) -> CudaRuntime {
    CudaRuntime::new_with_config(
        3,
        capability.map(str::to_owned),
        CudaRuntimeConfig {
            prefill_attention: kernel,
            native_mxfp4_repack: false,
            native_mxfp4_inference: false,
            cutlass_nvfp4_repack: false,
        },
        PrefillTuning {
            auto_target: CudaAttentionBackend::FlashAttention4,
            varlen_min_context: 1024,
            dense_split_k_tokens: 512,
        },
    )
}

fn reals(len: usize) -> DeviceBuffer<F32> {
    DeviceBuffer::with_len(len)
}

fn halves(len: usize) -> DeviceBuffer<u16> {
    DeviceBuffer::with_len(len)
}

fn words(len: usize) -> DeviceBuffer<u32> {
    DeviceBuffer::with_len(len)
}

fn launches(plan: &Plan) -> Vec<&Launch> {
    plan.steps
        .iter()
        .filter_map(|step| match step {
            Step::Launch(launch) => Some(launch),
            _ => None,
        })
        .collect()
}

fn message(outcome: Result<Plan, AegisError>) -> String {
    outcome.unwrap_err().message()
}

#[test]
fn reference_prefill_rejects_oversized_shared_memory() {
    let error =
        select_prefill_batched_kernel(CudaPrefillAttentionKernel::Reference, 0, 128, 256 * 1024)
            .unwrap_err();
    assert!(error
        .message()
        .contains("cuda.prefill-attention=aegis-varlen"));
}

#[test]
fn warp_flash_still_prefers_warp_kernel_when_eligible() {
    assert_eq!(
        select_prefill_batched_kernel(CudaPrefillAttentionKernel::WarpFlash, 0, 128, 1024).unwrap(),
        PrefillBatchedKernel::Warp
    );
}

#[test]
fn varlen_first_prefill_uses_warp_specialization_when_dense() {
    assert_eq!(
        select_prefill_batched_kernel(CudaPrefillAttentionKernel::AegisVarlen, 0, 128, 1024)
            .unwrap(),
        PrefillBatchedKernel::Warp
    );
}

#[test]
fn batched_kernel_depends_on_setting_and_length() {
    let pick = |setting, start, dim, bytes| {
        select_prefill_batched_kernel(setting, start, dim, bytes).unwrap()
    };
    assert_eq!(pick(CudaPrefillAttentionKernel::Auto, 1, 128, 1024), PrefillBatchedKernel::CacheOnly);
    assert_eq!(pick(CudaPrefillAttentionKernel::Auto, 0, 100, 1024), PrefillBatchedKernel::CacheOnly);
    assert_eq!(pick(CudaPrefillAttentionKernel::Auto, 0, 288, 1024), PrefillBatchedKernel::CacheOnly);
    assert_eq!(pick(CudaPrefillAttentionKernel::Auto, 1, 128, 49153), PrefillBatchedKernel::Continuation);
    assert_eq!(pick(CudaPrefillAttentionKernel::Auto, 1, 128, 49152), PrefillBatchedKernel::CacheOnly);
    assert_eq!(pick(CudaPrefillAttentionKernel::Continuation, 0, 128, 16), PrefillBatchedKernel::Continuation);
    assert_eq!(pick(CudaPrefillAttentionKernel::Off, 0, 128, 49152), PrefillBatchedKernel::CacheOnly);
    assert_eq!(pick(CudaPrefillAttentionKernel::FlashAttention2, 0, 128, 1024), PrefillBatchedKernel::CacheOnly);
}

#[test]
fn only_insisting_settings_refuse_long_prefixes() {
    for setting in [CudaPrefillAttentionKernel::Off, CudaPrefillAttentionKernel::Reference] {
        assert_eq!(
            select_prefill_batched_kernel(setting, 7, 64, 49153).unwrap_err().message(),
            "CUDA reference prefill attention requires 49153 bytes of dynamic shared memory; \
             use cuda.prefill-attention=aegis-varlen, auto, or continuation for long prefixes"
        );
    }
    for setting in [
        CudaPrefillAttentionKernel::Auto,
        CudaPrefillAttentionKernel::FlashAttention2,
        CudaPrefillAttentionKernel::FlashAttention3,
        CudaPrefillAttentionKernel::FlashAttention4,
        CudaPrefillAttentionKernel::AegisVarlen,
        CudaPrefillAttentionKernel::WarpFlash,
        CudaPrefillAttentionKernel::Continuation,
    ] {
        assert!(select_prefill_batched_kernel(setting, 7, 64, 1 << 30).is_ok());
    }
}

#[test]
fn shared_memory_limits_are_exact() {
    assert_eq!(validate_dynamic_shared_bytes("k", 49152).unwrap(), 49152);
    assert_eq!(
        validate_dynamic_shared_bytes("k", 49153).unwrap_err().message(),
        "CUDA kernel `k` requires 49153 bytes of dynamic shared memory, exceeding the \
         conservative 48KiB launch limit"
    );
    assert_eq!(validate_dynamic_shared_bytes_with_cap("k", 98304, 98304).unwrap(), 98304);
    assert!(validate_dynamic_shared_bytes_with_cap("k", 98305, 98304).is_err());
}

#[test]
fn backend_follows_the_setting() {
    let auto = runtime_with(CudaPrefillAttentionKernel::Auto, Some("12.0"));
    assert_eq!(
        auto.select_prefill_attention_backend(1024).unwrap(),
        CudaAttentionBackend::AegisVarlen
    );
    assert_eq!(
        auto.select_prefill_attention_backend(1023).unwrap(),
        CudaAttentionBackend::Reference
    );
    let mut other = runtime_with(CudaPrefillAttentionKernel::Auto, None);
    other.tuning.auto_target = CudaAttentionBackend::Reference;
    assert_eq!(
        other.select_prefill_attention_backend(1 << 20).unwrap(),
        CudaAttentionBackend::Reference
    );
    assert_eq!(
        runtime_with(CudaPrefillAttentionKernel::FlashAttention4, Some("12.1"))
            .select_prefill_attention_backend(1)
            .unwrap(),
        CudaAttentionBackend::FlashAttention4
    );
    assert_eq!(
        runtime_with(CudaPrefillAttentionKernel::FlashAttention4, Some("9.0"))
            .select_prefill_attention_backend(1)
            .unwrap_err()
            .message(),
        "cuda.prefill-attention=fa4 requires a Blackwell/SM12.x CUDA device; device 3 is not \
         reported as Blackwell"
    );
    for (setting, name) in [(CudaPrefillAttentionKernel::FlashAttention2, "fa2"), (CudaPrefillAttentionKernel::FlashAttention3, "fa3")] {
        let error = runtime_with(setting, None)
            .select_prefill_attention_backend(1)
            .unwrap_err();
        assert!(matches!(error, AegisError::Unsupported(_)));
        assert!(error
            .message()
            .starts_with(&format!("cuda.prefill-attention={name} is reserved")));
    }
}

#[test]
fn decode_on_device_length_launches_one_block_per_head() {
    let runtime = runtime_with(CudaPrefillAttentionKernel::Auto, None);
    let plan = runtime
        .attention_decode_ptr_device(
            &halves(4096),
            &halves(4096),
            &reals(512),
            &words(1),
            8,
            2,
            64,
            100,
            &reals(512),
        )
        .unwrap();
    let launch = launches(&plan)[0];
    assert_eq!(plan.steps.len(), 1);
    assert_eq!(launch.kernel, Kernel::AttentionPtr);
    assert_eq!(launch.stage, "launch attention_decode_ptr");
    assert_eq!(
        launch.config,
        LaunchConfig {
            grid_dim: (8, 1, 1),
            block_dim: (128, 1, 1),
            shared_mem_bytes: 33280,
        }
    );
    assert_eq!(
        launch.args,
        vec![
            Arg::Buffer(Operand::KeyCache),
            Arg::Buffer(Operand::ValueCache),
            Arg::Buffer(Operand::Query),
            Arg::Buffer(Operand::SeqLen),
            Arg::U32(8),
            Arg::U32(2),
            Arg::U32(64),
            Arg::U32(100),
            Arg::Buffer(Operand::Output),
        ]
    );
}

#[test]
fn decode_refusals_name_their_reason() {
    let runtime = runtime_with(CudaPrefillAttentionKernel::Auto, None);
    let run = |query: usize, heads, kv_heads, dim| {
        runtime.attention_decode_ptr_device(
            &halves(64),
            &halves(64),
            &reals(query),
            &words(1),
            heads,
            kv_heads,
            dim,
            0,
            &reals(1024),
        )
    };
    assert_eq!(
        message(run(1024, 8, 0, 64)),
        "attention_ptr dimensions must be non-zero: q_heads=8 kv_heads=0 head_dim=64"
    );
    assert_eq!(message(run(511, 8, 2, 64)), "attention_ptr query/output shape mismatch");
    assert_eq!(
        message(run(1024, 8, 3, 64)),
        "attention_ptr heads must be divisible by kv heads"
    );
    assert_eq!(
        message(run(1024, usize::MAX, 1, 2)),
        format!(
            "CUDA attention decode_ptr query length overflow: {} * 2",
            usize::MAX
        )
    );
}

#[test]
fn split_decode_widens_its_chunks_for_long_sequences() {
    let runtime = runtime_with(CudaPrefillAttentionKernel::Auto, None);
    let run = |hint| {
        runtime
            .attention_decode_split_ptr_device(
                &halves(2 * 64 * 1000),
                &halves(2 * 64 * 1000),
                &reals(512),
                &words(1),
                8,
                2,
                64,
                0,
                hint,
                &reals(8 * 16 * 64),
                &reals(128),
                &reals(128),
                &reals(512),
            )
            .unwrap()
    };
    let short = run(1000);
    let split = launches(&short)[0];
    assert_eq!(split.kernel, Kernel::AttentionDecodePtrSplit);
    assert_eq!(split.config.grid_dim, (8, 16, 1));
    assert_eq!(split.config.shared_mem_bytes, (512 + 4 + 256) * 4);
    assert_eq!(split.args[8], Arg::U32(512));
    assert_eq!(split.args[10], Arg::U32(1000));
    let combine = launches(&short)[1];
    assert_eq!(combine.kernel, Kernel::AttentionDecodePtrCombine);
    assert_eq!(
        combine.args,
        vec![
            Arg::Buffer(Operand::SplitAcc),
            Arg::Buffer(Operand::SplitM),
            Arg::Buffer(Operand::SplitL),
            Arg::U32(64),
            Arg::U32(16),
            Arg::Buffer(Operand::Output),
        ]
    );
    let long = run(32769);
    let split = launches(&long)[0];
    assert_eq!(split.args[8], Arg::U32(2049));
    assert_eq!(split.config.shared_mem_bytes, (2049 + 4 + 256) * 4);
    assert!(2049 * 16 >= 32769);
}

#[test]
fn split_decode_needs_its_scratch() {
    let runtime = runtime_with(CudaPrefillAttentionKernel::Auto, None);
    let outcome = runtime.attention_decode_split_ptr_device(
        &halves(128),
        &halves(128),
        &reals(512),
        &words(1),
        8,
        2,
        64,
        0,
        10,
        &reals(8 * 16 * 64 - 1),
        &reals(128),
        &reals(127),
        &reals(512),
    );
    assert_eq!(
        message(outcome),
        "attention_split_ptr partial buffers too small: acc=8191 m=128 l=127 required acc=8192 \
         ml=128"
    );
}

#[test]
fn batched_prefill_picks_kernel_and_arguments() {
    let run = |setting, start: usize, batch: usize| {
        runtime_with(setting, None).attention_prefill_batched_device(
            &halves(20000 * 128),
            &halves(20000 * 128),
            &reals(batch * 128),
            &reals(batch * 128),
            &reals(batch * 512),
            start,
            batch,
            8,
            2,
            64,
            &reals(batch * 512),
        )
    };
    let plan = run(CudaPrefillAttentionKernel::Auto, 0, 4).unwrap();
    let launch = launches(&plan)[0];
    assert_eq!(launch.kernel, Kernel::AttentionPrefillBatchedWarp);
    assert_eq!(launch.config.grid_dim, (8, 4, 1));
    assert_eq!(launch.config.shared_mem_bytes, 4 * 4 + 128 * 4);
    assert_eq!(launch.args.len(), 10);
    let plan = run(CudaPrefillAttentionKernel::Auto, 16000, 4).unwrap();
    let launch = launches(&plan)[0];
    assert_eq!(launch.kernel, Kernel::AttentionPrefillContinuation);
    assert_eq!(launch.config.shared_mem_bytes, (128 + 64 + 3) * 4);
    assert_eq!(launch.args.len(), 12);
    assert_eq!(launch.args[2], Arg::Buffer(Operand::KeyChunk));
    assert_eq!(launch.args[10], Arg::U32(20000));
    let plan = run(CudaPrefillAttentionKernel::Reference, 5, 2).unwrap();
    assert_eq!(launches(&plan)[0].kernel, Kernel::AttentionPrefillBatched);
    assert!(message(run(CudaPrefillAttentionKernel::Reference, 16000, 4))
        .starts_with("CUDA reference prefill attention requires 64528 bytes"));
    assert_eq!(
        message(run(CudaPrefillAttentionKernel::Auto, 20000, 1)),
        "batched attention kv shape mismatch: start=20000 batch=1 kv_width=128 \
         key_cache=2560000 value_cache=2560000"
    );
}

fn dense<'a>(
    cache: &'a DeviceBuffer<u16>,
    query: &'a DeviceBuffer<u16>,
    output: &'a DeviceBuffer<F32>,
    heads: usize,
    head_dim: usize,
) -> DensePrefill<'a> {
    DensePrefill {
        key_cache: cache,
        value_cache: cache,
        query_half: query,
        start_position: 40,
        batch: 20,
        context_len: 60,
        num_attention_heads: heads,
        num_kv_heads: 2,
        head_dim,
        output,
    }
}

#[test]
fn dense_kernels_have_their_geometry() {
    let runtime = runtime_with(CudaPrefillAttentionKernel::Auto, None);
    let cache = halves(64 * 256);
    let query = halves(20 * 8 * 128);
    let output = reals(20 * 8 * 128);
    let request = dense(&cache, &query, &output, 8, 128);
    let plan = runtime
        .attention_prefill_dense_halfq_block4_device(&request)
        .unwrap();
    let launch = launches(&plan)[0];
    assert_eq!(launch.config.grid_dim, (8, 5, 1));
    assert_eq!(launch.config.block_dim, (64, 1, 1));
    assert_eq!(launch.config.shared_mem_bytes, (4 * 2 + 10 * 128 + 16) * 4);
    assert_eq!(
        launch.args,
        vec![
            Arg::Buffer(Operand::KeyCache),
            Arg::Buffer(Operand::ValueCache),
            Arg::Buffer(Operand::QueryHalf),
            Arg::U32(40),
            Arg::U32(20),
            Arg::U32(60),
            Arg::U32(8),
            Arg::U32(2),
            Arg::U32(128),
            Arg::U32(64),
            Arg::Buffer(Operand::Output),
        ]
    );
    let plan = runtime
        .attention_prefill_dense_halfq_warp_tile_hdim128_device(&request)
        .unwrap();
    let launch = launches(&plan)[0];
    assert_eq!(launch.config.grid_dim, (8, 2, 1));
    assert_eq!(launch.config.block_dim, (512, 1, 1));
    assert_eq!(launch.config.shared_mem_bytes, 16384);
    let plan = runtime
        .attention_prefill_dense_halfq_wmma_hdim128_gqa4_device(&request)
        .unwrap();
    assert!(matches!(
        plan.steps[0],
        Step::RaiseSharedLimit { kernel: Kernel::AttentionPrefillDenseHalfqWmmaHdim128Gqa4, bytes: 50048, .. }
    ));
    assert_eq!(launches(&plan)[0].config.shared_mem_bytes, 50048);
}

#[test]
fn dense_split_needs_scratch_and_combines() {
    let runtime = runtime_with(CudaPrefillAttentionKernel::Auto, None);
    let cache = halves(64 * 256);
    let query = halves(20 * 8 * 128);
    let output = reals(20 * 8 * 128);
    let request = dense(&cache, &query, &output, 8, 128);
    let (acc, m, l) = (reals(2 * 8 * 16 * 128), reals(256), reals(256));
    let scratch = DenseScratch { acc: &acc, m: &m, l: &l };
    let plan = runtime
        .attention_prefill_dense_halfq_wmma_hdim128_split_device(&request, &scratch)
        .unwrap();
    let all = launches(&plan);
    assert_eq!(all.len(), 2);
    assert_eq!(all[0].kernel, Kernel::AttentionPrefillDenseHalfqWmmaHdim128Split);
    assert_eq!(all[1].kernel, Kernel::AttentionPrefillDenseHalfqWmmaHdim128Combine);
    let small = reals(255);
    let scratch = DenseScratch { acc: &acc, m: &small, l: &l };
    assert!(runtime
        .attention_prefill_dense_halfq_wmma_hdim128_split_device(&request, &scratch)
        .is_err());
}

#[test]
fn split_scratch_covers_every_split() {
    assert!(dense_wmma_split_scratch_ready(
        &reals(2 * 8 * 3 * 16 * 64),
        &reals(2 * 8 * 3 * 16),
        &reals(2 * 8 * 3 * 16),
        20,
        1025,
        8,
        64,
        512
    ));
    assert!(!dense_wmma_split_scratch_ready(
        &reals(2 * 8 * 3 * 16 * 64),
        &reals(2 * 8 * 3 * 16 - 1),
        &reals(2 * 8 * 3 * 16),
        20,
        1025,
        8,
        64,
        512
    ));
    assert!(!dense_wmma_split_scratch_ready(
        &reals(0),
        &reals(0),
        &reals(0),
        usize::MAX,
        1,
        usize::MAX,
        1,
        512
    ));
}

#[test]
fn switches_combine() {
    let mut switches = AttentionSwitches {
        disable_split_k: false,
        experimental_split_k: true,
        experimental_persistent: false,
        legacy_wmma: false,
        experimental_cluster: false,
    };
    assert!(dense_wmma_split_k_enabled(&switches));
    switches.disable_split_k = true;
    assert!(!dense_wmma_split_k_enabled(&switches));
    switches.disable_split_k = false;
    switches.experimental_split_k = false;
    assert!(!dense_wmma_split_k_enabled(&switches));
}

#[test]
fn compat_prefill_needs_matching_metadata() {
    let runtime = runtime_with(CudaPrefillAttentionKernel::AegisVarlen, None);
    let switches = AttentionSwitches {
        disable_split_k: false,
        experimental_split_k: false,
        experimental_persistent: false,
        legacy_wmma: false,
        experimental_cluster: false,
    };
    let cache = halves(64 * 256);
    let run = |proof: DensePrefillMetadataProof, sequences: usize| {
        runtime.attention_prefill_dense_compat_device(
            &cache,
            &cache,
            &reals(20 * 256),
            &reals(20 * 256),
            &reals(20 * 1024),
            &halves(20 * 1024),
            true,
            &reals(0),
            &reals(0),
            &reals(0),
            &words(20),
            &words(2),
            &words(2),
            &words(1),
            &words(1),
            sequences,
            40,
            20,
            8,
            2,
            128,
            &reals(20 * 1024),
            proof,
            &switches,
        )
    };
    let proof = DensePrefillMetadataProof { start_position: 40, batch: 20, context_len: 60 };
    let plan = run(proof, 1).unwrap();
    assert!(!launches(&plan).is_empty());
    assert!(run(proof, 2).is_err());
    let stale = DensePrefillMetadataProof { start_position: 39, batch: 20, context_len: 59 };
    assert!(run(stale, 1).is_err());
}

#[test]
fn request_refusals_come_in_order() {
    let runtime = runtime_with(CudaPrefillAttentionKernel::AegisVarlen, None);
    let (q, out) = (reals(1024), reals(1024));
    let cache = halves(4096);
    let meta = words(16);
    let mut request = CudaAttentionRequest {
        q: &q,
        q_half: None,
        k_cache: &cache,
        v_cache: &cache,
        cu_q: &meta,
        cu_k: &meta,
        context_lens: &meta,
        slot_mapping: &meta,
        block_tables: &meta,
        split_scratch: None,
        output: &out,
        num_sequences: 1,
        num_prefill_tokens: 2,
        num_decode_tokens: 0,
        max_q: 2,
        max_k: 2,
        block_table_stride: 1,
        head_dim: 64,
        num_q_heads: 4,
        num_kv_heads: 2,
        causal: false,
    };
    assert_eq!(
        message(runtime.attention_prefill_request_device(&request)),
        "CUDA prefill attention ABI currently requires causal=true"
    );
    request.causal = true;
    request.head_dim = 0;
    assert_eq!(
        message(runtime.attention_prefill_request_device(&request)),
        "paged varlen prefill dimensions must be non-zero: q_heads=4 kv_heads=2 head_dim=0"
    );
    request.head_dim = 64;
    request.max_k = 0;
    assert_eq!(
        message(runtime.attention_prefill_request_device(&request)),
        "paged varlen prefill requires non-empty metadata: seqs=1 max_q=2 max_k=0"
    );
    request.max_k = 2;
    request.num_decode_tokens = 3;
    assert!(message(runtime.attention_prefill_request_device(&request))
        .starts_with("paged varlen mixed prefill+decode is not implemented yet: prefill_tokens=2 decode_tokens=3"));
    request.num_decode_tokens = 0;
    let plan = runtime.attention_prefill_request_device(&request).unwrap();
    assert!(!launches(&plan).is_empty());
    request.num_sequences = usize::MAX;
    assert!(message(runtime.attention_prefill_request_device(&request))
        .starts_with("paged varlen prefill metadata too small: seqs=18446744073709551615 cu_q=16"));
}

#[test]
fn paged_grouped_prefill_raises_the_limit_first() {
    let runtime = runtime_with(CudaPrefillAttentionKernel::FlashAttention4, Some("12.0"));
    let cache = halves(512 * 256);
    let query = halves(16 * 8 * 128);
    let output = reals(16 * 8 * 128);
    let meta = words(64);
    let request = PagedGroupedPrefill {
        key_cache: &cache,
        value_cache: &cache,
        query_half: &query,
        slot_mapping: &meta,
        cu_q: &meta,
        context_lens: &meta,
        block_tables: &meta,
        num_sequences: 1,
        total_query_tokens: 16,
        max_q: 16,
        block_table_stride: 2,
        physical_slots: 512,
        num_attention_heads: 8,
        num_kv_heads: 2,
        output: &output,
    };
    let plan = runtime
        .attention_prefill_paged_varlen_halfq_wmma_hdim128_gqa4_device(&request)
        .unwrap();
    assert!(matches!(plan.steps[0], Step::RaiseSharedLimit { bytes: 50048, .. }));
    assert_eq!(launches(&plan)[0].config.shared_mem_bytes, 50048);
}
