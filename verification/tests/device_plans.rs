//! Plans for caches, copies, linear layers and expert layers.
use aegisllm_cuda::config::{
    CudaAttentionBackend, CudaPrefillAttentionKernel, CudaRuntimeConfig, PrefillTuning,
};
use aegisllm_cuda::compile::{GpuArchitecture, GpuInfo};
use aegisllm_cuda::error::AegisError;
use aegisllm_cuda::expert_cache::VramExpertCache;
use aegisllm_cuda::functions::Kernel;
use aegisllm_cuda::launch::{
    Arg, BridgeEntry, Engine, GemmShape, Launch, LaunchConfig, Operand, Plan, Region, Scalar, Step,
};
use aegisllm_cuda::runtime::memory::MemPoolStats;
use aegisllm_cuda::runtime::{ceil_div, div_ceil, map_cuda_err, CudaRuntime};
use aegisllm_cuda::types::{
    CutlassNvfp4Layout, DensePrefillMetadataProof, DeviceBf16Matrix, DeviceBuffer,
    DeviceCutlassNvfp4Linear, DeviceMxfp4Linear, DeviceNvfp4Linear, HostBf16Weights,
    HostResidentWeights,
    HostWeightBytes, KernelFamily, LinearResidentLayout, MoeDeviceTables, StandaloneFp8Linear,
    TensorResidencyPlan, F32,
};

fn runtime() -> CudaRuntime {
    CudaRuntime::new_with_config(
        2,
        Some("12.0".to_owned()),
        CudaRuntimeConfig {
            prefill_attention: CudaPrefillAttentionKernel::Auto,
            native_mxfp4_repack: true,
            native_mxfp4_inference: true,
            cutlass_nvfp4_repack: true,
        },
        PrefillTuning {
            auto_target: CudaAttentionBackend::FlashAttention4,
            varlen_min_context: 1024,
            dense_split_k_tokens: 512,
        },
    )
}

fn reals(len: usize) -> DeviceBuffer<F32> {
    DeviceBuffer::with_len(len)
}

fn halves(len: usize) -> DeviceBuffer<u16> {
    DeviceBuffer::with_len(len)
}

fn words(len: usize) -> DeviceBuffer<u32> {
    DeviceBuffer::with_len(len)
}

fn bytes(len: usize) -> DeviceBuffer<u8> {
    DeviceBuffer::with_len(len)
}

fn launch(plan: &Plan, i: usize) -> &Launch {
    match &plan.steps[i] {
        Step::Launch(launch) => launch,
        other => panic!("not a launch: {other:?}"),
    }
}

fn copy(plan: &Plan, i: usize) -> (Engine, Region, Region, &'static str) {
    match &plan.steps[i] {
        Step::Copy { engine, from, to, stage } => (*engine, *from, *to, *stage),
        other => panic!("not a copy: {other:?}"),
    }
}

fn span(operand: Operand, start: usize, end: usize) -> Region {
    Region { operand, start, end }
}

fn message<T>(outcome: Result<T, AegisError>) -> String {
    match outcome {
        Ok(_) => panic!("not refused"),
        Err(error) => error.message(),
    }
}

fn nvfp4(rows: usize, cols: usize) -> DeviceNvfp4Linear {
    DeviceNvfp4Linear {
        name: "proj".to_owned(),
        rows,
        cols,
        packed_bytes: rows * cols / 2,
        scale_bytes: rows * cols / 16,
        input_scale: 0x3F80_0000,
        output_scale: 0x3F80_0000,
        kernel_family: KernelFamily::CudaNativeFp4TensorCores,
        resident_layout: LinearResidentLayout::NativeTensorCore,
        residency: TensorResidencyPlan::VramResident { device: 2 },
        packed: bytes(rows * cols / 2),
        scales: bytes(rows * cols / 16),
        native_mxfp4: None,
        cutlass_nvfp4: None,
        host_weights: None,
    }
}

fn matrix(rows: usize, cols: usize, host: bool) -> DeviceBf16Matrix {
    DeviceBf16Matrix {
        name: "embed".to_owned(),
        rows,
        cols,
        residency: TensorResidencyPlan::VramResident { device: 2 },
        values: halves(if host { 1 } else { rows * cols }),
        host_values: if host {
            Some(HostBf16Weights { offset: 0, values: rows * cols })
        } else {
            None
        },
    }
}

#[test]
fn runtime_remembers_its_settings() {
    let mut runtime = runtime();
    assert_eq!(runtime.device_index(), 2);
    assert_eq!(runtime.compute_capability(), Some("12.0"));
    assert!(runtime.config().native_mxfp4_repack);
    assert!(runtime.expert_cache().is_none());
    runtime.install_expert_cache(VramExpertCache::new(64)).unwrap();
    assert_eq!(runtime.expert_cache().unwrap().capacity_bytes(), 64);
    assert_eq!(
        message(runtime.install_expert_cache(VramExpertCache::new(1))),
        "expert cache already installed"
    );
    assert_eq!(runtime.expert_cache().unwrap().capacity_bytes(), 64);
    assert_eq!(
        map_cuda_err("launch x", "INVALID".to_owned()).message(),
        "cuda stage `launch x` failed: INVALID"
    );
    assert_eq!((ceil_div(257, 256), ceil_div(256, 256), div_ceil(0, 7)), (2, 1, 0));
}

#[test]
fn only_blackwell_is_native() {
    let gpu = |architecture| GpuInfo { index: 0, architecture, compute_capability: None };
    assert!(CudaRuntime::supports_native_nvfp4(&gpu(GpuArchitecture::Blackwell)));
    assert!(!CudaRuntime::supports_native_nvfp4(&gpu(GpuArchitecture::Earlier)));
}

#[test]
fn dense_metadata_is_built_on_the_device() {
    let plan = runtime()
        .build_dense_prefill_metadata_device(100, 300, &words(300), &words(300))
        .unwrap();
    let launch = launch(&plan, 0);
    assert_eq!(launch.kernel, Kernel::BuildDensePrefillMetadata);
    assert_eq!(
        launch.config,
        LaunchConfig { grid_dim: (2, 1, 1), block_dim: (256, 1, 1), shared_mem_bytes: 0 }
    );
    assert_eq!(
        launch.args,
        vec![
            Arg::U32(100),
            Arg::U32(300),
            Arg::Buffer(Operand::Positions),
            Arg::Buffer(Operand::SlotMapping),
        ]
    );
    assert_eq!(
        message(runtime().build_dense_prefill_metadata_device(100, 0, &words(1), &words(2))),
        "dense prefill metadata buffers too small: start=100 batch=0 positions=1 slots=2"
    );
}

#[test]
fn keys_and_values_are_stored_at_their_position() {
    let run = |position, width: usize| {
        runtime().store_kv_device(
            &halves(10 * 512),
            &halves(10 * 512),
            &reals(width),
            &reals(width),
            position,
            512,
            10,
        )
    };
    let plan = run(9, 512).unwrap();
    assert_eq!(launch(&plan, 0).config.grid_dim, (2, 1, 1));
    assert_eq!(
        message(run(10, 512)),
        "kv cache shape mismatch: key_cache=5120 value_cache=5120 position=10 context=10 width=512"
    );
    assert_eq!(message(run(0, 511)), "kv store vector shape mismatch");
}

#[test]
fn slots_need_matching_metadata() {
    let run = |batch, proof| {
        runtime().store_kv_slots_batched_device(
            &halves(64 * 256),
            &halves(64 * 256),
            &reals(batch * 256),
            &reals(batch * 256),
            &words(batch),
            batch,
            256,
            64,
            proof,
        )
    };
    let proof = DensePrefillMetadataProof { start_position: 4, batch: 8, context_len: 12 };
    assert!(run(8, proof).is_ok());
    assert!(run(7, proof).is_err());
}

#[test]
fn uploads_copy_from_the_front() {
    let plan = runtime().upload_kv_slice_device(&halves(100), 80, 60).unwrap();
    assert!(matches!(plan.steps[0], Step::MapHost { stage: "mmap kv host for upload" }));
    assert_eq!(
        copy(&plan, 1),
        (
            Engine::Compute,
            span(Operand::Host, 0, 60),
            span(Operand::Staging, 0, 60),
            "kv h2d upload"
        )
    );
    assert!(runtime().upload_kv_slice_device(&halves(0), 0, 0).unwrap().steps.is_empty());
    assert_eq!(
        message(runtime().upload_kv_slice_device(&halves(59), 80, 60)),
        "upload_kv_slice overflow: count=60 staging_len=59"
    );
    let plan = runtime().upload_kv_slice_async(&halves(100), 80, 60).unwrap();
    assert_eq!(copy(&plan, 1).0, Engine::Transfer);
}

#[test]
fn writebacks_stay_in_place() {
    let plan = runtime().writeback_kv_batch_async(1000, &halves(900), 3, 2, 100).unwrap();
    let (engine, from, to, _) = copy(&plan, 1);
    assert_eq!(engine, Engine::Transfer);
    assert_eq!(from, span(Operand::Staging, 300, 500));
    assert_eq!(to, span(Operand::Host, 300, 500));
    assert_eq!(
        message(runtime().writeback_kv_slot_async(1000, &halves(900), 9, 100)),
        "kv writeback async staging overflow: end=1000 staging_len=900"
    );
    assert_eq!(
        message(runtime().writeback_kv_slot_async(1000, &halves(900), usize::MAX, 2)),
        format!("kv writeback slot overflow: idx={} width=2", usize::MAX)
    );
    assert!(runtime()
        .writeback_kv_batch_async(0, &halves(0), 9, 0, 5)
        .unwrap()
        .steps
        .is_empty());
}

#[test]
fn range_copies_stay_within_both_buffers() {
    let plan = runtime().copy_u32_d2d_range(&words(10), 4, &words(8), 2, 6).unwrap();
    let (_, from, to, _) = copy(&plan, 0);
    assert_eq!((from, to), (span(Operand::Source, 4, 10), span(Operand::Destination, 2, 8)));
    assert!(runtime().copy_u32_d2d_range(&words(10), 5, &words(8), 2, 6).is_err());
    assert!(runtime().copy_u32_d2d_range(&words(10), 4, &words(7), 2, 6).is_err());
    assert_eq!(
        message(runtime().upload_u64_slice_to_device(&[1, 2, 3], &DeviceBuffer::with_len(2))),
        "upload_u64_slice_to_device buffer too small: have 2, need 3"
    );
    let plan = runtime().copy_host_u8_to_device_at_offset(&[1, 2, 3], &bytes(9), 6).unwrap();
    assert_eq!(copy(&plan, 0).2, span(Operand::Destination, 6, 9));
    assert!(runtime().copy_host_u8_to_device_at_offset(&[1, 2, 3], &bytes(9), 7).is_err());
}

#[test]
fn pool_keeps_what_is_not_used() {
    assert_eq!(MemPoolStats { reserved_current: 10, used_current: 4 }.cached_bytes(), 6);
    assert_eq!(MemPoolStats { reserved_current: 3, used_current: 4 }.cached_bytes(), 0);
}

fn fp8(rows: usize, cols: usize) -> StandaloneFp8Linear {
    StandaloneFp8Linear {
        name: "lm_head".to_owned(),
        rows,
        cols,
        bytes: rows * cols,
        data: bytes(rows * cols),
        row_scales: reals(rows),
        block_scales: None,
        block_size: 0,
        scale_cols: 0,
    }
}

#[test]
fn fp8_products_have_a_block_per_row() {
    let plan = runtime().matvec_fp8_standalone_device(&fp8(6, 40), &reals(40), &reals(6)).unwrap();
    let launch = launch(&plan, 0);
    assert_eq!(launch.kernel, Kernel::Fp8Matvec);
    assert_eq!(launch.config.grid_dim, (6, 1, 1));
    assert_eq!(launch.config.shared_mem_bytes, 1024);
    assert_eq!(
        launch.args,
        vec![
            Arg::Buffer(Operand::Fp8Data),
            Arg::Buffer(Operand::Fp8RowScales),
            Arg::Buffer(Operand::Input),
            Arg::U32(6),
            Arg::U32(40),
            Arg::Buffer(Operand::Output),
        ]
    );
    assert_eq!(
        message(runtime().matvec_fp8_standalone_device(&fp8(6, 40), &reals(39), &reals(6))),
        "fp8 matvec shape mismatch for lm_head: input=39 need 40, output=6 need 6"
    );
}

#[test]
fn four_bit_products_read_packed_weights() {
    let plan = runtime().launch_nvfp4_reference(&nvfp4(8, 64), &reals(64), &reals(8)).unwrap();
    let launch = launch(&plan, 0);
    assert_eq!(launch.kernel, Kernel::Nvfp4Reference);
    assert_eq!(launch.config.grid_dim, (8, 1, 1));
    assert_eq!(launch.config.shared_mem_bytes, 512);
    assert_eq!(launch.args[5], Arg::Scalar(Scalar::InputScale));
    assert_eq!(launch.args[6], Arg::Scalar(Scalar::OutputScale));
    assert_eq!(
        message(runtime().launch_nvfp4_reference(&nvfp4(8, 64), &reals(65), &reals(8))),
        "nvfp4 reference shape mismatch for proj: expected input=64 output=8, got input=65 output=8"
    );
}

#[test]
fn host_matrices_are_multiplied_by_the_processor() {
    let plan = runtime()
        .matvec_bf16_reference_device(&matrix(3, 4, true), &reals(4), &reals(3))
        .unwrap();
    assert!(matches!(plan.steps[0], Step::HostMatvec { rows: 3, cols: 4, .. }));
    let plan = runtime()
        .matvec_bf16_reference_device(&matrix(3, 4, false), &reals(4), &reals(3))
        .unwrap();
    assert_eq!(launch(&plan, 0).config.grid_dim.0, 3);
}

#[test]
fn embedding_rows_come_from_host_or_device() {
    let plan = runtime()
        .bf16_rows_to_f32_device(&matrix(10, 4, true), &words(2), 2, &reals(8))
        .unwrap();
    assert!(matches!(plan.steps[0], Step::GatherHostRows { rows: 10, cols: 4, batch: 2, output_len: 8, .. }));
    assert!(runtime()
        .bf16_row_to_f32_device(&matrix(10, 4, false), 10, &reals(4))
        .is_err());
}

#[test]
fn gemm_reads_weights_transposed() {
    let weight = matrix(6, 4, false);
    let plan = runtime()
        .matmul_bf16_cublaslt_device(&weight, &reals(20), 5, &halves(20), &halves(30), &reals(30))
        .unwrap();
    assert!(matches!(
        plan.steps[0],
        Step::ConvertToBf16 { input: Operand::Input, len: 20, output: Operand::InputBf16 }
    ));
    match &plan.steps[1] {
        Step::Gemm(call) => {
            assert_eq!(
                call.shape,
                GemmShape {
                    transa: true,
                    transb: false,
                    m: 6,
                    n: 5,
                    k: 4,
                    lda: 4,
                    ldb: 4,
                    ldc: 6,
                }
            );
        }
        other => panic!("not a product: {other:?}"),
    }
    assert!(matches!(plan.steps[2], Step::ConvertFromBf16 { len: 30, .. }));
    assert_eq!(
        message(runtime().matmul_bf16_cublaslt_device(
            &weight,
            &reals(19),
            5,
            &halves(20),
            &halves(30),
            &reals(30)
        )),
        "cuBLASLt BF16 input shape: input=19 need batch*cols=5*4=20"
    );
    assert!(!runtime().cublaslt_bf16_enabled_for(&matrix(6, 4, true)));
}

#[test]
fn native_layers_need_their_layout() {
    let mut linear = nvfp4(16, 64);
    assert!(!runtime().native_mxfp4_inference_enabled_for(&linear));
    linear.native_mxfp4 = Some(DeviceMxfp4Linear { bytes: 544, blocks_per_row: 2, data: bytes(544) });
    assert!(runtime().native_mxfp4_inference_enabled_for(&linear));
    assert!(runtime()
        .matvec_mxfp4_native_prepacked_device(&linear, Ok(34), &bytes(34), &reals(16))
        .is_ok());
    assert!(runtime()
        .matvec_mxfp4_native_prepacked_device(&linear, Ok(34), &bytes(33), &reals(16))
        .is_err());
}

#[test]
fn staged_layers_bring_their_weights_first() {
    let mut linear = nvfp4(16, 64);
    linear.host_weights = Some(HostResidentWeights {
        packed: HostWeightBytes::Arena { offset: 0, len: 512 },
        scales: HostWeightBytes::Arena { offset: 512, len: 64 },
        native_mxfp4: None,
    });
    let plan = runtime().matvec_nvfp4_staged_prequantized_device(&linear).unwrap();
    assert!(plan
        .steps
        .iter()
        .any(|step| matches!(step, Step::StageWeights { packed_bytes: 512, scale_bytes: 64 })));
    assert!(plan.steps.iter().any(|step| matches!(step, Step::MarkLaunched)));
}

#[test]
fn cutlass_layers_take_the_bridge() {
    let mut linear = nvfp4(128, 128);
    linear.cutlass_nvfp4 = Some(DeviceCutlassNvfp4Linear {
        layout: CutlassNvfp4Layout { logical_n: 128, logical_k: 128, scale_rows: 128, scale_cols: 8 },
        payload_e2m1: bytes(8192),
        scales_ue4m3: bytes(1024),
    });
    assert_eq!(CudaRuntime::cutlass_nvfp4_activation_payload_bytes(3, 128).unwrap(), 192);
    assert_eq!(CudaRuntime::cutlass_nvfp4_activation_scale_bytes(3, 128).unwrap(), 1024);
    let run = |workspace: usize| {
        runtime().matmul_cutlass_nvfp4_prepacked_prefill_device(
            &linear,
            &bytes(192),
            &bytes(1024),
            3,
            Ok(100),
            &bytes(workspace),
            &reals(384),
        )
    };
    let plan = run(100).unwrap();
    match &plan.steps[0] {
        Step::Bridge(call) => {
            assert_eq!(call.entry, BridgeEntry::GemmF32);
            assert_eq!(
                call.args[5..10],
                [
                    Arg::Buffer(Operand::Workspace),
                    Arg::Size(100),
                    Arg::I32(3),
                    Arg::I32(128),
                    Arg::I32(128),
                ]
            );
        }
        other => panic!("not a bridge call: {other:?}"),
    }
    assert_eq!(
        message(run(99)),
        "CUTLASS FP4 workspace too small for `proj`: got=99 required=100"
    );
}

#[test]
fn expert_outputs_are_accumulated() {
    let run = |stride, topk: usize| {
        runtime().moe_weighted_accumulate_device(
            &reals(300),
            &reals(4 * 320),
            stride,
            &words(topk),
            4,
            300,
        )
    };
    let plan = run(320, 8).unwrap();
    let launch = launch(&plan, 0);
    assert_eq!(launch.kernel, Kernel::MoeWeightedAccumulate);
    assert_eq!(launch.config.grid_dim, (2, 1, 1));
    assert_eq!(
        launch.args,
        vec![
            Arg::Buffer(Operand::Output),
            Arg::Buffer(Operand::ExpertOutput),
            Arg::U32(320),
            Arg::Buffer(Operand::PackedTopk),
            Arg::U32(4),
            Arg::U32(300),
        ]
    );
    assert_eq!(
        message(run(299, 8)),
        "batched accumulate: bad top_k=4 or stride 299 < len 300"
    );
    assert_eq!(message(run(320, 7)), "batched accumulate: packed_topk 7 need 8");
}

#[test]
fn experts_are_gathered_into_slots() {
    let tables = MoeDeviceTables {
        gate_packed_bytes: 64,
        gate_scale_bytes: 8,
        up_packed_bytes: 64,
        up_scale_bytes: 8,
        down_packed_bytes: 32,
        down_scale_bytes: 4,
    };
    let run = |packed: usize| {
        runtime().moe_gather_experts_device(
            2,
            16,
            &tables,
            &bytes(packed),
            &bytes(40),
            &reals(6),
            &reals(6),
        )
    };
    assert!(run(320).is_ok());
    assert!(run(319).is_err());
}
