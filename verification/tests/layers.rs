//! Plans for linear layers in every form that weights are kept in.
use aegisllm_cuda::config::{
    CudaAttentionBackend, CudaPrefillAttentionKernel, CudaRuntimeConfig, PrefillTuning,
};
use aegisllm_cuda::cutlass_bridge::BridgeBuild;
use aegisllm_cuda::error::AegisError;
use aegisllm_cuda::functions::Kernel;
use aegisllm_cuda::launch::{
    Arg, BridgeCall, BridgeEntry, GemmCall, GemmShape, Launch, LaunchConfig, Operand, Plan, Region,
    Scalar, Step,
};
use aegisllm_cuda::runtime::cutlass::CutlassMoeGroupedBlobSizes;
use aegisllm_cuda::runtime::CudaRuntime;
use aegisllm_cuda::types::{
    CutlassNvfp4Layout, DeviceBf16Matrix, DeviceBuffer, DeviceCutlassNvfp4Linear,
    DeviceMxfp4Linear, DeviceNvfp4Linear, HostBf16Weights, HostResidentMxfp4, HostResidentWeights,
    HostWeightBytes, KernelFamily, LinearResidentLayout, StandaloneFp8Linear, TensorResidencyPlan, F32,
};

fn runtime() -> CudaRuntime {
    CudaRuntime::new_with_config(
        0,
        None,
        CudaRuntimeConfig {
            prefill_attention: CudaPrefillAttentionKernel::Auto,
            native_mxfp4_repack: true,
            native_mxfp4_inference: true,
            cutlass_nvfp4_repack: true,
        },
        PrefillTuning {
            auto_target: CudaAttentionBackend::FlashAttention4,
            varlen_min_context: 1024,
            dense_split_k_tokens: 512,
        },
    )
}

fn reals(len: usize) -> DeviceBuffer<F32> {
    DeviceBuffer::with_len(len)
}

fn halves(len: usize) -> DeviceBuffer<u16> {
    DeviceBuffer::with_len(len)
}

fn bytes(len: usize) -> DeviceBuffer<u8> {
    DeviceBuffer::with_len(len)
}

fn launch(plan: &Plan, i: usize) -> &Launch {
    match &plan.steps[i] {
        Step::Launch(launch) => launch,
        other => panic!("not a launch: {other:?}"),
    }
}

fn only_launch(plan: &Plan) -> &Launch {
    assert_eq!(plan.steps.len(), 1);
    launch(plan, 0)
}

fn bridge(plan: &Plan, i: usize) -> &BridgeCall {
    match &plan.steps[i] {
        Step::Bridge(call) => call,
        other => panic!("not a bridge call: {other:?}"),
    }
}

fn product(plan: &Plan, i: usize) -> &GemmCall {
    match &plan.steps[i] {
        Step::Gemm(call) => call,
        other => panic!("not a product: {other:?}"),
    }
}

fn refusal(plan: &Plan) -> String {
    match plan.steps.last() {
        Some(Step::Refuse(error)) => error.message(),
        other => panic!("not refused: {other:?}"),
    }
}

fn message<T>(outcome: Result<T, AegisError>) -> String {
    match outcome {
        Ok(_) => panic!("not refused"),
        Err(error) => error.message(),
    }
}

fn geometry(grid: (u32, u32, u32), block: u32, shared: u32) -> LaunchConfig {
    LaunchConfig { grid_dim: grid, block_dim: (block, 1, 1), shared_mem_bytes: shared }
}

fn linear(name: &str, rows: usize, cols: usize) -> DeviceNvfp4Linear {
    DeviceNvfp4Linear {
        name: name.to_owned(),
        rows,
        cols,
        packed_bytes: rows * cols / 2,
        scale_bytes: rows * cols / 16,
        input_scale: 0x3F80_0000,
        output_scale: 0x3F80_0000,
        kernel_family: KernelFamily::CudaNativeFp4TensorCores,
        resident_layout: LinearResidentLayout::NativeTensorCore,
        residency: TensorResidencyPlan::VramResident { device: 0 },
        packed: bytes(rows * cols / 2),
        scales: bytes(rows * cols / 16),
        native_mxfp4: None,
        cutlass_nvfp4: None,
        host_weights: None,
    }
}

fn native(name: &str, rows: usize, cols: usize) -> DeviceNvfp4Linear {
    let mut layer = linear(name, rows, cols);
    let size = rows * cols / 32 * 17;
    layer.native_mxfp4 =
        Some(DeviceMxfp4Linear { bytes: size, blocks_per_row: cols / 32, data: bytes(size) });
    layer
}

fn staged(name: &str, rows: usize, cols: usize, repacked: bool) -> DeviceNvfp4Linear {
    let mut layer = linear(name, rows, cols);
    layer.host_weights = Some(HostResidentWeights {
        packed: HostWeightBytes::Arena { offset: 0, len: rows * cols / 2 },
        scales: HostWeightBytes::Arena { offset: rows * cols / 2, len: rows * cols / 16 },
        native_mxfp4: if repacked {
            Some(HostResidentMxfp4 {
                data: HostWeightBytes::Arena { offset: 0, len: rows * cols / 32 * 17 },
                blocks_per_row: cols / 32,
            })
        } else {
            None
        },
    });
    layer
}

fn cutlass(name: &str, rows: usize, cols: usize) -> DeviceNvfp4Linear {
    let mut layer = linear(name, rows, cols);
    layer.cutlass_nvfp4 = Some(DeviceCutlassNvfp4Linear {
        layout: CutlassNvfp4Layout {
            logical_n: rows,
            logical_k: cols,
            scale_rows: 128,
            scale_cols: cols / 16,
        },
        payload_e2m1: bytes(rows * cols / 2),
        scales_ue4m3: bytes(128 * cols / 16),
    });
    layer
}

fn matrix(rows: usize, cols: usize, host: bool) -> DeviceBf16Matrix {
    DeviceBf16Matrix {
        name: "head".to_owned(),
        rows,
        cols,
        residency: TensorResidencyPlan::VramResident { device: 0 },
        values: halves(if host { 1 } else { rows * cols }),
        host_values: if host {
            Some(HostBf16Weights { offset: 0, values: rows * cols })
        } else {
            None
        },
    }
}

fn fp8(rows: usize, cols: usize) -> StandaloneFp8Linear {
    StandaloneFp8Linear {
        name: "head".to_owned(),
        rows,
        cols,
        bytes: rows * cols,
        data: bytes(rows * cols),
        row_scales: reals(rows),
        block_scales: None,
        block_size: 0,
        scale_cols: 0,
    }
}

#[test]
fn queries_keys_and_values_are_parted() {
    let run = |qkv: usize, kv_rows| {
        runtime().split_qkv_scaled_device(
            &reals(qkv),
            3,
            100,
            kv_rows,
            &reals(300),
            &reals(120),
            &reals(120),
        )
    };
    let plan = run(540, 40).unwrap();
    let launch = only_launch(&plan);
    assert_eq!(launch.kernel, Kernel::SplitQkvScaled);
    assert_eq!(launch.stage, "launch split qkv scaled");
    assert_eq!(launch.config, geometry((3, 1, 1), 256, 0));
    assert_eq!(
        launch.args,
        vec![
            Arg::Buffer(Operand::Qkv),
            Arg::U32(3),
            Arg::U32(100),
            Arg::U32(40),
            Arg::Scalar(Scalar::QOutputScale),
            Arg::Scalar(Scalar::KOutputScale),
            Arg::Scalar(Scalar::VOutputScale),
            Arg::Buffer(Operand::QOutput),
            Arg::Buffer(Operand::KOutput),
            Arg::Buffer(Operand::VOutput),
        ]
    );
    assert_eq!(
        message(run(539, 40)),
        "split qkv buffers too small: qkv=539 expected_qkv=540 q=300 expected_q=300 k=120 v=120 \
         expected_kv=120"
    );
    assert_eq!(message(run(540, usize::MAX)), "split qkv rows overflow");
    let plan = runtime()
        .split_qkv_scaled_device(&reals(0), 0, 100, 40, &reals(0), &reals(0), &reals(0))
        .unwrap();
    assert_eq!(only_launch(&plan).config.grid_dim, (1, 1, 1));
    let plan = runtime()
        .split_qkv_scaled_device(
            &reals(256 * 65536),
            65536,
            128,
            64,
            &reals(128 * 65536),
            &reals(64 * 65536),
            &reals(64 * 65536),
        )
        .unwrap();
    assert_eq!(only_launch(&plan).config.grid_dim, (65535, 1, 1));
}

#[test]
fn batches_have_a_row_of_blocks_per_token() {
    let plan = runtime()
        .matmul_fp8_standalone_batched_device(&fp8(6, 40), &reals(120), 3, &reals(18))
        .unwrap();
    let launch = only_launch(&plan);
    assert_eq!(launch.kernel, Kernel::Fp8MatmulBatched);
    assert_eq!(launch.stage, "launch fp8 matmul batched");
    assert_eq!(launch.config, geometry((6, 3, 1), 128, 512));
    assert_eq!(
        launch.args,
        vec![
            Arg::Buffer(Operand::Fp8Data),
            Arg::Buffer(Operand::Fp8RowScales),
            Arg::Buffer(Operand::Input),
            Arg::U32(6),
            Arg::U32(40),
            Arg::U32(3),
            Arg::Buffer(Operand::Output),
        ]
    );
    assert_eq!(
        message(runtime().matmul_fp8_standalone_batched_device(
            &fp8(6, 40),
            &reals(119),
            3,
            &reals(18)
        )),
        "fp8 matmul shape mismatch for head: input=119 need 120, output=18 need 18"
    );
    assert_eq!(
        message(runtime().matmul_fp8_standalone_batched_device(
            &fp8(6, 40),
            &reals(1),
            usize::MAX,
            &reals(1)
        )),
        format!("CUDA linear fp8 matmul input length overflow: {} * 40", usize::MAX)
    );
    let plan = runtime()
        .matmul_bf16_reference_batched_device(&matrix(6, 40, false), &reals(120), 3, &reals(18))
        .unwrap();
    let launch = only_launch(&plan);
    assert_eq!(launch.kernel, Kernel::Bf16MatmulReferenceBatched);
    assert_eq!(launch.stage, "launch bf16_matmul_reference_batched");
    assert_eq!(launch.config, geometry((6, 3, 1), 128, 512));
    assert_eq!(
        launch.args,
        vec![
            Arg::Buffer(Operand::MatrixValues),
            Arg::Buffer(Operand::Input),
            Arg::U32(6),
            Arg::U32(40),
            Arg::U32(3),
            Arg::Buffer(Operand::Output),
        ]
    );
    assert_eq!(
        message(runtime().matmul_bf16_reference_batched_device(
            &matrix(6, 40, true),
            &reals(120),
            3,
            &reals(18)
        )),
        "batched bf16 matmul does not support host-resident matrix `head`; load to VRAM"
    );
    assert_eq!(
        message(runtime().matmul_bf16_reference_batched_device(
            &matrix(6, 40, false),
            &reals(120),
            3,
            &reals(17)
        )),
        "batched bf16 matmul shape mismatch for head: input.len()=120 need 3*40=120, \
         output.len()=17 need 3*6=18"
    );
}

#[test]
fn eight_bit_weights_are_quantized_and_restored() {
    let run = |bf16: usize, fp8: usize, scales: usize| {
        runtime().quantize_bf16_to_fp8_per_row_device(
            &halves(bf16),
            6,
            40,
            &bytes(fp8),
            &reals(scales),
        )
    };
    let plan = run(240, 240, 6).unwrap();
    let launch = only_launch(&plan);
    assert_eq!(launch.kernel, Kernel::Fp8QuantizeBf16PerRow);
    assert_eq!(launch.config, geometry((6, 1, 1), 256, 1024));
    assert_eq!(
        message(run(239, 240, 6)),
        "fp8 quantize: bf16 buffer too small: have 239 need 6*40=240"
    );
    assert_eq!(
        message(run(240, 239, 6)),
        "fp8 quantize: output buffer too small: have 239 need 240"
    );
    assert_eq!(
        message(run(240, 240, 5)),
        "fp8 quantize: scales buffer too small: have 5 need 6"
    );
    let plan = runtime().dequant_fp8_to_bf16_device(&fp8(6, 257), &halves(6 * 257)).unwrap();
    let launch = only_launch(&plan);
    assert_eq!(launch.kernel, Kernel::Fp8DequantToBf16);
    assert_eq!(launch.config, geometry((6, 2, 1), 256, 0));
    assert_eq!(
        message(runtime().dequant_fp8_to_bf16_device(&fp8(6, 40), &halves(239))),
        "fp8→bf16 dequant: scratch too small for `head`: have 239 need 240"
    );
}

#[test]
fn eight_bit_products_go_through_sixteen_bits() {
    let run = |scratch: usize, input: usize| {
        runtime().matmul_fp8_via_bf16_cublaslt_device(
            &fp8(6, 40),
            &halves(scratch),
            &reals(input),
            3,
            &halves(120),
            &halves(18),
            &reals(18),
        )
    };
    let plan = run(300, 120).unwrap();
    assert_eq!(plan.steps.len(), 4);
    assert_eq!(launch(&plan, 0).kernel, Kernel::Fp8DequantToBf16);
    assert!(matches!(plan.steps[1], Step::ConvertToBf16 { len: 120, .. }));
    let call = product(&plan, 2);
    assert_eq!(
        call.shape,
        GemmShape { transa: true, transb: false, m: 6, n: 3, k: 40, lda: 40, ldb: 40, ldc: 6 }
    );
    assert_eq!((call.weights.start, call.weights.end), (0, 240));
    assert_eq!(
        call.input,
        Region { operand: Operand::InputBf16, start: 0, end: 120 }
    );
    assert_eq!(
        call.output,
        Region { operand: Operand::OutputBf16, start: 0, end: 18 }
    );
    assert!(matches!(plan.steps[3], Step::ConvertFromBf16 { len: 18, .. }));
    assert_eq!(
        message(run(239, 120)),
        "fp8 cublaslt scratch too small for `head`: have 239 need 240"
    );
    assert_eq!(
        message(run(240, 119)),
        "fp8 cublaslt shape mismatch for `head`: input=119/120 input_bf16=120/120 \
         output_bf16=18/18 output=18/18"
    );
}

#[test]
fn host_inputs_are_uploaded_and_results_downloaded() {
    let plan = runtime().matvec_nvfp4_reference_host(&linear("proj", 8, 64), 64).unwrap();
    assert_eq!(plan.steps.len(), 3);
    assert!(matches!(plan.steps[0], Step::Copy { .. }));
    assert_eq!(launch(&plan, 1).kernel, Kernel::Nvfp4Reference);
    match &plan.steps[2] {
        Step::Copy { from, stage, .. } => {
            assert_eq!((from.start, from.end), (0, 8));
            assert_eq!(*stage, "dtoh f32 buffer");
        }
        other => panic!("not a download: {other:?}"),
    }
    assert_eq!(
        message(runtime().matvec_nvfp4_reference_host(&linear("proj", 8, 64), 65)),
        "nvfp4 linear shape mismatch for proj: expected input=64, got input=65"
    );
    let plan = runtime().matvec_bf16_reference_host(&matrix(6, 40, false), 41).unwrap();
    assert_eq!(launch(&plan, 1).kernel, Kernel::Bf16Matvec);
    assert_eq!(launch(&plan, 1).config, geometry((6, 1, 1), 128, 512));
    let plan = runtime().matvec_bf16_reference_host(&matrix(6, 40, true), 40).unwrap();
    assert!(matches!(plan.steps[1], Step::HostMatvec { rows: 6, cols: 40, .. }));
    assert_eq!(
        message(runtime().matvec_bf16_reference_host(&matrix(6, 40, false), 39)),
        "bf16 matrix shape mismatch for head: expected input=40, got input=39"
    );
}

#[test]
fn inputs_are_quantized_before_the_product() {
    let plan = runtime().matvec_nvfp4_reference_device_with_scratch(
        &linear("proj", 8, 64),
        &reals(64),
        &reals(8),
    );
    assert!(matches!(
        plan.steps[0],
        Step::QuantizeInput { input: Operand::Input, output: Operand::QuantizedInput }
    ));
    let launch = launch(&plan, 1);
    assert_eq!(launch.kernel, Kernel::Nvfp4Prequant);
    assert_eq!(launch.stage, "launch nvfp4 prequantized linear");
    assert_eq!(
        launch.args,
        vec![
            Arg::Buffer(Operand::Packed),
            Arg::Buffer(Operand::Scales),
            Arg::Buffer(Operand::QuantizedInput),
            Arg::U32(8),
            Arg::U32(64),
            Arg::Scalar(Scalar::OutputScale),
            Arg::Buffer(Operand::Output),
        ]
    );
    let plan = runtime().matvec_nvfp4_reference_device_with_scratch(
        &linear("proj", 8, 64),
        &reals(65),
        &reals(8),
    );
    assert_eq!(plan.steps.len(), 2);
    assert_eq!(
        refusal(&plan),
        "nvfp4 prequantized shape mismatch for proj: expected input=64 output=8, got input=65 \
         output=8"
    );
}

#[test]
fn four_bit_batches_read_one_scale_each_way() {
    let run = |input: usize| {
        runtime().matvec_nvfp4_reference_batched_device(
            &linear("proj", 8, 64),
            &reals(input),
            3,
            &reals(24),
        )
    };
    let plan = run(192).unwrap();
    let launch = only_launch(&plan);
    assert_eq!(launch.kernel, Kernel::Nvfp4ReferenceBatched);
    assert_eq!(launch.stage, "launch batched nvfp4 matvec reference");
    assert_eq!(launch.config, geometry((8, 3, 1), 256, 1024));
    assert_eq!(
        message(run(191)),
        "batched nvfp4 linear shape mismatch for proj: input=191 expected=192 output=24 \
         expected=24"
    );
}

#[test]
fn quantized_batches_take_the_kernel_for_their_size() {
    let run = |rows: usize, batch: usize, disabled| {
        let plan = runtime()
            .matvec_nvfp4_prequantized_batched_device(
                &linear("proj", rows, 64),
                &reals(batch * 64),
                batch,
                &reals(batch * rows),
                disabled,
            )
            .unwrap();
        let launch = only_launch(&plan);
        (launch.kernel, launch.config, launch.args.len())
    };
    assert_eq!(
        run(32, 33, false),
        (Kernel::Nvfp4PrequantBatchedGemmWmmaBf16, geometry((2, 3, 1), 32, 0), 8)
    );
    let scalar = (Kernel::Nvfp4PrequantBatchedGemm, geometry((32, 5, 1), 256, 36), 8);
    assert_eq!(run(32, 33, true), scalar);
    assert_eq!(
        run(40, 33, false),
        (Kernel::Nvfp4PrequantBatchedGemm, geometry((40, 5, 1), 256, 36), 8)
    );
    assert_eq!(
        run(32, 31, false),
        (Kernel::Nvfp4PrequantBatchedGemm, geometry((32, 4, 1), 256, 36), 8)
    );
    assert_eq!(
        run(32, 1, false),
        (Kernel::Nvfp4PrequantBatched, geometry((32, 1, 1), 256, 1024), 7)
    );
    assert_eq!(
        message(runtime().matvec_nvfp4_prequantized_batched_device(
            &linear("proj", 32, 64),
            &reals(128),
            2,
            &reals(63),
            false
        )),
        "batched prequantized nvfp4 linear shape mismatch for proj: input=128 expected=128 \
         output=63 expected=64"
    );
}

#[test]
fn experts_are_multiplied_in_one_launch() {
    let run = |rows, tokens, experts, disabled| {
        runtime().matmul_nvfp4_grouped_prequant_wmma_bf16_device(
            rows, 64, tokens, experts, disabled,
        )
    };
    let plan = run(64, 40, 5, false).unwrap();
    let wide = only_launch(&plan);
    assert_eq!(wide.kernel, Kernel::Nvfp4GroupedPrequantGemmWmmaBf16T32);
    assert_eq!(wide.stage, "launch grouped nvfp4 wmma gemm t32");
    assert_eq!(wide.config, geometry((2, 2, 5), 128, 0));
    assert_eq!(
        wide.args,
        vec![
            Arg::Buffer(Operand::PackedBase),
            Arg::Buffer(Operand::ScalesBase),
            Arg::Buffer(Operand::PackedOffsets),
            Arg::Buffer(Operand::ScalesOffsets),
            Arg::Buffer(Operand::OutputScales),
            Arg::Buffer(Operand::ExpertTokenOffsets),
            Arg::Buffer(Operand::PermutedInput),
            Arg::U32(64),
            Arg::U32(64),
            Arg::Buffer(Operand::PermutedOutput),
        ]
    );
    for plan in [run(64, 40, 5, true), run(64, 15, 5, false), run(48, 40, 5, false)] {
        let plan = plan.unwrap();
        assert_eq!(only_launch(&plan).kernel, Kernel::Nvfp4GroupedPrequantGemmWmmaBf16);
        assert_eq!(only_launch(&plan).stage, "launch grouped nvfp4 wmma gemm");
    }
    assert_eq!(
        only_launch(&run(48, 40, 5, false).unwrap()).config,
        geometry((3, 3, 5), 32, 0)
    );
    assert!(run(5, 0, 5, false).unwrap().steps.is_empty());
    assert!(run(5, 5, 0, false).unwrap().steps.is_empty());
    assert_eq!(
        message(run(40, 5, 5, false)),
        "grouped wmma gemm requires rows%16==0 and cols%16==0, got rows=40 cols=64"
    );
}

#[test]
fn native_products_use_more_warps_for_wider_layers() {
    let run = |cols: usize| {
        let plan = runtime()
            .matvec_mxfp4_native_prepacked_device(
                &native("proj", 40, cols),
                Ok(cols / 32 * 17),
                &bytes(cols / 32 * 17),
                &reals(40),
            )
            .unwrap();
        let launch = only_launch(&plan);
        (launch.kernel, launch.stage, launch.config)
    };
    assert_eq!(
        run(2048),
        (
            Kernel::Mxfp4Matvec16warp,
            "launch native mxfp4 matvec 16warp",
            geometry((3, 1, 1), 512, 0)
        )
    );
    assert_eq!(
        run(768),
        (
            Kernel::Mxfp4Matvec4warp,
            "launch native mxfp4 matvec 4warp",
            geometry((3, 1, 1), 128, 0)
        )
    );
    assert_eq!(
        run(64),
        (Kernel::Mxfp4Matvec, "launch native mxfp4 matvec 1warp", geometry((3, 1, 1), 32, 0))
    );
    let run = |layer: &DeviceNvfp4Linear, size: usize| {
        message(runtime().matvec_mxfp4_native_prepacked_device(
            layer,
            Ok(34),
            &bytes(size),
            &reals(40),
        ))
    };
    assert_eq!(
        run(&native("proj", 40, 64), 33),
        "native mxfp4 matvec shape mismatch for proj: expected input_bytes=34 output=40, got \
         input_bytes=33 output=40"
    );
    assert_eq!(
        run(&linear("proj", 40, 64), 34),
        "native mxfp4 inference requested for `proj`, but no native MXFP4 resident layout was \
         materialized; enable CudaRuntimeConfig.native_mxfp4_repack"
    );
    assert_eq!(
        run(&native("proj", 40, 96), 34),
        "native mxfp4 matvec for `proj` requires cols divisible by 64, got 96"
    );
}

#[test]
fn native_batches_are_tiled_from_sixteen_tokens_on() {
    let run = |rows: usize, tokens: usize| {
        let plan = runtime()
            .matmul_mxfp4_native_prepacked_prefill_device(
                &native("proj", rows, 64),
                Ok(34),
                &bytes(34 * tokens),
                tokens,
                &reals(rows * tokens),
            )
            .unwrap();
        let launch = only_launch(&plan);
        (launch.kernel, launch.stage, launch.config, launch.args.len())
    };
    assert_eq!(
        run(65, 17),
        (
            Kernel::Mxfp4MatmulTileM16n64,
            "launch tiled native mxfp4 prefill gemm",
            geometry((2, 2, 1), 256, 0),
            8
        )
    );
    assert_eq!(
        run(63, 16),
        (
            Kernel::Mxfp4MatmulTileM16n32,
            "launch tiled native mxfp4 prefill gemm",
            geometry((2, 1, 1), 128, 0),
            8
        )
    );
    assert_eq!(
        run(63, 15),
        (
            Kernel::Mxfp4MatmulN8,
            "launch batched native mxfp4 matmul n8",
            geometry((4, 2, 1), 32, 0),
            8
        )
    );
    assert_eq!(
        run(63, 1),
        (
            Kernel::Mxfp4Matvec,
            "launch batched native mxfp4 matvec",
            geometry((4, 1, 1), 32, 0),
            7
        )
    );
    assert_eq!(
        message(runtime().matmul_mxfp4_native_prepacked_prefill_device(
            &native("proj", 63, 64),
            Ok(34),
            &bytes(67),
            2,
            &reals(126),
        )),
        "batched native mxfp4 matvec shape mismatch for proj: expected input_bytes>=68 \
         output>=126, got input_bytes=67 output=126"
    );
}

#[test]
fn three_projections_share_one_native_launch() {
    let q = native("q", 128, 64);
    let k = native("k", 32, 64);
    let v = native("v", 32, 64);
    let run = |v: &DeviceNvfp4Linear, input: usize, batch: usize| {
        runtime().matmul_mxfp4_native_qkv_prefill_device(
            &q,
            &k,
            v,
            (Ok(34), Ok(34), Ok(34)),
            &bytes(input),
            batch,
            &reals(128 * batch),
            &reals(32 * batch),
            &reals(32 * batch),
        )
    };
    let plan = run(&v, 68, 2).unwrap();
    let grouped = only_launch(&plan);
    assert_eq!(grouped.kernel, Kernel::Mxfp4MatmulQkvTileM16n64);
    assert_eq!(grouped.stage, "launch grouped qkv native mxfp4 prefill gemm");
    assert_eq!(grouped.config, geometry((2, 1, 3), 256, 0));
    assert_eq!(
        grouped.args,
        vec![
            Arg::Buffer(Operand::QNative),
            Arg::Buffer(Operand::KNative),
            Arg::Buffer(Operand::VNative),
            Arg::Buffer(Operand::InputMxfp4),
            Arg::U32(128),
            Arg::U32(32),
            Arg::U32(64),
            Arg::U32(2),
            Arg::U32(2),
            Arg::U32(2),
            Arg::U32(2),
            Arg::Scalar(Scalar::QOutputScale),
            Arg::Scalar(Scalar::KOutputScale),
            Arg::Scalar(Scalar::VOutputScale),
            Arg::Buffer(Operand::QOutput),
            Arg::Buffer(Operand::KOutput),
            Arg::Buffer(Operand::VOutput),
        ]
    );
    let plan = run(&v, 34, 1).unwrap();
    assert_eq!(plan.steps.len(), 3);
    assert_eq!(launch(&plan, 2).args[0], Arg::Buffer(Operand::VNative));
    assert_eq!(launch(&plan, 2).args[6], Arg::Buffer(Operand::VOutput));
    let plan = run(&linear("v", 32, 64), 34, 1).unwrap();
    assert_eq!(plan.steps.len(), 3);
    assert_eq!(
        refusal(&plan),
        "batched native mxfp4 inference requested for `v`, but no native MXFP4 resident layout \
         was materialized; enable CudaRuntimeConfig.native_mxfp4_repack"
    );
    assert_eq!(
        message(run(&native("v", 33, 64), 68, 2)),
        "grouped qkv mxfp4 prefill shape mismatch: q=128x64 k=32x64 v=33x64"
    );
    assert_eq!(
        message(run(&v, 67, 2)),
        "grouped qkv mxfp4 prefill buffers too small: input=67 expected_input=68 q_out=256 \
         k_out=64 v_out=64 batch=2"
    );
    assert_eq!(
        message(run(&linear("v", 32, 64), 68, 2)),
        "grouped qkv mxfp4 prefill requires native MXFP4 resident layouts"
    );
}

#[test]
fn gate_and_up_share_one_native_launch() {
    let gate = native("gate", 48, 64);
    let run = |up: &DeviceNvfp4Linear, input: usize, batch: usize| {
        runtime().matmul_mxfp4_native_gate_up_prefill_device(
            &gate,
            up,
            (Ok(34), Ok(34)),
            &bytes(input),
            batch,
            &reals(48 * batch),
            &reals(48 * batch),
        )
    };
    let plan = run(&native("up", 48, 64), 34 * 17, 17).unwrap();
    let grouped = only_launch(&plan);
    assert_eq!(grouped.kernel, Kernel::Mxfp4MatmulGateUpTileM16n32);
    assert_eq!(grouped.stage, "launch grouped gate/up native mxfp4 prefill gemm");
    assert_eq!(grouped.config, geometry((2, 2, 2), 128, 0));
    assert_eq!(grouped.args.len(), 13);
    let plan = run(&native("up", 48, 64), 34, 1).unwrap();
    assert_eq!(plan.steps.len(), 2);
    assert_eq!(launch(&plan, 0).args[6], Arg::Buffer(Operand::GateOutput));
    assert_eq!(launch(&plan, 1).args[6], Arg::Buffer(Operand::UpOutput));
    assert_eq!(
        message(run(&native("up", 48, 128), 68, 2)),
        "grouped gate/up mxfp4 prefill shape mismatch: gate=48x64 up=48x128"
    );
    assert_eq!(
        message(run(&native("up", 48, 64), 67, 2)),
        "grouped gate/up mxfp4 prefill buffers too small: input=67 expected_input=68 \
         gate_out=96 up_out=96 batch=2"
    );
    assert_eq!(
        message(run(&linear("up", 48, 64), 68, 2)),
        "grouped gate/up mxfp4 prefill requires native MXFP4 resident layouts"
    );
}

#[test]
fn staged_products_mark_their_launch() {
    let plan = runtime()
        .matvec_nvfp4_staged_prequantized_batched_device(&staged("proj", 32, 64, false), 40, false)
        .unwrap();
    assert_eq!(plan.steps.len(), 3);
    assert!(matches!(
        plan.steps[0],
        Step::StageWeights { packed_bytes: 1024, scale_bytes: 128 }
    ));
    assert_eq!(launch(&plan, 1).stage, "launch staged nvfp4 wmma bf16 batched gemm");
    assert_eq!(launch(&plan, 1).args[0], Arg::Buffer(Operand::StagedPacked));
    assert_eq!(launch(&plan, 1).args[1], Arg::Buffer(Operand::StagedScales));
    assert!(matches!(plan.steps[2], Step::MarkLaunched));
    assert_eq!(
        [0, 1, 2, usize::MAX].map(|failed| plan.notes_launch_after(failed)),
        [false, true, false, false]
    );
    assert_eq!(
        message(runtime().matvec_nvfp4_staged_prequantized_batched_device(
            &linear("proj", 32, 64),
            40,
            false
        )),
        "staged batched matvec called on non-host-resident linear `proj`"
    );
    let plan = runtime()
        .matvec_native_mxfp4_staged_device(&staged("proj", 32, 64, true))
        .unwrap();
    assert_eq!(plan.steps.len(), 4);
    assert!(matches!(plan.steps[1], Step::StageNative { native_bytes: 1088 }));
    assert_eq!(launch(&plan, 2).kernel, Kernel::Mxfp4Matvec);
    assert_eq!(launch(&plan, 2).stage, "launch staged native mxfp4 matvec");
    assert_eq!(launch(&plan, 2).args[0], Arg::Buffer(Operand::StagedNative));
    assert!(matches!(plan.steps[3], Step::MarkLaunched));
    let plan = runtime()
        .matvec_native_mxfp4_staged_batched_device(&staged("proj", 32, 64, true), 16)
        .unwrap();
    assert_eq!(launch(&plan, 2).kernel, Kernel::Mxfp4MatmulTileM16n32);
    assert_eq!(launch(&plan, 2).stage, "launch staged native mxfp4 prefill tile");
    assert_eq!(
        message(runtime().matvec_native_mxfp4_staged_device(&staged("proj", 32, 64, false))),
        "staged native mxfp4 matvec: no repacked data for `proj`; set native_mxfp4_repack=true"
    );
    assert_eq!(
        message(runtime().matvec_native_mxfp4_staged_batched_device(&linear("proj", 32, 64), 2)),
        "staged native mxfp4 batched matvec on non-host-resident linear `proj`"
    );
}

#[test]
fn staged_views_are_read_in_place_of_the_weights() {
    let plan = runtime().launch_nvfp4_reference_views(8, 64).unwrap();
    let launch = only_launch(&plan);
    assert_eq!(launch.kernel, Kernel::Nvfp4Reference);
    assert_eq!(launch.stage, "launch staged nvfp4 reference");
    assert_eq!(launch.config, geometry((8, 1, 1), 128, 512));
    assert_eq!(launch.args[0], Arg::Buffer(Operand::StagedPacked));
    let layer = staged("proj", 32, 64, true);
    assert!(layer.is_host_resident_with_native_mxfp4());
    assert_eq!(layer.host_resident_native_mxfp4_bytes(), 1088);
    assert_eq!(layer.native_mxfp4_bytes(), 0);
    assert_eq!(layer.native_mxfp4_blocks_per_row(), 0);
    let layer = native("proj", 32, 64);
    assert!(!layer.is_host_resident_with_native_mxfp4());
    assert_eq!(layer.host_resident_native_mxfp4_bytes(), 0);
    assert_eq!((layer.native_mxfp4_bytes(), layer.native_mxfp4_blocks_per_row()), (1088, 2));
    let layer = cutlass("proj", 64, 128);
    assert_eq!(layer.cutlass_nvfp4_payload_bytes(), 4096);
    assert_eq!(layer.cutlass_nvfp4_scale_bytes(), 1024);
    assert_eq!(layer.cutlass_nvfp4_scale_shape(), Some((128, 8)));
    assert_eq!(linear("proj", 64, 128).cutlass_nvfp4_scale_bytes(), 0);
}

#[test]
fn blackwell_layers_pack_their_input_first() {
    let layer = native("proj", 40, 64);
    let plan = runtime()
        .launch_blackwell_nvfp4_linear(&layer, Ok(34), Ok(34), &reals(40))
        .unwrap();
    assert_eq!(plan.steps.len(), 2);
    assert!(matches!(
        plan.steps[0],
        Step::PackInput {
            input: Operand::Input,
            packed_bytes: 34,
            output: Operand::InputMxfp4,
        }
    ));
    assert_eq!(launch(&plan, 1).kernel, Kernel::Mxfp4Matvec);
    let plan = runtime()
        .launch_blackwell_nvfp4_linear(&layer, Ok(68), Ok(34), &reals(40))
        .unwrap();
    assert_eq!(
        refusal(&plan),
        "native mxfp4 matvec shape mismatch for proj: expected input_bytes=34 output=40, got \
         input_bytes=68 output=40"
    );
    let plan = runtime().probe_blackwell_nvfp4_linear_abi(&layer).unwrap();
    assert_eq!(launch(&plan, 0).kernel, Kernel::BlackwellFp4);
    assert_eq!(launch(&plan, 0).config, geometry((40, 1, 1), 32, 0));
    assert!(matches!(
        plan.steps[1],
        Step::Synchronize { stage: "synchronize blackwell nvfp4 linear" }
    ));
}

#[test]
fn bridge_products_need_the_resident_layout() {
    let layer = cutlass("proj", 64, 128);
    assert!(runtime().cutlass_nvfp4_inference_enabled_for(&layer));
    assert!(!runtime().cutlass_nvfp4_inference_enabled_for(&linear("proj", 64, 128)));
    let run = |layer: &DeviceNvfp4Linear, input: usize, workspace: usize| {
        runtime().matmul_cutlass_nvfp4_prefill_device(
            layer,
            &reals(input),
            3,
            &bytes(192),
            &bytes(1024),
            Ok(10),
            &bytes(workspace),
            &reals(192),
        )
    };
    let plan = run(&layer, 384, 10).unwrap();
    assert_eq!(plan.steps.len(), 2);
    let quantize = bridge(&plan, 0);
    assert_eq!(quantize.entry, BridgeEntry::QuantizeF32);
    assert_eq!(
        quantize.args,
        vec![
            Arg::Buffer(Operand::Input),
            Arg::I32(3),
            Arg::I32(128),
            Arg::Buffer(Operand::ActivationPayload),
            Arg::Buffer(Operand::ActivationScales),
        ]
    );
    assert_eq!(bridge(&plan, 1).entry, BridgeEntry::GemmF32);
    let plan = run(&layer, 384, 9).unwrap();
    assert_eq!(
        refusal(&plan),
        "CUTLASS FP4 workspace too small for `proj`: got=9 required=10"
    );
    let plan = run(&linear("proj", 64, 128), 384, 10).unwrap();
    assert_eq!(
        refusal(&plan),
        "CUTLASS FP4 inference requested for `proj`, but no CUDA_R_4F_E2M1+UE4M3 resident \
         layout was materialized"
    );
    assert_eq!(
        message(run(&layer, 383, 10)),
        "CUTLASS NVFP4 activation quant buffers too small: input=383 expected_input=384 \
         payload=192 expected_payload=192 scales=1024 expected_scales=1024"
    );
    assert_eq!(
        message(runtime().cutlass_nvfp4_workspace_bytes(1, 2, 3, Err("no kernel".to_owned()))),
        "CUTLASS FP4 workspace query failed: no kernel"
    );
}

#[test]
fn gated_activations_are_quantized_by_the_bridge() {
    let run = |up: usize, cols| {
        runtime().swiglu_quantize_cutlass_nvfp4_activation_device(
            &reals(384),
            &reals(up),
            3,
            cols,
            &bytes(192),
            &bytes(1024),
        )
    };
    let plan = run(384, 128).unwrap();
    let call = bridge(&plan, 0);
    assert_eq!(call.entry, BridgeEntry::SwigluQuantizeF32);
    assert_eq!(call.args.len(), 6);
    assert_eq!(call.args[2..4], [Arg::I32(3), Arg::I32(128)]);
    assert_eq!(
        message(run(383, 128)),
        "CUTLASS NVFP4 SwiGLU quant buffers too small: gate=384 up=383 expected_input=384 \
         payload=192 expected_payload=192 scales=1024 expected_scales=1024"
    );
    assert_eq!(
        message(run(384, 100)),
        "CUTLASS NVFP4 activation payload requires cols divisible by 32, got 100"
    );
}

#[test]
fn paired_products_take_the_larger_workspace() {
    let first = cutlass("gate", 64, 128);
    let run = |second: &DeviceNvfp4Linear, workspace: usize| {
        runtime().matmul_cutlass_nvfp4_pair_prepacked_prefill_device(
            &first,
            second,
            &bytes(192),
            &bytes(1024),
            3,
            (Ok(10), Ok(20)),
            &bytes(workspace),
            &reals(192),
            &reals(192),
        )
    };
    let second = cutlass("up", 64, 128);
    let plan = run(&second, 20).unwrap();
    let call = bridge(&plan, 0);
    assert_eq!(call.entry, BridgeEntry::Gemm2F32);
    assert_eq!(
        call.args[8..16],
        [
            Arg::Buffer(Operand::Workspace),
            Arg::Size(20),
            Arg::I32(3),
            Arg::I32(64),
            Arg::I32(64),
            Arg::I32(128),
            Arg::Scalar(Scalar::FirstOutputScale),
            Arg::Scalar(Scalar::SecondOutputScale),
        ]
    );
    assert_eq!(
        message(run(&second, 19)),
        "CUTLASS FP4 paired workspace too small: got=19 required=20"
    );
    assert_eq!(
        message(run(&linear("up", 64, 128), 20)),
        "CUTLASS FP4 paired GEMM requested for `up`, but no resident layout was materialized"
    );
    assert_eq!(
        message(run(&cutlass("up", 64, 64), 20)),
        "CUTLASS FP4 paired GEMM shape mismatch: first=64x128 second=64x64"
    );
    assert_eq!(
        message(run(&cutlass("up", 65, 128), 20)),
        "CUTLASS FP4 paired GEMM buffers too small: a=192 expected_a=192 a_sf=1024 \
         expected_a_sf=1024 first_out=192 expected_first=192 second_out=192 expected_second=195"
    );
}

#[test]
fn grouped_products_pass_their_tables_on() {
    let plan = runtime().cutlass_moe_nvfp4_quantize_input_grouped(128, 4, 256).unwrap();
    let call = bridge(&plan, 0);
    assert_eq!(call.entry, BridgeEntry::MoeGroupedQuantizeInput);
    assert_eq!(call.args[1..3], [Arg::I32(128), Arg::I32(4)]);
    assert_eq!(call.args[6], Arg::I32(256));
    let plan = runtime()
        .cutlass_moe_nvfp4_quantize_input_single_strided(128, 6, 3, 2, 256)
        .unwrap();
    let call = bridge(&plan, 0);
    assert_eq!(
        call.args[2..6],
        [
            Arg::I32(1),
            Arg::Tail(Operand::TokenOffsets, 6),
            Arg::Tail(Operand::PayloadOffsets, 3),
            Arg::Tail(Operand::ScaleOffsets, 2),
        ]
    );
    let plan = runtime().cutlass_moe_nvfp4_swizzle_weight_scales_grouped(64, 8, 4).unwrap();
    assert_eq!(bridge(&plan, 0).entry, BridgeEntry::MoeGroupedSwizzleWeightScales);
    assert_eq!(bridge(&plan, 0).args[1..4], [Arg::I32(64), Arg::I32(8), Arg::I32(4)]);
    let plan = runtime().cutlass_moe_nvfp4_grouped_run(4, &bytes(77)).unwrap();
    let call = bridge(&plan, 0);
    assert_eq!(call.entry, BridgeEntry::MoeGroupedRun);
    assert_eq!(call.args.len(), 16);
    assert_eq!(call.args[0], Arg::I32(4));
    assert_eq!(call.args[2], Arg::Null);
    assert_eq!(call.args[15], Arg::Size(77));
    assert_eq!(
        message(runtime().cutlass_moe_nvfp4_grouped_run(1 << 31, &bytes(77))),
        "CUTLASS FP4 argument num_groups exceeds i32 range: 2147483648"
    );
}

#[test]
fn bridge_codes_become_errors() {
    let sizes = CutlassMoeGroupedBlobSizes {
        stride_a: 1,
        stride_b: 2,
        stride_d: 3,
        layout_sfa: 4,
        layout_sfb: 5,
        problem_shape: 12,
    };
    let run = |moe_grouped, code| {
        runtime().cutlass_nvfp4_moe_grouped_blob_sizes(&BridgeBuild { moe_grouped }, code, sizes)
    };
    assert_eq!(run(true, 0).unwrap().layout_sfb, 5);
    assert_eq!(
        message(run(false, 0)),
        "CUTLASS NVFP4 grouped not compiled into this build"
    );
    assert_eq!(
        message(run(true, -3)),
        "CUTLASS MoE NVFP4 grouped blob sizes query failed with code -3"
    );
    let run = |m, code| {
        runtime().cutlass_nvfp4_moe_grouped_sfa_sfb_bytes(m, 64, 128, code, (10, 20))
    };
    assert_eq!(run(3, 0).unwrap(), (10, 20));
    assert!(run(3, 1).is_err());
    assert_eq!(
        message(run(1 << 31, 0)),
        "CUTLASS FP4 argument m exceeds i32 range: 2147483648"
    );
    assert!(runtime().cutlass_moe_nvfp4_compute_strides(3, 64, 128, 0).is_ok());
    assert_eq!(
        message(runtime().cutlass_moe_nvfp4_compute_strides(3, 64, 128, 7)),
        "CUTLASS MoE NVFP4 compute_strides failed (m=3, n=64, k=128) with code 7"
    );
}

#[test]
fn one_slot_reads_its_own_scale() {
    let run = |output: usize, slot| {
        runtime().quantize_nvfp4_input_dptr_device(&reals(40), &reals(6), slot, &reals(output))
    };
    let plan = run(64, 5).unwrap();
    let launch = only_launch(&plan);
    assert_eq!(launch.kernel, Kernel::Nvfp4QuantizeInputDptr);
    assert_eq!(launch.stage, "launch nvfp4 quantize input dptr");
    assert_eq!(launch.config, geometry((3, 1, 1), 16, 0));
    assert_eq!(
        launch.args,
        vec![
            Arg::Buffer(Operand::Input),
            Arg::U32(40),
            Arg::View(Region { operand: Operand::SlotInScale, start: 5, end: 6 }),
            Arg::Buffer(Operand::Output),
        ]
    );
    assert_eq!(
        message(run(39, 5)),
        "nvfp4 dptr input quant shape mismatch: input=40 output=39"
    );
    assert_eq!(
        message(run(40, 6)),
        "nvfp4 dptr input quant: slot_proj 6 out of bounds 6"
    );
}

#[test]
fn one_slot_reads_its_part_of_the_bulk() {
    let run = |packed_offset, slot, input: usize| {
        runtime().matvec_nvfp4_prequantized_dptr_bulk_device(
            &bytes(1000),
            &bytes(200),
            packed_offset,
            256,
            100,
            32,
            8,
            64,
            &reals(6),
            slot,
            &reals(input),
            &reals(8),
        )
    };
    let plan = run(744, 2, 64).unwrap();
    let launch = only_launch(&plan);
    assert_eq!(launch.kernel, Kernel::Nvfp4PrequantDptr);
    assert_eq!(launch.config, geometry((8, 1, 1), 128, 512));
    assert_eq!(
        launch.args[..2],
        [
            Arg::View(Region { operand: Operand::BulkPacked, start: 744, end: 1000 }),
            Arg::View(Region { operand: Operand::BulkScales, start: 100, end: 132 }),
        ]
    );
    assert_eq!(
        launch.args[5],
        Arg::View(Region { operand: Operand::SlotOutScale, start: 2, end: 3 })
    );
    assert_eq!(
        message(run(745, 2, 64)),
        "dptr bulk view out of bounds: packed 745+256>1000  scales 100+32>200"
    );
    assert_eq!(message(run(0, 6, 64)), "dptr bulk gemv: slot_proj 6 out of bounds 6");
    assert_eq!(
        message(run(0, 0, 63)),
        "dptr bulk gemv shape too small: input=63 need 64, output=8 need 8"
    );
}

#[test]
fn slots_are_quantized_together() {
    let run = |input_stride, input: usize, output: usize, proj, scales: usize| {
        runtime().quantize_nvfp4_input_batched_dptr_device(
            &reals(input),
            input_stride,
            40,
            48,
            &reals(scales),
            proj,
            4,
            &reals(output),
        )
    };
    let plan = run(0, 40, 192, 2, 12).unwrap();
    let launch = only_launch(&plan);
    assert_eq!(launch.kernel, Kernel::Nvfp4QuantizeInputBatchedDptr);
    assert_eq!(launch.config, geometry((3, 4, 1), 16, 0));
    assert_eq!(
        launch.args,
        vec![
            Arg::Buffer(Operand::Input),
            Arg::U32(0),
            Arg::U32(40),
            Arg::U32(48),
            Arg::Buffer(Operand::SlotInScale),
            Arg::U32(2),
            Arg::U32(4),
            Arg::Buffer(Operand::Output),
        ]
    );
    assert!(run(44, 176, 192, 0, 12).is_ok());
    assert_eq!(message(run(0, 40, 192, 3, 12)), "batched quant: bad proj_off=3 or top_k=4");
    assert_eq!(
        message(run(0, 40, 191, 0, 12)),
        "batched quant: output too small: len 40 stride 48 top_k 4 have 191"
    );
    assert_eq!(
        message(run(44, 175, 192, 0, 12)),
        "batched quant: input too small: len 40 stride 44 have 175"
    );
    assert_eq!(
        message(run(39, 176, 192, 0, 12)),
        "batched quant: input too small: len 40 stride 39 have 176"
    );
    assert_eq!(message(run(0, 40, 192, 0, 11)), "batched quant: slot_in_scale 11 need 12");
}

#[test]
fn slots_are_multiplied_together() {
    let run = |packed: usize, packed_off, input: usize, output: usize, scales: usize, fast| {
        runtime().matvec_nvfp4_prequantized_batched_dptr_device(
            &bytes(packed),
            &bytes(400),
            300,
            100,
            packed_off,
            10,
            &reals(input),
            70,
            8,
            64,
            &reals(scales),
            1,
            9,
            4,
            &reals(output),
            fast,
        )
    };
    let plan = run(1200, 44, 280, 36, 12, false).unwrap();
    let launch = only_launch(&plan);
    assert_eq!(launch.kernel, Kernel::Nvfp4PrequantBatchedDptr);
    assert_eq!(launch.config, geometry((8, 4, 1), 128, 512));
    assert_eq!(
        launch.args,
        vec![
            Arg::Buffer(Operand::BulkPacked),
            Arg::Buffer(Operand::BulkScales),
            Arg::U32(300),
            Arg::U32(100),
            Arg::U32(44),
            Arg::U32(10),
            Arg::Buffer(Operand::Input),
            Arg::U32(70),
            Arg::U32(8),
            Arg::U32(64),
            Arg::Buffer(Operand::SlotOutScale),
            Arg::U32(1),
            Arg::U32(9),
            Arg::U32(4),
            Arg::Buffer(Operand::Output),
        ]
    );
    let plan = run(1200, 44, 280, 36, 12, true).unwrap();
    assert_eq!(only_launch(&plan).kernel, Kernel::Nvfp4PrequantBatchedDptrWarp);
    assert_eq!(only_launch(&plan).config, geometry((8, 4, 1), 128, 0));
    assert_eq!(
        message(run(1199, 44, 280, 36, 12, true)),
        "batched gemv: bulk too small: packed 1199 need 1200, scales 400 need 400"
    );
    assert_eq!(
        message(run(1200, 45, 280, 36, 12, true)),
        "batched gemv: proj offset/extent out of slot: packed 45+8*32>300"
    );
    assert_eq!(
        message(run(1200, 44, 279, 36, 12, true)),
        "batched gemv: input too small: cols 64 stride 70 top_k 4 have 279"
    );
    assert_eq!(
        message(run(1200, 44, 280, 35, 12, true)),
        "batched gemv: output too small: rows 8 stride 9 top_k 4 have 35"
    );
    assert_eq!(
        message(run(1200, 44, 280, 36, 11, true)),
        "batched gemv: slot_out_scale 11 need 12"
    );
}

#[test]
fn slots_are_gated_and_weighted() {
    let run = |stride, up: usize| {
        runtime().geglu_tanh_batched_slots_device(
            &reals(1200),
            &reals(up),
            257,
            stride,
            4,
            &reals(1200),
        )
    };
    let plan = run(300, 1200).unwrap();
    let launch = only_launch(&plan);
    assert_eq!(launch.kernel, Kernel::MoeGegluTanhBatchedSlots);
    assert_eq!(launch.stage, "launch moe geglu tanh batched slots");
    assert_eq!(launch.config, geometry((2, 4, 1), 256, 0));
    assert_eq!(launch.args[2..5], [Arg::U32(257), Arg::U32(300), Arg::U32(4)]);
    assert_eq!(
        message(run(256, 1200)),
        "batched geglu: bad top_k=4 or stride 256 < len 257"
    );
    assert_eq!(
        message(run(300, 1199)),
        "batched geglu: buffers too small: stride 300 top_k 4 gate 1200 up 1199 out 1200"
    );
    let plan = runtime().axpy_f32_topk_weight_device(&reals(257), &reals(257), 3).unwrap();
    let launch = only_launch(&plan);
    assert_eq!(launch.kernel, Kernel::AxpyF32TopkWeight);
    assert_eq!(launch.config, geometry((2, 1, 1), 256, 0));
    assert_eq!(launch.args[3..], [Arg::U32(3), Arg::U32(257)]);
    assert_eq!(
        message(runtime().axpy_f32_topk_weight_device(&reals(257), &reals(256), 3)),
        "axpy topk-weight shape mismatch: src=256 out=257"
    );
}
