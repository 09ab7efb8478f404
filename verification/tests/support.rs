//! Errors, kernels, compilation, the bridge, captured graphs and the smoke problems.
use aegisllm_cuda::compile::{
    capability_of_device, kernel_header_directories, nvrtc_arch_for_device,
    smoke_header_directories, GpuArchitecture, GpuInfo,
};
use aegisllm_cuda::config::{
    CudaAttentionBackend, CudaPrefillAttentionKernel, CudaRuntimeConfig, PrefillTuning,
};
use aegisllm_cuda::cutlass_bridge::{
    moe_grouped_blob_sizes, moe_grouped_compute_strides, moe_grouped_run, moe_grouped_supported,
    status, BridgeBuild, ErrorBuffer,
};
use aegisllm_cuda::error::{AegisError, Message, Value, Values};
use aegisllm_cuda::functions::{
    missing_function, CudaKernelFunctions, Kernel, Lookup, KERNEL_COUNT,
};
use aegisllm_cuda::launch::{Arg, BridgeEntry, Operand, Plan, Step};
use aegisllm_cuda::runtime::cutlass_moe_smoke::{
    check_scale_bytes, draw_inputs, group_pointers, grouped_layout, pointer_tables, prepare_smoke,
    problem_shape_slot, problem_shapes, run_smoke, smoke_problem, GroupBases, GroupedProblem,
    SMOKE_SEED,
};
use aegisllm_cuda::runtime::fp4_reference::dequantize_weights;
use aegisllm_cuda::runtime::fp8_mma_smoke::{
    all_passed, draw_small_ints, draw_units, is_visible, runs_agree, stage_passed, SmokeStage,
};
use aegisllm_cuda::runtime::graph::{cu_check, enumerate_graph_nodes, node_kind, GraphNodeKind};
use aegisllm_cuda::runtime::rng::Rng;
use aegisllm_cuda::runtime::CudaRuntime;

fn runtime(capability: Option<&str>) -> CudaRuntime {
    CudaRuntime::new_with_config(
        0,
        capability.map(str::to_owned),
        CudaRuntimeConfig {
            prefill_attention: CudaPrefillAttentionKernel::Auto,
            native_mxfp4_repack: false,
            native_mxfp4_inference: false,
            cutlass_nvfp4_repack: false,
        },
        PrefillTuning {
            auto_target: CudaAttentionBackend::Reference,
            varlen_min_context: 1024,
            dense_split_k_tokens: 512,
        },
    )
}

fn report(text: &str) -> ErrorBuffer {
    let mut buffer = ErrorBuffer::new();
    buffer.bytes[..text.len()].copy_from_slice(text.as_bytes());
    buffer
}

#[test]
fn messages_fill_their_holes() {
    let error = AegisError::InvalidPlan(Message {
        text: "{}: {} {} {} `{}` {}!",
        values: Values::Six(
            Value::Label("shape"),
            Value::Number(u64::MAX),
            Value::Signed(i32::MIN),
            Value::Flag(false),
            Value::Name("ü{}".to_owned()),
            Value::Shape(vec![2, 0, 31]),
        ),
    });
    assert_eq!(
        error.message(),
        "shape: 18446744073709551615 -2147483648 false `ü{}` [2, 0, 31]!"
    );
    let plain = AegisError::Unsupported(Message { text: "no holes", values: Values::Zero });
    assert_eq!(plain.message(), "no holes");
    let empty = Message { text: "{}", values: Values::One(Value::Shape(vec![])) };
    assert_eq!(empty.render(), "[]");
}

#[test]
fn a_message_takes_one_more_value() {
    let message = Message { text: "`{}` failed: {}", values: Values::One(Value::Label("gemm")) };
    assert_eq!(message.completed("code 7".to_owned()).render(), "`gemm` failed: code 7");
}

#[test]
fn every_kernel_has_its_own_entry() {
    let functions = CudaKernelFunctions::load();
    assert_eq!(functions.entries.len(), KERNEL_COUNT);
    assert_eq!(KERNEL_COUNT, 157);
    for (position, entry) in functions.entries.iter().enumerate() {
        assert_eq!(entry.kernel, Kernel::at(position));
        assert_eq!(entry.kernel.index(), position);
        assert!(entry.symbol.starts_with("aegis_"));
        for other in &functions.entries[..position] {
            assert_ne!(entry.kernel, other.kernel);
        }
    }
    let entry = functions.entry(Kernel::AttentionDecodePtrSplit);
    assert_eq!(entry.shared_limit.unwrap().bytes, 98304);
    assert_eq!(functions.entry(Kernel::BlackwellFp4).symbol, "aegis_blackwell_nvfp4_linear_probe");
    assert!(functions.entry(Kernel::BlackwellFp4).shared_limit.is_none());
    assert_eq!(
        missing_function("aegis_absent", "NotFound".to_owned()).message(),
        "load cuda function `aegis_absent` failed: NotFound"
    );
    let mut outcomes = vec![Lookup::Found; KERNEL_COUNT];
    assert!(functions.loaded(&outcomes).is_ok());
    let place = Kernel::AttentionDecodePtrSplit.index();
    outcomes[place] = Lookup::LimitRefused("InvalidValue".to_owned());
    outcomes[place + 1] = Lookup::Missing("NotFound".to_owned());
    assert_eq!(
        functions.loaded(&outcomes).unwrap_err().message(),
        "set max dynamic shared mem on attention_decode_ptr_split: InvalidValue"
    );
    outcomes.truncate(2);
    outcomes[1] = Lookup::Missing("NotFound".to_owned());
    assert_eq!(
        functions.loaded(&outcomes).unwrap_err().message(),
        format!("load cuda function `{}` failed: NotFound", functions.entries[1].symbol)
    );
    assert_eq!(
        entry.shared_limit.unwrap().refused("InvalidValue".to_owned()).message(),
        "set max dynamic shared mem on attention_decode_ptr_split: InvalidValue"
    );
}

fn gpu(index: usize, capability: Option<&str>) -> GpuInfo {
    GpuInfo {
        index,
        architecture: GpuArchitecture::Earlier,
        compute_capability: capability.map(str::to_owned),
    }
}

#[test]
fn architecture_follows_the_capability() {
    for (capability, arch) in [
        ("12.0", "compute_120a"),
        ("10.3", "compute_100"),
        ("9.0", "compute_90"),
        ("8.9", "compute_89"),
        ("8.6", "compute_80"),
        ("7.5", "compute_80"),
        ("8.90", "compute_80"),
    ] {
        assert_eq!(nvrtc_arch_for_device(&vec![gpu(1, Some(capability))], 1), arch);
    }
    let inventory = vec![gpu(0, Some("9.0")), gpu(1, None), gpu(1, Some("12.0"))];
    assert_eq!(nvrtc_arch_for_device(&inventory, 1), "compute_80");
    assert_eq!(nvrtc_arch_for_device(&inventory, 7), "compute_80");
    assert_eq!(capability_of_device(&inventory, 0), Some("9.0".to_owned()));
    assert_eq!(capability_of_device(&inventory, 1), None);
}

#[test]
fn headers_are_looked_for_in_order() {
    let paths = kernel_header_directories(&vec!["/a".to_owned(), "/b".to_owned()]);
    assert_eq!(
        paths,
        vec![
            "/a/include",
            "/a/targets/x86_64-linux/include",
            "/a/targets/x86_64-linux/include/cccl",
            "/b/include",
            "/b/targets/x86_64-linux/include",
            "/b/targets/x86_64-linux/include/cccl",
            "/opt/cuda/targets/x86_64-linux/include",
            "/opt/cuda/targets/x86_64-linux/include/cccl",
            "/usr/local/cuda/include",
            "/usr/local/cuda/targets/x86_64-linux/include/cccl",
            "/usr/include",
        ]
    );
    assert_eq!(
        smoke_header_directories(&vec![]),
        vec![
            "/opt/cuda/include",
            "/opt/cuda/targets/x86_64-linux/include",
            "/usr/local/cuda/include",
        ]
    );
}

#[test]
fn bridge_reports_end_at_the_first_zero() {
    let buffer = report("bad alignment");
    assert_eq!(buffer.len(), 512);
    assert_eq!(buffer.message(), "bad alignment");
    assert_eq!(ErrorBuffer::new().message(), "");
    let mut torn = report("ab");
    torn.bytes[1] = 0xFF;
    torn.bytes[3] = b'x';
    assert_eq!(torn.message(), "a\u{FFFD}");
    let mut full = ErrorBuffer::new();
    full.bytes = [b'z'; 512];
    assert_eq!(full.message().len(), 512);
}

#[test]
fn bridge_codes_become_messages() {
    assert!(status(0, &report("ignored")).is_ok());
    assert_eq!(
        status(-3, &ErrorBuffer::new()).unwrap_err().render(),
        "CUTLASS bridge failed with code -3"
    );
    assert_eq!(
        status(5, &report("no SM120")).unwrap_err().render(),
        "CUTLASS bridge failed with code 5: no SM120"
    );
    assert!(moe_grouped_run(0, &ErrorBuffer::new()).is_ok());
    assert_eq!(
        moe_grouped_blob_sizes(2).unwrap_err().render(),
        "CUTLASS MoE NVFP4 grouped blob sizes query failed with code 2"
    );
    assert_eq!(
        moe_grouped_compute_strides(1, 2, 3, 4).unwrap_err().render(),
        "CUTLASS MoE NVFP4 compute_strides failed (m=1, n=2, k=3) with code 4"
    );
    assert!(moe_grouped_supported(&BridgeBuild { moe_grouped: true }));
    assert!(!moe_grouped_supported(&BridgeBuild { moe_grouped: false }));
}

#[test]
fn enumerate_returns_empty_for_empty_capture() {
    let nodes = enumerate_graph_nodes(&vec![], &vec![]);
    assert!(nodes.is_empty(), "expected zero nodes, got {}", nodes.len());
}

#[test]
fn graph_nodes_keep_their_order() {
    let nodes = enumerate_graph_nodes(&vec![11, 12, 13, 14], &vec![0, 1, 2]);
    assert_eq!(nodes.len(), 3);
    assert_eq!((nodes[0].handle, nodes[0].kind), (11, GraphNodeKind::Kernel));
    assert_eq!((nodes[1].handle, nodes[1].kind), (12, GraphNodeKind::Memcpy));
    assert_eq!((nodes[2].handle, nodes[2].kind), (13, GraphNodeKind::Memset));
    assert_eq!(node_kind(9), GraphNodeKind::Other);
    assert!(cu_check("cuGraphGetNodes", 0, String::new()).is_ok());
    assert_eq!(
        cu_check("cuGraphGetNodes", 1, "CUDA_ERROR_INVALID_VALUE".to_owned())
            .unwrap_err()
            .message(),
        "cuGraphGetNodes: CUresult=CUDA_ERROR_INVALID_VALUE"
    );
}

#[test]
fn smoke_needs_the_right_device_and_build() {
    assert_eq!(runtime(Some("12.1")).fp8_mma_smoke().unwrap(), "12.1");
    assert_eq!(
        runtime(None).fp8_mma_smoke().unwrap_err().message(),
        "fp8 mma smoke requires SM120 (compute capability 12.x); device reports unknown"
    );
    assert_eq!(
        runtime(Some("9.0")).fp8_mma_smoke().unwrap_err().message(),
        "fp8 mma smoke requires SM120 (compute capability 12.x); device reports 9.0"
    );
    let built = BridgeBuild { moe_grouped: true };
    assert_eq!(
        runtime(None).cutlass_nvfp4_moe_grouped_smoke(&built).unwrap().rows,
        vec![128, 256, 512, 1024]
    );
    let missing = BridgeBuild { moe_grouped: false };
    assert_eq!(
        runtime(None).cutlass_nvfp4_moe_grouped_smoke(&missing).unwrap_err().message(),
        "CUTLASS NVFP4 grouped bridge is not compiled into this build; rebuild with \
         AEGIS_CUTLASS_NVFP4_GROUPED_BUILD=1"
    );
}

#[test]
fn smoke_layout_has_no_gaps() {
    let problem = smoke_problem();
    let layout = grouped_layout(&problem);
    assert_eq!(layout.token_offsets, vec![0, 128, 384, 896, 1920]);
    assert_eq!(layout.payload_offsets, vec![0, 128 * 64, 384 * 64, 896 * 64]);
    assert_eq!(layout.payload_total, 1920 * 64);
    assert_eq!(layout.sfa_offsets, vec![0, 1024, 3072, 7168]);
    assert_eq!(layout.sfa_total, 1920 * 8);
    assert_eq!(layout.scale_offsets, vec![0, 1024, 2048, 3072]);
    assert_eq!(layout.sfb_total, 4096);
    assert_eq!(layout.max_padded_rows, 1024);
}

#[test]
fn odd_groups_are_padded_to_tiles() {
    let problem = GroupedProblem { rows: vec![1, 129], n: 130, k: 80 };
    let layout = grouped_layout(&problem);
    assert_eq!(layout.payload_offsets, vec![0, 40]);
    assert_eq!(layout.sfa_offsets, vec![0, 128 * 8]);
    assert_eq!(layout.sfa_total, (128 + 256) * 8);
    assert_eq!(layout.sfb_offsets, vec![0, 256 * 8]);
    assert_eq!(layout.max_padded_rows, 256);
}

#[test]
fn smoke_is_prepared_once_sizes_agree() {
    let problem = smoke_problem();
    let layout = grouped_layout(&problem);
    let sizes = vec![Ok((1024, 1024)), Ok((2048, 1024)), Ok((4096, 1024)), Ok((8192, 1024))];
    let plan = prepare_smoke(&problem, &layout, &sizes).unwrap();
    assert_eq!(plan.steps.len(), 3);
    match &plan.steps[0] {
        Step::Bridge(call) => {
            assert_eq!(call.entry, BridgeEntry::MoeGroupedSwizzleWeightScales);
            assert_eq!(call.args[1..4], [Arg::I32(128), Arg::I32(8), Arg::I32(4)]);
        }
        other => panic!("not a bridge call: {other:?}"),
    }
    match &plan.steps[1] {
        Step::Bridge(call) => {
            assert_eq!(call.entry, BridgeEntry::MoeGroupedQuantizeInput);
            assert_eq!(call.args[6], Arg::I32(1024));
        }
        other => panic!("not a bridge call: {other:?}"),
    }
    let sizes = vec![Ok((1024, 1024)), Ok((2048, 1023)), Err("late".to_owned()), Ok((0, 0))];
    assert_eq!(
        prepare_smoke(&problem, &layout, &sizes).unwrap_err().message(),
        "expert 1 SFB bytes mismatch: helper=1023 manual=1024 (n=128 k=128)"
    );
    let sizes = vec![Err("no bridge".to_owned()), Ok((0, 0)), Ok((0, 0)), Ok((0, 0))];
    assert_eq!(
        prepare_smoke(&problem, &layout, &sizes).unwrap_err().message(),
        "sfa_sfb_bytes(m=128,n=128,k=128): no bridge"
    );
    assert_eq!(
        check_scale_bytes(&problem, 3, (1, 1024)).unwrap_err().message(),
        "expert 3 SFA bytes mismatch: helper=1 manual=8192 (m=1024 k=128)"
    );
}

#[test]
fn smoke_runs_alone() {
    let plan: Plan = run_smoke(&smoke_problem(), 77);
    assert_eq!(plan.steps.len(), 3);
    assert!(matches!(plan.steps[0], Step::Synchronize { .. }));
    match &plan.steps[1] {
        Step::Bridge(call) => {
            assert_eq!(call.args[0], Arg::I32(4));
            assert_eq!(call.args[2], Arg::Null);
            assert_eq!(call.args[14], Arg::Buffer(Operand::Workspace));
            assert_eq!(call.args[15], Arg::Size(77));
        }
        other => panic!("not a bridge call: {other:?}"),
    }
}

#[test]
fn problem_shapes_are_little_endian() {
    assert_eq!(
        problem_shape_slot(258, 3, 65536, 16).unwrap(),
        vec![2, 1, 0, 0, 3, 0, 0, 0, 0, 0, 1, 0, 0, 0, 0, 0]
    );
    assert_eq!(
        problem_shape_slot(1, 2, 3, 11).unwrap_err().message(),
        "problem_shape slot too small: 11 bytes (need ≥ 12)"
    );
    let problem = GroupedProblem { rows: vec![1, 2], n: 3, k: 16 };
    assert_eq!(
        problem_shapes(&problem, 12).unwrap(),
        vec![
            1, 0, 0, 0, 3, 0, 0, 0, 16, 0, 0, 0, 2, 0, 0, 0, 3, 0, 0, 0, 16, 0, 0, 0
        ]
    );
}

#[test]
fn groups_point_into_their_buffers() {
    let problem = smoke_problem();
    let layout = grouped_layout(&problem);
    let bases = GroupBases {
        payload: 1 << 20,
        weights: 2 << 20,
        sfa: 3 << 20,
        sfb: 4 << 20,
        output: 5 << 20,
        alphas: 6 << 20,
    };
    let pointers = group_pointers(&problem, &layout, bases, 2);
    assert_eq!(pointers.a, (1 << 20) + 384 * 64);
    assert_eq!(pointers.b, (2 << 20) + 2 * 8192);
    assert_eq!(pointers.sfa, (3 << 20) + 3072);
    assert_eq!(pointers.sfb, (4 << 20) + 2048);
    assert_eq!(pointers.d, (5 << 20) + 384 * 128 * 4);
    assert_eq!(pointers.alpha, (6 << 20) + 8);
    let tables = pointer_tables(&problem, &layout, bases);
    assert_eq!(tables.a.len(), 4);
    assert_eq!(tables.d[2], pointers.d);
    assert_eq!(tables.alpha[3], (6 << 20) + 12);
}

#[test]
fn smoke_data_repeats() {
    let inputs = draw_inputs(SMOKE_SEED, 2, 1, 1);
    let mut source = Rng(SMOKE_SEED);
    assert_eq!(inputs.activations, vec![source.next_unit(), source.next_unit()]);
    let low = source.next_nibble();
    let high = source.next_nibble();
    assert_eq!(inputs.weights, vec![low | (high << 4)]);
    assert_eq!(inputs.scales, vec![source.next_ue4m3_scale()]);
    let mut source = Rng(7);
    let mut copy = Rng(7);
    assert_eq!(draw_units(&mut source, 2), vec![copy.next_unit(), copy.next_unit()]);
    assert_eq!(draw_small_ints(&mut source, 1), vec![copy.small_int()]);
}

#[test]
fn weights_are_unpacked_row_by_row() {
    let problem = GroupedProblem { rows: vec![1, 1], n: 2, k: 16 };
    let mut weights = vec![0u8; 32];
    weights[16] = 0x72;
    weights[31] = 0xF0;
    let scales = vec![0x38, 0x38, 0x38, 0x40];
    let units = dequantize_weights(&problem, &weights, &scales, 1);
    assert_eq!(units.len(), 32);
    assert_eq!(units[0], 2048);
    assert_eq!(units[1], 6 * 2048);
    assert_eq!(units[31], -6 * 2 * 2048);
    assert!(dequantize_weights(&problem, &weights, &scales, 0).iter().all(|unit| *unit == 0));
}

#[test]
fn stages_are_described() {
    assert_eq!(SmokeStage::BareMma.name(), "stage1_bare_mma");
    assert_eq!(SmokeStage::TiledGemm.symbol(), "aegis_fp8_mma_smoke_stage2");
    assert_eq!(SmokeStage::Attention.seed(), 0x3A77E9);
    assert_eq!(SmokeStage::TiledGemm.config().grid_dim, (8, 4, 1));
    assert_eq!(SmokeStage::Attention.config().shared_mem_bytes, 16 * 128 * 4 + 16 * 128 + 64);
    assert_eq!(SmokeStage::Attention.numbers(), vec![4, 128, 512]);
    assert_eq!(SmokeStage::BareMma.lens(), vec![512, 256, 128]);
    assert_eq!(
        SmokeStage::BareMma.shape(true).render(),
        "M=16 N=8 K=32 (bit_exact=true)"
    );
    assert_eq!(SmokeStage::Attention.shape(false).render(), "H=4 q=16 ctx=128 D=512 causal");
}

#[test]
fn attention_is_causal() {
    assert!(is_visible(112, 0, 16, 128));
    assert!(!is_visible(113, 0, 16, 128));
    assert!(is_visible(127, 15, 16, 128));
}

#[test]
fn stages_pass_when_runs_agree_and_results_are_close() {
    assert!(runs_agree(&vec![vec![1, 2], vec![1, 2]]));
    assert!(!runs_agree(&vec![vec![1, 2], vec![1, 3]]));
    assert!(stage_passed(SmokeStage::BareMma, true, true, false));
    assert!(!stage_passed(SmokeStage::BareMma, true, false, true));
    assert!(!stage_passed(SmokeStage::BareMma, false, true, true));
    assert!(stage_passed(SmokeStage::TiledGemm, true, false, true));
    assert!(!stage_passed(SmokeStage::TiledGemm, true, true, false));
    assert!(!stage_passed(SmokeStage::TiledGemm, false, true, true));
    assert!(all_passed(&vec![true, true]));
    assert!(!all_passed(&vec![true, false]));
}
