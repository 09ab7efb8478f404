//! Loading weights: what is read, where it is placed and what comes out.
use aegisllm_cuda::config::{
    CudaAttentionBackend, CudaPrefillAttentionKernel, CudaRuntimeConfig, PrefillTuning,
};
use aegisllm_cuda::error::{AegisError, Message, Values};
use aegisllm_cuda::functions::Kernel;
use aegisllm_cuda::host_arena::PinnedArena;
use aegisllm_cuda::launch::Step;
use aegisllm_cuda::loader::bf16::RestoredValues;
use aegisllm_cuda::loader::layers::{
    join_group, load_nvfp4_linear_host_parts, qkv_group_spec, GroupReplies, HostPartsReplies,
    Nvfp4Blocks, Nvfp4LinearHostParts, PrefetchedReplies, SlicedReplies,
};
use aegisllm_cuda::loader::numeric::bf16_values;
use aegisllm_cuda::loader::nvfp4::{
    native_layout_cutlass_prefill_sidecar, scale_or_one, CutlassSizes, Nvfp4LinearSpec,
    Nvfp4Replies,
};
use aegisllm_cuda::loader::prefetch::{gather_pairs, shared_shard};
use aegisllm_cuda::loader::region::{
    first_nvfp4_linear_prefix, region_linears, ComputePlacement, GraphRegion, GraphTensor,
    RegionPlacement, StoragePlacement, TensorRole,
};
use aegisllm_cuda::loader::storage::{
    bounce_is_short, mem_available_bytes, place_packed_scales_contiguous, read_chunked, Buffering,
    ReadChunk, ShardCache,
};
use aegisllm_cuda::loader::CudaWeightLoader;
use aegisllm_cuda::loader::tensors::{ModelArtifact, TensorDType, TensorInfo};
use aegisllm_cuda::runtime::CudaRuntime;
use aegisllm_cuda::types::{
    CutlassNvfp4Layout, DeviceBf16Matrix, DeviceBuffer, HostBf16Weights, HostWeightBytes,
    KernelFamily, LinearResidentLayout, TensorResidencyPlan,
};

const GIB: u64 = 1 << 30;

fn runtime(native: bool, cutlass: bool) -> CudaRuntime {
    CudaRuntime::new_with_config(
        0,
        None,
        CudaRuntimeConfig {
            prefill_attention: CudaPrefillAttentionKernel::Auto,
            native_mxfp4_repack: native,
            native_mxfp4_inference: false,
            cutlass_nvfp4_repack: cutlass,
        },
        PrefillTuning {
            auto_target: CudaAttentionBackend::Reference,
            varlen_min_context: 1024,
            dense_split_k_tokens: 512,
        },
    )
}

fn tensor(name: &str, dtype: TensorDType, shape: &[usize], bytes: usize) -> TensorInfo {
    TensorInfo {
        name: name.to_owned(),
        dtype,
        shape: shape.to_vec(),
        num_elements: shape.iter().product(),
        data_len_bytes: bytes,
        shard_path: "model-1.safetensors".to_owned(),
        file_offset: 64,
    }
}

fn artifact() -> ModelArtifact {
    ModelArtifact {
        tensors: vec![
            tensor("a.weight", TensorDType::U8, &[8, 64], 512),
            tensor("a.weight_scale", TensorDType::F8E4M3, &[8, 8], 64),
            tensor("b.weight", TensorDType::U8, &[4, 64], 256),
            tensor("b.weight_scale", TensorDType::F8E4M3, &[4, 8], 32),
        ],
    }
}

fn spec(name: &str, cols: usize) -> Nvfp4LinearSpec {
    Nvfp4LinearSpec {
        name: name.to_owned(),
        rows: 8,
        cols,
        packed_bytes: 512,
        scale_bytes: 64,
    }
}

fn unasked() -> AegisError {
    AegisError::Unsupported(Message { text: "not asked for", values: Values::Zero })
}

fn replies(name: &str, family: KernelFamily, cols: usize) -> Nvfp4Replies {
    Nvfp4Replies {
        kernel_family: Ok(family),
        output_scale: Ok(Some(0x3F00_0000)),
        input_scale: Ok(None),
        spec: Ok(spec(name, cols)),
        source: Ok((512, 64)),
        native: Ok(999),
        cutlass: Ok(CutlassSizes {
            layout: CutlassNvfp4Layout { logical_n: 8, logical_k: cols, scale_rows: 128, scale_cols: 8 },
            payload_bytes: 512,
            scale_bytes: 1024,
        }),
        fill: Ok(()),
        device: Ok(()),
    }
}

const VRAM: TensorResidencyPlan = TensorResidencyPlan::VramResident { device: 0 };
const HOST: TensorResidencyPlan = TensorResidencyPlan::StagedHostToDevice { device: 0 };

#[test]
fn reads_are_split_into_chunks() {
    assert_eq!(read_chunked(0, 10), vec![]);
    assert_eq!(
        read_chunked(100, 10),
        vec![ReadChunk { start: 0, len: 100, file_offset: 10 }]
    );
    let chunks = read_chunked((1 << 20) + 1, 7);
    assert_eq!(chunks.len(), 8);
    assert_eq!(chunks[0], ReadChunk { start: 0, len: 131073, file_offset: 7 });
    assert_eq!(chunks[7].len, 131066);
    let mut end = 0;
    for chunk in &chunks {
        assert_eq!(chunk.start, end);
        assert_eq!(chunk.file_offset, 7 + end as u64);
        end += chunk.len;
    }
    assert_eq!(end, (1 << 20) + 1);
}

#[test]
fn available_memory_is_read_from_the_listing() {
    assert_eq!(
        mem_available_bytes("MemTotal: 5 kB\nMemAvailable:   1234 kB\nSwapTotal: 1 kB\n"),
        Some(1234 * 1024)
    );
    assert_eq!(mem_available_bytes("MemTotal: 5 kB\n"), None);
    assert_eq!(mem_available_bytes("MemAvailable: many kB"), None);
    assert_eq!(mem_available_bytes("MemAvailable: 18446744073709551615 kB"), Some(u64::MAX));
    assert_eq!(mem_available_bytes("MemAvailable:\u{a0}\t7\u{2003}kBkB \r\n"), Some(7 * 1024));
    assert_eq!(mem_available_bytes("MemAvailable: +8 kB"), Some(8 * 1024));
    assert_eq!(mem_available_bytes(""), None);
}

#[test]
fn one_shard_is_held_at_a_time() {
    let mut cache = ShardCache::new();
    assert!(!cache.holds("a"));
    assert_eq!(cache.ensure_shard_buffered("a", GIB, Some(6 * GIB)), Buffering::Read);
    cache.buffered("a");
    assert_eq!(cache.ensure_shard_buffered("a", GIB, Some(0)), Buffering::Reuse);
    assert_eq!(cache.ensure_shard_buffered("b", GIB, Some(6 * GIB - 1)), Buffering::Decline);
    assert!(!cache.holds("a"));
    assert_eq!(cache.ensure_shard_buffered("b", GIB, None), Buffering::Read);
    assert!(bounce_is_short(None, 0));
    assert!(bounce_is_short(Some(3), 4));
    assert!(!bounce_is_short(Some(4), 4));
}

#[test]
fn scales_follow_their_weights_in_the_arena() {
    let mut arena = PinnedArena::new(4096, 4096).unwrap();
    arena.reserve(10).unwrap();
    assert_eq!(
        place_packed_scales_contiguous(&mut arena, 512, 64).unwrap(),
        (
            HostWeightBytes::Arena { offset: 10, len: 512 },
            HostWeightBytes::Arena { offset: 522, len: 64 }
        )
    );
    assert!(place_packed_scales_contiguous(&mut arena, 4000, 64).is_err());
}

#[test]
fn sidecars_are_four_projections() {
    assert!(native_layout_cutlass_prefill_sidecar("model.layers.3.self_attn.o_proj"));
    assert!(native_layout_cutlass_prefill_sidecar("x.mlp.gate_proj"));
    assert!(native_layout_cutlass_prefill_sidecar("x.mlp.up_proj"));
    assert!(native_layout_cutlass_prefill_sidecar("x.mlp.down_proj"));
    assert!(!native_layout_cutlass_prefill_sidecar("x.self_attn.q_proj"));
    assert!(!native_layout_cutlass_prefill_sidecar("mlp.up_proj"));
}

#[test]
fn a_layer_is_repacked_to_one_form() {
    let runtime = runtime(true, true);
    let loader = runtime.weight_loader();
    let family = KernelFamily::CudaNativeFp4TensorCores;
    let layout = LinearResidentLayout::NativeTensorCore;
    for (prefix, native) in [("x.self_attn.q_proj", true), ("x.mlp.up_proj", false)] {
        assert_eq!(loader.should_repack_native_mxfp4(prefix, family), native);
        assert_eq!(loader.should_repack_cutlass_nvfp4(prefix, family, layout), !native);
    }
    assert!(loader.should_repack_cutlass_nvfp4("x", family, LinearResidentLayout::CudaR4fE2m1Ue4m3));
    assert!(loader.should_repack_cutlass_nvfp4("x", KernelFamily::CudaCutlassFp4TensorCores, layout));
    assert!(!loader.should_repack_native_mxfp4("x", KernelFamily::CudaPackedFp4));
}

#[test]
fn needs_follow_residency() {
    let runtime = runtime(true, true);
    let loader = runtime.weight_loader();
    let needs = loader.nvfp4_needs(
        "x.mlp.up_proj",
        KernelFamily::CudaNativeFp4TensorCores,
        HOST,
        LinearResidentLayout::NativeTensorCore,
    );
    assert!(needs.source && needs.host && !needs.native && !needs.cutlass);
    let needs = loader.nvfp4_needs("x", KernelFamily::CudaPackedFp4, HOST, LinearResidentLayout::PackedSource);
    assert!(!needs.source && needs.host);
}

#[test]
fn resident_layer_keeps_source_and_repacked_weights() {
    let runtime = runtime(true, false);
    let mut loader = runtime.weight_loader();
    let linear = loader
        .load_nvfp4_linear_with_layout(
            &artifact(),
            &"a".to_owned(),
            VRAM,
            LinearResidentLayout::NativeTensorCore,
            replies("a", KernelFamily::CudaNativeFp4TensorCores, 128),
        )
        .unwrap();
    assert_eq!((linear.packed.len(), linear.scales.len()), (512, 64));
    assert_eq!(linear.native_mxfp4_bytes(), 999);
    assert_eq!((linear.input_scale, linear.output_scale), (0x3F80_0000, 0x3F00_0000));
    assert_eq!(linear.native_mxfp4_blocks_per_row(), 4);
    assert_eq!(linear.cutlass_nvfp4_payload_bytes(), 0);
    assert_eq!(linear.cutlass_nvfp4_scale_shape(), None);
    assert!(linear.host_weights.is_none());
    assert_eq!(linear.resident_layout, LinearResidentLayout::NativeTensorCore);
}

#[test]
fn host_layer_goes_to_the_arena() {
    let runtime = runtime(true, false);
    let mut loader = runtime.weight_loader_with_arena(PinnedArena::new(4096, 4096).unwrap());
    let linear = loader
        .load_nvfp4_linear_with_layout(
            &artifact(),
            &"b".to_owned(),
            HOST,
            LinearResidentLayout::NativeTensorCore,
            replies("b", KernelFamily::CudaNativeFp4TensorCores, 64),
        )
        .unwrap();
    assert_eq!((linear.packed.len(), linear.scales.len()), (1, 1));
    assert_eq!(linear.resident_layout, LinearResidentLayout::PackedSource);
    assert!(linear.is_host_resident_with_native_mxfp4());
    assert_eq!(linear.host_resident_native_mxfp4_bytes(), 999);
    assert_eq!((linear.input_scale, linear.output_scale), (0x3F80_0000, 0x3F00_0000));
    let host = linear.host_weights.unwrap();
    assert_eq!(host.packed, HostWeightBytes::Arena { offset: 0, len: 256 });
    assert_eq!(host.scales, HostWeightBytes::Arena { offset: 256, len: 32 });
    assert_eq!(loader.arena().unwrap().used(), 288);
}

#[test]
fn layer_refusals() {
    let runtime = runtime(true, false);
    let mut loader = runtime.weight_loader();
    let native = KernelFamily::CudaNativeFp4TensorCores;
    let mut load = |prefix: &str, residency, replies| {
        loader
            .load_nvfp4_linear_with_layout(
                &artifact(),
                &prefix.to_owned(),
                residency,
                LinearResidentLayout::NativeTensorCore,
                replies,
            )
            .unwrap_err()
            .message()
    };
    assert_eq!(load("c", VRAM, replies("c", native, 64)), "missing `c.weight`");
    assert_eq!(
        load("a", VRAM, replies("a", native, 96)),
        "native MXFP4 tensor-core layout for `a` requires cols divisible by 64, got 96"
    );
    assert_eq!(
        load("a", HOST, replies("a", native, 64)),
        "host-resident NVFP4 `a` requires loader built with weight_loader_with_arena(...)"
    );
    let mut failing = replies("a", native, 64);
    failing.source = Err(unasked());
    assert_eq!(load("a", VRAM, failing), "not asked for");
}

#[test]
fn answers_that_are_not_needed_do_not_matter() {
    let runtime = runtime(false, false);
    let mut loader = runtime.weight_loader();
    let mut given = replies("a", KernelFamily::CudaPackedFp4, 64);
    given.native = Err(unasked());
    given.cutlass = Err(unasked());
    given.fill = Err(unasked());
    assert!(loader.load_nvfp4_linear_with_store(&artifact(), &"a".to_owned(), VRAM, given).is_ok());
}

#[test]
fn pairs_are_gathered_in_order() {
    let artifact = artifact();
    let pairs = gather_pairs(&artifact, &vec!["b".to_owned(), "a".to_owned()]).unwrap();
    assert_eq!(pairs[0].packed.name, "b.weight");
    assert_eq!(pairs[1].scales.name, "a.weight_scale");
    assert_eq!(shared_shard(&pairs), Some("model-1.safetensors"));
    assert_eq!(
        gather_pairs(&artifact, &vec!["z".to_owned()]).unwrap_err().message(),
        "missing `z.weight`"
    );
}

#[test]
fn prefetch_places_every_pair() {
    let runtime = runtime(false, false);
    let mut loader = runtime.weight_loader_with_arena(PinnedArena::new(4096, 4096).unwrap());
    let prefixes = vec!["b".to_owned(), "a".to_owned()];
    let prefetched = loader
        .prefetch_host_nvfp4_pairs_par(&artifact(), &prefixes, Ok(GIB), Some(7 * GIB))
        .unwrap();
    assert_eq!(prefetched.buffering, Some(Buffering::Read));
    assert_eq!(
        prefetched.places[1],
        (
            HostWeightBytes::Arena { offset: 288, len: 512 },
            HostWeightBytes::Arena { offset: 800, len: 64 }
        )
    );
    let mut bare = runtime.weight_loader();
    assert_eq!(
        bare.prefetch_host_nvfp4_pairs_par(&artifact(), &prefixes, Ok(1), None)
            .unwrap_err()
            .message(),
        "prefetch_host_nvfp4_pairs_par requires loader built with weight_loader_with_arena"
    );
}

#[test]
fn matrices_collapse_leading_dimensions() {
    let runtime = runtime(false, false);
    let mut loader = runtime.weight_loader();
    let table = tensor("pos", TensorDType::BF16, &[2, 3, 4], 48);
    let matrix = loader.load_bf16_matrix_with_store(&table, VRAM, Ok(()), Ok(())).unwrap();
    assert_eq!((matrix.rows, matrix.cols, matrix.values.len()), (6, 4, 24));
    assert!(!matrix.is_host_resident());
    let mut kept = runtime.weight_loader_with_arena(PinnedArena::new(4096, 4096).unwrap());
    for round in 0..2 {
        let matrix = kept.load_bf16_matrix_with_store(&table, HOST, Ok(()), Ok(())).unwrap();
        assert_eq!(
            matrix.host_values,
            Some(HostBf16Weights { offset: round * 48, values: 24 })
        );
    }
    let vector = tensor("norm", TensorDType::BF16, &[4], 8);
    assert_eq!(
        loader.load_bf16_matrix_with_store(&vector, VRAM, Ok(()), Ok(())).unwrap_err().message(),
        "`norm` must be a BF16 matrix (>= 2-D; got dtype=BF16 shape=[4])"
    );
}

#[test]
fn gate_and_up_are_stacked() {
    let runtime = runtime(false, false);
    let loader = runtime.weight_loader();
    let matrix = |name: &str, rows| DeviceBf16Matrix {
        name: name.to_owned(),
        rows,
        cols: 4,
        residency: VRAM,
        values: DeviceBuffer::with_len(rows * 4),
        host_values: None,
    };
    let fusion = loader
        .fuse_bf16_gate_up(matrix("mlp.gate.weight", 3), matrix("mlp.up.weight", 3))
        .unwrap();
    assert_eq!(fusion.fused.name, "mlp.gate|fused|mlp.up");
    assert_eq!((fusion.fused.rows, fusion.fused.cols, fusion.fused.values.len()), (6, 4, 24));
    assert!(matches!(
        fusion.plan.steps[1],
        Step::Copy { from, to, .. } if from.start == 0 && from.end == 12 && to.start == 12 && to.end == 24
    ));
    assert_eq!(
        loader.fuse_bf16_gate_up(matrix("g", 3), matrix("u", 2)).err().unwrap().message(),
        "fuse_bf16_gate_up shape mismatch: gate=(3, 4) up=(2, 4)"
    );
}

#[test]
fn explicit_dimensions_must_match() {
    let runtime = runtime(false, false);
    let loader = runtime.weight_loader();
    let values = tensor("v", TensorDType::BF16, &[6], 12);
    let bytes: Vec<u8> = (0..12).collect();
    let (matrix, halves) = loader
        .load_bf16_matrix_explicit_dims(&values, 2, 3, Ok(&bytes), Ok(()))
        .unwrap();
    assert_eq!((matrix.rows, matrix.cols), (2, 3));
    assert_eq!(halves, vec![0x0100, 0x0302, 0x0504, 0x0706, 0x0908, 0x0B0A]);
    assert_eq!(
        loader
            .load_bf16_matrix_explicit_dims(&values, 2, 2, Ok(&bytes), Ok(()))
            .err()
            .unwrap()
            .message(),
        "`v`: explicit rows*cols=4 != num_elements=6"
    );
}

#[test]
fn fp8_blocks_are_square() {
    let runtime = runtime(false, false);
    let loader = runtime.weight_loader();
    let weight = tensor("w", TensorDType::F8E4M3, &[256, 256], 65536);
    let scale = tensor("w_scale", TensorDType::F32, &[2, 2], 16);
    let linear = loader.load_fp8_block_linear(&weight, &scale, Ok(65536), Ok(4), Ok(())).unwrap();
    assert_eq!((linear.block_size, linear.scale_cols), (128, 2));
    let tall = tensor("w", TensorDType::F8E4M3, &[200, 128], 25600);
    let two = tensor("w_scale", TensorDType::BF16, &[2, 1], 4);
    assert_eq!(
        loader
            .load_fp8_block_linear(&tall, &two, Ok(25600), Ok(2), Ok(()))
            .unwrap_err()
            .message(),
        "`w` FP8 block scale expects square blocks, got 100x128"
    );
    let small = tensor("w", TensorDType::F8E4M3, &[64, 64], 4096);
    let one = tensor("w_scale", TensorDType::BF16, &[1, 1], 2);
    let linear = loader.load_fp8_block_linear(&small, &one, Ok(4096), Ok(1), Ok(())).unwrap();
    assert_eq!((linear.rows, linear.block_size, linear.scale_cols), (64, 64, 1));
    let wide = tensor("w_scale", TensorDType::F32, &[2, 4], 32);
    assert_eq!(
        loader
            .load_fp8_block_linear(&weight, &wide, Ok(65536), Ok(8), Ok(()))
            .unwrap_err()
            .message(),
        "`w` FP8 block scale expects square blocks, got 128x64"
    );
    assert_eq!(
        loader
            .load_fp8_block_linear(&weight, &scale, Ok(65535), Ok(4), Ok(()))
            .unwrap_err()
            .message(),
        "`w` FP8 weight short read: 65535 < 65536"
    );
}

#[test]
fn sliced_rows_need_whole_blocks() {
    let blocks = Nvfp4Blocks { block: 64, sub_block: 16 };
    assert_eq!(CudaWeightLoader::sliced_row_bytes(&"s".to_owned(), 128, blocks).unwrap(), (64, 8));
    assert_eq!(
        CudaWeightLoader::sliced_row_bytes(&"s".to_owned(), 96, blocks).unwrap_err().message(),
        "NVFP4 sliced `s` eff_logical_cols=96 must be non-zero and divisible by 64"
    );
    assert!(CudaWeightLoader::sliced_row_bytes(&"s".to_owned(), 0, blocks).is_err());
}

fn parts(name: &str, rows: usize, byte: u8) -> Nvfp4LinearHostParts {
    Nvfp4LinearHostParts {
        spec: Nvfp4LinearSpec {
            name: name.to_owned(),
            rows,
            cols: 64,
            packed_bytes: rows * 32,
            scale_bytes: rows * 4,
        },
        input_scale: 0x3F00_0000 + u32::from(byte),
        output_scale: 0x4000_0000,
        packed: vec![byte; rows * 32],
        scales: vec![byte + 10; rows * 4],
    }
}

fn group(family: KernelFamily, v_rows: usize, scales_agree: bool) -> GroupReplies {
    GroupReplies {
        kernel_family: Ok(family),
        q: Ok(parts("q", 8, 1)),
        k: Ok(parts("k", 4, 2)),
        v: Ok(parts("v", v_rows, 3)),
        scales_agree,
        shown_scales: ("1".to_owned(), "2".to_owned(), "3".to_owned()),
        repacked: Ok(CutlassSizes {
            layout: CutlassNvfp4Layout { logical_n: 16, logical_k: 64, scale_rows: 128, scale_cols: 4 },
            payload_bytes: 512,
            scale_bytes: 512,
        }),
        device: Ok(()),
    }
}

#[test]
fn query_key_and_value_form_one_layer() {
    let runtime = runtime(false, true);
    let loader = runtime.weight_loader();
    let load = |replies| {
        loader.load_cutlass_qkv_group_with_layout(
            "q",
            "k",
            "v",
            VRAM,
            LinearResidentLayout::NativeTensorCore,
            replies,
        )
    };
    let joined = load(group(KernelFamily::CudaNativeFp4TensorCores, 4, true)).unwrap().unwrap();
    assert_eq!(joined.packed, [vec![1u8; 256], vec![2; 128], vec![3; 128]].concat());
    assert_eq!(joined.scales, [vec![11u8; 32], vec![12; 16], vec![13; 16]].concat());
    let grouped = joined.linear;
    assert_eq!((grouped.input_scale, grouped.output_scale), (0x3F00_0001, 0x3F80_0000));
    assert_eq!((grouped.packed.len(), grouped.scales.len()), (512, 64));
    assert_eq!(grouped.name, "q+k+v");
    assert_eq!((grouped.rows, grouped.cols), (16, 64));
    assert_eq!(grouped.cutlass_nvfp4_scale_shape(), Some((128, 4)));
    assert!(load(group(KernelFamily::CudaPackedFp4, 4, true)).unwrap().is_none());
    assert_eq!(
        load(group(KernelFamily::CudaNativeFp4TensorCores, 4, false)).unwrap_err().message(),
        "CUTLASS QKV group requires equal input scales: q=1 k=2 v=3"
    );
}

#[test]
fn layers_are_read_into_host_memory() {
    let given = || HostPartsReplies {
        output_scale: Ok(Some(0x4000_0000)),
        input_scale: Ok(None),
        spec: Ok(spec("a", 128)),
        packed: Ok(vec![7; 512]),
        scales: Ok(vec![9; 64]),
    };
    let parts =
        load_nvfp4_linear_host_parts(&artifact(), &"a".to_owned(), given()).unwrap();
    assert_eq!((parts.input_scale, parts.output_scale), (0x3F80_0000, 0x4000_0000));
    assert_eq!((parts.packed, parts.scales), (vec![7; 512], vec![9; 64]));
    let message = |prefix: &str, replies| {
        load_nvfp4_linear_host_parts(&artifact(), &prefix.to_owned(), replies)
            .unwrap_err()
            .message()
    };
    assert_eq!(message("c", given()), "missing `c.weight`");
    assert_eq!(
        message("a", HostPartsReplies { scales: Err(unasked()), ..given() }),
        "not asked for"
    );
    let joined = join_group(&[1, 2], &[3], &[4, 5, 6]);
    assert_eq!(joined, vec![1, 2, 3, 4, 5, 6]);
    assert_eq!((&joined[..2], &joined[2..3], &joined[3..]), (&[1, 2][..], &[3][..], &[4, 5, 6][..]));
    let group = qkv_group_spec("q", "k", "v", &spec("q", 64), &spec("k", 64), &spec("v", 64));
    assert_eq!(group.unwrap().rows, 24);
    let mut huge = spec("k", 64);
    huge.rows = usize::MAX;
    assert_eq!(
        qkv_group_spec("q", "k", "v", &spec("q", 64), &huge, &spec("v", 64))
            .unwrap_err()
            .message(),
        "CUTLASS QKV group rows overflow"
    );
    assert_eq!((scale_or_one(None), scale_or_one(Some(5))), (0x3F80_0000, 5));
}

fn region_tensor(role: TensorRole, name: &str, dtype: TensorDType) -> GraphTensor {
    GraphTensor { role, info: tensor(name, dtype, &[8, 64], 512) }
}

fn region() -> GraphRegion {
    GraphRegion {
        id: "layer0".to_owned(),
        tensors: vec![
            region_tensor(TensorRole::Auxiliary, "norm.weight", TensorDType::U8),
            region_tensor(TensorRole::Query, "q.weight", TensorDType::BF16),
            region_tensor(TensorRole::Gate, "a.weight", TensorDType::U8),
            region_tensor(TensorRole::Up, "b.weight", TensorDType::U8),
        ],
    }
}

#[test]
fn region_layers_are_its_four_bit_projections() {
    let mut region = region();
    assert_eq!(first_nvfp4_linear_prefix(&region), Some("a".to_owned()));
    let linears = region_linears(&region);
    assert_eq!(linears.prefixes, vec!["a".to_owned(), "b".to_owned()]);
    assert!(linears.bad.is_none());
    region.tensors[2].info.name = "a.weights".to_owned();
    let linears = region_linears(&region);
    assert!(linears.prefixes.is_empty());
    assert_eq!(linears.bad.unwrap().message(), "bad linear tensor name `a.weights`");
    assert_eq!(first_nvfp4_linear_prefix(&region), None);
}

#[test]
fn regions_load_where_they_are_placed() {
    let runtime = runtime(false, false);
    let mut loader = runtime.weight_loader();
    let region = region();
    let mut placement = RegionPlacement {
        region_id: "layer0".to_owned(),
        store: StoragePlacement::Vram { device: 0 },
        compute: ComputePlacement::Cuda { device: 0 },
    };
    let given = || vec![
        replies("a", KernelFamily::CudaPackedFp4, 64),
        replies("b", KernelFamily::CudaPackedFp4, 64),
    ];
    let linears = loader
        .load_placed_region_nvfp4_linears(&artifact(), &region, &placement, given())
        .unwrap();
    assert_eq!(linears.len(), 2);
    assert_eq!(linears[1].name, "b");
    let first = loader
        .load_first_placed_region_nvfp4_linear(
            &artifact(),
            &region,
            &placement,
            replies("a", KernelFamily::CudaPackedFp4, 64),
        )
        .unwrap()
        .unwrap();
    assert_eq!(first.name, "a");
    placement.compute = ComputePlacement::Cpu;
    assert_eq!(
        loader
            .load_placed_region_nvfp4_linears(&artifact(), &region, &placement, given())
            .unwrap_err()
            .message(),
        "region `layer0` is compute=cpu; CUDA resident loader refused to load it"
    );
    placement.compute = ComputePlacement::Cuda { device: 1 };
    assert!(loader.placed_residency(&region, &placement).is_err());
    placement.region_id = "layer1".to_owned();
    assert_eq!(
        loader
            .load_placed_region_nvfp4_linears(&artifact(), &region, &placement, given())
            .unwrap_err()
            .message(),
        "placement `layer1` does not match graph region `layer0`"
    );
}

#[test]
fn placeholder_layers_are_one_by_one() {
    let runtime = runtime(false, false);
    let loader = runtime.weight_loader();
    let dummy = loader.alloc_dummy_nvfp4_linear("moe", Ok(())).unwrap();
    assert_eq!((dummy.rows, dummy.cols, dummy.packed_bytes), (1, 1, 1));
    assert_eq!((dummy.input_scale, dummy.output_scale), (0x3F80_0000, 0x3F80_0000));
    assert_eq!(dummy.name, "moe");
}

#[test]
fn prefetched_layers_keep_their_source() {
    let runtime = runtime(true, true);
    let loader = runtime.weight_loader();
    let packed = HostWeightBytes::Arena { offset: 288, len: 512 };
    let scales = HostWeightBytes::Arena { offset: 800, len: 64 };
    let given = || PrefetchedReplies {
        kernel_family: Ok(KernelFamily::CudaPackedFp4),
        output_scale: Ok(None),
        input_scale: Ok(Some(0x4000_0000)),
        spec: Ok(spec("a", 128)),
        device: Ok(()),
    };
    let finish = |prefix: &str, replies| {
        loader.finalize_host_nvfp4_with_prefetched(
            &artifact(),
            &prefix.to_owned(),
            HOST,
            packed,
            scales,
            replies,
        )
    };
    let linear = finish("a", given()).unwrap();
    assert_eq!((linear.name.as_str(), linear.rows, linear.cols), ("a", 8, 128));
    assert_eq!((linear.packed.len(), linear.scales.len()), (1, 1));
    assert_eq!((linear.input_scale, linear.output_scale), (0x4000_0000, 0x3F80_0000));
    assert_eq!(linear.resident_layout, LinearResidentLayout::PackedSource);
    let host = linear.host_weights.unwrap();
    assert_eq!((host.packed, host.scales), (packed, scales));
    assert!(host.native_mxfp4.is_none());
    assert_eq!(finish("c", given()).unwrap_err().message(), "missing `c.weight`");
    let mut failing = given();
    failing.spec = Err(unasked());
    assert_eq!(finish("a", failing).unwrap_err().message(), "not asked for");
}

#[test]
fn sliced_layers_hold_what_was_read() {
    let runtime = runtime(true, true);
    let loader = runtime.weight_loader();
    let load = |residency, cols| {
        loader.load_nvfp4_linear_sliced_with_layout(
            &artifact(),
            &"a".to_owned(),
            residency,
            4,
            cols,
            Nvfp4Blocks { block: 64, sub_block: 16 },
            SlicedReplies {
                kernel_family: Ok(KernelFamily::CudaPackedFp4),
                output_scale: Ok(Some(0x4040_0000)),
                input_scale: Ok(None),
                packed: Ok(128),
                scales: Ok(16),
                place: Ok(()),
            },
        )
    };
    let linear = load(VRAM, 64).unwrap();
    assert_eq!((linear.rows, linear.cols), (4, 64));
    assert_eq!((linear.packed.len(), linear.scales.len()), (128, 16));
    assert_eq!((linear.input_scale, linear.output_scale), (0x3F80_0000, 0x4040_0000));
    assert!(linear.host_weights.is_none());
    let linear = load(HOST, 64).unwrap();
    assert_eq!((linear.packed.len(), linear.scales.len()), (1, 1));
    let host = linear.host_weights.unwrap();
    assert_eq!(host.packed, HostWeightBytes::Pinned { len: 128 });
    assert_eq!(host.scales, HostWeightBytes::Pinned { len: 16 });
    assert_eq!(
        load(VRAM, 65).unwrap_err().message(),
        "NVFP4 sliced `a` eff_logical_cols=65 must be non-zero and divisible by 64"
    );
}

#[test]
fn vectors_are_widened() {
    let runtime = runtime(false, false);
    let loader = runtime.weight_loader();
    let norm = tensor("norm", TensorDType::BF16, &[2], 4);
    assert_eq!(
        loader.load_dense_vector_with_store(&norm, Ok(&[0x80, 0x3F, 0x00, 0xC0])).unwrap(),
        vec![1.0f32.to_bits(), (-2.0f32).to_bits()]
    );
    let bias = tensor("bias", TensorDType::F32, &[1], 4);
    assert_eq!(
        loader.load_dense_vector_with_store(&bias, Ok(&[0x00, 0x00, 0xA0, 0x40, 0x07])).unwrap(),
        vec![5.0f32.to_bits()]
    );
    let empty = tensor("none", TensorDType::F32, &[0], 0);
    assert_eq!(
        loader.load_dense_vector_with_store(&empty, Ok(&[])).unwrap_err().message(),
        "`none` is empty (cannot load as a dense vector)"
    );
    let packed = tensor("codes", TensorDType::U8, &[1], 1);
    assert_eq!(
        loader.load_dense_vector_with_store(&packed, Ok(&[1])).unwrap_err().message(),
        "`codes` must be BF16 or F32 vector, got U8"
    );
}

#[test]
fn matrices_can_be_kept_in_eight_bits() {
    let runtime = runtime(false, false);
    let loader = runtime.weight_loader();
    let head = tensor("head", TensorDType::BF16, &[6, 40], 480);
    let (linear, plan) = loader.load_bf16_as_fp8_linear(&head, Ok(240), Ok(())).unwrap();
    assert_eq!((linear.rows, linear.cols, linear.bytes), (6, 40, 240));
    assert_eq!((linear.data.len(), linear.row_scales.len()), (240, 6));
    assert!(linear.block_scales.is_none());
    assert!(matches!(
        plan.steps.last(),
        Some(Step::Launch(launch)) if launch.kernel == Kernel::Fp8QuantizeBf16PerRow
    ));
    assert_eq!(
        loader.load_bf16_as_fp8_linear(&head, Ok(239), Ok(())).err().unwrap().message(),
        "`head` BF16→FP8: bf16 source size mismatch: got 239 u16, expected 240"
    );
    let flat = tensor("head", TensorDType::BF16, &[240], 480);
    assert_eq!(
        loader.load_bf16_as_fp8_linear(&flat, Ok(240), Ok(())).err().unwrap().message(),
        "`head` must be a 2D BF16 matrix to be quantized to FP8"
    );
}

#[test]
fn eight_bit_blocks_can_be_restored_at_load() {
    let runtime = runtime(false, false);
    let weight = tensor("w", TensorDType::F8E4M3, &[200, 128], 25600);
    let scale = tensor("w_scale", TensorDType::BF16, &[2, 1], 4);
    let fp8 = vec![0x38u8; 25600];
    let table = [0x00u8, 0x40, 0x80, 0x40];
    let mut loader = runtime.weight_loader_with_arena(PinnedArena::new(1 << 18, 1 << 18).unwrap());
    let mut written = Vec::new();
    for round in 0..2 {
        let (matrix, values) = loader
            .load_fp8_block_as_bf16_matrix(&weight, &scale, HOST, Ok((&fp8, &table)), Ok(()))
            .unwrap();
        assert_eq!((matrix.rows, matrix.cols, matrix.values.len()), (200, 128, 1));
        assert_eq!(
            matrix.host_values,
            Some(HostBf16Weights { offset: round * 51200, values: 25600 })
        );
        written = match values {
            RestoredValues::Bytes(bytes) => bf16_values(&bytes),
            RestoredValues::Numbers(_) => panic!("not for the arena"),
        };
        assert!(written[..128 * 128].iter().all(|value| *value == 0x4000));
        assert!(written[128 * 128..].iter().all(|value| *value == 0x4080));
    }
    assert_eq!(loader.arena().unwrap().used(), 102400);
    let (matrix, values) = loader
        .load_fp8_block_as_bf16_matrix(&weight, &scale, VRAM, Ok((&fp8, &table)), Ok(()))
        .unwrap();
    assert_eq!((matrix.values.len(), matrix.host_values), (25600, None));
    assert!(matches!(values, RestoredValues::Numbers(numbers) if numbers == written));
    let two = tensor("w", TensorDType::F8E4M3, &[2, 2], 4);
    let rows = tensor("w_scale", TensorDType::BF16, &[2, 1], 4);
    let (_, values) = loader
        .load_fp8_block_as_bf16_matrix(&two, &rows, VRAM, Ok((&[0x38; 4], &table)), Ok(()))
        .unwrap();
    assert!(matches!(
        values,
        RestoredValues::Numbers(numbers) if numbers == vec![0x4000, 0x4000, 0x4080, 0x4080]
    ));
    let mut bare = runtime.weight_loader();
    assert_eq!(
        bare.load_fp8_block_as_bf16_matrix(&weight, &scale, HOST, Ok((&fp8, &table)), Ok(()))
            .err()
            .unwrap()
            .message(),
        "host-resident FP8 `w` requires loader built with weight_loader_with_arena(...)"
    );
    let flat = tensor("w_scale", TensorDType::BF16, &[4], 8);
    assert_eq!(
        bare.load_fp8_block_as_bf16_matrix(&weight, &flat, VRAM, Err(unasked()), Ok(()))
            .err()
            .unwrap()
            .message(),
        "`w_scale` FP8 block-scale must be 2-D (got [4])"
    );
}

#[test]
fn regions_can_be_loaded_without_a_placement() {
    let runtime = runtime(false, false);
    let mut loader = runtime.weight_loader_with_arena(PinnedArena::new(4096, 4096).unwrap());
    let given = || vec![
        replies("a", KernelFamily::CudaPackedFp4, 64),
        replies("b", KernelFamily::CudaPackedFp4, 64),
    ];
    let linears = loader.load_region_nvfp4_linears(&artifact(), &region(), given()).unwrap();
    assert_eq!(linears.len(), 2);
    assert_eq!(linears[0].residency, VRAM);
    let linears = loader
        .load_region_nvfp4_linears_with_store(&artifact(), &region(), HOST, given())
        .unwrap();
    assert!(linears.iter().all(|linear| linear.host_weights.is_some()));
    assert_eq!(loader.arena().unwrap().used(), 864);
    let linear = loader
        .load_nvfp4_linear(&artifact(), &"a".to_owned(), replies("a", KernelFamily::CudaPackedFp4, 64))
        .unwrap();
    assert_eq!(linear.residency, VRAM);
    let mut failing = given();
    failing[1].device = Err(unasked());
    assert_eq!(
        loader
            .load_region_nvfp4_linears(&artifact(), &region(), failing)
            .unwrap_err()
            .message(),
        "not asked for"
    );
}
