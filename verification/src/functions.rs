//! The device kernels of the module: their symbols, the order in which they are
//! looked up, and the shared-memory limits that are raised at load time.
use crate::error::{unsupported_plan, AegisError, Value, Values};
use vstd::prelude::*;

verus! {

/// Dynamic shared memory that a kernel may use without opting in to more.
pub const DEFAULT_DYNAMIC_SHARED_BYTES: u32 = 49152;

/// How many kernels the module holds.
pub const KERNEL_COUNT: usize = 157;

/// A device kernel of the module.
#[derive(Clone, Copy, Debug, PartialEq, Eq, Structural)]
pub enum Kernel {
    BlackwellFp4,
    Mxfp4Matvec,
    Mxfp4Matvec4warp,
    Mxfp4Matvec16warp,
    Mxfp4MatmulN8,
    Mxfp4MatmulTileM16n32,
    Mxfp4MatmulTileM16n64,
    Mxfp4MatmulQkvTileM16n32,
    Mxfp4MatmulQkvTileM16n64,
    Mxfp4MatmulGateUpTileM16n32,
    Mxfp4MatmulGateUpTileM16n64,
    SplitQkvScaled,
    Mxfp4QuantizeInput,
    SwigluMxfp4QuantizeBatched,
    Fp8QuantizeBf16PerRow,
    Fp8Matvec,
    Fp8MatmulBatched,
    Fp8DequantToBf16,
    Nvfp4Reference,
    Nvfp4ReferenceBatched,
    Nvfp4Prequant,
    Nvfp4PrequantBatched,
    Nvfp4PrequantBatchedGemm,
    Nvfp4PrequantBatchedGemmWmmaBf16,
    Nvfp4GroupedPrequantGemmWmmaBf16,
    Nvfp4GroupedPrequantGemmWmmaBf16T32,
    Nvfp4GroupedPrequantGemmWmmaBf16T32Dual,
    Nvfp4GroupedPrequantGemmWmmaBf16T32Pipeline,
    Nvfp4GroupedPrequantGemmWmmaBf16T32Big,
    Nvfp4GroupedPrequantGemmWmmaBf16T32BigPipeline,
    Nvfp4QuantizeInput,
    Nvfp4QuantizeInputBatched,
    Bf16Matvec,
    Bf16Row,
    Bf16Rows,
    RmsNorm,
    RmsNormBatched,
    RmsNormQuantNvfp4,
    RmsNormQuantNvfp4Batched,
    Add,
    AddInplace,
    Swiglu,
    SwigluInplaceGate,
    GegluTanh,
    GegluTanhStrided,
    RmsNormBatchedNoWeight,
    Rope,
    RopePtr,
    RopeBatched,
    RopePositionsBatched,
    RopePositionsBatchedF16Out,
    BuildDensePrefillMetadata,
    F32ToF16,
    F32ToBf16,
    Bf16ToF32,
    RouterSoftmaxTopk,
    VisionRowSoftmax,
    VisionRowSoftmaxBf16,
    GeluTanhInplaceF32,
    PlePerLayerMulInplaceF32,
    VisionBidiAttn,
    VisionPixelRescale,
    VisionPosEmbedAdd,
    VisionHeadRmsnorm,
    VisionRope2d,
    VisionStandardize,
    VisionPool3x3Scale,
    AudioGluHalfsplit,
    AudioDepthwiseCausalConv1d,
    AudioPerDimScale,
    AudioClampInplace,
    AudioSiluInplace,
    AudioAddBiasRows,
    RouterSoftmaxTopkPacked,
    RouterZeroExpertCounts,
    RouterBucketSort,
    RouterExpertOffsets,
    PermuteGatherF32,
    UnpermuteScatterAddF32,
    RouterBuildUnpermuteIndex,
    UnpermuteScatterSerialF32,
    KvStore,
    KvStorePtr,
    KvStoreBatched,
    KvStoreSlotsBatched,
    RopeKvStoreSlotsBatched,
    KvStoreFp8,
    KvStoreFp8Ptr,
    KvStoreFp8Batched,
    KvStoreFp8SlotsBatched,
    RopeKvStoreFp8SlotsBatched,
    AttentionDecodeFp8,
    AttentionDecodePtrFp8,
    AttentionDecodePtrSplitFp8,
    AttentionDecodeStreamingFp8,
    Attention,
    AttentionPtr,
    AttentionDecodePtrSplit,
    AttentionDecodePtrSplitHdpart,
    AttentionDecodePtrSplitHdpartFp8,
    AttentionDecodePtrCombine,
    AttentionDecodeStreaming,
    AttentionPrefillBatched,
    AttentionPrefillContinuation,
    AttentionPrefillBatchedWarp,
    AttentionPrefillPagedVarlen,
    AttentionPrefillPagedVarlenHalfq,
    AttentionPrefillPagedVarlenHalfqBlock4,
    AttentionPrefillPagedVarlenHalfqWmmaHdim128Gqa4,
    AttentionPrefillDenseHalfqBlock4,
    AttentionPrefillDenseHalfqWarpTileHdim128,
    AttentionPrefillDenseHalfqWmmaHdim128,
    AttentionPrefillDenseHalfqWmmaHdim256,
    AttentionPrefillDenseHalfqWmmaHdim512,
    AttentionPrefillDenseHalfqWmmaHdim512Regacc,
    AttentionPrefillDenseHalfqWmmaHdim512Q32Regacc,
    AttentionPrefillDenseHalfqWmmaHdim512Q32RegaccPipeline,
    AttentionPrefillDenseHalfqWmmaHdim512RegaccPipeline,
    AttentionPrefillDenseFa2Hdim512,
    AttentionPrefillDenseFa2Hdim512Q64,
    AttentionPrefillDenseMma4Hdim512,
    AttentionPrefillDenseFa2Hdim512Fp8,
    AttentionPrefillDenseFa2Hdim512Fp8Mma,
    AttentionPrefillDenseHalfqWmmaHdim128Fa,
    AttentionPrefillDenseHalfqWmmaHdim128Gqa4,
    AttentionPrefillDenseHalfqWmmaHdim128Gqa4Split,
    AttentionPrefillDenseHalfqWmmaHdim128Cluster2,
    AttentionPrefillDenseHalfqWmmaHdim128Q32,
    AttentionPrefillDenseHalfqWmmaHdim128Split,
    AttentionPrefillDenseHalfqWmmaHdim128Combine,
    AttentionPrefillPagedVarlenFa4Hdim128,
    AttentionPrefillPagedVarlenHalfqBlock4Split,
    AttentionPrefillPagedVarlenHalfqBlock4Combine,
    AttentionPrefillPagedVarlenWarp,
    CopyRowF32,
    ArgmaxBlocks,
    ArgmaxFinalize,
    SpecSparseLmHeadMatvec,
    AxpyF32,
    MoeGatherExperts,
    Nvfp4QuantizeInputDptr,
    Nvfp4PrequantDptr,
    AxpyF32TopkWeight,
    Nvfp4GemvWarp,
    Nvfp4QuantizeInputBatchedDptr,
    Nvfp4PrequantBatchedDptr,
    Nvfp4PrequantBatchedDptrWarp,
    MoeGegluTanhBatchedSlots,
    MoeWeightedAccumulate,
    ZeroF32,
    ScaleF32,
    MulVecInplaceF32,
    GatherRowsF32,
    ScatterAddWeightedF32,
    Bf16MatmulReferenceBatched,
    GatedDeltanetDecode,
    MambaScanDecode,
}

/// A limit on dynamic shared memory that is set on a kernel once it is loaded.
#[derive(Clone, Copy, Debug, PartialEq, Eq)]
pub struct SharedLimit {
    pub bytes: u32,
    /// How the kernel is called when setting the limit fails.
    pub label: &'static str,
}

impl Kernel {
    /// Position of the kernel in the load order.
    pub open spec fn position(self) -> int {
        match self {
            Kernel::BlackwellFp4 => 0,
            Kernel::Mxfp4Matvec => 1,
            Kernel::Mxfp4Matvec4warp => 2,
            Kernel::Mxfp4Matvec16warp => 3,
            Kernel::Mxfp4MatmulN8 => 4,
            Kernel::Mxfp4MatmulTileM16n32 => 5,
            Kernel::Mxfp4MatmulTileM16n64 => 6,
            Kernel::Mxfp4MatmulQkvTileM16n32 => 7,
            Kernel::Mxfp4MatmulQkvTileM16n64 => 8,
            Kernel::Mxfp4MatmulGateUpTileM16n32 => 9,
            Kernel::Mxfp4MatmulGateUpTileM16n64 => 10,
            Kernel::SplitQkvScaled => 11,
            Kernel::Mxfp4QuantizeInput => 12,
            Kernel::SwigluMxfp4QuantizeBatched => 13,
            Kernel::Fp8QuantizeBf16PerRow => 14,
            Kernel::Fp8Matvec => 15,
            Kernel::Fp8MatmulBatched => 16,
            Kernel::Fp8DequantToBf16 => 17,
            Kernel::Nvfp4Reference => 18,
            Kernel::Nvfp4ReferenceBatched => 19,
            Kernel::Nvfp4Prequant => 20,
            Kernel::Nvfp4PrequantBatched => 21,
            Kernel::Nvfp4PrequantBatchedGemm => 22,
            Kernel::Nvfp4PrequantBatchedGemmWmmaBf16 => 23,
            Kernel::Nvfp4GroupedPrequantGemmWmmaBf16 => 24,
            Kernel::Nvfp4GroupedPrequantGemmWmmaBf16T32 => 25,
            Kernel::Nvfp4GroupedPrequantGemmWmmaBf16T32Dual => 26,
            Kernel::Nvfp4GroupedPrequantGemmWmmaBf16T32Pipeline => 27,
            Kernel::Nvfp4GroupedPrequantGemmWmmaBf16T32Big => 28,
            Kernel::Nvfp4GroupedPrequantGemmWmmaBf16T32BigPipeline => 29,
            Kernel::Nvfp4QuantizeInput => 30,
            Kernel::Nvfp4QuantizeInputBatched => 31,
            Kernel::Bf16Matvec => 32,
            Kernel::Bf16Row => 33,
            Kernel::Bf16Rows => 34,
            Kernel::RmsNorm => 35,
            Kernel::RmsNormBatched => 36,
            Kernel::RmsNormQuantNvfp4 => 37,
            Kernel::RmsNormQuantNvfp4Batched => 38,
            Kernel::Add => 39,
            Kernel::AddInplace => 40,
            Kernel::Swiglu => 41,
            Kernel::SwigluInplaceGate => 42,
            Kernel::GegluTanh => 43,
            Kernel::GegluTanhStrided => 44,
            Kernel::RmsNormBatchedNoWeight => 45,
            Kernel::Rope => 46,
            Kernel::RopePtr => 47,
            Kernel::RopeBatched => 48,
            Kernel::RopePositionsBatched => 49,
            Kernel::RopePositionsBatchedF16Out => 50,
            Kernel::BuildDensePrefillMetadata => 51,
            Kernel::F32ToF16 => 52,
            Kernel::F32ToBf16 => 53,
            Kernel::Bf16ToF32 => 54,
            Kernel::RouterSoftmaxTopk => 55,
            Kernel::VisionRowSoftmax => 56,
            Kernel::VisionRowSoftmaxBf16 => 57,
            Kernel::GeluTanhInplaceF32 => 58,
            Kernel::PlePerLayerMulInplaceF32 => 59,
            Kernel::VisionBidiAttn => 60,
            Kernel::VisionPixelRescale => 61,
            Kernel::VisionPosEmbedAdd => 62,
            Kernel::VisionHeadRmsnorm => 63,
            Kernel::VisionRope2d => 64,
            Kernel::VisionStandardize => 65,
            Kernel::VisionPool3x3Scale => 66,
            Kernel::AudioGluHalfsplit => 67,
            Kernel::AudioDepthwiseCausalConv1d => 68,
            Kernel::AudioPerDimScale => 69,
            Kernel::AudioClampInplace => 70,
            Kernel::AudioSiluInplace => 71,
            Kernel::AudioAddBiasRows => 72,
            Kernel::RouterSoftmaxTopkPacked => 73,
            Kernel::RouterZeroExpertCounts => 74,
            Kernel::RouterBucketSort => 75,
            Kernel::RouterExpertOffsets => 76,
            Kernel::PermuteGatherF32 => 77,
            Kernel::UnpermuteScatterAddF32 => 78,
            Kernel::RouterBuildUnpermuteIndex => 79,
            Kernel::UnpermuteScatterSerialF32 => 80,
            Kernel::KvStore => 81,
            Kernel::KvStorePtr => 82,
            Kernel::KvStoreBatched => 83,
            Kernel::KvStoreSlotsBatched => 84,
            Kernel::RopeKvStoreSlotsBatched => 85,
            Kernel::KvStoreFp8 => 86,
            Kernel::KvStoreFp8Ptr => 87,
            Kernel::KvStoreFp8Batched => 88,
            Kernel::KvStoreFp8SlotsBatched => 89,
            Kernel::RopeKvStoreFp8SlotsBatched => 90,
            Kernel::AttentionDecodeFp8 => 91,
            Kernel::AttentionDecodePtrFp8 => 92,
            Kernel::AttentionDecodePtrSplitFp8 => 93,
            Kernel::AttentionDecodeStreamingFp8 => 94,
            Kernel::Attention => 95,
            Kernel::AttentionPtr => 96,
            Kernel::AttentionDecodePtrSplit => 97,
            Kernel::AttentionDecodePtrSplitHdpart => 98,
            Kernel::AttentionDecodePtrSplitHdpartFp8 => 99,
            Kernel::AttentionDecodePtrCombine => 100,
            Kernel::AttentionDecodeStreaming => 101,
            Kernel::AttentionPrefillBatched => 102,
            Kernel::AttentionPrefillContinuation => 103,
            Kernel::AttentionPrefillBatchedWarp => 104,
            Kernel::AttentionPrefillPagedVarlen => 105,
            Kernel::AttentionPrefillPagedVarlenHalfq => 106,
            Kernel::AttentionPrefillPagedVarlenHalfqBlock4 => 107,
            Kernel::AttentionPrefillPagedVarlenHalfqWmmaHdim128Gqa4 => 108,
            Kernel::AttentionPrefillDenseHalfqBlock4 => 109,
            Kernel::AttentionPrefillDenseHalfqWarpTileHdim128 => 110,
            Kernel::AttentionPrefillDenseHalfqWmmaHdim128 => 111,
            Kernel::AttentionPrefillDenseHalfqWmmaHdim256 => 112,
            Kernel::AttentionPrefillDenseHalfqWmmaHdim512 => 113,
            Kernel::AttentionPrefillDenseHalfqWmmaHdim512Regacc => 114,
            Kernel::AttentionPrefillDenseHalfqWmmaHdim512Q32Regacc => 115,
            Kernel::AttentionPrefillDenseHalfqWmmaHdim512Q32RegaccPipeline => 116,
            Kernel::AttentionPrefillDenseHalfqWmmaHdim512RegaccPipeline => 117,
            Kernel::AttentionPrefillDenseFa2Hdim512 => 118,
            Kernel::AttentionPrefillDenseFa2Hdim512Q64 => 119,
            Kernel::AttentionPrefillDenseMma4Hdim512 => 120,
            Kernel::AttentionPrefillDenseFa2Hdim512Fp8 => 121,
            Kernel::AttentionPrefillDenseFa2Hdim512Fp8Mma => 122,
            Kernel::AttentionPrefillDenseHalfqWmmaHdim128Fa => 123,
            Kernel::AttentionPrefillDenseHalfqWmmaHdim128Gqa4 => 124,
            Kernel::AttentionPrefillDenseHalfqWmmaHdim128Gqa4Split => 125,
            Kernel::AttentionPrefillDenseHalfqWmmaHdim128Cluster2 => 126,
            Kernel::AttentionPrefillDenseHalfqWmmaHdim128Q32 => 127,
            Kernel::AttentionPrefillDenseHalfqWmmaHdim128Split => 128,
            Kernel::AttentionPrefillDenseHalfqWmmaHdim128Combine => 129,
            Kernel::AttentionPrefillPagedVarlenFa4Hdim128 => 130,
            Kernel::AttentionPrefillPagedVarlenHalfqBlock4Split => 131,
            Kernel::AttentionPrefillPagedVarlenHalfqBlock4Combine => 132,
            Kernel::AttentionPrefillPagedVarlenWarp => 133,
            Kernel::CopyRowF32 => 134,
            Kernel::ArgmaxBlocks => 135,
            Kernel::ArgmaxFinalize => 136,
            Kernel::SpecSparseLmHeadMatvec => 137,
            Kernel::AxpyF32 => 138,
            Kernel::MoeGatherExperts => 139,
            Kernel::Nvfp4QuantizeInputDptr => 140,
            Kernel::Nvfp4PrequantDptr => 141,
            Kernel::AxpyF32TopkWeight => 142,
            Kernel::Nvfp4GemvWarp => 143,
            Kernel::Nvfp4QuantizeInputBatchedDptr => 144,
            Kernel::Nvfp4PrequantBatchedDptr => 145,
            Kernel::Nvfp4PrequantBatchedDptrWarp => 146,
            Kernel::MoeGegluTanhBatchedSlots => 147,
            Kernel::MoeWeightedAccumulate => 148,
            Kernel::ZeroF32 => 149,
            Kernel::ScaleF32 => 150,
            Kernel::MulVecInplaceF32 => 151,
            Kernel::GatherRowsF32 => 152,
            Kernel::ScatterAddWeightedF32 => 153,
            Kernel::Bf16MatmulReferenceBatched => 154,
            Kernel::GatedDeltanetDecode => 155,
            Kernel::MambaScanDecode => 156,
        }
    }

    /// The name of the kernel's entry point in the compiled module.
    pub open spec fn spec_symbol(self) -> &'static str {
        match self {
            Kernel::BlackwellFp4 => "aegis_blackwell_nvfp4_linear_probe",
            Kernel::Mxfp4Matvec => "aegis_mxfp4_matvec_native",
            Kernel::Mxfp4Matvec4warp => "aegis_mxfp4_matvec_native_4warp",
            Kernel::Mxfp4Matvec16warp => "aegis_mxfp4_matvec_native_16warp",
            Kernel::Mxfp4MatmulN8 => "aegis_mxfp4_matmul_native_n8",
            Kernel::Mxfp4MatmulTileM16n32 => "aegis_mxfp4_matmul_native_tile_m16n32",
            Kernel::Mxfp4MatmulTileM16n64 => "aegis_mxfp4_matmul_native_tile_m16n64",
            Kernel::Mxfp4MatmulQkvTileM16n32 => "aegis_mxfp4_matmul_qkv_native_tile_m16n32",
            Kernel::Mxfp4MatmulQkvTileM16n64 => "aegis_mxfp4_matmul_qkv_native_tile_m16n64",
            Kernel::Mxfp4MatmulGateUpTileM16n32 => "aegis_mxfp4_matmul_gate_up_native_tile_m16n32",
            Kernel::Mxfp4MatmulGateUpTileM16n64 => "aegis_mxfp4_matmul_gate_up_native_tile_m16n64",
            Kernel::SplitQkvScaled => "aegis_split_qkv_scaled",
            Kernel::Mxfp4QuantizeInput => "aegis_mxfp4_quantize_vector",
            Kernel::SwigluMxfp4QuantizeBatched => "aegis_swiglu_mxfp4_quantize_batched",
            Kernel::Fp8QuantizeBf16PerRow => "aegis_quantize_bf16_to_fp8_per_row",
            Kernel::Fp8Matvec => "aegis_fp8_matvec",
            Kernel::Fp8MatmulBatched => "aegis_fp8_matmul_batched",
            Kernel::Fp8DequantToBf16 => "aegis_dequant_fp8_to_bf16",
            Kernel::Nvfp4Reference => "aegis_nvfp4_linear_reference",
            Kernel::Nvfp4ReferenceBatched => "aegis_nvfp4_linear_reference_batched",
            Kernel::Nvfp4Prequant => "aegis_nvfp4_linear_prequantized",
            Kernel::Nvfp4PrequantBatched => "aegis_nvfp4_linear_prequantized_batched",
            Kernel::Nvfp4PrequantBatchedGemm => "aegis_nvfp4_linear_prequantized_batched_gemm",
            Kernel::Nvfp4PrequantBatchedGemmWmmaBf16 => "aegis_nvfp4_linear_prequantized_batched_gemm_wmma_bf16",
            Kernel::Nvfp4GroupedPrequantGemmWmmaBf16 => "aegis_nvfp4_grouped_prequant_gemm_wmma_bf16",
            Kernel::Nvfp4GroupedPrequantGemmWmmaBf16T32 => "aegis_nvfp4_grouped_prequant_gemm_wmma_bf16_t32",
            Kernel::Nvfp4GroupedPrequantGemmWmmaBf16T32Dual => "aegis_nvfp4_grouped_prequant_gemm_wmma_bf16_t32_dual",
            Kernel::Nvfp4GroupedPrequantGemmWmmaBf16T32Pipeline => "aegis_nvfp4_grouped_prequant_gemm_wmma_bf16_t32_pipeline",
            Kernel::Nvfp4GroupedPrequantGemmWmmaBf16T32Big => "aegis_nvfp4_grouped_prequant_gemm_wmma_bf16_t32_big",
            Kernel::Nvfp4GroupedPrequantGemmWmmaBf16T32BigPipeline => "aegis_nvfp4_grouped_prequant_gemm_wmma_bf16_t32_big_pipeline",
            Kernel::Nvfp4QuantizeInput => "aegis_nvfp4_quantize_input",
            Kernel::Nvfp4QuantizeInputBatched => "aegis_nvfp4_quantize_input_batched",
            Kernel::Bf16Matvec => "aegis_bf16_matvec_reference",
            Kernel::Bf16Row => "aegis_bf16_row_to_f32",
            Kernel::Bf16Rows => "aegis_bf16_rows_to_f32",
            Kernel::RmsNorm => "aegis_rms_norm",
            Kernel::RmsNormBatched => "aegis_rms_norm_batched",
            Kernel::RmsNormQuantNvfp4 => "aegis_rms_norm_quant_nvfp4",
            Kernel::RmsNormQuantNvfp4Batched => "aegis_rms_norm_quant_nvfp4_batched",
            Kernel::Add => "aegis_vector_add",
            Kernel::AddInplace => "aegis_vector_add_inplace",
            Kernel::Swiglu => "aegis_swiglu",
            Kernel::SwigluInplaceGate => "aegis_swiglu_inplace_gate",
            Kernel::GegluTanh => "aegis_geglu_tanh",
            Kernel::GegluTanhStrided => "aegis_geglu_tanh_strided",
            Kernel::RmsNormBatchedNoWeight => "aegis_rms_norm_batched_no_weight",
            Kernel::Rope => "aegis_apply_rope",
            Kernel::RopePtr => "aegis_apply_rope_ptr",
            Kernel::RopeBatched => "aegis_apply_rope_batched",
            Kernel::RopePositionsBatched => "aegis_apply_rope_positions_batched",
            Kernel::RopePositionsBatchedF16Out => "aegis_apply_rope_positions_batched_f16_out",
            Kernel::BuildDensePrefillMetadata => "aegis_build_dense_prefill_metadata",
            Kernel::F32ToF16 => "aegis_f32_to_f16",
            Kernel::F32ToBf16 => "aegis_f32_to_bf16",
            Kernel::Bf16ToF32 => "aegis_bf16_to_f32",
            Kernel::RouterSoftmaxTopk => "aegis_router_softmax_topk",
            Kernel::VisionRowSoftmax => "aegis_vision_row_softmax",
            Kernel::VisionRowSoftmaxBf16 => "aegis_vision_row_softmax_bf16",
            Kernel::GeluTanhInplaceF32 => "aegis_gelu_tanh_inplace_f32",
            Kernel::PlePerLayerMulInplaceF32 => "aegis_ple_per_layer_mul_inplace_f32",
            Kernel::VisionBidiAttn => "aegis_vision_bidi_attn",
            Kernel::VisionPixelRescale => "aegis_vision_pixel_rescale",
            Kernel::VisionPosEmbedAdd => "aegis_vision_pos_embed_add",
            Kernel::VisionHeadRmsnorm => "aegis_vision_head_rmsnorm",
            Kernel::VisionRope2d => "aegis_vision_rope_2d",
            Kernel::VisionStandardize => "aegis_vision_standardize",
            Kernel::VisionPool3x3Scale => "aegis_vision_pool3x3_scale",
            Kernel::AudioGluHalfsplit => "aegis_audio_glu_halfsplit",
            Kernel::AudioDepthwiseCausalConv1d => "aegis_audio_depthwise_causal_conv1d",
            Kernel::AudioPerDimScale => "aegis_audio_per_dim_scale",
            Kernel::AudioClampInplace => "aegis_audio_clamp_inplace",
            Kernel::AudioSiluInplace => "aegis_audio_silu_inplace",
            Kernel::AudioAddBiasRows => "aegis_audio_add_bias_rows",
            Kernel::RouterSoftmaxTopkPacked => "aegis_router_softmax_topk_packed",
            Kernel::RouterZeroExpertCounts => "aegis_router_zero_expert_counts",
            Kernel::RouterBucketSort => "aegis_router_bucket_sort",
            Kernel::RouterExpertOffsets => "aegis_router_expert_offsets",
            Kernel::PermuteGatherF32 => "aegis_permute_gather_f32",
            Kernel::UnpermuteScatterAddF32 => "aegis_unpermute_scatter_add_f32",
            Kernel::RouterBuildUnpermuteIndex => "aegis_router_build_unpermute_index",
            Kernel::UnpermuteScatterSerialF32 => "aegis_unpermute_scatter_serial_f32",
            Kernel::KvStore => "aegis_kv_store",
            Kernel::KvStorePtr => "aegis_kv_store_ptr",
            Kernel::KvStoreBatched => "aegis_kv_store_batched",
            Kernel::KvStoreSlotsBatched => "aegis_kv_store_slots_batched",
            Kernel::RopeKvStoreSlotsBatched => "aegis_rope_kv_store_slots_batched",
            Kernel::KvStoreFp8 => "aegis_kv_store_fp8",
            Kernel::KvStoreFp8Ptr => "aegis_kv_store_fp8_ptr",
            Kernel::KvStoreFp8Batched => "aegis_kv_store_fp8_batched",
            Kernel::KvStoreFp8SlotsBatched => "aegis_kv_store_fp8_slots_batched",
            Kernel::RopeKvStoreFp8SlotsBatched => "aegis_rope_kv_store_fp8_slots_batched",
            Kernel::AttentionDecodeFp8 => "aegis_attention_decode_fp8",
            Kernel::AttentionDecodePtrFp8 => "aegis_attention_decode_ptr_fp8",
            Kernel::AttentionDecodePtrSplitFp8 => "aegis_attention_decode_ptr_split_fp8",
            Kernel::AttentionDecodeStreamingFp8 => "aegis_attention_decode_streaming_fp8",
            Kernel::Attention => "aegis_attention_decode",
            Kernel::AttentionPtr => "aegis_attention_decode_ptr",
            Kernel::AttentionDecodePtrSplit => "aegis_attention_decode_ptr_split",
            Kernel::AttentionDecodePtrSplitHdpart => "aegis_attention_decode_ptr_split_hdpart",
            Kernel::AttentionDecodePtrSplitHdpartFp8 => "aegis_attention_decode_ptr_split_hdpart_fp8",
            Kernel::AttentionDecodePtrCombine => "aegis_attention_decode_ptr_combine",
            Kernel::AttentionDecodeStreaming => "aegis_attention_decode_streaming",
            Kernel::AttentionPrefillBatched => "aegis_attention_prefill_batched",
            Kernel::AttentionPrefillContinuation => "aegis_attention_prefill_continuation",
            Kernel::AttentionPrefillBatchedWarp => "aegis_attention_prefill_batched_warp",
            Kernel::AttentionPrefillPagedVarlen => "aegis_attention_prefill_paged_varlen",
            Kernel::AttentionPrefillPagedVarlenHalfq => "aegis_attention_prefill_paged_varlen_halfq",
            Kernel::AttentionPrefillPagedVarlenHalfqBlock4 => "aegis_attention_prefill_paged_varlen_halfq_block4",
            Kernel::AttentionPrefillPagedVarlenHalfqWmmaHdim128Gqa4 => "aegis_attention_prefill_paged_varlen_halfq_wmma_hdim128_gqa4",
            Kernel::AttentionPrefillDenseHalfqBlock4 => "aegis_attention_prefill_dense_halfq_block4",
            Kernel::AttentionPrefillDenseHalfqWarpTileHdim128 => "aegis_attention_prefill_dense_halfq_warp_tile_hdim128",
            Kernel::AttentionPrefillDenseHalfqWmmaHdim128 => "aegis_attention_prefill_dense_halfq_wmma_hdim128",
            Kernel::AttentionPrefillDenseHalfqWmmaHdim256 => "aegis_attention_prefill_dense_halfq_wmma_hdim256",
            Kernel::AttentionPrefillDenseHalfqWmmaHdim512 => "aegis_attention_prefill_dense_halfq_wmma_hdim512",
            Kernel::AttentionPrefillDenseHalfqWmmaHdim512Regacc => "aegis_attention_prefill_dense_halfq_wmma_hdim512_regacc",
            Kernel::AttentionPrefillDenseHalfqWmmaHdim512Q32Regacc => "aegis_attention_prefill_dense_halfq_wmma_hdim512_q32_regacc",
            Kernel::AttentionPrefillDenseHalfqWmmaHdim512Q32RegaccPipeline => "aegis_attention_prefill_dense_halfq_wmma_hdim512_q32_regacc_pipeline",
            Kernel::AttentionPrefillDenseHalfqWmmaHdim512RegaccPipeline => "aegis_attention_prefill_dense_halfq_wmma_hdim512_regacc_pipeline",
            Kernel::AttentionPrefillDenseFa2Hdim512 => "aegis_attention_prefill_dense_fa2_hdim512",
            Kernel::AttentionPrefillDenseFa2Hdim512Q64 => "aegis_attention_prefill_dense_fa2_hdim512_q64",
            Kernel::AttentionPrefillDenseMma4Hdim512 => "aegis_attention_prefill_dense_mma4_hdim512",
            Kernel::AttentionPrefillDenseFa2Hdim512Fp8 => "aegis_attention_prefill_dense_fa2_hdim512_fp8",
            Kernel::AttentionPrefillDenseFa2Hdim512Fp8Mma => "aegis_attention_prefill_dense_fa2_hdim512_fp8_mma",
            Kernel::AttentionPrefillDenseHalfqWmmaHdim128Fa => "aegis_attention_prefill_dense_halfq_wmma_hdim128_fa",
            Kernel::AttentionPrefillDenseHalfqWmmaHdim128Gqa4 => "aegis_attention_prefill_dense_halfq_wmma_hdim128_gqa4",
            Kernel::AttentionPrefillDenseHalfqWmmaHdim128Gqa4Split => "aegis_attention_prefill_dense_halfq_wmma_hdim128_gqa4_split",
            Kernel::AttentionPrefillDenseHalfqWmmaHdim128Cluster2 => "aegis_attention_prefill_dense_halfq_wmma_hdim128_cluster2",
            Kernel::AttentionPrefillDenseHalfqWmmaHdim128Q32 => "aegis_attention_prefill_dense_halfq_wmma_hdim128_q32",
            Kernel::AttentionPrefillDenseHalfqWmmaHdim128Split => "aegis_attention_prefill_dense_halfq_wmma_hdim128_split",
            Kernel::AttentionPrefillDenseHalfqWmmaHdim128Combine => "aegis_attention_prefill_dense_halfq_wmma_hdim128_combine",
            Kernel::AttentionPrefillPagedVarlenFa4Hdim128 => "aegis_attention_prefill_paged_varlen_fa4_hdim128",
            Kernel::AttentionPrefillPagedVarlenHalfqBlock4Split => "aegis_attention_prefill_paged_varlen_halfq_block4_split",
            Kernel::AttentionPrefillPagedVarlenHalfqBlock4Combine => "aegis_attention_prefill_paged_varlen_halfq_block4_combine",
            Kernel::AttentionPrefillPagedVarlenWarp => "aegis_attention_prefill_paged_varlen_warp",
            Kernel::CopyRowF32 => "aegis_copy_row_f32",
            Kernel::ArgmaxBlocks => "aegis_argmax_f32_blocks",
            Kernel::ArgmaxFinalize => "aegis_argmax_f32_finalize",
            Kernel::SpecSparseLmHeadMatvec => "aegis_spec_sparse_lm_head_matvec",
            Kernel::AxpyF32 => "aegis_axpy_f32",
            Kernel::MoeGatherExperts => "aegis_moe_gather_experts",
            Kernel::Nvfp4QuantizeInputDptr => "aegis_nvfp4_quantize_input_dptr",
            Kernel::Nvfp4PrequantDptr => "aegis_nvfp4_linear_prequantized_dptr",
            Kernel::AxpyF32TopkWeight => "aegis_axpy_f32_topk_weight",
            Kernel::Nvfp4GemvWarp => "aegis_nvfp4_gemv_warp",
            Kernel::Nvfp4QuantizeInputBatchedDptr => "aegis_nvfp4_quantize_input_batched_dptr",
            Kernel::Nvfp4PrequantBatchedDptr => "aegis_nvfp4_linear_prequantized_batched_dptr",
            Kernel::Nvfp4PrequantBatchedDptrWarp => "aegis_nvfp4_linear_prequantized_batched_dptr_warp",
            Kernel::MoeGegluTanhBatchedSlots => "aegis_moe_geglu_tanh_batched_slots",
            Kernel::MoeWeightedAccumulate => "aegis_moe_weighted_accumulate",
            Kernel::ZeroF32 => "aegis_zero_f32",
            Kernel::ScaleF32 => "aegis_scale_f32",
            Kernel::MulVecInplaceF32 => "aegis_mul_vec_inplace_f32",
            Kernel::GatherRowsF32 => "aegis_gather_rows_f32",
            Kernel::ScatterAddWeightedF32 => "aegis_scatter_add_weighted_f32",
            Kernel::Bf16MatmulReferenceBatched => "aegis_bf16_matmul_reference_batched",
            Kernel::GatedDeltanetDecode => "aegis_gated_deltanet_decode",
            Kernel::MambaScanDecode => "aegis_mamba_scan_decode",
        }
    }

    /// The limit that is set on the kernel at load time, if any.
    pub open spec fn spec_shared_limit(self) -> Option<SharedLimit> {
        match self {
            Kernel::VisionBidiAttn => Some(SharedLimit { bytes: 98304, label: "vision_bidi_attn" }),
            Kernel::AttentionDecodePtrSplitFp8 => Some(SharedLimit { bytes: 98304, label: "attention_decode_ptr_split_fp8" }),
            Kernel::AttentionDecodePtrSplit => Some(SharedLimit { bytes: 98304, label: "attention_decode_ptr_split" }),
            Kernel::AttentionPrefillDenseHalfqWmmaHdim256 => Some(SharedLimit { bytes: 98304, label: "hdim256 kernel" }),
            Kernel::AttentionPrefillDenseHalfqWmmaHdim512 => Some(SharedLimit { bytes: 98304, label: "hdim512 kernel" }),
            Kernel::AttentionPrefillDenseHalfqWmmaHdim512Regacc => Some(SharedLimit { bytes: 65536, label: "hdim512_regacc kernel" }),
            Kernel::AttentionPrefillDenseHalfqWmmaHdim512Q32Regacc => Some(SharedLimit { bytes: 98304, label: "hdim512_q32_regacc kernel" }),
            Kernel::AttentionPrefillDenseHalfqWmmaHdim512Q32RegaccPipeline => Some(SharedLimit { bytes: 98304, label: "hdim512_q32_regacc_pipeline kernel" }),
            Kernel::AttentionPrefillDenseHalfqWmmaHdim512RegaccPipeline => Some(SharedLimit { bytes: 98304, label: "hdim512_regacc_pipeline kernel" }),
            Kernel::AttentionPrefillDenseFa2Hdim512 => Some(SharedLimit { bytes: 98304, label: "fa2_hdim512 kernel" }),
            Kernel::AttentionPrefillDenseFa2Hdim512Q64 => Some(SharedLimit { bytes: 98304, label: "fa2_hdim512_q64 kernel" }),
            Kernel::AttentionPrefillDenseMma4Hdim512 => Some(SharedLimit { bytes: 98304, label: "mma4_hdim512 kernel" }),
            Kernel::AttentionPrefillDenseFa2Hdim512Fp8 => Some(SharedLimit { bytes: 98304, label: "fa2_hdim512_fp8 kernel" }),
            Kernel::AttentionPrefillDenseFa2Hdim512Fp8Mma => Some(SharedLimit { bytes: 49152, label: "fa2_hdim512_fp8_mma kernel" }),
            _ => None,
        }
    }

    /// Dynamic shared memory that the kernel may use once it is loaded.
    pub open spec fn shared_capacity(self) -> u32 {
        match self.spec_shared_limit() {
            Some(limit) => limit.bytes,
            None => DEFAULT_DYNAMIC_SHARED_BYTES,
        }
    }

    /// The kernel at a position of the load order.
    pub fn at(position: usize) -> (kernel: Kernel)
        requires
            position < KERNEL_COUNT,
        ensures
            kernel.position() == position,
    {
        match position {
            0 => Kernel::BlackwellFp4,
            1 => Kernel::Mxfp4Matvec,
            2 => Kernel::Mxfp4Matvec4warp,
            3 => Kernel::Mxfp4Matvec16warp,
            4 => Kernel::Mxfp4MatmulN8,
            5 => Kernel::Mxfp4MatmulTileM16n32,
            6 => Kernel::Mxfp4MatmulTileM16n64,
            7 => Kernel::Mxfp4MatmulQkvTileM16n32,
            8 => Kernel::Mxfp4MatmulQkvTileM16n64,
            9 => Kernel::Mxfp4MatmulGateUpTileM16n32,
            10 => Kernel::Mxfp4MatmulGateUpTileM16n64,
            11 => Kernel::SplitQkvScaled,
            12 => Kernel::Mxfp4QuantizeInput,
            13 => Kernel::SwigluMxfp4QuantizeBatched,
            14 => Kernel::Fp8QuantizeBf16PerRow,
            15 => Kernel::Fp8Matvec,
            16 => Kernel::Fp8MatmulBatched,
            17 => Kernel::Fp8DequantToBf16,
            18 => Kernel::Nvfp4Reference,
            19 => Kernel::Nvfp4ReferenceBatched,
            20 => Kernel::Nvfp4Prequant,
            21 => Kernel::Nvfp4PrequantBatched,
            22 => Kernel::Nvfp4PrequantBatchedGemm,
            23 => Kernel::Nvfp4PrequantBatchedGemmWmmaBf16,
            24 => Kernel::Nvfp4GroupedPrequantGemmWmmaBf16,
            25 => Kernel::Nvfp4GroupedPrequantGemmWmmaBf16T32,
            26 => Kernel::Nvfp4GroupedPrequantGemmWmmaBf16T32Dual,
            27 => Kernel::Nvfp4GroupedPrequantGemmWmmaBf16T32Pipeline,
            28 => Kernel::Nvfp4GroupedPrequantGemmWmmaBf16T32Big,
            29 => Kernel::Nvfp4GroupedPrequantGemmWmmaBf16T32BigPipeline,
            30 => Kernel::Nvfp4QuantizeInput,
            31 => Kernel::Nvfp4QuantizeInputBatched,
            32 => Kernel::Bf16Matvec,
            33 => Kernel::Bf16Row,
            34 => Kernel::Bf16Rows,
            35 => Kernel::RmsNorm,
            36 => Kernel::RmsNormBatched,
            37 => Kernel::RmsNormQuantNvfp4,
            38 => Kernel::RmsNormQuantNvfp4Batched,
            39 => Kernel::Add,
            40 => Kernel::AddInplace,
            41 => Kernel::Swiglu,
            42 => Kernel::SwigluInplaceGate,
            43 => Kernel::GegluTanh,
            44 => Kernel::GegluTanhStrided,
            45 => Kernel::RmsNormBatchedNoWeight,
            46 => Kernel::Rope,
            47 => Kernel::RopePtr,
            48 => Kernel::RopeBatched,
            49 => Kernel::RopePositionsBatched,
            50 => Kernel::RopePositionsBatchedF16Out,
            51 => Kernel::BuildDensePrefillMetadata,
            52 => Kernel::F32ToF16,
            53 => Kernel::F32ToBf16,
            54 => Kernel::Bf16ToF32,
            55 => Kernel::RouterSoftmaxTopk,
            56 => Kernel::VisionRowSoftmax,
            57 => Kernel::VisionRowSoftmaxBf16,
            58 => Kernel::GeluTanhInplaceF32,
            59 => Kernel::PlePerLayerMulInplaceF32,
            60 => Kernel::VisionBidiAttn,
            61 => Kernel::VisionPixelRescale,
            62 => Kernel::VisionPosEmbedAdd,
            63 => Kernel::VisionHeadRmsnorm,
            64 => Kernel::VisionRope2d,
            65 => Kernel::VisionStandardize,
            66 => Kernel::VisionPool3x3Scale,
            67 => Kernel::AudioGluHalfsplit,
            68 => Kernel::AudioDepthwiseCausalConv1d,
            69 => Kernel::AudioPerDimScale,
            70 => Kernel::AudioClampInplace,
            71 => Kernel::AudioSiluInplace,
            72 => Kernel::AudioAddBiasRows,
            73 => Kernel::RouterSoftmaxTopkPacked,
            74 => Kernel::RouterZeroExpertCounts,
            75 => Kernel::RouterBucketSort,
            76 => Kernel::RouterExpertOffsets,
            77 => Kernel::PermuteGatherF32,
            78 => Kernel::UnpermuteScatterAddF32,
            79 => Kernel::RouterBuildUnpermuteIndex,
            80 => Kernel::UnpermuteScatterSerialF32,
            81 => Kernel::KvStore,
            82 => Kernel::KvStorePtr,
            83 => Kernel::KvStoreBatched,
            84 => Kernel::KvStoreSlotsBatched,
            85 => Kernel::RopeKvStoreSlotsBatched,
            86 => Kernel::KvStoreFp8,
            87 => Kernel::KvStoreFp8Ptr,
            88 => Kernel::KvStoreFp8Batched,
            89 => Kernel::KvStoreFp8SlotsBatched,
            90 => Kernel::RopeKvStoreFp8SlotsBatched,
            91 => Kernel::AttentionDecodeFp8,
            92 => Kernel::AttentionDecodePtrFp8,
            93 => Kernel::AttentionDecodePtrSplitFp8,
            94 => Kernel::AttentionDecodeStreamingFp8,
            95 => Kernel::Attention,
            96 => Kernel::AttentionPtr,
            97 => Kernel::AttentionDecodePtrSplit,
            98 => Kernel::AttentionDecodePtrSplitHdpart,
            99 => Kernel::AttentionDecodePtrSplitHdpartFp8,
            100 => Kernel::AttentionDecodePtrCombine,
            101 => Kernel::AttentionDecodeStreaming,
            102 => Kernel::AttentionPrefillBatched,
            103 => Kernel::AttentionPrefillContinuation,
            104 => Kernel::AttentionPrefillBatchedWarp,
            105 => Kernel::AttentionPrefillPagedVarlen,
            106 => Kernel::AttentionPrefillPagedVarlenHalfq,
            107 => Kernel::AttentionPrefillPagedVarlenHalfqBlock4,
            108 => Kernel::AttentionPrefillPagedVarlenHalfqWmmaHdim128Gqa4,
            109 => Kernel::AttentionPrefillDenseHalfqBlock4,
            110 => Kernel::AttentionPrefillDenseHalfqWarpTileHdim128,
            111 => Kernel::AttentionPrefillDenseHalfqWmmaHdim128,
            112 => Kernel::AttentionPrefillDenseHalfqWmmaHdim256,
            113 => Kernel::AttentionPrefillDenseHalfqWmmaHdim512,
            114 => Kernel::AttentionPrefillDenseHalfqWmmaHdim512Regacc,
            115 => Kernel::AttentionPrefillDenseHalfqWmmaHdim512Q32Regacc,
            116 => Kernel::AttentionPrefillDenseHalfqWmmaHdim512Q32RegaccPipeline,
            117 => Kernel::AttentionPrefillDenseHalfqWmmaHdim512RegaccPipeline,
            118 => Kernel::AttentionPrefillDenseFa2Hdim512,
            119 => Kernel::AttentionPrefillDenseFa2Hdim512Q64,
            120 => Kernel::AttentionPrefillDenseMma4Hdim512,
            121 => Kernel::AttentionPrefillDenseFa2Hdim512Fp8,
            122 => Kernel::AttentionPrefillDenseFa2Hdim512Fp8Mma,
            123 => Kernel::AttentionPrefillDenseHalfqWmmaHdim128Fa,
            124 => Kernel::AttentionPrefillDenseHalfqWmmaHdim128Gqa4,
            125 => Kernel::AttentionPrefillDenseHalfqWmmaHdim128Gqa4Split,
            126 => Kernel::AttentionPrefillDenseHalfqWmmaHdim128Cluster2,
            127 => Kernel::AttentionPrefillDenseHalfqWmmaHdim128Q32,
            128 => Kernel::AttentionPrefillDenseHalfqWmmaHdim128Split,
            129 => Kernel::AttentionPrefillDenseHalfqWmmaHdim128Combine,
            130 => Kernel::AttentionPrefillPagedVarlenFa4Hdim128,
            131 => Kernel::AttentionPrefillPagedVarlenHalfqBlock4Split,
            132 => Kernel::AttentionPrefillPagedVarlenHalfqBlock4Combine,
            133 => Kernel::AttentionPrefillPagedVarlenWarp,
            134 => Kernel::CopyRowF32,
            135 => Kernel::ArgmaxBlocks,
            136 => Kernel::ArgmaxFinalize,
            137 => Kernel::SpecSparseLmHeadMatvec,
            138 => Kernel::AxpyF32,
            139 => Kernel::MoeGatherExperts,
            140 => Kernel::Nvfp4QuantizeInputDptr,
            141 => Kernel::Nvfp4PrequantDptr,
            142 => Kernel::AxpyF32TopkWeight,
            143 => Kernel::Nvfp4GemvWarp,
            144 => Kernel::Nvfp4QuantizeInputBatchedDptr,
            145 => Kernel::Nvfp4PrequantBatchedDptr,
            146 => Kernel::Nvfp4PrequantBatchedDptrWarp,
            147 => Kernel::MoeGegluTanhBatchedSlots,
            148 => Kernel::MoeWeightedAccumulate,
            149 => Kernel::ZeroF32,
            150 => Kernel::ScaleF32,
            151 => Kernel::MulVecInplaceF32,
            152 => Kernel::GatherRowsF32,
            153 => Kernel::ScatterAddWeightedF32,
            154 => Kernel::Bf16MatmulReferenceBatched,
            155 => Kernel::GatedDeltanetDecode,
            _ => Kernel::MambaScanDecode,
        }
    }

    /// The name of the kernel's entry point in the compiled module.
    pub fn symbol(self) -> (name: &'static str)
        ensures
            name == self.spec_symbol(),
    {
        match self {
            Kernel::BlackwellFp4 => "aegis_blackwell_nvfp4_linear_probe",
            Kernel::Mxfp4Matvec => "aegis_mxfp4_matvec_native",
            Kernel::Mxfp4Matvec4warp => "aegis_mxfp4_matvec_native_4warp",
            Kernel::Mxfp4Matvec16warp => "aegis_mxfp4_matvec_native_16warp",
            Kernel::Mxfp4MatmulN8 => "aegis_mxfp4_matmul_native_n8",
            Kernel::Mxfp4MatmulTileM16n32 => "aegis_mxfp4_matmul_native_tile_m16n32",
            Kernel::Mxfp4MatmulTileM16n64 => "aegis_mxfp4_matmul_native_tile_m16n64",
            Kernel::Mxfp4MatmulQkvTileM16n32 => "aegis_mxfp4_matmul_qkv_native_tile_m16n32",
            Kernel::Mxfp4MatmulQkvTileM16n64 => "aegis_mxfp4_matmul_qkv_native_tile_m16n64",
            Kernel::Mxfp4MatmulGateUpTileM16n32 => "aegis_mxfp4_matmul_gate_up_native_tile_m16n32",
            Kernel::Mxfp4MatmulGateUpTileM16n64 => "aegis_mxfp4_matmul_gate_up_native_tile_m16n64",
            Kernel::SplitQkvScaled => "aegis_split_qkv_scaled",
            Kernel::Mxfp4QuantizeInput => "aegis_mxfp4_quantize_vector",
            Kernel::SwigluMxfp4QuantizeBatched => "aegis_swiglu_mxfp4_quantize_batched",
            Kernel::Fp8QuantizeBf16PerRow => "aegis_quantize_bf16_to_fp8_per_row",
            Kernel::Fp8Matvec => "aegis_fp8_matvec",
            Kernel::Fp8MatmulBatched => "aegis_fp8_matmul_batched",
            Kernel::Fp8DequantToBf16 => "aegis_dequant_fp8_to_bf16",
            Kernel::Nvfp4Reference => "aegis_nvfp4_linear_reference",
            Kernel::Nvfp4ReferenceBatched => "aegis_nvfp4_linear_reference_batched",
            Kernel::Nvfp4Prequant => "aegis_nvfp4_linear_prequantized",
            Kernel::Nvfp4PrequantBatched => "aegis_nvfp4_linear_prequantized_batched",
            Kernel::Nvfp4PrequantBatchedGemm => "aegis_nvfp4_linear_prequantized_batched_gemm",
            Kernel::Nvfp4PrequantBatchedGemmWmmaBf16 => "aegis_nvfp4_linear_prequantized_batched_gemm_wmma_bf16",
            Kernel::Nvfp4GroupedPrequantGemmWmmaBf16 => "aegis_nvfp4_grouped_prequant_gemm_wmma_bf16",
            Kernel::Nvfp4GroupedPrequantGemmWmmaBf16T32 => "aegis_nvfp4_grouped_prequant_gemm_wmma_bf16_t32",
            Kernel::Nvfp4GroupedPrequantGemmWmmaBf16T32Dual => "aegis_nvfp4_grouped_prequant_gemm_wmma_bf16_t32_dual",
            Kernel::Nvfp4GroupedPrequantGemmWmmaBf16T32Pipeline => "aegis_nvfp4_grouped_prequant_gemm_wmma_bf16_t32_pipeline",
            Kernel::Nvfp4GroupedPrequantGemmWmmaBf16T32Big => "aegis_nvfp4_grouped_prequant_gemm_wmma_bf16_t32_big",
            Kernel::Nvfp4GroupedPrequantGemmWmmaBf16T32BigPipeline => "aegis_nvfp4_grouped_prequant_gemm_wmma_bf16_t32_big_pipeline",
            Kernel::Nvfp4QuantizeInput => "aegis_nvfp4_quantize_input",
            Kernel::Nvfp4QuantizeInputBatched => "aegis_nvfp4_quantize_input_batched",
            Kernel::Bf16Matvec => "aegis_bf16_matvec_reference",
            Kernel::Bf16Row => "aegis_bf16_row_to_f32",
            Kernel::Bf16Rows => "aegis_bf16_rows_to_f32",
            Kernel::RmsNorm => "aegis_rms_norm",
            Kernel::RmsNormBatched => "aegis_rms_norm_batched",
            Kernel::RmsNormQuantNvfp4 => "aegis_rms_norm_quant_nvfp4",
            Kernel::RmsNormQuantNvfp4Batched => "aegis_rms_norm_quant_nvfp4_batched",
            Kernel::Add => "aegis_vector_add",
            Kernel::AddInplace => "aegis_vector_add_inplace",
            Kernel::Swiglu => "aegis_swiglu",
            Kernel::SwigluInplaceGate => "aegis_swiglu_inplace_gate",
            Kernel::GegluTanh => "aegis_geglu_tanh",
            Kernel::GegluTanhStrided => "aegis_geglu_tanh_strided",
            Kernel::RmsNormBatchedNoWeight => "aegis_rms_norm_batched_no_weight",
            Kernel::Rope => "aegis_apply_rope",
            Kernel::RopePtr => "aegis_apply_rope_ptr",
            Kernel::RopeBatched => "aegis_apply_rope_batched",
            Kernel::RopePositionsBatched => "aegis_apply_rope_positions_batched",
            Kernel::RopePositionsBatchedF16Out => "aegis_apply_rope_positions_batched_f16_out",
            Kernel::BuildDensePrefillMetadata => "aegis_build_dense_prefill_metadata",
            Kernel::F32ToF16 => "aegis_f32_to_f16",
            Kernel::F32ToBf16 => "aegis_f32_to_bf16",
            Kernel::Bf16ToF32 => "aegis_bf16_to_f32",
            Kernel::RouterSoftmaxTopk => "aegis_router_softmax_topk",
            Kernel::VisionRowSoftmax => "aegis_vision_row_softmax",
            Kernel::VisionRowSoftmaxBf16 => "aegis_vision_row_softmax_bf16",
            Kernel::GeluTanhInplaceF32 => "aegis_gelu_tanh_inplace_f32",
            Kernel::PlePerLayerMulInplaceF32 => "aegis_ple_per_layer_mul_inplace_f32",
            Kernel::VisionBidiAttn => "aegis_vision_bidi_attn",
            Kernel::VisionPixelRescale => "aegis_vision_pixel_rescale",
            Kernel::VisionPosEmbedAdd => "aegis_vision_pos_embed_add",
            Kernel::VisionHeadRmsnorm => "aegis_vision_head_rmsnorm",
            Kernel::VisionRope2d => "aegis_vision_rope_2d",
            Kernel::VisionStandardize => "aegis_vision_standardize",
            Kernel::VisionPool3x3Scale => "aegis_vision_pool3x3_scale",
            Kernel::AudioGluHalfsplit => "aegis_audio_glu_halfsplit",
            Kernel::AudioDepthwiseCausalConv1d => "aegis_audio_depthwise_causal_conv1d",
            Kernel::AudioPerDimScale => "aegis_audio_per_dim_scale",
            Kernel::AudioClampInplace => "aegis_audio_clamp_inplace",
            Kernel::AudioSiluInplace => "aegis_audio_silu_inplace",
            Kernel::AudioAddBiasRows => "aegis_audio_add_bias_rows",
            Kernel::RouterSoftmaxTopkPacked => "aegis_router_softmax_topk_packed",
            Kernel::RouterZeroExpertCounts => "aegis_router_zero_expert_counts",
            Kernel::RouterBucketSort => "aegis_router_bucket_sort",
            Kernel::RouterExpertOffsets => "aegis_router_expert_offsets",
            Kernel::PermuteGatherF32 => "aegis_permute_gather_f32",
            Kernel::UnpermuteScatterAddF32 => "aegis_unpermute_scatter_add_f32",
            Kernel::RouterBuildUnpermuteIndex => "aegis_router_build_unpermute_index",
            Kernel::UnpermuteScatterSerialF32 => "aegis_unpermute_scatter_serial_f32",
            Kernel::KvStore => "aegis_kv_store",
            Kernel::KvStorePtr => "aegis_kv_store_ptr",
            Kernel::KvStoreBatched => "aegis_kv_store_batched",
            Kernel::KvStoreSlotsBatched => "aegis_kv_store_slots_batched",
            Kernel::RopeKvStoreSlotsBatched => "aegis_rope_kv_store_slots_batched",
            Kernel::KvStoreFp8 => "aegis_kv_store_fp8",
            Kernel::KvStoreFp8Ptr => "aegis_kv_store_fp8_ptr",
            Kernel::KvStoreFp8Batched => "aegis_kv_store_fp8_batched",
            Kernel::KvStoreFp8SlotsBatched => "aegis_kv_store_fp8_slots_batched",
            Kernel::RopeKvStoreFp8SlotsBatched => "aegis_rope_kv_store_fp8_slots_batched",
            Kernel::AttentionDecodeFp8 => "aegis_attention_decode_fp8",
            Kernel::AttentionDecodePtrFp8 => "aegis_attention_decode_ptr_fp8",
            Kernel::AttentionDecodePtrSplitFp8 => "aegis_attention_decode_ptr_split_fp8",
            Kernel::AttentionDecodeStreamingFp8 => "aegis_attention_decode_streaming_fp8",
            Kernel::Attention => "aegis_attention_decode",
            Kernel::AttentionPtr => "aegis_attention_decode_ptr",
            Kernel::AttentionDecodePtrSplit => "aegis_attention_decode_ptr_split",
            Kernel::AttentionDecodePtrSplitHdpart => "aegis_attention_decode_ptr_split_hdpart",
            Kernel::AttentionDecodePtrSplitHdpartFp8 => "aegis_attention_decode_ptr_split_hdpart_fp8",
            Kernel::AttentionDecodePtrCombine => "aegis_attention_decode_ptr_combine",
            Kernel::AttentionDecodeStreaming => "aegis_attention_decode_streaming",
            Kernel::AttentionPrefillBatched => "aegis_attention_prefill_batched",
            Kernel::AttentionPrefillContinuation => "aegis_attention_prefill_continuation",
            Kernel::AttentionPrefillBatchedWarp => "aegis_attention_prefill_batched_warp",
            Kernel::AttentionPrefillPagedVarlen => "aegis_attention_prefill_paged_varlen",
            Kernel::AttentionPrefillPagedVarlenHalfq => "aegis_attention_prefill_paged_varlen_halfq",
            Kernel::AttentionPrefillPagedVarlenHalfqBlock4 => "aegis_attention_prefill_paged_varlen_halfq_block4",
            Kernel::AttentionPrefillPagedVarlenHalfqWmmaHdim128Gqa4 => "aegis_attention_prefill_paged_varlen_halfq_wmma_hdim128_gqa4",
            Kernel::AttentionPrefillDenseHalfqBlock4 => "aegis_attention_prefill_dense_halfq_block4",
            Kernel::AttentionPrefillDenseHalfqWarpTileHdim128 => "aegis_attention_prefill_dense_halfq_warp_tile_hdim128",
            Kernel::AttentionPrefillDenseHalfqWmmaHdim128 => "aegis_attention_prefill_dense_halfq_wmma_hdim128",
            Kernel::AttentionPrefillDenseHalfqWmmaHdim256 => "aegis_attention_prefill_dense_halfq_wmma_hdim256",
            Kernel::AttentionPrefillDenseHalfqWmmaHdim512 => "aegis_attention_prefill_dense_halfq_wmma_hdim512",
            Kernel::AttentionPrefillDenseHalfqWmmaHdim512Regacc => "aegis_attention_prefill_dense_halfq_wmma_hdim512_regacc",
            Kernel::AttentionPrefillDenseHalfqWmmaHdim512Q32Regacc => "aegis_attention_prefill_dense_halfq_wmma_hdim512_q32_regacc",
            Kernel::AttentionPrefillDenseHalfqWmmaHdim512Q32RegaccPipeline => "aegis_attention_prefill_dense_halfq_wmma_hdim512_q32_regacc_pipeline",
            Kernel::AttentionPrefillDenseHalfqWmmaHdim512RegaccPipeline => "aegis_attention_prefill_dense_halfq_wmma_hdim512_regacc_pipeline",
            Kernel::AttentionPrefillDenseFa2Hdim512 => "aegis_attention_prefill_dense_fa2_hdim512",
            Kernel::AttentionPrefillDenseFa2Hdim512Q64 => "aegis_attention_prefill_dense_fa2_hdim512_q64",
            Kernel::AttentionPrefillDenseMma4Hdim512 => "aegis_attention_prefill_dense_mma4_hdim512",
            Kernel::AttentionPrefillDenseFa2Hdim512Fp8 => "aegis_attention_prefill_dense_fa2_hdim512_fp8",
            Kernel::AttentionPrefillDenseFa2Hdim512Fp8Mma => "aegis_attention_prefill_dense_fa2_hdim512_fp8_mma",
            Kernel::AttentionPrefillDenseHalfqWmmaHdim128Fa => "aegis_attention_prefill_dense_halfq_wmma_hdim128_fa",
            Kernel::AttentionPrefillDenseHalfqWmmaHdim128Gqa4 => "aegis_attention_prefill_dense_halfq_wmma_hdim128_gqa4",
            Kernel::AttentionPrefillDenseHalfqWmmaHdim128Gqa4Split => "aegis_attention_prefill_dense_halfq_wmma_hdim128_gqa4_split",
            Kernel::AttentionPrefillDenseHalfqWmmaHdim128Cluster2 => "aegis_attention_prefill_dense_halfq_wmma_hdim128_cluster2",
            Kernel::AttentionPrefillDenseHalfqWmmaHdim128Q32 => "aegis_attention_prefill_dense_halfq_wmma_hdim128_q32",
            Kernel::AttentionPrefillDenseHalfqWmmaHdim128Split => "aegis_attention_prefill_dense_halfq_wmma_hdim128_split",
            Kernel::AttentionPrefillDenseHalfqWmmaHdim128Combine => "aegis_attention_prefill_dense_halfq_wmma_hdim128_combine",
            Kernel::AttentionPrefillPagedVarlenFa4Hdim128 => "aegis_attention_prefill_paged_varlen_fa4_hdim128",
            Kernel::AttentionPrefillPagedVarlenHalfqBlock4Split => "aegis_attention_prefill_paged_varlen_halfq_block4_split",
            Kernel::AttentionPrefillPagedVarlenHalfqBlock4Combine => "aegis_attention_prefill_paged_varlen_halfq_block4_combine",
            Kernel::AttentionPrefillPagedVarlenWarp => "aegis_attention_prefill_paged_varlen_warp",
            Kernel::CopyRowF32 => "aegis_copy_row_f32",
            Kernel::ArgmaxBlocks => "aegis_argmax_f32_blocks",
            Kernel::ArgmaxFinalize => "aegis_argmax_f32_finalize",
            Kernel::SpecSparseLmHeadMatvec => "aegis_spec_sparse_lm_head_matvec",
            Kernel::AxpyF32 => "aegis_axpy_f32",
            Kernel::MoeGatherExperts => "aegis_moe_gather_experts",
            Kernel::Nvfp4QuantizeInputDptr => "aegis_nvfp4_quantize_input_dptr",
            Kernel::Nvfp4PrequantDptr => "aegis_nvfp4_linear_prequantized_dptr",
            Kernel::AxpyF32TopkWeight => "aegis_axpy_f32_topk_weight",
            Kernel::Nvfp4GemvWarp => "aegis_nvfp4_gemv_warp",
            Kernel::Nvfp4QuantizeInputBatchedDptr => "aegis_nvfp4_quantize_input_batched_dptr",
            Kernel::Nvfp4PrequantBatchedDptr => "aegis_nvfp4_linear_prequantized_batched_dptr",
            Kernel::Nvfp4PrequantBatchedDptrWarp => "aegis_nvfp4_linear_prequantized_batched_dptr_warp",
            Kernel::MoeGegluTanhBatchedSlots => "aegis_moe_geglu_tanh_batched_slots",
            Kernel::MoeWeightedAccumulate => "aegis_moe_weighted_accumulate",
            Kernel::ZeroF32 => "aegis_zero_f32",
            Kernel::ScaleF32 => "aegis_scale_f32",
            Kernel::MulVecInplaceF32 => "aegis_mul_vec_inplace_f32",
            Kernel::GatherRowsF32 => "aegis_gather_rows_f32",
            Kernel::ScatterAddWeightedF32 => "aegis_scatter_add_weighted_f32",
            Kernel::Bf16MatmulReferenceBatched => "aegis_bf16_matmul_reference_batched",
            Kernel::GatedDeltanetDecode => "aegis_gated_deltanet_decode",
            Kernel::MambaScanDecode => "aegis_mamba_scan_decode",
        }
    }

    /// The limit that is set on the kernel at load time, if any.
    pub fn shared_limit(self) -> (limit: Option<SharedLimit>)
        ensures
            limit == self.spec_shared_limit(),
    {
        match self {
            Kernel::VisionBidiAttn => Some(SharedLimit { bytes: 98304, label: "vision_bidi_attn" }),
            Kernel::AttentionDecodePtrSplitFp8 => Some(SharedLimit { bytes: 98304, label: "attention_decode_ptr_split_fp8" }),
            Kernel::AttentionDecodePtrSplit => Some(SharedLimit { bytes: 98304, label: "attention_decode_ptr_split" }),
            Kernel::AttentionPrefillDenseHalfqWmmaHdim256 => Some(SharedLimit { bytes: 98304, label: "hdim256 kernel" }),
            Kernel::AttentionPrefillDenseHalfqWmmaHdim512 => Some(SharedLimit { bytes: 98304, label: "hdim512 kernel" }),
            Kernel::AttentionPrefillDenseHalfqWmmaHdim512Regacc => Some(SharedLimit { bytes: 65536, label: "hdim512_regacc kernel" }),
            Kernel::AttentionPrefillDenseHalfqWmmaHdim512Q32Regacc => Some(SharedLimit { bytes: 98304, label: "hdim512_q32_regacc kernel" }),
            Kernel::AttentionPrefillDenseHalfqWmmaHdim512Q32RegaccPipeline => Some(SharedLimit { bytes: 98304, label: "hdim512_q32_regacc_pipeline kernel" }),
            Kernel::AttentionPrefillDenseHalfqWmmaHdim512RegaccPipeline => Some(SharedLimit { bytes: 98304, label: "hdim512_regacc_pipeline kernel" }),
            Kernel::AttentionPrefillDenseFa2Hdim512 => Some(SharedLimit { bytes: 98304, label: "fa2_hdim512 kernel" }),
            Kernel::AttentionPrefillDenseFa2Hdim512Q64 => Some(SharedLimit { bytes: 98304, label: "fa2_hdim512_q64 kernel" }),
            Kernel::AttentionPrefillDenseMma4Hdim512 => Some(SharedLimit { bytes: 98304, label: "mma4_hdim512 kernel" }),
            Kernel::AttentionPrefillDenseFa2Hdim512Fp8 => Some(SharedLimit { bytes: 98304, label: "fa2_hdim512_fp8 kernel" }),
            Kernel::AttentionPrefillDenseFa2Hdim512Fp8Mma => Some(SharedLimit { bytes: 49152, label: "fa2_hdim512_fp8_mma kernel" }),
            _ => None,
        }
    }
}

/// The error for a symbol that a module does not hold; `report` is what the driver says.
pub fn missing_function(symbol: &'static str, report: String) -> (error: AegisError)
    ensures
        error == AegisError::unsupported_with(
            "load cuda function `{}` failed: {}",
            Values::Two(Value::Label(symbol), Value::Name(report)),
        ),
{
    unsupported_plan(
        "load cuda function `{}` failed: {}",
        Values::Two(Value::Label(symbol), Value::Name(report)),
    )
}

impl SharedLimit {
    /// The error for a limit that the device refuses; `report` is what the driver says.
    pub fn refused(&self, report: String) -> (error: AegisError)
        ensures
            error == AegisError::unsupported_with(
                "set max dynamic shared mem on {}: {}",
                Values::Two(Value::Label(self.label), Value::Name(report)),
            ),
    {
        unsupported_plan(
            "set max dynamic shared mem on {}: {}",
            Values::Two(Value::Label(self.label), Value::Name(report)),
        )
    }
}

/// One kernel of the module, as it is looked up and prepared.
pub struct KernelEntry {
    pub kernel: Kernel,
    pub symbol: &'static str,
    pub shared_limit: Option<SharedLimit>,
}

impl KernelEntry {
    /// The entry describes its kernel.
    pub open spec fn describes(&self, kernel: Kernel) -> bool {
        &&& self.kernel == kernel
        &&& self.symbol == kernel.spec_symbol()
        &&& self.shared_limit == kernel.spec_shared_limit()
    }
}

/// What looking up one kernel came to; where it has a shared-memory limit, that is raised too.
#[derive(Clone, Debug)]
pub enum Lookup {
    Found,
    /// The module has no such symbol; what the driver says.
    Missing(String),
    /// The device refuses the limit; what the driver says.
    LimitRefused(String),
}

/// The kernels of the module in load order.
pub struct CudaKernelFunctions {
    pub entries: Vec<KernelEntry>,
}

impl CudaKernelFunctions {
    /// Every kernel of the module, each at its position of the load order.
    pub open spec fn complete(&self) -> bool {
        &&& self.entries@.len() == KERNEL_COUNT
        &&& forall|kernel: Kernel| #![trigger kernel.position()]
            self.entries@[kernel.position()].describes(kernel)
    }

    /// Lists what has to be looked up in a freshly loaded module: every kernel
    /// once, in load order. What the look-ups come to, [`Self::loaded`] says.
    pub fn load() -> (functions: Self)
        ensures
            functions.complete(),
            forall|i: int| #![trigger functions.entries@[i]]
                0 <= i < KERNEL_COUNT ==> functions.entries@[i].kernel.position() == i,
    {
        let mut entries: Vec<KernelEntry> = Vec::new();
        let mut next: usize = 0;
        while next < KERNEL_COUNT
            invariant
                entries@.len() == next,
                next <= KERNEL_COUNT,
                forall|i: int| #![trigger entries@[i]]
                    0 <= i < next ==> entries@[i].kernel.position() == i
                        && entries@[i].describes(entries@[i].kernel),
            decreases KERNEL_COUNT - next,
        {
            let kernel = Kernel::at(next);
            entries.push(
                KernelEntry { kernel, symbol: kernel.symbol(), shared_limit: kernel.shared_limit() },
            );
            next = next + 1;
        }
        proof {
            assert forall|kernel: Kernel| #![trigger kernel.position()]
                entries@[kernel.position()].describes(kernel) by {
                kernel_positions(kernel);
                let entry = entries@[kernel.position()];
                kernel_position_determines(entry.kernel, kernel);
            }
        }
        CudaKernelFunctions { entries }
    }

    /// The refusal that one look-up brings, if it does.
    pub open spec fn refusal_at(&self, i: int, outcome: Lookup) -> Option<AegisError> {
        let entry = self.entries@[i];
        match outcome {
            Lookup::Found => None,
            Lookup::Missing(report) => Some(
                AegisError::unsupported_with(
                    "load cuda function `{}` failed: {}",
                    Values::Two(Value::Label(entry.symbol), Value::Name(report)),
                ),
            ),
            Lookup::LimitRefused(report) => match entry.shared_limit {
                Some(limit) => Some(
                    AegisError::unsupported_with(
                        "set max dynamic shared mem on {}: {}",
                        Values::Two(Value::Label(limit.label), Value::Name(report)),
                    ),
                ),
                None => None,
            },
        }
    }

    /// The first refusal that look-ups in load order bring, if there is one.
    pub open spec fn first_refusal(&self, outcomes: Seq<Lookup>) -> Option<AegisError>
        decreases outcomes.len(),
    {
        if outcomes.len() == 0 {
            None
        } else {
            match self.first_refusal(outcomes.drop_last()) {
                Some(error) => Some(error),
                None => self.refusal_at(outcomes.len() - 1, outcomes.last()),
            }
        }
    }

    /// What look-ups in load order come to. The first one that fails ends the load; without
    /// one, every kernel was looked up.
    pub fn loaded(&self, outcomes: &Vec<Lookup>) -> (answer: Result<(), AegisError>)
        requires
            outcomes@.len() <= self.entries@.len(),
            outcomes@.len() == self.entries@.len() || self.first_refusal(outcomes@) is Some,
        ensures
            answer == match self.first_refusal(outcomes@) {
                Some(error) => Err::<(), AegisError>(error),
                None => Ok(()),
            },
    {
        let mut i: usize = 0;
        while i < outcomes.len()
            invariant
                i <= outcomes@.len() <= self.entries@.len(),
                self.first_refusal(outcomes@.take(i as int)) is None,
            decreases outcomes@.len() - i,
        {
            let entry = &self.entries[i];
            let refusal: Option<AegisError> = match &outcomes[i] {
                Lookup::Found => None,
                Lookup::Missing(report) => Some(missing_function(entry.symbol, report.clone())),
                Lookup::LimitRefused(report) => match &entry.shared_limit {
                    Some(limit) => Some(limit.refused(report.clone())),
                    None => None,
                },
            };
            proof {
                assert(outcomes@.take(i + 1).drop_last() =~= outcomes@.take(i as int));
                assert(refusal == self.refusal_at(i as int, outcomes@[i as int]));
            }
            match refusal {
                Some(error) => {
                    proof {
                        self.lemma_refusal_stays(outcomes@, i + 1);
                    }
                    return Err(error);
                },
                None => {},
            }
            i = i + 1;
        }
        assert(outcomes@.take(i as int) =~= outcomes@);
        Ok(())
    }

    /// A load succeeds only as a whole: there is no refusal if and only if no look-up brings
    /// one.
    pub proof fn loads_as_a_whole(&self, outcomes: Seq<Lookup>)
        ensures
            self.first_refusal(outcomes) is None <==> (forall|i: int|
                0 <= i < outcomes.len() ==> self.refusal_at(i, #[trigger] outcomes[i]) is None),
        decreases outcomes.len(),
    {
        if outcomes.len() > 0 {
            let front = outcomes.drop_last();
            self.loads_as_a_whole(front);
            if self.first_refusal(outcomes) is None {
                assert forall|i: int| 0 <= i < outcomes.len() implies self.refusal_at(
                    i,
                    #[trigger] outcomes[i],
                ) is None by {
                    if i < front.len() {
                        assert(front[i] == outcomes[i]);
                    }
                }
            } else if self.first_refusal(front) is Some {
                let i = choose|i: int|
                    0 <= i < front.len() && self.refusal_at(i, #[trigger] front[i]) is Some;
                assert(front[i] == outcomes[i]);
            } else {
                assert(outcomes.last() == outcomes[outcomes.len() - 1]);
            }
        }
    }

    proof fn lemma_refusal_stays(&self, outcomes: Seq<Lookup>, n: int)
        requires
            0 <= n <= outcomes.len(),
            self.first_refusal(outcomes.take(n)) is Some,
        ensures
            self.first_refusal(outcomes) == self.first_refusal(outcomes.take(n)),
        decreases outcomes.len() - n,
    {
        if n < outcomes.len() {
            assert(outcomes.take(n + 1).drop_last() =~= outcomes.take(n));
            self.lemma_refusal_stays(outcomes, n + 1);
        } else {
            assert(outcomes.take(n) =~= outcomes);
        }
    }

    /// The entry of `kernel`.
    pub fn entry(&self, kernel: Kernel) -> (entry: &KernelEntry)
        requires
            self.complete(),
        ensures
            entry.describes(kernel),
    {
        &self.entries[kernel.index()]
    }
}

impl Kernel {
    /// Position of the kernel in the load order.
    pub fn index(self) -> (i: usize)
        ensures
            i == self.position(),
            i < KERNEL_COUNT,
    {
        match self {
            Kernel::BlackwellFp4 => 0,
            Kernel::Mxfp4Matvec => 1,
            Kernel::Mxfp4Matvec4warp => 2,
            Kernel::Mxfp4Matvec16warp => 3,
            Kernel::Mxfp4MatmulN8 => 4,
            Kernel::Mxfp4MatmulTileM16n32 => 5,
            Kernel::Mxfp4MatmulTileM16n64 => 6,
            Kernel::Mxfp4MatmulQkvTileM16n32 => 7,
            Kernel::Mxfp4MatmulQkvTileM16n64 => 8,
            Kernel::Mxfp4MatmulGateUpTileM16n32 => 9,
            Kernel::Mxfp4MatmulGateUpTileM16n64 => 10,
            Kernel::SplitQkvScaled => 11,
            Kernel::Mxfp4QuantizeInput => 12,
            Kernel::SwigluMxfp4QuantizeBatched => 13,
            Kernel::Fp8QuantizeBf16PerRow => 14,
            Kernel::Fp8Matvec => 15,
            Kernel::Fp8MatmulBatched => 16,
            Kernel::Fp8DequantToBf16 => 17,
            Kernel::Nvfp4Reference => 18,
            Kernel::Nvfp4ReferenceBatched => 19,
            Kernel::Nvfp4Prequant => 20,
            Kernel::Nvfp4PrequantBatched => 21,
            Kernel::Nvfp4PrequantBatchedGemm => 22,
            Kernel::Nvfp4PrequantBatchedGemmWmmaBf16 => 23,
            Kernel::Nvfp4GroupedPrequantGemmWmmaBf16 => 24,
            Kernel::Nvfp4GroupedPrequantGemmWmmaBf16T32 => 25,
            Kernel::Nvfp4GroupedPrequantGemmWmmaBf16T32Dual => 26,
            Kernel::Nvfp4GroupedPrequantGemmWmmaBf16T32Pipeline => 27,
            Kernel::Nvfp4GroupedPrequantGemmWmmaBf16T32Big => 28,
            Kernel::Nvfp4GroupedPrequantGemmWmmaBf16T32BigPipeline => 29,
            Kernel::Nvfp4QuantizeInput => 30,
            Kernel::Nvfp4QuantizeInputBatched => 31,
            Kernel::Bf16Matvec => 32,
            Kernel::Bf16Row => 33,
            Kernel::Bf16Rows => 34,
            Kernel::RmsNorm => 35,
            Kernel::RmsNormBatched => 36,
            Kernel::RmsNormQuantNvfp4 => 37,
            Kernel::RmsNormQuantNvfp4Batched => 38,
            Kernel::Add => 39,
            Kernel::AddInplace => 40,
            Kernel::Swiglu => 41,
            Kernel::SwigluInplaceGate => 42,
            Kernel::GegluTanh => 43,
            Kernel::GegluTanhStrided => 44,
            Kernel::RmsNormBatchedNoWeight => 45,
            Kernel::Rope => 46,
            Kernel::RopePtr => 47,
            Kernel::RopeBatched => 48,
            Kernel::RopePositionsBatched => 49,
            Kernel::RopePositionsBatchedF16Out => 50,
            Kernel::BuildDensePrefillMetadata => 51,
            Kernel::F32ToF16 => 52,
            Kernel::F32ToBf16 => 53,
            Kernel::Bf16ToF32 => 54,
            Kernel::RouterSoftmaxTopk => 55,
            Kernel::VisionRowSoftmax => 56,
            Kernel::VisionRowSoftmaxBf16 => 57,
            Kernel::GeluTanhInplaceF32 => 58,
            Kernel::PlePerLayerMulInplaceF32 => 59,
            Kernel::VisionBidiAttn => 60,
            Kernel::VisionPixelRescale => 61,
            Kernel::VisionPosEmbedAdd => 62,
            Kernel::VisionHeadRmsnorm => 63,
            Kernel::VisionRope2d => 64,
            Kernel::VisionStandardize => 65,
            Kernel::VisionPool3x3Scale => 66,
            Kernel::AudioGluHalfsplit => 67,
            Kernel::AudioDepthwiseCausalConv1d => 68,
            Kernel::AudioPerDimScale => 69,
            Kernel::AudioClampInplace => 70,
            Kernel::AudioSiluInplace => 71,
            Kernel::AudioAddBiasRows => 72,
            Kernel::RouterSoftmaxTopkPacked => 73,
            Kernel::RouterZeroExpertCounts => 74,
            Kernel::RouterBucketSort => 75,
            Kernel::RouterExpertOffsets => 76,
            Kernel::PermuteGatherF32 => 77,
            Kernel::UnpermuteScatterAddF32 => 78,
            Kernel::RouterBuildUnpermuteIndex => 79,
            Kernel::UnpermuteScatterSerialF32 => 80,
            Kernel::KvStore => 81,
            Kernel::KvStorePtr => 82,
            Kernel::KvStoreBatched => 83,
            Kernel::KvStoreSlotsBatched => 84,
            Kernel::RopeKvStoreSlotsBatched => 85,
            Kernel::KvStoreFp8 => 86,
            Kernel::KvStoreFp8Ptr => 87,
            Kernel::KvStoreFp8Batched => 88,
            Kernel::KvStoreFp8SlotsBatched => 89,
            Kernel::RopeKvStoreFp8SlotsBatched => 90,
            Kernel::AttentionDecodeFp8 => 91,
            Kernel::AttentionDecodePtrFp8 => 92,
            Kernel::AttentionDecodePtrSplitFp8 => 93,
            Kernel::AttentionDecodeStreamingFp8 => 94,
            Kernel::Attention => 95,
            Kernel::AttentionPtr => 96,
            Kernel::AttentionDecodePtrSplit => 97,
            Kernel::AttentionDecodePtrSplitHdpart => 98,
            Kernel::AttentionDecodePtrSplitHdpartFp8 => 99,
            Kernel::AttentionDecodePtrCombine => 100,
            Kernel::AttentionDecodeStreaming => 101,
            Kernel::AttentionPrefillBatched => 102,
            Kernel::AttentionPrefillContinuation => 103,
            Kernel::AttentionPrefillBatchedWarp => 104,
            Kernel::AttentionPrefillPagedVarlen => 105,
            Kernel::AttentionPrefillPagedVarlenHalfq => 106,
            Kernel::AttentionPrefillPagedVarlenHalfqBlock4 => 107,
            Kernel::AttentionPrefillPagedVarlenHalfqWmmaHdim128Gqa4 => 108,
            Kernel::AttentionPrefillDenseHalfqBlock4 => 109,
            Kernel::AttentionPrefillDenseHalfqWarpTileHdim128 => 110,
            Kernel::AttentionPrefillDenseHalfqWmmaHdim128 => 111,
            Kernel::AttentionPrefillDenseHalfqWmmaHdim256 => 112,
            Kernel::AttentionPrefillDenseHalfqWmmaHdim512 => 113,
            Kernel::AttentionPrefillDenseHalfqWmmaHdim512Regacc => 114,
            Kernel::AttentionPrefillDenseHalfqWmmaHdim512Q32Regacc => 115,
            Kernel::AttentionPrefillDenseHalfqWmmaHdim512Q32RegaccPipeline => 116,
            Kernel::AttentionPrefillDenseHalfqWmmaHdim512RegaccPipeline => 117,
            Kernel::AttentionPrefillDenseFa2Hdim512 => 118,
            Kernel::AttentionPrefillDenseFa2Hdim512Q64 => 119,
            Kernel::AttentionPrefillDenseMma4Hdim512 => 120,
            Kernel::AttentionPrefillDenseFa2Hdim512Fp8 => 121,
            Kernel::AttentionPrefillDenseFa2Hdim512Fp8Mma => 122,
            Kernel::AttentionPrefillDenseHalfqWmmaHdim128Fa => 123,
            Kernel::AttentionPrefillDenseHalfqWmmaHdim128Gqa4 => 124,
            Kernel::AttentionPrefillDenseHalfqWmmaHdim128Gqa4Split => 125,
            Kernel::AttentionPrefillDenseHalfqWmmaHdim128Cluster2 => 126,
            Kernel::AttentionPrefillDenseHalfqWmmaHdim128Q32 => 127,
            Kernel::AttentionPrefillDenseHalfqWmmaHdim128Split => 128,
            Kernel::AttentionPrefillDenseHalfqWmmaHdim128Combine => 129,
            Kernel::AttentionPrefillPagedVarlenFa4Hdim128 => 130,
            Kernel::AttentionPrefillPagedVarlenHalfqBlock4Split => 131,
            Kernel::AttentionPrefillPagedVarlenHalfqBlock4Combine => 132,
            Kernel::AttentionPrefillPagedVarlenWarp => 133,
            Kernel::CopyRowF32 => 134,
            Kernel::ArgmaxBlocks => 135,
            Kernel::ArgmaxFinalize => 136,
            Kernel::SpecSparseLmHeadMatvec => 137,
            Kernel::AxpyF32 => 138,
            Kernel::MoeGatherExperts => 139,
            Kernel::Nvfp4QuantizeInputDptr => 140,
            Kernel::Nvfp4PrequantDptr => 141,
            Kernel::AxpyF32TopkWeight => 142,
            Kernel::Nvfp4GemvWarp => 143,
            Kernel::Nvfp4QuantizeInputBatchedDptr => 144,
            Kernel::Nvfp4PrequantBatchedDptr => 145,
            Kernel::Nvfp4PrequantBatchedDptrWarp => 146,
            Kernel::MoeGegluTanhBatchedSlots => 147,
            Kernel::MoeWeightedAccumulate => 148,
            Kernel::ZeroF32 => 149,
            Kernel::ScaleF32 => 150,
            Kernel::MulVecInplaceF32 => 151,
            Kernel::GatherRowsF32 => 152,
            Kernel::ScatterAddWeightedF32 => 153,
            Kernel::Bf16MatmulReferenceBatched => 154,
            Kernel::GatedDeltanetDecode => 155,
            Kernel::MambaScanDecode => 156,
        }
    }
}

/// Every kernel has a place in the load order.
pub proof fn kernel_positions(kernel: Kernel)
    ensures
        0 <= kernel.position() < KERNEL_COUNT,
{
}

/// No two kernels share a place in the load order, so each is loaded once.
pub proof fn kernel_position_determines(left: Kernel, right: Kernel)
    requires
        left.position() == right.position(),
    ensures
        left == right,
{
}

} // verus!
