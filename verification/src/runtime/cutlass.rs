//! Products through CUTLASS: sizes of its buffers, quantized activations, and grouped
//! products over experts.
use crate::cutlass_bridge::{self, BridgeBuild};
use crate::error::{invalid_plan, number, unsupported_plan, AegisError, Value, Values};
use crate::launch::{Arg, BridgeEntry, Operand, Plan, Scalar, StepView};
use crate::runtime::{self, div_ceil, CudaRuntime};
use crate::types::{DeviceBuffer, DeviceNvfp4Linear, KernelFamily, F32};
use vstd::prelude::*;

verus! {

/// Bytes of the blobs that describe one group of a grouped product.
#[derive(Debug, Clone, Copy)]
pub struct CutlassMoeGroupedBlobSizes {
    pub stride_a: usize,
    pub stride_b: usize,
    pub stride_d: usize,
    pub layout_sfa: usize,
    pub layout_sfb: usize,
    pub problem_shape: usize,
}

/// The error for an argument that does not fit a signed 32-bit number.
pub open spec fn wide(name: &'static str, value: int) -> AegisError {
    AegisError::invalid_with(
        "CUTLASS FP4 argument {} exceeds i32 range: {}",
        Values::Two(Value::Label(name), Value::num(value)),
    )
}

/// Narrows an argument to a signed 32-bit number.
pub fn i32_arg(name: &'static str, value: usize) -> (word: Result<i32, AegisError>)
    ensures
        match word {
            Ok(narrow) => narrow == value,
            Err(error) => value > i32::MAX && error == wide(name, value as int),
        },
{
    if value as u64 <= i32::MAX as u64 {
        Ok(value as i32)
    } else {
        Err(
            invalid_plan(
                "CUTLASS FP4 argument {} exceeds i32 range: {}",
                Values::Two(Value::Label(name), number(value)),
            ),
        )
    }
}

/// The error for a product that is no length.
pub open spec fn long_product(label: &'static str, lhs: int, rhs: int) -> AegisError {
    AegisError::invalid_with(
        "CUTLASS FP4 {} length overflow: {} * {}",
        Values::Three(Value::Label(label), Value::num(lhs), Value::num(rhs)),
    )
}

/// The product of two extents, if it is a length.
pub fn checked_len(label: &'static str, lhs: usize, rhs: usize) -> (len: Result<usize, AegisError>)
    ensures
        match len {
            Ok(len) => len == lhs * rhs,
            Err(error) => lhs * rhs > usize::MAX && error == long_product(label, lhs as int, rhs as int),
        },
{
    match lhs.checked_mul(rhs) {
        Some(len) => Ok(len),
        None => Err(
            invalid_plan(
                "CUTLASS FP4 {} length overflow: {} * {}",
                Values::Three(Value::Label(label), number(lhs), number(rhs)),
            ),
        ),
    }
}

/// What the activations of `rows` vectors take: half a byte per value.
pub open spec fn payload_bytes(rows: usize, cols: usize) -> Result<usize, AegisError> {
    let half = cols as int / 2;
    if cols % 32 != 0 {
        Err(
            AegisError::invalid_with(
                "CUTLASS NVFP4 activation payload requires cols divisible by 32, got {}",
                Values::One(Value::num(cols as int)),
            ),
        )
    } else if rows * half > usize::MAX {
        Err(long_product("activation payload", rows as int, half))
    } else {
        Ok((rows * half) as usize)
    }
}

/// What the scales of `rows` vectors take: a byte per block of sixteen, in whole tiles
/// of 128 by 4.
pub open spec fn scale_bytes(rows: usize, cols: usize) -> Result<usize, AegisError> {
    let scale_rows = runtime::blocks(rows as int, 128) * 128;
    let scale_cols = runtime::blocks(cols as int / 16, 4) * 4;
    if cols % 32 != 0 {
        Err(
            AegisError::invalid_with(
                "CUTLASS NVFP4 activation scales require cols divisible by 32, got {}",
                Values::One(Value::num(cols as int)),
            ),
        )
    } else if scale_rows * scale_cols > usize::MAX {
        Err(long_product("activation scales", scale_rows, scale_cols))
    } else {
        Ok((scale_rows * scale_cols) as usize)
    }
}

/// A problem size as the bridge takes it.
pub open spec fn problem_size(m: usize, n: usize, k: usize) -> Result<(i32, i32, i32), AegisError> {
    if m > i32::MAX {
        Err(wide("m", m as int))
    } else if n > i32::MAX {
        Err(wide("n", n as int))
    } else if k > i32::MAX {
        Err(wide("k", k as int))
    } else {
        Ok((m as i32, n as i32, k as i32))
    }
}

/// What a workspace query comes to, given the bridge's answer.
pub open spec fn workspace_bytes(
    tokens: usize,
    output_channels: usize,
    hidden: usize,
    reply: Result<usize, String>,
) -> Result<usize, AegisError> {
    match problem_size(tokens, output_channels, hidden) {
        Err(error) => Err(error),
        Ok(_) => match reply {
            Ok(bytes) => Ok(bytes),
            Err(cause) => Err(
                AegisError::unsupported_with(
                    "CUTLASS FP4 workspace query failed: {}",
                    Values::One(Value::Name(cause)),
                ),
            ),
        },
    }
}

impl CudaRuntime {
    /// Whether grouped products were built in.
    pub fn cutlass_nvfp4_moe_grouped_built(build: &BridgeBuild) -> (yes: bool)
        ensures
            yes == build.moe_grouped,
    {
        cutlass_bridge::moe_grouped_supported(build)
    }

    /// Bytes of the blobs that describe one group, as the bridge's code and answer have it.
    pub fn cutlass_nvfp4_moe_grouped_blob_sizes(
        &self,
        build: &BridgeBuild,
        code: i32,
        sizes: CutlassMoeGroupedBlobSizes,
    ) -> (answer: Result<CutlassMoeGroupedBlobSizes, AegisError>)
        ensures
            !build.moe_grouped ==> answer == Err::<CutlassMoeGroupedBlobSizes, _>(
                AegisError::unsupported("CUTLASS NVFP4 grouped not compiled into this build"),
            ),
            build.moe_grouped && code != 0 ==> answer == Err::<CutlassMoeGroupedBlobSizes, _>(
                AegisError::unsupported_with(
                    "CUTLASS MoE NVFP4 grouped blob sizes query failed with code {}",
                    Values::One(Value::Signed(code)),
                ),
            ),
            build.moe_grouped && code == 0 ==> answer == Ok::<_, AegisError>(sizes),
    {
        if !cutlass_bridge::moe_grouped_supported(build) {
            return Err(
                unsupported_plan(
                    "CUTLASS NVFP4 grouped not compiled into this build",
                    Values::Zero,
                ),
            );
        }
        match cutlass_bridge::moe_grouped_blob_sizes(code) {
            Ok(()) => Ok(sizes),
            Err(message) => Err(AegisError::Unsupported(message)),
        }
    }

    /// A problem size as the bridge takes it.
    pub fn cutlass_problem_size(
        m: usize,
        n: usize,
        k: usize,
    ) -> (size: Result<(i32, i32, i32), AegisError>)
        ensures
            size == problem_size(m, n, k),
    {
        let m: i32 = i32_arg("m", m)?;
        let n: i32 = i32_arg("n", n)?;
        let k: i32 = i32_arg("k", k)?;
        Ok((m, n, k))
    }

    /// Bytes of the scales of a problem, activations and weights, as the bridge's code and
    /// answer have it.
    pub fn cutlass_nvfp4_moe_grouped_sfa_sfb_bytes(
        &self,
        m: usize,
        n: usize,
        k: usize,
        code: i32,
        bytes: (usize, usize),
    ) -> (answer: Result<(usize, usize), AegisError>)
        ensures
            answer == match problem_size(m, n, k) {
                Err(error) => Err(error),
                Ok((m, n, k)) => if code == 0 {
                    Ok(bytes)
                } else {
                    Err(
                        AegisError::unsupported_with(
                            "CUTLASS MoE NVFP4 sfa_sfb_bytes failed (m={}, n={}, k={}) with code {}",
                            Values::Four(
                                Value::Signed(m),
                                Value::Signed(n),
                                Value::Signed(k),
                                Value::Signed(code),
                            ),
                        ),
                    )
                },
            },
    {
        let (m, n, k): (i32, i32, i32) = Self::cutlass_problem_size(m, n, k)?;
        match cutlass_bridge::moe_grouped_sfa_sfb_bytes(m, n, k, code) {
            Ok(()) => Ok(bytes),
            Err(message) => Err(AegisError::Unsupported(message)),
        }
    }

    /// Whether the blobs of one group could be computed, as the bridge's code has it.
    pub fn cutlass_moe_nvfp4_compute_strides(
        &self,
        m: usize,
        n: usize,
        k: usize,
        code: i32,
    ) -> (answer: Result<(), AegisError>)
        ensures
            answer == match problem_size(m, n, k) {
                Err(error) => Err(error),
                Ok((m, n, k)) => if code == 0 {
                    Ok(())
                } else {
                    Err(
                        AegisError::unsupported_with(
                            "CUTLASS MoE NVFP4 compute_strides failed (m={}, n={}, k={}) with code {}",
                            Values::Four(
                                Value::Signed(m),
                                Value::Signed(n),
                                Value::Signed(k),
                                Value::Signed(code),
                            ),
                        ),
                    )
                },
            },
    {
        let (m, n, k): (i32, i32, i32) = Self::cutlass_problem_size(m, n, k)?;
        match cutlass_bridge::moe_grouped_compute_strides(m, n, k, code) {
            Ok(()) => Ok(()),
            Err(message) => Err(AegisError::Unsupported(message)),
        }
    }

    /// What the activations of `rows` vectors take.
    pub fn cutlass_nvfp4_activation_payload_bytes(
        rows: usize,
        cols: usize,
    ) -> (bytes: Result<usize, AegisError>)
        ensures
            bytes == payload_bytes(rows, cols),
    {
        if cols % 32 != 0 {
            return Err(
                invalid_plan(
                    "CUTLASS NVFP4 activation payload requires cols divisible by 32, got {}",
                    Values::One(number(cols)),
                ),
            );
        }
        checked_len("activation payload", rows, cols / 2)
    }

    /// What the scales of `rows` vectors take.
    pub fn cutlass_nvfp4_activation_scale_bytes(
        rows: usize,
        cols: usize,
    ) -> (bytes: Result<usize, AegisError>)
        requires
            runtime::blocks(rows as int, 128) * 128 <= usize::MAX,
        ensures
            bytes == scale_bytes(rows, cols),
    {
        if cols % 32 != 0 {
            return Err(
                invalid_plan(
                    "CUTLASS NVFP4 activation scales require cols divisible by 32, got {}",
                    Values::One(number(cols)),
                ),
            );
        }
        let scale_rows: usize = div_ceil(rows, 128) * 128;
        let scale_cols: usize = div_ceil(cols / 16, 4) * 4;
        checked_len("activation scales", scale_rows, scale_cols)
    }

    /// The workspace of a product, given the bridge's answer.
    pub fn cutlass_nvfp4_workspace_bytes(
        &self,
        tokens: usize,
        output_channels: usize,
        hidden: usize,
        reply: Result<usize, String>,
    ) -> (bytes: Result<usize, AegisError>)
        ensures
            bytes == workspace_bytes(tokens, output_channels, hidden, reply),
    {
        Self::cutlass_problem_size(tokens, output_channels, hidden)?;
        match reply {
            Ok(bytes) => Ok(bytes),
            Err(cause) => Err(
                unsupported_plan(
                    "CUTLASS FP4 workspace query failed: {}",
                    Values::One(Value::Name(cause)),
                ),
            ),
        }
    }

    /// Whether a layer is computed through CUTLASS.
    pub fn cutlass_nvfp4_inference_enabled_for(&self, linear: &DeviceNvfp4Linear) -> (yes: bool)
        ensures
            yes == (linear.cutlass_nvfp4 is Some && (linear.kernel_family
                == KernelFamily::CudaCutlassFp4TensorCores || linear.kernel_family
                == KernelFamily::CudaNativeFp4TensorCores)),
    {
        linear.cutlass_nvfp4.is_some() && (linear.kernel_family
            == KernelFamily::CudaCutlassFp4TensorCores || linear.kernel_family
            == KernelFamily::CudaNativeFp4TensorCores)
    }
}

/// The steps of [`CudaRuntime::cutlass_moe_nvfp4_quantize_input_grouped`].
pub open spec fn quantize_grouped_steps(
    cols: usize,
    num_groups: usize,
    max_padded_rows_per_group: usize,
) -> Result<Seq<StepView>, AegisError> {
    if cols > i32::MAX {
        Err(wide("cols", cols as int))
    } else if num_groups > i32::MAX {
        Err(wide("num_groups", num_groups as int))
    } else if max_padded_rows_per_group > i32::MAX {
        Err(wide("max_padded_rows_per_group", max_padded_rows_per_group as int))
    } else {
        Ok(
            seq![
                StepView::bridging(
                    BridgeEntry::MoeGroupedQuantizeInput,
                    seq![
                        Arg::Buffer(Operand::Input),
                        Arg::signed(cols as int),
                        Arg::signed(num_groups as int),
                        Arg::Buffer(Operand::TokenOffsets),
                        Arg::Buffer(Operand::PayloadOffsets),
                        Arg::Buffer(Operand::ScaleOffsets),
                        Arg::signed(max_padded_rows_per_group as int),
                        Arg::Buffer(Operand::ActivationPayload),
                        Arg::Buffer(Operand::ActivationScales),
                    ],
                    "{}",
                    Values::Zero,
                ),
            ],
        )
    }
}

/// The steps of [`CudaRuntime::cutlass_moe_nvfp4_swizzle_weight_scales_grouped`].
pub open spec fn swizzle_grouped_steps(
    rows_per_group: usize,
    src_cols: usize,
    num_groups: usize,
) -> Result<Seq<StepView>, AegisError> {
    if rows_per_group > i32::MAX {
        Err(wide("rows_per_group", rows_per_group as int))
    } else if src_cols > i32::MAX {
        Err(wide("src_cols", src_cols as int))
    } else if num_groups > i32::MAX {
        Err(wide("num_groups", num_groups as int))
    } else {
        Ok(
            seq![
                StepView::bridging(
                    BridgeEntry::MoeGroupedSwizzleWeightScales,
                    seq![
                        Arg::Buffer(Operand::Source),
                        Arg::signed(rows_per_group as int),
                        Arg::signed(src_cols as int),
                        Arg::signed(num_groups as int),
                        Arg::Buffer(Operand::SourceOffsets),
                        Arg::Buffer(Operand::DestinationOffsets),
                        Arg::Buffer(Operand::Destination),
                    ],
                    "{}",
                    Values::Zero,
                ),
            ],
        )
    }
}

/// The steps of [`CudaRuntime::cutlass_moe_nvfp4_grouped_run`].
pub open spec fn grouped_run_steps(
    num_groups: usize,
    workspace: &DeviceBuffer<u8>,
) -> Result<Seq<StepView>, AegisError> {
    if num_groups > i32::MAX {
        Err(wide("num_groups", num_groups as int))
    } else {
        Ok(
            seq![
                StepView::bridging(
                    BridgeEntry::MoeGroupedRun,
                    seq![
                        Arg::signed(num_groups as int),
                        Arg::Buffer(Operand::ProblemShapes),
                        Arg::Null,
                        Arg::Buffer(Operand::APointers),
                        Arg::Buffer(Operand::BPointers),
                        Arg::Buffer(Operand::SfaPointers),
                        Arg::Buffer(Operand::SfbPointers),
                        Arg::Buffer(Operand::DPointers),
                        Arg::Buffer(Operand::StrideA),
                        Arg::Buffer(Operand::StrideB),
                        Arg::Buffer(Operand::StrideD),
                        Arg::Buffer(Operand::LayoutSfa),
                        Arg::Buffer(Operand::LayoutSfb),
                        Arg::Buffer(Operand::AlphaPointers),
                        Arg::Buffer(Operand::Workspace),
                        Arg::Size(workspace.len()),
                    ],
                    "{}",
                    Values::Zero,
                ),
            ],
        )
    }
}

/// The steps of [`CudaRuntime::cutlass_moe_nvfp4_quantize_input_single_strided`].
pub open spec fn quantize_strided_steps(
    cols: usize,
    token_offsets_idx: usize,
    payload_offsets_idx: usize,
    sfa_offsets_idx: usize,
    max_padded_rows_per_group: usize,
) -> Result<Seq<StepView>, AegisError> {
    if cols > i32::MAX {
        Err(wide("cols", cols as int))
    } else if max_padded_rows_per_group > i32::MAX {
        Err(wide("max_padded_rows_per_group", max_padded_rows_per_group as int))
    } else {
        Ok(
            seq![
                StepView::bridging(
                    BridgeEntry::MoeGroupedQuantizeInput,
                    seq![
                        Arg::Buffer(Operand::Input),
                        Arg::signed(cols as int),
                        Arg::I32(1),
                        Arg::Tail(Operand::TokenOffsets, token_offsets_idx),
                        Arg::Tail(Operand::PayloadOffsets, payload_offsets_idx),
                        Arg::Tail(Operand::ScaleOffsets, sfa_offsets_idx),
                        Arg::signed(max_padded_rows_per_group as int),
                        Arg::Buffer(Operand::ActivationPayload),
                        Arg::Buffer(Operand::ActivationScales),
                    ],
                    "{}",
                    Values::Zero,
                ),
            ],
        )
    }
}

/// The steps of [`CudaRuntime::quantize_cutlass_nvfp4_activation_device`].
pub open spec fn quantize_activation_steps(
    input: &DeviceBuffer<F32>,
    rows: usize,
    cols: usize,
    payload: &DeviceBuffer<u8>,
    scales: &DeviceBuffer<u8>,
) -> Result<Seq<StepView>, AegisError> {
    let expected_input = rows * cols;
    let expected_payload = payload_bytes(rows, cols)->Ok_0;
    let expected_scales = scale_bytes(rows, cols)->Ok_0;
    if expected_input > usize::MAX {
        Err(long_product("activation input", rows as int, cols as int))
    } else if payload_bytes(rows, cols) is Err {
        Err(payload_bytes(rows, cols)->Err_0)
    } else if scale_bytes(rows, cols) is Err {
        Err(scale_bytes(rows, cols)->Err_0)
    } else if input.len() < expected_input || payload.len() < expected_payload || scales.len() < expected_scales {
        Err(AegisError::invalid_with(
                "CUTLASS NVFP4 activation quant buffers too small: input={} expected_input={} payload={} expected_payload={} scales={} expected_scales={}",
                Values::Six(
                    Value::num(input.len() as int),
                    Value::num(expected_input as int),
                    Value::num(payload.len() as int),
                    Value::num(expected_payload as int),
                    Value::num(scales.len() as int),
                    Value::num(expected_scales as int),
                ),
            ))
    } else if rows > i32::MAX {
        Err(wide("rows", rows as int))
    } else if cols > i32::MAX {
        Err(wide("cols", cols as int))
    } else {
        Ok(
            seq![
                StepView::bridging(
                    BridgeEntry::QuantizeF32,
                    seq![
                        Arg::Buffer(Operand::Input),
                        Arg::signed(rows as int),
                        Arg::signed(cols as int),
                        Arg::Buffer(Operand::ActivationPayload),
                        Arg::Buffer(Operand::ActivationScales),
                    ],
                    "CUTLASS FP4 activation quantization failed: {}",
                    Values::Zero,
                ),
            ],
        )
    }
}

/// The steps of [`CudaRuntime::swiglu_quantize_cutlass_nvfp4_activation_device`].
pub open spec fn swiglu_quantize_steps(
    gate: &DeviceBuffer<F32>,
    up: &DeviceBuffer<F32>,
    rows: usize,
    cols: usize,
    payload: &DeviceBuffer<u8>,
    scales: &DeviceBuffer<u8>,
) -> Result<Seq<StepView>, AegisError> {
    let expected_input = rows * cols;
    let expected_payload = payload_bytes(rows, cols)->Ok_0;
    let expected_scales = scale_bytes(rows, cols)->Ok_0;
    if expected_input > usize::MAX {
        Err(long_product("SwiGLU activation input", rows as int, cols as int))
    } else if payload_bytes(rows, cols) is Err {
        Err(payload_bytes(rows, cols)->Err_0)
    } else if scale_bytes(rows, cols) is Err {
        Err(scale_bytes(rows, cols)->Err_0)
    } else if gate.len() < expected_input || up.len() < expected_input || payload.len() < expected_payload || scales.len() < expected_scales {
        Err(AegisError::invalid_with(
                "CUTLASS NVFP4 SwiGLU quant buffers too small: gate={} up={} expected_input={} payload={} expected_payload={} scales={} expected_scales={}",
                Values::Seven(
                    Value::num(gate.len() as int),
                    Value::num(up.len() as int),
                    Value::num(expected_input as int),
                    Value::num(payload.len() as int),
                    Value::num(expected_payload as int),
                    Value::num(scales.len() as int),
                    Value::num(expected_scales as int),
                ),
            ))
    } else if rows > i32::MAX {
        Err(wide("rows", rows as int))
    } else if cols > i32::MAX {
        Err(wide("cols", cols as int))
    } else {
        Ok(
            seq![
                StepView::bridging(
                    BridgeEntry::SwigluQuantizeF32,
                    seq![
                        Arg::Buffer(Operand::GateOutput),
                        Arg::Buffer(Operand::UpOutput),
                        Arg::signed(rows as int),
                        Arg::signed(cols as int),
                        Arg::Buffer(Operand::ActivationPayload),
                        Arg::Buffer(Operand::ActivationScales),
                    ],
                    "CUTLASS FP4 SwiGLU activation quantization failed: {}",
                    Values::Zero,
                ),
            ],
        )
    }
}

/// The steps of [`CudaRuntime::matmul_cutlass_nvfp4_prepacked_prefill_device`].
pub open spec fn cutlass_prepacked_steps(
    linear: &DeviceNvfp4Linear,
    activation_payload: &DeviceBuffer<u8>,
    activation_scales: &DeviceBuffer<u8>,
    batch: usize,
    workspace_reply: Result<usize, String>,
    workspace: &DeviceBuffer<u8>,
    output: &DeviceBuffer<F32>,
) -> Result<Seq<StepView>, AegisError> {
    let weight = linear.cutlass_nvfp4->Some_0;
    let expected_a = payload_bytes(batch, linear.cols)->Ok_0;
    let expected_a_sf = scale_bytes(batch, linear.cols)->Ok_0;
    let expected_d = batch * linear.rows;
    let expected_b = linear.rows * (linear.cols as int / 2);
    let required = workspace_bytes(batch, linear.rows, linear.cols, workspace_reply)->Ok_0;
    if linear.cutlass_nvfp4 is None {
        Err(AegisError::invalid_with(
                "CUTLASS FP4 inference requested for `{}`, but no CUDA_R_4F_E2M1+UE4M3 resident layout was materialized",
                Values::One(Value::Name(linear.name)),
            ))
    } else if payload_bytes(batch, linear.cols) is Err {
        Err(payload_bytes(batch, linear.cols)->Err_0)
    } else if scale_bytes(batch, linear.cols) is Err {
        Err(scale_bytes(batch, linear.cols)->Err_0)
    } else if expected_d > usize::MAX {
        Err(long_product("output", batch as int, linear.rows as int))
    } else if activation_payload.len() < expected_a || activation_scales.len() < expected_a_sf || output.len() < expected_d {
        Err(AegisError::invalid_with(
                "CUTLASS FP4 GEMM buffers too small for `{}`: a={} expected_a={} a_sf={} expected_a_sf={} d={} expected_d={}",
                Values::Seven(
                    Value::Name(linear.name),
                    Value::num(activation_payload.len() as int),
                    Value::num(expected_a as int),
                    Value::num(activation_scales.len() as int),
                    Value::num(expected_a_sf as int),
                    Value::num(output.len() as int),
                    Value::num(expected_d as int),
                ),
            ))
    } else if weight.payload_e2m1.len() != expected_b || weight.layout.logical_n != linear.rows || weight.layout.logical_k != linear.cols {
        Err(AegisError::invalid_with(
                "CUTLASS FP4 resident weight shape mismatch for `{}`",
                Values::One(Value::Name(linear.name)),
            ))
    } else if workspace_bytes(batch, linear.rows, linear.cols, workspace_reply) is Err {
        Err(workspace_bytes(batch, linear.rows, linear.cols, workspace_reply)->Err_0)
    } else if workspace.len() < required || workspace.len() < 1 {
        Err(AegisError::invalid_with(
                "CUTLASS FP4 workspace too small for `{}`: got={} required={}",
                Values::Three(
                    Value::Name(linear.name),
                    Value::num(workspace.len() as int),
                    Value::num(required as int),
                ),
            ))
    } else if batch > i32::MAX {
        Err(wide("m", batch as int))
    } else if linear.rows > i32::MAX {
        Err(wide("n", linear.rows as int))
    } else if linear.cols > i32::MAX {
        Err(wide("k", linear.cols as int))
    } else {
        Ok(
            seq![
                StepView::bridging(
                    BridgeEntry::GemmF32,
                    seq![
                        Arg::Buffer(Operand::ActivationPayload),
                        Arg::Buffer(Operand::CutlassPayload),
                        Arg::Buffer(Operand::ActivationScales),
                        Arg::Buffer(Operand::CutlassScales),
                        Arg::Buffer(Operand::Output),
                        Arg::Buffer(Operand::Workspace),
                        Arg::Size(workspace.len()),
                        Arg::signed(batch as int),
                        Arg::signed(linear.rows as int),
                        Arg::signed(linear.cols as int),
                        Arg::Scalar(Scalar::OutputScale),
                    ],
                    "CUTLASS FP4 GEMM failed for `{}`: {}",
                    Values::One(Value::Name(linear.name)),
                ),
            ],
        )
    }
}

/// The steps of [`CudaRuntime::matmul_cutlass_nvfp4_pair_prepacked_prefill_device`].
pub open spec fn cutlass_pair_steps(
    first: &DeviceNvfp4Linear,
    second: &DeviceNvfp4Linear,
    activation_payload: &DeviceBuffer<u8>,
    activation_scales: &DeviceBuffer<u8>,
    batch: usize,
    workspace_replies: (Result<usize, String>, Result<usize, String>),
    workspace: &DeviceBuffer<u8>,
    first_output: &DeviceBuffer<F32>,
    second_output: &DeviceBuffer<F32>,
) -> Result<Seq<StepView>, AegisError> {
    let expected_a = payload_bytes(batch, first.cols)->Ok_0;
    let expected_a_sf = scale_bytes(batch, first.cols)->Ok_0;
    let expected_first = batch * first.rows;
    let expected_second = batch * second.rows;
    let first_bytes = workspace_bytes(batch, first.rows, first.cols, workspace_replies.0)->Ok_0;
    let second_bytes = workspace_bytes(batch, second.rows, second.cols, workspace_replies.1)->Ok_0;
    let required = if first_bytes >= second_bytes { first_bytes } else { second_bytes };
    if first.cols != second.cols {
        Err(AegisError::invalid_with(
                "CUTLASS FP4 paired GEMM shape mismatch: first={}x{} second={}x{}",
                Values::Four(
                    Value::num(first.rows as int),
                    Value::num(first.cols as int),
                    Value::num(second.rows as int),
                    Value::num(second.cols as int),
                ),
            ))
    } else if first.cutlass_nvfp4.is_none() {
        Err(AegisError::invalid_with(
                "CUTLASS FP4 paired GEMM requested for `{}`, but no resident layout was materialized",
                Values::One(Value::Name(first.name)),
            ))
    } else if second.cutlass_nvfp4.is_none() {
        Err(AegisError::invalid_with(
                "CUTLASS FP4 paired GEMM requested for `{}`, but no resident layout was materialized",
                Values::One(Value::Name(second.name)),
            ))
    } else if payload_bytes(batch, first.cols) is Err {
        Err(payload_bytes(batch, first.cols)->Err_0)
    } else if scale_bytes(batch, first.cols) is Err {
        Err(scale_bytes(batch, first.cols)->Err_0)
    } else if expected_first > usize::MAX {
        Err(long_product("paired first output", batch as int, first.rows as int))
    } else if expected_second > usize::MAX {
        Err(long_product("paired second output", batch as int, second.rows as int))
    } else if activation_payload.len() < expected_a || activation_scales.len() < expected_a_sf || first_output.len() < expected_first || second_output.len() < expected_second {
        Err(AegisError::invalid_with(
                "CUTLASS FP4 paired GEMM buffers too small: a={} expected_a={} a_sf={} expected_a_sf={} first_out={} expected_first={} second_out={} expected_second={}",
                Values::Eight(
                    Value::num(activation_payload.len() as int),
                    Value::num(expected_a as int),
                    Value::num(activation_scales.len() as int),
                    Value::num(expected_a_sf as int),
                    Value::num(first_output.len() as int),
                    Value::num(expected_first as int),
                    Value::num(second_output.len() as int),
                    Value::num(expected_second as int),
                ),
            ))
    } else if workspace_bytes(batch, first.rows, first.cols, workspace_replies.0) is Err {
        Err(workspace_bytes(batch, first.rows, first.cols, workspace_replies.0)->Err_0)
    } else if workspace_bytes(batch, second.rows, second.cols, workspace_replies.1) is Err {
        Err(workspace_bytes(batch, second.rows, second.cols, workspace_replies.1)->Err_0)
    } else if workspace.len() < required || workspace.len() < 1 {
        Err(AegisError::invalid_with(
                "CUTLASS FP4 paired workspace too small: got={} required={}",
                Values::Two(Value::num(workspace.len() as int), Value::num(required as int)),
            ))
    } else if batch > i32::MAX {
        Err(wide("m", batch as int))
    } else if first.rows > i32::MAX {
        Err(wide("first n", first.rows as int))
    } else if second.rows > i32::MAX {
        Err(wide("second n", second.rows as int))
    } else if first.cols > i32::MAX {
        Err(wide("k", first.cols as int))
    } else {
        Ok(
            seq![
                StepView::bridging(
                    BridgeEntry::Gemm2F32,
                    seq![
                        Arg::Buffer(Operand::ActivationPayload),
                        Arg::Buffer(Operand::CutlassPayload),
                        Arg::Buffer(Operand::SecondPayload),
                        Arg::Buffer(Operand::ActivationScales),
                        Arg::Buffer(Operand::CutlassScales),
                        Arg::Buffer(Operand::SecondScales),
                        Arg::Buffer(Operand::FirstOutput),
                        Arg::Buffer(Operand::SecondOutput),
                        Arg::Buffer(Operand::Workspace),
                        Arg::Size(workspace.len()),
                        Arg::signed(batch as int),
                        Arg::signed(first.rows as int),
                        Arg::signed(second.rows as int),
                        Arg::signed(first.cols as int),
                        Arg::Scalar(Scalar::FirstOutputScale),
                        Arg::Scalar(Scalar::SecondOutputScale),
                    ],
                    "CUTLASS FP4 paired GEMM failed for `{}` + `{}`: {}",
                    Values::Two(Value::Name(first.name), Value::Name(second.name)),
                ),
            ],
        )
    }
}

impl CudaRuntime {
    /// Quantizes the activations of every group for a grouped product.
    pub fn cutlass_moe_nvfp4_quantize_input_grouped(
        &self,
        cols: usize,
        num_groups: usize,
        max_padded_rows_per_group: usize,
    ) -> (plan: Result<Plan, AegisError>)
        ensures
            Plan::outcome(plan) =~~= quantize_grouped_steps(
                cols,
                num_groups,
                max_padded_rows_per_group,
            ),
    {
        let cols_word: i32 = i32_arg("cols", cols)?;
        let groups: i32 = i32_arg("num_groups", num_groups)?;
        let rows_word: i32 = i32_arg("max_padded_rows_per_group", max_padded_rows_per_group)?;
        Ok(
            Plan::bridge(
                BridgeEntry::MoeGroupedQuantizeInput,
                vec![
                    Arg::Buffer(Operand::Input),
                    Arg::I32(cols_word),
                    Arg::I32(groups),
                    Arg::Buffer(Operand::TokenOffsets),
                    Arg::Buffer(Operand::PayloadOffsets),
                    Arg::Buffer(Operand::ScaleOffsets),
                    Arg::I32(rows_word),
                    Arg::Buffer(Operand::ActivationPayload),
                    Arg::Buffer(Operand::ActivationScales),
                ],
                "{}",
                Values::Zero,
            ),
        )
    }

    /// Brings the weight scales of every group into the layout of a grouped product.
    pub fn cutlass_moe_nvfp4_swizzle_weight_scales_grouped(
        &self,
        rows_per_group: usize,
        src_cols: usize,
        num_groups: usize,
    ) -> (plan: Result<Plan, AegisError>)
        ensures
            Plan::outcome(plan) =~~= swizzle_grouped_steps(rows_per_group, src_cols, num_groups),
    {
        let rows_word: i32 = i32_arg("rows_per_group", rows_per_group)?;
        let cols_word: i32 = i32_arg("src_cols", src_cols)?;
        let groups: i32 = i32_arg("num_groups", num_groups)?;
        Ok(
            Plan::bridge(
                BridgeEntry::MoeGroupedSwizzleWeightScales,
                vec![
                    Arg::Buffer(Operand::Source),
                    Arg::I32(rows_word),
                    Arg::I32(cols_word),
                    Arg::I32(groups),
                    Arg::Buffer(Operand::SourceOffsets),
                    Arg::Buffer(Operand::DestinationOffsets),
                    Arg::Buffer(Operand::Destination),
                ],
                "{}",
                Values::Zero,
            ),
        )
    }

    /// Multiplies the matrices of every group.
    pub fn cutlass_moe_nvfp4_grouped_run(
        &self,
        num_groups: usize,
        workspace: &DeviceBuffer<u8>,
    ) -> (plan: Result<Plan, AegisError>)
        ensures
            Plan::outcome(plan) =~~= grouped_run_steps(num_groups, workspace),
    {
        let groups: i32 = i32_arg("num_groups", num_groups)?;
        Ok(
            Plan::bridge(
                BridgeEntry::MoeGroupedRun,
                vec![
                    Arg::I32(groups),
                    Arg::Buffer(Operand::ProblemShapes),
                    Arg::Null,
                    Arg::Buffer(Operand::APointers),
                    Arg::Buffer(Operand::BPointers),
                    Arg::Buffer(Operand::SfaPointers),
                    Arg::Buffer(Operand::SfbPointers),
                    Arg::Buffer(Operand::DPointers),
                    Arg::Buffer(Operand::StrideA),
                    Arg::Buffer(Operand::StrideB),
                    Arg::Buffer(Operand::StrideD),
                    Arg::Buffer(Operand::LayoutSfa),
                    Arg::Buffer(Operand::LayoutSfb),
                    Arg::Buffer(Operand::AlphaPointers),
                    Arg::Buffer(Operand::Workspace),
                    Arg::Size(workspace.len()),
                ],
                "{}",
                Values::Zero,
            ),
        )
    }

    /// Quantizes the activations of a single group, whose offsets stand in arrays of several
    /// groups. Each index names the first entry that is read: two entries of the token offsets,
    /// where the group's tokens start and end, and one of each of the others.
    pub fn cutlass_moe_nvfp4_quantize_input_single_strided(
        &self,
        cols: usize,
        token_offsets_idx: usize,
        payload_offsets_idx: usize,
        sfa_offsets_idx: usize,
        max_padded_rows_per_group: usize,
    ) -> (plan: Result<Plan, AegisError>)
        ensures
            Plan::outcome(plan) =~~= quantize_strided_steps(
                cols,
                token_offsets_idx,
                payload_offsets_idx,
                sfa_offsets_idx,
                max_padded_rows_per_group,
            ),
    {
        let cols_word: i32 = i32_arg("cols", cols)?;
        let rows_word: i32 = i32_arg("max_padded_rows_per_group", max_padded_rows_per_group)?;
        Ok(
            Plan::bridge(
                BridgeEntry::MoeGroupedQuantizeInput,
                vec![
                    Arg::Buffer(Operand::Input),
                    Arg::I32(cols_word),
                    Arg::I32(1),
                    Arg::Tail(Operand::TokenOffsets, token_offsets_idx),
                    Arg::Tail(Operand::PayloadOffsets, payload_offsets_idx),
                    Arg::Tail(Operand::ScaleOffsets, sfa_offsets_idx),
                    Arg::I32(rows_word),
                    Arg::Buffer(Operand::ActivationPayload),
                    Arg::Buffer(Operand::ActivationScales),
                ],
                "{}",
                Values::Zero,
            ),
        )
    }

    /// Quantizes activations to four bits, with a scale per block of sixteen.
    pub fn quantize_cutlass_nvfp4_activation_device(
        &self,
        input: &DeviceBuffer<F32>,
        rows: usize,
        cols: usize,
        payload: &DeviceBuffer<u8>,
        scales: &DeviceBuffer<u8>,
    ) -> (plan: Result<Plan, AegisError>)
        requires
            runtime::blocks(rows as int, 128) * 128 <= usize::MAX,
        ensures
            Plan::outcome(plan) =~~= quantize_activation_steps(input, rows, cols, payload, scales),
    {
        let expected_input: usize = checked_len("activation input", rows, cols)?;
        let expected_payload: usize = Self::cutlass_nvfp4_activation_payload_bytes(rows, cols)?;
        let expected_scales: usize = Self::cutlass_nvfp4_activation_scale_bytes(rows, cols)?;
        if input.len() < expected_input || payload.len() < expected_payload || scales.len() < expected_scales {
            return Err(invalid_plan(
                "CUTLASS NVFP4 activation quant buffers too small: input={} expected_input={} payload={} expected_payload={} scales={} expected_scales={}",
                Values::Six(
                    number(input.len()),
                    number(expected_input),
                    number(payload.len()),
                    number(expected_payload),
                    number(scales.len()),
                    number(expected_scales),
                ),
            ));
        }
        let row_word: i32 = i32_arg("rows", rows)?;
        let col_word: i32 = i32_arg("cols", cols)?;
        Ok(
            Plan::bridge(
                BridgeEntry::QuantizeF32,
                vec![
                    Arg::Buffer(Operand::Input),
                    Arg::I32(row_word),
                    Arg::I32(col_word),
                    Arg::Buffer(Operand::ActivationPayload),
                    Arg::Buffer(Operand::ActivationScales),
                ],
                "CUTLASS FP4 activation quantization failed: {}",
                Values::Zero,
            ),
        )
    }

    /// Gates activations and quantizes them to four bits.
    pub fn swiglu_quantize_cutlass_nvfp4_activation_device(
        &self,
        gate: &DeviceBuffer<F32>,
        up: &DeviceBuffer<F32>,
        rows: usize,
        cols: usize,
        payload: &DeviceBuffer<u8>,
        scales: &DeviceBuffer<u8>,
    ) -> (plan: Result<Plan, AegisError>)
        requires
            runtime::blocks(rows as int, 128) * 128 <= usize::MAX,
        ensures
            Plan::outcome(plan) =~~= swiglu_quantize_steps(gate, up, rows, cols, payload, scales),
    {
        let expected_input: usize = checked_len("SwiGLU activation input", rows, cols)?;
        let expected_payload: usize = Self::cutlass_nvfp4_activation_payload_bytes(rows, cols)?;
        let expected_scales: usize = Self::cutlass_nvfp4_activation_scale_bytes(rows, cols)?;
        if gate.len() < expected_input || up.len() < expected_input || payload.len() < expected_payload || scales.len() < expected_scales {
            return Err(invalid_plan(
                "CUTLASS NVFP4 SwiGLU quant buffers too small: gate={} up={} expected_input={} payload={} expected_payload={} scales={} expected_scales={}",
                Values::Seven(
                    number(gate.len()),
                    number(up.len()),
                    number(expected_input),
                    number(payload.len()),
                    number(expected_payload),
                    number(scales.len()),
                    number(expected_scales),
                ),
            ));
        }
        let row_word: i32 = i32_arg("rows", rows)?;
        let col_word: i32 = i32_arg("cols", cols)?;
        Ok(
            Plan::bridge(
                BridgeEntry::SwigluQuantizeF32,
                vec![
                    Arg::Buffer(Operand::GateOutput),
                    Arg::Buffer(Operand::UpOutput),
                    Arg::I32(row_word),
                    Arg::I32(col_word),
                    Arg::Buffer(Operand::ActivationPayload),
                    Arg::Buffer(Operand::ActivationScales),
                ],
                "CUTLASS FP4 SwiGLU activation quantization failed: {}",
                Values::Zero,
            ),
        )
    }

    /// Multiplies `batch` quantized vectors by weights that are laid out for CUTLASS.
    /// `workspace_reply` is what the bridge answers to the workspace query.
    pub fn matmul_cutlass_nvfp4_prepacked_prefill_device(
        &self,
        linear: &DeviceNvfp4Linear,
        activation_payload: &DeviceBuffer<u8>,
        activation_scales: &DeviceBuffer<u8>,
        batch: usize,
        workspace_reply: Result<usize, String>,
        workspace: &DeviceBuffer<u8>,
        output: &DeviceBuffer<F32>,
    ) -> (plan: Result<Plan, AegisError>)
        requires
            runtime::blocks(batch as int, 128) * 128 <= usize::MAX,
            linear.rows * (linear.cols as int / 2) <= usize::MAX,
        ensures
            Plan::outcome(plan) =~~= cutlass_prepacked_steps(
                linear,
                activation_payload,
                activation_scales,
                batch,
                workspace_reply,
                workspace,
                output,
            ),
    {
        let weight = match &linear.cutlass_nvfp4 {
            Some(weight) => weight,
            None => {
                return Err(invalid_plan(
                    "CUTLASS FP4 inference requested for `{}`, but no CUDA_R_4F_E2M1+UE4M3 resident layout was materialized",
                    Values::One(Value::Name(linear.name.clone())),
                ));
            },
        };
        let expected_a: usize = Self::cutlass_nvfp4_activation_payload_bytes(batch, linear.cols)?;
        let expected_a_sf: usize = Self::cutlass_nvfp4_activation_scale_bytes(batch, linear.cols)?;
        let expected_d: usize = checked_len("output", batch, linear.rows)?;
        if activation_payload.len() < expected_a || activation_scales.len() < expected_a_sf || output.len() < expected_d {
            return Err(invalid_plan(
                "CUTLASS FP4 GEMM buffers too small for `{}`: a={} expected_a={} a_sf={} expected_a_sf={} d={} expected_d={}",
                Values::Seven(
                    Value::Name(linear.name.clone()),
                    number(activation_payload.len()),
                    number(expected_a),
                    number(activation_scales.len()),
                    number(expected_a_sf),
                    number(output.len()),
                    number(expected_d),
                ),
            ));
        }
        let expected_b: usize = linear.rows * (linear.cols / 2);
        if weight.payload_e2m1.len() != expected_b || weight.layout.logical_n != linear.rows || weight.layout.logical_k != linear.cols {
            return Err(invalid_plan(
                "CUTLASS FP4 resident weight shape mismatch for `{}`",
                Values::One(Value::Name(linear.name.clone())),
            ));
        }
        let required: usize = self.cutlass_nvfp4_workspace_bytes(batch, linear.rows, linear.cols, workspace_reply)?;
        if workspace.len() < required || workspace.len() < 1 {
            return Err(invalid_plan(
                "CUTLASS FP4 workspace too small for `{}`: got={} required={}",
                Values::Three(
                    Value::Name(linear.name.clone()),
                    number(workspace.len()),
                    number(required),
                ),
            ));
        }
        let m: i32 = i32_arg("m", batch)?;
        let n: i32 = i32_arg("n", linear.rows)?;
        let k: i32 = i32_arg("k", linear.cols)?;
        Ok(
            Plan::bridge(
                BridgeEntry::GemmF32,
                vec![
                    Arg::Buffer(Operand::ActivationPayload),
                    Arg::Buffer(Operand::CutlassPayload),
                    Arg::Buffer(Operand::ActivationScales),
                    Arg::Buffer(Operand::CutlassScales),
                    Arg::Buffer(Operand::Output),
                    Arg::Buffer(Operand::Workspace),
                    Arg::Size(workspace.len()),
                    Arg::I32(m),
                    Arg::I32(n),
                    Arg::I32(k),
                    Arg::Scalar(Scalar::OutputScale),
                ],
                "CUTLASS FP4 GEMM failed for `{}`: {}",
                Values::One(Value::Name(linear.name.clone())),
            ),
        )
    }

    /// Multiplies `batch` quantized vectors by the weights of two layers. `workspace_replies`
    /// is what the bridge answers to the workspace query of each.
    pub fn matmul_cutlass_nvfp4_pair_prepacked_prefill_device(
        &self,
        first: &DeviceNvfp4Linear,
        second: &DeviceNvfp4Linear,
        activation_payload: &DeviceBuffer<u8>,
        activation_scales: &DeviceBuffer<u8>,
        batch: usize,
        workspace_replies: (Result<usize, String>, Result<usize, String>),
        workspace: &DeviceBuffer<u8>,
        first_output: &DeviceBuffer<F32>,
        second_output: &DeviceBuffer<F32>,
    ) -> (plan: Result<Plan, AegisError>)
        requires
            runtime::blocks(batch as int, 128) * 128 <= usize::MAX,
        ensures
            Plan::outcome(plan) =~~= cutlass_pair_steps(
                first,
                second,
                activation_payload,
                activation_scales,
                batch,
                workspace_replies,
                workspace,
                first_output,
                second_output,
            ),
    {
        if first.cols != second.cols {
            return Err(invalid_plan(
                "CUTLASS FP4 paired GEMM shape mismatch: first={}x{} second={}x{}",
                Values::Four(
                    number(first.rows),
                    number(first.cols),
                    number(second.rows),
                    number(second.cols),
                ),
            ));
        }
        if first.cutlass_nvfp4.is_none() {
            return Err(invalid_plan(
                "CUTLASS FP4 paired GEMM requested for `{}`, but no resident layout was materialized",
                Values::One(Value::Name(first.name.clone())),
            ));
        }
        if second.cutlass_nvfp4.is_none() {
            return Err(invalid_plan(
                "CUTLASS FP4 paired GEMM requested for `{}`, but no resident layout was materialized",
                Values::One(Value::Name(second.name.clone())),
            ));
        }
        let expected_a: usize = Self::cutlass_nvfp4_activation_payload_bytes(batch, first.cols)?;
        let expected_a_sf: usize = Self::cutlass_nvfp4_activation_scale_bytes(batch, first.cols)?;
        let expected_first: usize = checked_len("paired first output", batch, first.rows)?;
        let expected_second: usize = checked_len("paired second output", batch, second.rows)?;
        if activation_payload.len() < expected_a || activation_scales.len() < expected_a_sf || first_output.len() < expected_first || second_output.len() < expected_second {
            return Err(invalid_plan(
                "CUTLASS FP4 paired GEMM buffers too small: a={} expected_a={} a_sf={} expected_a_sf={} first_out={} expected_first={} second_out={} expected_second={}",
                Values::Eight(
                    number(activation_payload.len()),
                    number(expected_a),
                    number(activation_scales.len()),
                    number(expected_a_sf),
                    number(first_output.len()),
                    number(expected_first),
                    number(second_output.len()),
                    number(expected_second),
                ),
            ));
        }
        let first_bytes: usize = self.cutlass_nvfp4_workspace_bytes(batch, first.rows, first.cols, workspace_replies.0)?;
        let second_bytes: usize = self.cutlass_nvfp4_workspace_bytes(batch, second.rows, second.cols, workspace_replies.1)?;
        let required: usize = if first_bytes >= second_bytes { first_bytes } else { second_bytes };
        if workspace.len() < required || workspace.len() < 1 {
            return Err(invalid_plan(
                "CUTLASS FP4 paired workspace too small: got={} required={}",
                Values::Two(number(workspace.len()), number(required)),
            ));
        }
        let m: i32 = i32_arg("m", batch)?;
        let first_n: i32 = i32_arg("first n", first.rows)?;
        let second_n: i32 = i32_arg("second n", second.rows)?;
        let k: i32 = i32_arg("k", first.cols)?;
        Ok(
            Plan::bridge(
                BridgeEntry::Gemm2F32,
                vec![
                    Arg::Buffer(Operand::ActivationPayload),
                    Arg::Buffer(Operand::CutlassPayload),
                    Arg::Buffer(Operand::SecondPayload),
                    Arg::Buffer(Operand::ActivationScales),
                    Arg::Buffer(Operand::CutlassScales),
                    Arg::Buffer(Operand::SecondScales),
                    Arg::Buffer(Operand::FirstOutput),
                    Arg::Buffer(Operand::SecondOutput),
                    Arg::Buffer(Operand::Workspace),
                    Arg::Size(workspace.len()),
                    Arg::I32(m),
                    Arg::I32(first_n),
                    Arg::I32(second_n),
                    Arg::I32(k),
                    Arg::Scalar(Scalar::FirstOutputScale),
                    Arg::Scalar(Scalar::SecondOutputScale),
                ],
                "CUTLASS FP4 paired GEMM failed for `{}` + `{}`: {}",
                Values::Two(Value::Name(first.name.clone()), Value::Name(second.name.clone())),
            ),
        )
    }
}

impl CudaRuntime {
    /// Quantizes `batch` vectors, and multiplies them by weights that are laid out for
    /// CUTLASS.
    pub fn matmul_cutlass_nvfp4_prefill_device(
        &self,
        linear: &DeviceNvfp4Linear,
        input: &DeviceBuffer<F32>,
        batch: usize,
        activation_payload: &DeviceBuffer<u8>,
        activation_scales: &DeviceBuffer<u8>,
        workspace_reply: Result<usize, String>,
        workspace: &DeviceBuffer<u8>,
        output: &DeviceBuffer<F32>,
    ) -> (plan: Result<Plan, AegisError>)
        requires
            runtime::blocks(batch as int, 128) * 128 <= usize::MAX,
            linear.rows * (linear.cols as int / 2) <= usize::MAX,
        ensures
            Plan::outcome(plan) == match quantize_activation_steps(
                input,
                batch,
                linear.cols,
                activation_payload,
                activation_scales,
            ) {
                Ok(steps) => Ok(
                    Plan::spec_then(
                        steps,
                        cutlass_prepacked_steps(
                            linear,
                            activation_payload,
                            activation_scales,
                            batch,
                            workspace_reply,
                            workspace,
                            output,
                        ),
                    ),
                ),
                Err(error) => Err(error),
            },
    {
        let quantize = self.quantize_cutlass_nvfp4_activation_device(
            input,
            batch,
            linear.cols,
            activation_payload,
            activation_scales,
        )?;
        let product = self.matmul_cutlass_nvfp4_prepacked_prefill_device(
            linear,
            activation_payload,
            activation_scales,
            batch,
            workspace_reply,
            workspace,
            output,
        );
        Ok(quantize.then_outcome(product))
    }
}

} // verus!
