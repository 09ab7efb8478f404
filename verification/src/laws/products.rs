//! What products through CUTLASS and cuBLASLt compute: every extent is where the other side
//! looks for it, and every matrix lies within its buffer.
use crate::error::AegisError;
use crate::kernels::{self, ScaledProduct};
use crate::launch::{Arg, BridgeView, Operand, Scalar, StepView};
use crate::runtime;
use crate::runtime::cublaslt;
use crate::runtime::cutlass;
use crate::runtime::cutlass_moe_smoke::{self, GroupedProblem};
use crate::types::{DeviceBf16Matrix, DeviceBuffer, DeviceNvfp4Linear, StandaloneFp8Linear, F32};
use vstd::prelude::*;

verus! {

/// Four-bit activations take half a byte each, and rows are whole blocks.
pub proof fn payload_is_half_a_byte_each(rows: usize, cols: usize)
    ensures
        cutlass::payload_bytes(rows, cols) matches Ok(bytes) ==> 2 * bytes == rows * cols
            && cols as int % 32 == 0,
        cutlass::payload_bytes(rows, cols) is Ok <==> cols as int % 32 == 0 && rows * (cols as int
            / 2) <= usize::MAX,
{
    let half = cols as int / 2;
    if cols as int % 32 == 0 {
        assert(cols == 2 * half);
        assert(rows * cols == 2 * (rows * half)) by (nonlinear_arith)
            requires
                cols == 2 * half,
        ;
        assert(rows * half >= 0) by (nonlinear_arith)
            requires
                half >= 0,
        ;
    }
}

/// The scales of four-bit rows: one for each sixteen values, in tiles of 128 rows by four
/// scales that hold them all, none of them in vain.
pub proof fn scales_come_in_tiles(rows: usize, cols: usize)
    ensures
        cutlass::scale_bytes(rows, cols) matches Ok(bytes) ==> exists|down: int, across: int|
            #![trigger kernels::tiled(down, 128, rows as int), kernels::tiled(
                across,
                4,
                cols as int / 16,
            )]
            bytes == 512 * (down * across) && kernels::tiled(down, 128, rows as int)
                && kernels::tiled(across, 4, cols as int / 16),
        cutlass::scale_bytes(rows, cols) matches Ok(bytes) ==> rows * (cols as int / 16) <= bytes,
{
    let down = runtime::blocks(rows as int, 128);
    let across = runtime::blocks(cols as int / 16, 4);
    super::prefill::lemma_tiled(rows as int, 128);
    super::prefill::lemma_tiled(cols as int / 16, 4);
    runtime::lemma_blocks(rows as int, 128);
    runtime::lemma_blocks(cols as int / 16, 4);
    assert((down * 128) * (across * 4) == 512 * (down * across)) by (nonlinear_arith);
    assert(rows * (cols as int / 16) <= (down * 128) * (across * 4)) by (nonlinear_arith)
        requires
            rows <= down * 128,
            0 <= cols as int / 16 <= across * 4,
            0 <= rows,
    ;
    assert(0 <= (down * 128) * (across * 4)) by (nonlinear_arith)
        requires
            0 <= down,
            0 <= across,
    ;
}

/// The bridge gets `m`, `n` and `k` in this order, and each of them as it is.
pub proof fn extents_keep_their_order(m: usize, n: usize, k: usize)
    ensures
        cutlass::problem_size(m, n, k) matches Ok(size) ==> size.0 == m && size.1 == n && size.2
            == k,
        cutlass::problem_size(m, n, k) is Ok <==> m <= i32::MAX && n <= i32::MAX && k <= i32::MAX,
{
}

/// A product fits what it was given: the output holds `m` rows of `n`, the activations `m`
/// rows of `k` with the scales of as many, and the weights are `n` rows of `k`.
pub open spec fn product_fits(
    work: ScaledProduct,
    linear: DeviceNvfp4Linear,
    payload: int,
    scales: int,
    output: int,
) -> bool {
    &&& work.m * work.n <= output
    &&& work.m * work.k <= 2 * payload
    &&& work.m * (work.k / 16) <= scales
    &&& cutlass::scale_bytes(work.m as usize, work.k as usize) matches Ok(bytes) && bytes <= scales
    &&& work.n == linear.rows
    &&& work.k == linear.cols
    &&& work.k % 32 == 0
}

/// Every product through the bridge: the activations are `m` rows of `k`, the weights `n` rows
/// of `k`, the output `m` rows of `n`, each within its buffer, and the workspace is as large
/// as was asked for these extents.
pub proof fn bridge_products_fit(
    linear: &DeviceNvfp4Linear,
    activation_payload: &DeviceBuffer<u8>,
    activation_scales: &DeviceBuffer<u8>,
    batch: usize,
    workspace_reply: Result<usize, String>,
    workspace: &DeviceBuffer<u8>,
    output: &DeviceBuffer<F32>,
)
    ensures
        cutlass::cutlass_prepacked_steps(
            linear,
            activation_payload,
            activation_scales,
            batch,
            workspace_reply,
            workspace,
            output,
        ) matches Ok(steps) ==> {
            &&& steps.len() == 1
            &&& steps[0] matches StepView::Bridge(call)
            &&& linear.cutlass_nvfp4 matches Some(weight)
            &&& {
                let work = kernels::bridge_product(call);
                &&& call.entry is GemmF32
                &&& call.args.len() == 11
                &&& work.activations == Arg::Buffer(Operand::ActivationPayload)
                &&& work.weights == Arg::Buffer(Operand::CutlassPayload)
                &&& work.activation_scales == Arg::Buffer(Operand::ActivationScales)
                &&& work.weight_scales == Arg::Buffer(Operand::CutlassScales)
                &&& work.output == Arg::Buffer(Operand::Output)
                &&& work.workspace == Arg::Buffer(Operand::Workspace)
                &&& work.workspace_bytes == workspace.len()
                &&& work.m == batch
                &&& work.scale == Arg::Scalar(Scalar::OutputScale)
                &&& product_fits(
                    work,
                    *linear,
                    activation_payload.len() as int,
                    activation_scales.len() as int,
                    output.len() as int,
                )
                &&& work.n == weight.layout.logical_n
                &&& work.k == weight.layout.logical_k
                &&& work.n * work.k == 2 * weight.payload_e2m1.len()
                &&& workspace.len() >= 1
                &&& workspace_reply matches Ok(asked) && asked <= workspace.len()
                &&& cutlass::workspace_bytes(
                    work.m as usize,
                    work.n as usize,
                    work.k as usize,
                    workspace_reply,
                ) == Ok::<_, AegisError>(workspace_reply->Ok_0)
            }
        },
{
    let outcome = cutlass::cutlass_prepacked_steps(
        linear,
        activation_payload,
        activation_scales,
        batch,
        workspace_reply,
        workspace,
        output,
    );
    if outcome is Ok {
        let rows = linear.rows as int;
        let cols = linear.cols as int;
        let call = outcome->Ok_0[0]->Bridge_0;
        let work = kernels::bridge_product(call);
        assert(work.m == batch && work.n == rows && work.k == cols);
        assert(batch * cols <= 2 * activation_payload.len() && cols % 32 == 0) by {
            payload_is_half_a_byte_each(batch, linear.cols);
        }
        assert(batch * (cols / 16) <= activation_scales.len()) by {
            scales_come_in_tiles(batch, linear.cols);
        }
        let half = cols / 2;
        assert(rows * cols == 2 * (rows * half)) by (nonlinear_arith)
            requires
                cols == 2 * half,
        ;
    }
}

/// A pair of products through the bridge: each fits its own weights and its own output, and
/// the workspace is as large as either needs.
pub proof fn bridge_pairs_fit(
    first: &DeviceNvfp4Linear,
    second: &DeviceNvfp4Linear,
    activation_payload: &DeviceBuffer<u8>,
    activation_scales: &DeviceBuffer<u8>,
    batch: usize,
    workspace_replies: (Result<usize, String>, Result<usize, String>),
    workspace: &DeviceBuffer<u8>,
    first_output: &DeviceBuffer<F32>,
    second_output: &DeviceBuffer<F32>,
)
    ensures
        cutlass::cutlass_pair_steps(
            first,
            second,
            activation_payload,
            activation_scales,
            batch,
            workspace_replies,
            workspace,
            first_output,
            second_output,
        ) matches Ok(steps) ==> {
            &&& steps.len() == 1
            &&& steps[0] matches StepView::Bridge(call)
            &&& {
                let one = kernels::bridge_pair(call, false);
                let two = kernels::bridge_pair(call, true);
                &&& call.entry is Gemm2F32
                &&& call.args.len() == 16
                &&& first.cutlass_nvfp4 is Some && second.cutlass_nvfp4 is Some
                &&& one.activations == Arg::Buffer(Operand::ActivationPayload)
                &&& one.activation_scales == Arg::Buffer(Operand::ActivationScales)
                &&& one.weights == Arg::Buffer(Operand::CutlassPayload)
                &&& one.weight_scales == Arg::Buffer(Operand::CutlassScales)
                &&& one.output == Arg::Buffer(Operand::FirstOutput)
                &&& one.scale == Arg::Scalar(Scalar::FirstOutputScale)
                &&& two.weights == Arg::Buffer(Operand::SecondPayload)
                &&& two.weight_scales == Arg::Buffer(Operand::SecondScales)
                &&& two.output == Arg::Buffer(Operand::SecondOutput)
                &&& two.scale == Arg::Scalar(Scalar::SecondOutputScale)
                &&& one.workspace == Arg::Buffer(Operand::Workspace)
                &&& one.workspace_bytes == workspace.len()
                &&& one.m == batch && two.m == batch
                &&& product_fits(
                    one,
                    *first,
                    activation_payload.len() as int,
                    activation_scales.len() as int,
                    first_output.len() as int,
                )
                &&& product_fits(
                    two,
                    *second,
                    activation_payload.len() as int,
                    activation_scales.len() as int,
                    second_output.len() as int,
                )
                &&& workspace.len() >= 1
                &&& workspace_replies.0 matches Ok(asked) && asked <= workspace.len()
                &&& workspace_replies.1 matches Ok(other) && other <= workspace.len()
            }
        },
{
    payload_is_half_a_byte_each(batch, first.cols);
    scales_come_in_tiles(batch, first.cols);
}

/// Quantizing activations reads `rows` rows of `cols` numbers, or of gates and ups, and leaves
/// half a byte for each and the scales of as many rows.
pub proof fn quantized_activations_fit(
    input: &DeviceBuffer<F32>,
    gate: &DeviceBuffer<F32>,
    up: &DeviceBuffer<F32>,
    rows: usize,
    cols: usize,
    payload: &DeviceBuffer<u8>,
    scales: &DeviceBuffer<u8>,
)
    ensures
        cutlass::quantize_activation_steps(input, rows, cols, payload, scales) matches Ok(steps)
            ==> {
            &&& steps.len() == 1
            &&& steps[0] matches StepView::Bridge(call)
            &&& call.entry is QuantizeF32
            &&& call.args.len() == 5
            &&& call.args[0] == Arg::Buffer(Operand::Input)
            &&& kernels::number(call.args[1]) == rows
            &&& kernels::number(call.args[2]) == cols
            &&& call.args[3] == Arg::Buffer(Operand::ActivationPayload)
            &&& call.args[4] == Arg::Buffer(Operand::ActivationScales)
            &&& rows * cols <= input.len()
            &&& rows * cols <= 2 * payload.len()
            &&& rows * (cols as int / 16) <= scales.len()
            &&& cutlass::scale_bytes(rows, cols) matches Ok(bytes) && bytes <= scales.len()
        },
        cutlass::swiglu_quantize_steps(gate, up, rows, cols, payload, scales) matches Ok(steps)
            ==> {
            &&& steps.len() == 1
            &&& steps[0] matches StepView::Bridge(call)
            &&& call.entry is SwigluQuantizeF32
            &&& call.args.len() == 6
            &&& call.args[0] == Arg::Buffer(Operand::GateOutput)
            &&& call.args[1] == Arg::Buffer(Operand::UpOutput)
            &&& kernels::number(call.args[2]) == rows
            &&& kernels::number(call.args[3]) == cols
            &&& call.args[4] == Arg::Buffer(Operand::ActivationPayload)
            &&& call.args[5] == Arg::Buffer(Operand::ActivationScales)
            &&& rows * cols <= gate.len()
            &&& rows * cols <= up.len()
            &&& rows * cols <= 2 * payload.len()
            &&& rows * (cols as int / 16) <= scales.len()
            &&& cutlass::scale_bytes(rows, cols) matches Ok(bytes) && bytes <= scales.len()
        },
{
    payload_is_half_a_byte_each(rows, cols);
    scales_come_in_tiles(rows, cols);
}

/// A call quantizes groups of rows: input, columns, groups, where each group's tokens, four-bit
/// rows and scales start, the rows of the largest, and what is filled.
pub open spec fn quantizes_groups(call: BridgeView, cols: int, groups: int, padded: int) -> bool {
    &&& call.entry is MoeGroupedQuantizeInput
    &&& call.args.len() == 9
    &&& call.args[0] == Arg::Buffer(Operand::Input)
    &&& kernels::number(call.args[1]) == cols
    &&& kernels::number(call.args[2]) == groups
    &&& kernels::number(call.args[6]) == padded
    &&& call.args[7] == Arg::Buffer(Operand::ActivationPayload)
    &&& call.args[8] == Arg::Buffer(Operand::ActivationScales)
}

/// A call brings the scales of groups of weights into tiles: source, rows and columns of a
/// group, groups, where each group's scales start in the source and in the destination.
pub open spec fn swizzles_groups(call: BridgeView, rows: int, cols: int, groups: int) -> bool {
    &&& call.entry is MoeGroupedSwizzleWeightScales
    &&& call.args.len() == 7
    &&& call.args[0] == Arg::Buffer(Operand::Source)
    &&& kernels::number(call.args[1]) == rows
    &&& kernels::number(call.args[2]) == cols
    &&& kernels::number(call.args[3]) == groups
    &&& call.args[4] == Arg::Buffer(Operand::SourceOffsets)
    &&& call.args[5] == Arg::Buffer(Operand::DestinationOffsets)
    &&& call.args[6] == Arg::Buffer(Operand::Destination)
}

/// A call multiplies groups: their number and shapes, the pointers to the activations, the
/// weights, the scales of either and the results, the strides of the three matrices, the
/// layouts of the scales, the pointers to the scales of the results, and the workspace.
pub open spec fn multiplies_groups(call: BridgeView, groups: int, workspace: int) -> bool {
    &&& call.entry is MoeGroupedRun
    &&& call.args.len() == 16
    &&& kernels::number(call.args[0]) == groups
    &&& call.args[1] == Arg::Buffer(Operand::ProblemShapes)
    &&& call.args[2] == Arg::Null
    &&& call.args[3] == Arg::Buffer(Operand::APointers)
    &&& call.args[4] == Arg::Buffer(Operand::BPointers)
    &&& call.args[5] == Arg::Buffer(Operand::SfaPointers)
    &&& call.args[6] == Arg::Buffer(Operand::SfbPointers)
    &&& call.args[7] == Arg::Buffer(Operand::DPointers)
    &&& call.args[8] == Arg::Buffer(Operand::StrideA)
    &&& call.args[9] == Arg::Buffer(Operand::StrideB)
    &&& call.args[10] == Arg::Buffer(Operand::StrideD)
    &&& call.args[11] == Arg::Buffer(Operand::LayoutSfa)
    &&& call.args[12] == Arg::Buffer(Operand::LayoutSfb)
    &&& call.args[13] == Arg::Buffer(Operand::AlphaPointers)
    &&& call.args[14] == Arg::Buffer(Operand::Workspace)
    &&& kernels::number(call.args[15]) == workspace
}

/// The grouped calls pass each extent at its place; a single group is a group like any other,
/// with its offsets read from its own place on.
pub proof fn grouped_calls_keep_their_extents(
    rows: usize,
    cols: usize,
    groups: usize,
    padded: usize,
    tokens_at: usize,
    payload_at: usize,
    scales_at: usize,
    workspace: &DeviceBuffer<u8>,
)
    ensures
        cutlass::quantize_grouped_steps(cols, groups, padded) matches Ok(steps) ==> {
            &&& steps.len() == 1
            &&& steps[0] matches StepView::Bridge(call)
            &&& quantizes_groups(call, cols as int, groups as int, padded as int)
            &&& call.args[3] == Arg::Buffer(Operand::TokenOffsets)
            &&& call.args[4] == Arg::Buffer(Operand::PayloadOffsets)
            &&& call.args[5] == Arg::Buffer(Operand::ScaleOffsets)
        },
        cutlass::quantize_strided_steps(
            cols,
            tokens_at,
            payload_at,
            scales_at,
            padded,
        ) matches Ok(steps) ==> {
            &&& steps.len() == 1
            &&& steps[0] matches StepView::Bridge(call)
            &&& quantizes_groups(call, cols as int, 1, padded as int)
            &&& call.args[3] == Arg::Tail(Operand::TokenOffsets, tokens_at)
            &&& call.args[4] == Arg::Tail(Operand::PayloadOffsets, payload_at)
            &&& call.args[5] == Arg::Tail(Operand::ScaleOffsets, scales_at)
        },
        cutlass::swizzle_grouped_steps(rows, cols, groups) matches Ok(steps) ==> {
            &&& steps.len() == 1
            &&& steps[0] matches StepView::Bridge(call)
            &&& swizzles_groups(call, rows as int, cols as int, groups as int)
        },
        cutlass::grouped_run_steps(groups, workspace) matches Ok(steps) ==> {
            &&& steps.len() == 1
            &&& steps[0] matches StepView::Bridge(call)
            &&& multiplies_groups(call, groups as int, workspace.len() as int)
        },
{
}

/// A trial of grouped products brings `n` rows of one scale for each sixteen weights into
/// tiles and quantizes rows of `k`, before the products run with nothing else in flight.
pub proof fn trials_keep_their_extents(
    problem: GroupedProblem,
    replies: Seq<Result<(usize, usize), String>>,
    workspace: usize,
)
    requires
        problem.wf(),
        cutlass_moe_smoke::padded(
            cutlass_moe_smoke::most_rows(problem.rows@, problem.rows@.len() as int),
        ) <= i32::MAX,
    ensures
        cutlass_moe_smoke::prepare_steps(problem, replies) matches Ok(steps) ==> {
            &&& steps.len() == 3
            &&& steps[0] matches StepView::Bridge(swizzle)
            &&& steps[1] matches StepView::Bridge(quantize)
            &&& swizzles_groups(
                swizzle,
                problem.n as int,
                problem.k as int / 16,
                problem.rows@.len() as int,
            )
            &&& quantizes_groups(
                quantize,
                problem.k as int,
                problem.rows@.len() as int,
                cutlass_moe_smoke::padded(
                    cutlass_moe_smoke::most_rows(problem.rows@, problem.rows@.len() as int),
                ),
            )
            &&& quantize.args[3] == Arg::Buffer(Operand::TokenOffsets)
            &&& quantize.args[4] == Arg::Buffer(Operand::PayloadOffsets)
            &&& quantize.args[5] == Arg::Buffer(Operand::ScaleOffsets)
            &&& steps[2] is Synchronize
        },
        ({
            let steps = cutlass_moe_smoke::run_steps(problem.rows@.len() as int, workspace);
            &&& steps.len() == 3
            &&& steps[0] is Synchronize && steps[2] is Synchronize
            &&& steps[1] matches StepView::Bridge(call)
            &&& multiplies_groups(call, problem.rows@.len() as int, workspace as int)
        }),
{
}

/// A product through cuBLASLt converts all inputs, reads weight `(i, j)` from row `i`, column
/// `j` of the row-major matrix and input `j` of vector `b` from its row, puts output `i` of
/// vector `b` into its row, all within their buffers, and converts all outputs back.
pub open spec fn multiplies_rows(
    steps: Seq<StepView>,
    weights: Operand,
    rows: int,
    cols: int,
    batch: int,
) -> bool {
    &&& steps.len() == 3
    &&& steps[0] matches StepView::ConvertToBf16 { input, len, output }
    &&& input == Operand::Input && output == Operand::InputBf16 && len == batch * cols
    &&& steps[1] matches StepView::Gemm(call)
    &&& steps[2] matches StepView::ConvertFromBf16 { input: product, len: made, output: result }
    &&& product == Operand::OutputBf16 && result == Operand::Output && made == batch * rows
    &&& call.weights.operand == weights && call.weights.start == 0
    &&& call.input.operand == Operand::InputBf16 && call.input.start == 0 && call.input.end
        == batch * cols
    &&& call.output.operand == Operand::OutputBf16 && call.output.start == 0 && call.output.end
        == batch * rows
    &&& call.shape.m == rows && call.shape.n == batch && call.shape.k == cols
    &&& forall|i: int, j: int|
        0 <= i < rows && 0 <= j < cols ==> #[trigger] call.shape.first_at(i, j) == i * cols + j
    &&& forall|j: int, b: int|
        0 <= j < cols && 0 <= b < batch ==> #[trigger] call.shape.second_at(j, b) == b * cols + j
            && b * cols + j < call.input.end
    &&& forall|i: int, b: int|
        0 <= i < rows && 0 <= b < batch ==> #[trigger] call.shape.product_at(i, b) == b * rows + i
            && b * rows + i < call.output.end
}

proof fn lemma_row_major(width: int, count: int)
    ensures
        forall|b: int, j: int|
            0 <= b < count && 0 <= j < width ==> 0 <= #[trigger] (b * width + j) < count * width,
{
    assert forall|b: int, j: int| 0 <= b < count && 0 <= j < width implies 0 <= #[trigger] (b
        * width + j) < count * width by {
        assert(0 <= b * width + j < count * width) by (nonlinear_arith)
            requires
                0 <= b < count,
                0 <= j < width,
        ;
    }
}

proof fn lemma_products(
    rows: usize,
    cols: usize,
    batch: usize,
    weights: Operand,
    weight_len: usize,
    in_len: usize,
    out_len: usize,
    failure: &'static str,
    name: String,
)
    requires
        rows <= i64::MAX,
        cols <= i64::MAX,
        in_len == batch * cols,
        out_len == batch * rows,
    ensures
        multiplies_rows(
            cublaslt::product_steps(
                rows,
                cols,
                batch,
                weights,
                weight_len,
                in_len,
                out_len,
                failure,
                name,
            ),
            weights,
            rows as int,
            cols as int,
            batch as int,
        ),
{
    lemma_row_major(cols as int, batch as int);
    lemma_row_major(rows as int, batch as int);
}

/// Products of BF16 matrices through cuBLASLt, of those in device memory only.
pub proof fn bf16_products_fit(
    weight: &DeviceBf16Matrix,
    input: &DeviceBuffer<F32>,
    batch: usize,
    input_bf16: &DeviceBuffer<u16>,
    output_bf16: &DeviceBuffer<u16>,
    output: &DeviceBuffer<F32>,
)
    requires
        weight.rows <= i64::MAX,
        weight.cols <= i64::MAX,
    ensures
        cublaslt::bf16_cublaslt_steps(
            weight,
            input,
            batch,
            input_bf16,
            output_bf16,
            output,
        ) matches Ok(steps) ==> {
            &&& weight.host_values is None
            &&& multiplies_rows(
                steps,
                Operand::MatrixValues,
                weight.rows as int,
                weight.cols as int,
                batch as int,
            )
            &&& steps[1]->Gemm_0.weights.end == weight.values.len()
            &&& batch * weight.cols <= input.len()
            &&& batch * weight.cols <= input_bf16.len()
            &&& batch * weight.rows <= output_bf16.len()
            &&& batch * weight.rows <= output.len()
        },
{
    let in_len = batch * weight.cols;
    let out_len = batch * weight.rows;
    assert(in_len >= 0 && out_len >= 0) by (nonlinear_arith)
        requires
            in_len == batch * weight.cols,
            out_len == batch * weight.rows,
    ;
    if in_len <= usize::MAX && out_len <= usize::MAX {
        lemma_products(
            weight.rows,
            weight.cols,
            batch,
            Operand::MatrixValues,
            weight.values.len(),
            in_len as usize,
            out_len as usize,
            "cuBLASLt BF16 matmul failed for `{}` (m={} n={} k={}): {}",
            weight.name,
        );
    }
}

/// Products of FP8 matrices through cuBLASLt: the weights are expanded first, all of them,
/// and the product reads what they were expanded to.
pub proof fn fp8_products_fit(
    weight: &StandaloneFp8Linear,
    scratch: &DeviceBuffer<u16>,
    input: &DeviceBuffer<F32>,
    batch: usize,
    input_bf16: &DeviceBuffer<u16>,
    output_bf16: &DeviceBuffer<u16>,
    output: &DeviceBuffer<F32>,
)
    requires
        weight.rows <= i64::MAX,
        weight.cols <= i64::MAX,
    ensures
        cublaslt::fp8_cublaslt_steps(
            weight,
            scratch,
            input,
            batch,
            input_bf16,
            output_bf16,
            output,
        ) matches Ok(steps) ==> {
            let expand = runtime::linear::dequant_fp8_steps(weight, scratch);
            &&& expand is Ok
            &&& steps.take(expand->Ok_0.len() as int) == expand->Ok_0
            &&& multiplies_rows(
                steps.skip(expand->Ok_0.len() as int),
                Operand::Bf16,
                weight.rows as int,
                weight.cols as int,
                batch as int,
            )
            &&& weight.rows * weight.cols <= scratch.len()
            &&& batch * weight.cols <= input.len()
            &&& batch * weight.cols <= input_bf16.len()
            &&& batch * weight.rows <= output_bf16.len()
            &&& batch * weight.rows <= output.len()
        },
{
    let in_len = batch * weight.cols;
    let out_len = batch * weight.rows;
    let elems = weight.rows * weight.cols;
    assert(in_len >= 0 && out_len >= 0 && elems >= 0) by (nonlinear_arith)
        requires
            in_len == batch * weight.cols,
            out_len == batch * weight.rows,
            elems == weight.rows * weight.cols,
    ;
    let outcome = cublaslt::fp8_cublaslt_steps(
        weight,
        scratch,
        input,
        batch,
        input_bf16,
        output_bf16,
        output,
    );
    if outcome is Ok {
        let steps = outcome->Ok_0;
        let expand = runtime::linear::dequant_fp8_steps(weight, scratch)->Ok_0;
        let failure = "fp8-dequant cuBLASLt BF16 matmul failed for `{}` (m={} n={} k={}): {}";
        let rest = cublaslt::product_steps(
            weight.rows,
            weight.cols,
            batch,
            Operand::Bf16,
            elems as usize,
            in_len as usize,
            out_len as usize,
            failure,
            weight.name,
        );
        lemma_products(
            weight.rows,
            weight.cols,
            batch,
            Operand::Bf16,
            elems as usize,
            in_len as usize,
            out_len as usize,
            failure,
            weight.name,
        );
        assert(steps == expand + rest);
        assert(steps.take(expand.len() as int) =~= expand);
        assert(steps.skip(expand.len() as int) =~= rest);
    }
}

} // verus!
