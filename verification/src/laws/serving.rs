//! What is served: every request whose buffers hold what it takes, and no other.
use crate::config::CudaPrefillAttentionKernel;
use crate::error::AegisError;
use crate::launch::{Operand, Scalar};
use crate::runtime::attention::decode::{self, DecodeTexts, SplitTexts};
use crate::runtime::attention::prefill_dense::BatchedPrefill;
use crate::runtime::{self, cublaslt, cutlass, kv, linear, moe_gpu_driven};
use crate::types::{
    DensePrefillMetadataProof, DeviceBf16Matrix, DeviceBuffer, DeviceNvfp4Linear, MoeDeviceTables,
    StandaloneFp8Linear, F32,
};
use vstd::prelude::*;

verus! {

/// Both caches hold `context_size` rows of `kv_width` elements, no more and no less.
pub open spec fn caches_are_whole(keys: int, values: int, context_size: int, kv_width: int) -> bool {
    keys == context_size * kv_width && values == context_size * kv_width
}

/// Keys and values of one position are stored where the caches are whole and the rows are
/// there; with FP8 caches the rows are exactly one position's.
pub proof fn rows_are_stored_into_whole_caches(
    key_cache: &DeviceBuffer<u16>,
    value_cache: &DeviceBuffer<u16>,
    fp8_key_cache: &DeviceBuffer<u8>,
    fp8_value_cache: &DeviceBuffer<u8>,
    key: &DeviceBuffer<F32>,
    value: &DeviceBuffer<F32>,
    p_position: &DeviceBuffer<u32>,
    kv_width: usize,
    context_size: usize,
)
    ensures
        kv::store_ptr_steps(key_cache, value_cache, key, value, p_position, kv_width, context_size)
            is Ok <==> caches_are_whole(
            key_cache.len() as int,
            value_cache.len() as int,
            context_size as int,
            kv_width as int,
        ) && kv_width <= key.len() && kv_width <= value.len() && kv_width <= u32::MAX,
        kv::store_fp8_ptr_steps(
            fp8_key_cache,
            fp8_value_cache,
            key,
            value,
            p_position,
            kv_width,
            context_size,
        ) is Ok <==> caches_are_whole(
            fp8_key_cache.len() as int,
            fp8_value_cache.len() as int,
            context_size as int,
            kv_width as int,
        ) && kv_width == key.len() && kv_width == value.len() && kv_width <= u32::MAX,
{
}

/// The proof speaks of `batch` tokens within the context.
pub open spec fn is_proven(proven: DensePrefillMetadataProof, batch: int, context_size: int) -> bool {
    proven.batch == batch && proven.context_len <= context_size
}

/// Keys and values of a batch are stored by their slots where the caches are whole, every
/// token has a row and a slot, and the batch is the one that was proven.
pub proof fn slots_are_stored_into_whole_caches(
    key_cache: &DeviceBuffer<u16>,
    value_cache: &DeviceBuffer<u16>,
    fp8_key_cache: &DeviceBuffer<u8>,
    fp8_value_cache: &DeviceBuffer<u8>,
    key: &DeviceBuffer<F32>,
    value: &DeviceBuffer<F32>,
    slot_mapping: &DeviceBuffer<u32>,
    batch: usize,
    kv_width: usize,
    context_size: usize,
    proven: DensePrefillMetadataProof,
)
    ensures
        ({
            let served = batch * kv_width <= key.len() && batch * kv_width <= value.len() && batch
                <= slot_mapping.len() && is_proven(proven, batch as int, context_size as int)
                && batch <= u32::MAX && kv_width <= u32::MAX && context_size <= u32::MAX;
            &&& kv::store_slots_steps(
                key_cache,
                value_cache,
                key,
                value,
                slot_mapping,
                batch,
                kv_width,
                context_size,
                proven,
            ) is Ok <==> served && caches_are_whole(
                key_cache.len() as int,
                value_cache.len() as int,
                context_size as int,
                kv_width as int,
            )
            &&& kv::store_fp8_slots_steps(
                fp8_key_cache,
                fp8_value_cache,
                key,
                value,
                slot_mapping,
                batch,
                kv_width,
                context_size,
                proven,
            ) is Ok <==> served && caches_are_whole(
                fp8_key_cache.len() as int,
                fp8_value_cache.len() as int,
                context_size as int,
                kv_width as int,
            )
        }),
{
}

/// Rotated keys are stored where heads come in pairs of elements besides; with FP8 caches
/// a head has at most 256 elements.
pub proof fn rotated_rows_are_stored_into_whole_caches(
    key_cache: &DeviceBuffer<u16>,
    value_cache: &DeviceBuffer<u16>,
    fp8_key_cache: &DeviceBuffer<u8>,
    fp8_value_cache: &DeviceBuffer<u8>,
    key: &DeviceBuffer<F32>,
    value: &DeviceBuffer<F32>,
    positions: &DeviceBuffer<u32>,
    slot_mapping: &DeviceBuffer<u32>,
    batch: usize,
    num_heads: usize,
    head_dim: usize,
    context_size: usize,
    proven: DensePrefillMetadataProof,
)
    ensures
        ({
            let kv_width = num_heads * head_dim;
            let served = 0 < num_heads <= u32::MAX && 0 < head_dim <= u32::MAX && head_dim as int % 2
                == 0 && kv_width <= u32::MAX && batch * kv_width <= key.len() && batch * kv_width
                <= value.len() && batch <= positions.len() && batch <= slot_mapping.len()
                && is_proven(proven, batch as int, context_size as int) && batch <= u32::MAX
                && context_size <= u32::MAX;
            &&& kv::store_rope_steps(
                key_cache,
                value_cache,
                key,
                value,
                positions,
                slot_mapping,
                batch,
                num_heads,
                head_dim,
                context_size,
                proven,
            ) is Ok <==> served && caches_are_whole(
                key_cache.len() as int,
                value_cache.len() as int,
                context_size as int,
                kv_width,
            )
            &&& kv::store_fp8_rope_steps(
                fp8_key_cache,
                fp8_value_cache,
                key,
                value,
                positions,
                slot_mapping,
                batch,
                num_heads,
                head_dim,
                context_size,
                proven,
            ) is Ok <==> served && head_dim <= 256 && caches_are_whole(
                fp8_key_cache.len() as int,
                fp8_value_cache.len() as int,
                context_size as int,
                kv_width,
            )
        }),
{
}

/// Experts are gathered where every slot has room for the three projections and their scales.
pub proof fn experts_are_gathered_where_there_is_room(
    top_k: usize,
    num_experts: usize,
    tables: &MoeDeviceTables,
    bulk_packed: &DeviceBuffer<u8>,
    bulk_scales: &DeviceBuffer<u8>,
    slot_in_scale: &DeviceBuffer<F32>,
    slot_out_scale: &DeviceBuffer<F32>,
)
    ensures
        moe_gpu_driven::moe_gather_steps(
            top_k,
            num_experts,
            tables,
            bulk_packed,
            bulk_scales,
            slot_in_scale,
            slot_out_scale,
        ) is Ok <==> (tables.gate_packed_bytes + tables.up_packed_bytes + tables.down_packed_bytes)
            * top_k <= bulk_packed.len() && (tables.gate_scale_bytes + tables.up_scale_bytes
            + tables.down_scale_bytes) * top_k <= bulk_scales.len() && 3 * top_k
            <= slot_in_scale.len() && 3 * top_k <= slot_out_scale.len(),
{
}

/// One slot's projection is multiplied where its bytes, its scale, the input and the output
/// are there.
pub proof fn one_slot_is_served(
    bulk_packed: &DeviceBuffer<u8>,
    bulk_scales: &DeviceBuffer<u8>,
    packed_offset: usize,
    packed_bytes: usize,
    scales_offset: usize,
    scale_bytes: usize,
    rows: usize,
    cols: usize,
    slot_out_scale: &DeviceBuffer<F32>,
    slot_proj: usize,
    quantized_input: &DeviceBuffer<F32>,
    output: &DeviceBuffer<F32>,
)
    ensures
        moe_gpu_driven::prequantized_dptr_steps(
            bulk_packed,
            bulk_scales,
            packed_offset,
            packed_bytes,
            scales_offset,
            scale_bytes,
            rows,
            cols,
            slot_out_scale,
            slot_proj,
            quantized_input,
            output,
        ) is Ok <==> packed_offset + packed_bytes <= bulk_packed.len() && scales_offset
            + scale_bytes <= bulk_scales.len() && slot_proj < slot_out_scale.len() && cols
            <= quantized_input.len() && rows <= output.len(),
{
}

/// A row of `len` elements for every slot fits one for each `stride` elements.
pub open spec fn slots_fit(elements: int, stride: int, len: int, top_k: int) -> bool {
    len <= stride && top_k * stride <= elements
}

/// The slots of all chosen experts are quantized, multiplied, activated and added up where
/// there is a row for each; one input row may serve them all.
pub proof fn all_slots_are_served(
    bulk_packed: &DeviceBuffer<u8>,
    bulk_scales: &DeviceBuffer<u8>,
    per_slot_packed: usize,
    per_slot_scale: usize,
    proj_packed_off: usize,
    proj_scale_off: usize,
    input: &DeviceBuffer<F32>,
    input_stride: usize,
    rows: usize,
    cols: usize,
    slot_scale: &DeviceBuffer<F32>,
    proj_off: usize,
    output_stride: usize,
    top_k: usize,
    output: &DeviceBuffer<F32>,
    fast: bool,
)
    ensures
        moe_gpu_driven::quantize_batched_dptr_steps(
            input,
            input_stride,
            cols,
            output_stride,
            slot_scale,
            proj_off,
            top_k,
            output,
        ) is Ok <==> proj_off < 3 && top_k > 0 && slots_fit(
            output.len() as int,
            output_stride as int,
            cols as int,
            top_k as int,
        ) && (input_stride == 0 ==> cols <= input.len()) && (input_stride > 0 ==> slots_fit(
            input.len() as int,
            input_stride as int,
            cols as int,
            top_k as int,
        )) && 3 * top_k <= slot_scale.len(),
        moe_gpu_driven::prequantized_batched_dptr_steps(
            bulk_packed,
            bulk_scales,
            per_slot_packed,
            per_slot_scale,
            proj_packed_off,
            proj_scale_off,
            input,
            input_stride,
            rows,
            cols,
            slot_scale,
            proj_off,
            output_stride,
            top_k,
            output,
            fast,
        ) is Ok <==> proj_off < 3 && top_k > 0 && slots_fit(
            bulk_packed.len() as int,
            per_slot_packed as int,
            proj_packed_off + rows * (cols as int / 2),
            top_k as int,
        ) && slots_fit(
            bulk_scales.len() as int,
            per_slot_scale as int,
            proj_scale_off + rows * (cols as int / 16),
            top_k as int,
        ) && slots_fit(input.len() as int, input_stride as int, cols as int, top_k as int)
            && slots_fit(output.len() as int, output_stride as int, rows as int, top_k as int) && 3
            * top_k <= slot_scale.len(),
{
}

/// The slots are activated where both halves and the output have a row for each, and added
/// up where the sum has room and every slot has its number and weight.
pub proof fn all_slots_are_added_up(
    gate: &DeviceBuffer<F32>,
    up: &DeviceBuffer<F32>,
    output: &DeviceBuffer<F32>,
    chosen: &DeviceBuffer<u32>,
    len: usize,
    stride: usize,
    top_k: usize,
)
    ensures
        moe_gpu_driven::geglu_batched_steps(gate, up, len, stride, top_k, output) is Ok <==> top_k
            > 0 && slots_fit(gate.len() as int, stride as int, len as int, top_k as int)
            && slots_fit(up.len() as int, stride as int, len as int, top_k as int) && slots_fit(
            output.len() as int,
            stride as int,
            len as int,
            top_k as int,
        ),
        moe_gpu_driven::accumulate_steps(output, gate, stride, chosen, top_k, len) is Ok <==> top_k
            > 0 && len <= output.len() && slots_fit(
            gate.len() as int,
            stride as int,
            len as int,
            top_k as int,
        ) && 2 * top_k <= chosen.len(),
{
}

/// Rows of queries, keys and values side by side are split where every part has room.
pub proof fn fused_rows_are_split_where_there_is_room(
    qkv: &DeviceBuffer<F32>,
    batch: usize,
    q_rows: usize,
    kv_rows: usize,
    q_output: &DeviceBuffer<F32>,
    k_output: &DeviceBuffer<F32>,
    v_output: &DeviceBuffer<F32>,
)
    requires
        q_rows + 2 * kv_rows <= usize::MAX,
    ensures
        linear::split_qkv_steps(qkv, batch, q_rows, kv_rows, q_output, k_output, v_output) is Ok
            <==> batch * (q_rows + 2 * kv_rows) <= qkv.len() && batch * q_rows <= q_output.len()
            && batch * kv_rows <= k_output.len() && batch * kv_rows <= v_output.len() && batch * (
        q_rows + 2 * kv_rows) <= u32::MAX && batch <= u32::MAX && q_rows <= u32::MAX && kv_rows
            <= u32::MAX,
{
    assert(q_rows + kv_rows + kv_rows == q_rows + 2 * kv_rows);
}

/// FP8 weights are made of a matrix and restored to one where every buffer holds it.
pub proof fn fp8_matrices_are_converted_where_they_fit(
    linear: &StandaloneFp8Linear,
    bf16: &DeviceBuffer<u16>,
    rows: usize,
    cols: usize,
    fp8_out: &DeviceBuffer<u8>,
    row_scales_out: &DeviceBuffer<F32>,
)
    ensures
        linear::quantize_fp8_steps(bf16, rows, cols, fp8_out, row_scales_out) is Ok <==> rows * cols
            <= bf16.len() && rows * cols <= fp8_out.len() && rows <= row_scales_out.len() && rows
            <= u32::MAX && cols <= u32::MAX,
        linear::dequant_fp8_steps(linear, bf16) is Ok <==> linear.rows * linear.cols <= bf16.len()
            && linear.rows <= u32::MAX && linear.cols <= u32::MAX,
{
}

/// Rows are read by their indices where every index has an output row; on the device the
/// extents are 32-bit numbers besides.
pub proof fn rows_are_read_where_they_fit(
    matrix: &DeviceBf16Matrix,
    indices: &DeviceBuffer<u32>,
    batch: usize,
    output: &DeviceBuffer<F32>,
)
    ensures
        linear::bf16_rows_steps(matrix, indices, batch, output) is Ok <==> batch <= indices.len()
            && batch * matrix.cols <= output.len() && (matrix.host_values is None ==> batch
            <= u32::MAX && matrix.rows <= u32::MAX && matrix.cols <= u32::MAX),
{
}

/// The layer has native weights with 32-bit extents, in groups of 64 columns.
pub open spec fn is_native(linear: DeviceNvfp4Linear) -> bool {
    &&& linear.native_mxfp4 matches Some(native)
    &&& native.blocks_per_row <= u32::MAX
    &&& linear.rows <= u32::MAX
    &&& linear.cols <= u32::MAX
    &&& linear.cols as int % 64 == 0
}

/// Native weights multiply one vector that is exactly as long as the rows, and any number of
/// vectors that the buffers hold.
pub proof fn native_layers_serve_what_fits(
    layer: &DeviceNvfp4Linear,
    vector_bytes: Result<usize, AegisError>,
    input_mxfp4: &DeviceBuffer<u8>,
    batch: usize,
    output: &DeviceBuffer<F32>,
    weights: Operand,
    scale: Scalar,
    target: Operand,
)
    ensures
        linear::native_matvec_steps(layer, vector_bytes, input_mxfp4, output) is Ok <==> (
        vector_bytes matches Ok(bytes) && bytes == input_mxfp4.len()) && output.len() == layer.rows
            && layer.native_mxfp4 is Some && layer.cols as int % 64 == 0,
        linear::native_batched_steps(
            layer,
            vector_bytes,
            input_mxfp4,
            batch,
            output,
            weights,
            scale,
            target,
        ) is Ok <==> (vector_bytes matches Ok(bytes) && batch * bytes <= input_mxfp4.len()) && batch
            * layer.rows <= output.len() && is_native(*layer) && batch <= u32::MAX,
{
}

/// Projections that share their input are multiplied together where they have as many
/// columns, and every output has room.
pub proof fn grouped_layers_serve_what_fits(
    q_proj: &DeviceNvfp4Linear,
    k_proj: &DeviceNvfp4Linear,
    v_proj: &DeviceNvfp4Linear,
    vector_bytes: Result<usize, AegisError>,
    input_mxfp4: &DeviceBuffer<u8>,
    batch: usize,
    q_output: &DeviceBuffer<F32>,
    k_output: &DeviceBuffer<F32>,
    v_output: &DeviceBuffer<F32>,
)
    ensures
        linear::grouped_qkv_steps(
            q_proj,
            k_proj,
            v_proj,
            vector_bytes,
            input_mxfp4,
            batch,
            q_output,
            k_output,
            v_output,
        ) is Ok <==> is_native(*q_proj) && is_native(*k_proj) && is_native(*v_proj) && q_proj.cols
            == k_proj.cols && q_proj.cols == v_proj.cols && k_proj.rows == v_proj.rows && (
        vector_bytes matches Ok(bytes) && batch * bytes <= input_mxfp4.len()) && batch * q_proj.rows
            <= q_output.len() && batch * k_proj.rows <= k_output.len() && batch * v_proj.rows
            <= v_output.len() && batch <= u32::MAX,
        linear::grouped_gate_up_steps(
            q_proj,
            k_proj,
            vector_bytes,
            input_mxfp4,
            batch,
            q_output,
            k_output,
        ) is Ok <==> is_native(*q_proj) && is_native(*k_proj) && q_proj.cols == k_proj.cols && (
        vector_bytes matches Ok(bytes) && batch * bytes <= input_mxfp4.len()) && batch * q_proj.rows
            <= q_output.len() && batch * k_proj.rows <= k_output.len() && batch <= u32::MAX,
{
}

/// Products through cuBLASLt are made where input and output fit the buffers and their
/// half-precision copies.
pub proof fn library_products_serve_what_fits(
    matrix: &DeviceBf16Matrix,
    layer: &StandaloneFp8Linear,
    restored: &DeviceBuffer<u16>,
    input: &DeviceBuffer<F32>,
    batch: usize,
    input_bf16: &DeviceBuffer<u16>,
    output_bf16: &DeviceBuffer<u16>,
    output: &DeviceBuffer<F32>,
)
    ensures
        cublaslt::bf16_cublaslt_steps(matrix, input, batch, input_bf16, output_bf16, output) is Ok
            <==> matrix.host_values is None && batch * matrix.cols <= input.len() && batch
            * matrix.cols <= input_bf16.len() && batch * matrix.rows <= output.len() && batch
            * matrix.rows <= output_bf16.len(),
        cublaslt::fp8_cublaslt_steps(
            layer,
            restored,
            input,
            batch,
            input_bf16,
            output_bf16,
            output,
        ) is Ok <==> layer.rows * layer.cols <= restored.len() && layer.rows <= u32::MAX
            && layer.cols <= u32::MAX && batch * layer.cols <= input.len() && batch * layer.cols
            <= input_bf16.len() && batch * layer.rows <= output.len() && batch * layer.rows
            <= output_bf16.len(),
{
}

/// The bytes of quantized activations, if they are sizes.
pub open spec fn activations_fit(rows: usize, cols: usize, payload: int, scales: int) -> bool {
    &&& cutlass::payload_bytes(rows, cols) matches Ok(bytes) && bytes <= payload
    &&& cutlass::scale_bytes(rows, cols) matches Ok(bytes) && bytes <= scales
}

/// Activations are quantized for the bridge where both forms have room.
pub proof fn activations_are_quantized_where_they_fit(
    gate: &DeviceBuffer<F32>,
    up: &DeviceBuffer<F32>,
    rows: usize,
    cols: usize,
    payload: &DeviceBuffer<u8>,
    scales: &DeviceBuffer<u8>,
)
    ensures
        ({
            let served = activations_fit(rows, cols, payload.len() as int, scales.len() as int)
                && rows <= i32::MAX && cols <= i32::MAX && rows * cols <= gate.len();
            &&& cutlass::quantize_activation_steps(gate, rows, cols, payload, scales) is Ok
                <==> served
            &&& cutlass::swiglu_quantize_steps(gate, up, rows, cols, payload, scales) is Ok
                <==> served && rows * cols <= up.len()
        }),
{
}

/// The bridge multiplies where the layer is resident in its own extents, activations and
/// outputs fit, and the workspace is as large as is asked for, and not empty.
pub proof fn bridge_serves_what_fits(
    layer: &DeviceNvfp4Linear,
    payload: &DeviceBuffer<u8>,
    scales: &DeviceBuffer<u8>,
    batch: usize,
    reply: Result<usize, String>,
    workspace: &DeviceBuffer<u8>,
    output: &DeviceBuffer<F32>,
)
    ensures
        cutlass::cutlass_prepacked_steps(layer, payload, scales, batch, reply, workspace, output)
            is Ok <==> (layer.cutlass_nvfp4 matches Some(weight) && weight.payload_e2m1.len()
            == layer.rows * (layer.cols as int / 2) && weight.layout.logical_n == layer.rows
            && weight.layout.logical_k == layer.cols) && activations_fit(
            batch,
            layer.cols,
            payload.len() as int,
            scales.len() as int,
        ) && batch * layer.rows <= output.len() && (cutlass::workspace_bytes(
            batch,
            layer.rows,
            layer.cols,
            reply,
        ) matches Ok(bytes) && bytes <= workspace.len()) && 0 < workspace.len() && batch <= i32::MAX
            && layer.rows <= i32::MAX && layer.cols <= i32::MAX,
{
}

/// The bridge multiplies pairs where both fit one workspace.
pub proof fn bridge_serves_pairs_that_fit(
    first: &DeviceNvfp4Linear,
    second: &DeviceNvfp4Linear,
    payload: &DeviceBuffer<u8>,
    scales: &DeviceBuffer<u8>,
    batch: usize,
    replies: (Result<usize, String>, Result<usize, String>),
    workspace: &DeviceBuffer<u8>,
    first_output: &DeviceBuffer<F32>,
    second_output: &DeviceBuffer<F32>,
)
    ensures
        cutlass::cutlass_pair_steps(
            first,
            second,
            payload,
            scales,
            batch,
            replies,
            workspace,
            first_output,
            second_output,
        ) is Ok <==> first.cutlass_nvfp4 is Some && second.cutlass_nvfp4 is Some && first.cols
            == second.cols && activations_fit(
            batch,
            first.cols,
            payload.len() as int,
            scales.len() as int,
        ) && batch * first.rows <= first_output.len() && batch * second.rows <= second_output.len()
            && (cutlass::workspace_bytes(batch, first.rows, first.cols, replies.0) matches Ok(bytes)
            && bytes <= workspace.len()) && (cutlass::workspace_bytes(
            batch,
            second.rows,
            second.cols,
            replies.1,
        ) matches Ok(bytes) && bytes <= workspace.len()) && 0 < workspace.len() && batch <= i32::MAX
            && first.rows <= i32::MAX && second.rows <= i32::MAX && first.cols <= i32::MAX,
{
}

/// Decoding by a length on the device is served where heads are shared evenly and every
/// head has its query and output.
pub proof fn decoding_serves_what_fits(
    texts: DecodeTexts,
    query: int,
    output: int,
    heads: int,
    kv_heads: int,
    head_dim: int,
    window_size: int,
)
    requires
        0 <= query <= usize::MAX,
        0 <= output <= usize::MAX,
        0 <= heads,
        0 <= kv_heads,
        0 <= head_dim,
        0 <= window_size,
    ensures
        decode::decode_ptr_steps(texts, query, output, heads, kv_heads, head_dim, window_size) is Ok
            <==> 0 < heads <= u32::MAX && 0 < kv_heads <= u32::MAX && 0 < head_dim <= u32::MAX
            && heads % kv_heads == 0 && heads * head_dim <= query && heads * head_dim <= output
            && window_size <= u32::MAX,
{
}

/// Decoding in sixteen chunks is served where, besides, every head has its sixteen partial
/// results, and the scores of a chunk, of at least 512 positions, with four partial vectors
/// fit the shared memory.
pub proof fn split_decoding_serves_what_fits(
    texts: SplitTexts,
    key_cache: int,
    query: int,
    output: int,
    acc: int,
    m: int,
    l: int,
    heads: int,
    kv_heads: int,
    head_dim: int,
    window_size: int,
    seq_len_hint: int,
)
    requires
        0 <= key_cache <= u32::MAX,
        0 <= query <= usize::MAX,
        0 <= output <= usize::MAX,
        0 <= acc <= usize::MAX,
        0 <= m <= usize::MAX,
        0 <= l <= usize::MAX,
        0 < heads,
        0 < kv_heads,
        0 < head_dim,
        0 <= window_size,
        0 <= seq_len_hint,
    ensures
        decode::decode_split_steps(
            texts,
            key_cache,
            query,
            output,
            acc,
            m,
            l,
            heads,
            kv_heads,
            head_dim,
            window_size,
            seq_len_hint,
        ) is Ok <==> heads <= u32::MAX && kv_heads <= u32::MAX && heads % kv_heads == 0 && heads
            * head_dim <= query && heads * head_dim <= output && 16 * heads * head_dim <= acc && 16
            * heads <= m && 16 * heads <= l && window_size <= u32::MAX && 4 * (512 + 4 + 4
            * head_dim) <= 96 * 1024 && seq_len_hint <= 16 * (24 * 1024 - 4 - 4 * head_dim),
{
    runtime::lemma_blocks(seq_len_hint, 16);
    assert(heads * 16 * head_dim == 16 * heads * head_dim) by (nonlinear_arith);
    assert(kv_heads * head_dim >= 1) by (nonlinear_arith)
        requires
            kv_heads > 0,
            head_dim > 0,
    ;
    assert(key_cache / (kv_heads * head_dim) <= key_cache) by (nonlinear_arith)
        requires
            key_cache >= 0,
            kv_heads * head_dim >= 1,
    ;
}

/// Batched prefill is served where heads are shared evenly, every query has its row of
/// input and output, the keys and values of the chunk are there, and the caches hold all
/// positions up to the last query's; a setting that insists on the plain kernel keeps the
/// scores within 48 KiB.
pub proof fn prefill_serves_what_fits(
    request: BatchedPrefill<'_>,
    config: CudaPrefillAttentionKernel,
)
    requires
        request.key_cache.len() <= u32::MAX,
        request.start_position <= u32::MAX,
        request.head_dim <= 8192,
    ensures
        ({
            let heads = request.num_attention_heads as int;
            let kv_heads = request.num_kv_heads as int;
            let q_row = heads * request.head_dim;
            let kv_row = kv_heads * request.head_dim;
            let positions = request.start_position + request.batch;
            let fits = 0 < heads <= u32::MAX && 0 < kv_heads <= u32::MAX && heads % kv_heads == 0 && 0
                < request.head_dim && 0 < request.batch <= u32::MAX && request.batch * q_row
                <= request.query.len() && request.batch * q_row <= request.output.len()
                && request.batch * kv_row <= request.key_chunk.len() && request.batch * kv_row
                <= request.value_chunk.len() && positions * kv_row <= request.key_cache.len()
                && positions * kv_row <= request.value_cache.len();
            &&& request.steps(config) is Ok ==> fits
            &&& fits && 4 * (positions + 128) <= 48 * 1024 ==> request.steps(config) is Ok
            &&& fits && config is Continuation ==> request.steps(config) is Ok
        }),
{
    let heads = request.num_attention_heads as int;
    let kv_heads = request.num_kv_heads as int;
    let head_dim = request.head_dim as int;
    let batch = request.batch as int;
    let positions = request.start_position + request.batch;
    if 0 < heads && 0 < kv_heads && 0 < head_dim {
        assert(kv_heads * head_dim >= 1 && heads * head_dim >= 1) by (nonlinear_arith)
            requires
                heads > 0,
                kv_heads > 0,
                head_dim > 0,
        ;
        assert(batch > 0 ==> heads * head_dim <= batch * (heads * head_dim)) by (nonlinear_arith)
            requires
                heads * head_dim >= 1,
        ;
        assert(batch > 0 ==> kv_heads * head_dim <= batch * (kv_heads * head_dim))
            by (nonlinear_arith)
            requires
                kv_heads * head_dim >= 1,
        ;
        assert(positions <= positions * (kv_heads * head_dim)) by (nonlinear_arith)
            requires
                positions >= 0,
                kv_heads * head_dim >= 1,
        ;
        assert(request.key_cache.len() as int / (kv_heads * head_dim) <= request.key_cache.len())
            by (nonlinear_arith)
            requires
                kv_heads * head_dim >= 1,
                request.key_cache.len() >= 0,
        ;
    }
}

/// Calls for groups of experts are made where their extents are signed 32-bit numbers.
pub proof fn grouped_calls_serve_what_fits(
    rows: usize,
    cols: usize,
    groups: usize,
    most_rows: usize,
    tokens_from: usize,
    payload_from: usize,
    scales_from: usize,
    workspace: &DeviceBuffer<u8>,
)
    ensures
        cutlass::quantize_grouped_steps(cols, groups, most_rows) is Ok <==> cols <= i32::MAX
            && groups <= i32::MAX && most_rows <= i32::MAX,
        cutlass::quantize_strided_steps(cols, tokens_from, payload_from, scales_from, most_rows)
            is Ok <==> cols <= i32::MAX && most_rows <= i32::MAX,
        cutlass::swizzle_grouped_steps(rows, cols, groups) is Ok <==> rows <= i32::MAX && cols
            <= i32::MAX && groups <= i32::MAX,
        cutlass::grouped_run_steps(groups, workspace) is Ok <==> groups <= i32::MAX,
{
}

} // verus!
