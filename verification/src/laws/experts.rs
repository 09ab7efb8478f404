//! What decoding with routed experts does: each slot gets the weights of one expert,
//! projection by projection, and is computed with them alone.
use crate::functions::Kernel;
use crate::kernels::{self, Projection, SlotMatvec};
use crate::launch::{Arg, Operand, Region, StepView};
use crate::runtime;
use crate::runtime::moe_gpu_driven;
use crate::types::{DeviceBuffer, MoeDeviceTables, F32};
use vstd::prelude::*;

verus! {

/// The table of pointers to the weights of a projection.
pub open spec fn packed_table(p: Projection) -> Operand {
    match p {
        Projection::Gate => Operand::GatePackedPtrs,
        Projection::Up => Operand::UpPackedPtrs,
        Projection::Down => Operand::DownPackedPtrs,
    }
}

/// The table of pointers to the scales of a projection.
pub open spec fn scale_table(p: Projection) -> Operand {
    match p {
        Projection::Gate => Operand::GateScalePtrs,
        Projection::Up => Operand::UpScalePtrs,
        Projection::Down => Operand::DownScalePtrs,
    }
}

/// The scales of a projection on the way in.
pub open spec fn in_table(p: Projection) -> Operand {
    match p {
        Projection::Gate => Operand::GateInScale,
        Projection::Up => Operand::UpInScale,
        Projection::Down => Operand::DownInScale,
    }
}

/// The scales of a projection on the way out.
pub open spec fn out_table(p: Projection) -> Operand {
    match p {
        Projection::Gate => Operand::GateOutScale,
        Projection::Up => Operand::UpOutScale,
        Projection::Down => Operand::DownOutScale,
    }
}

/// Bytes of one expert's weights, by projection.
pub open spec fn packed_sizes(tables: MoeDeviceTables) -> spec_fn(Projection) -> int {
    |p: Projection|
        match p {
            Projection::Gate => tables.gate_packed_bytes as int,
            Projection::Up => tables.up_packed_bytes as int,
            Projection::Down => tables.down_packed_bytes as int,
        }
}

/// Bytes of one expert's scales, by projection.
pub open spec fn scale_sizes(tables: MoeDeviceTables) -> spec_fn(Projection) -> int {
    |p: Projection|
        match p {
            Projection::Gate => tables.gate_scale_bytes as int,
            Projection::Up => tables.up_scale_bytes as int,
            Projection::Down => tables.down_scale_bytes as int,
        }
}

/// Every size fits the 32 bits that a launch passes it in.
pub open spec fn fits_words(tables: MoeDeviceTables) -> bool {
    &&& tables.gate_packed_bytes <= u32::MAX && tables.gate_scale_bytes <= u32::MAX
    &&& tables.up_packed_bytes <= u32::MAX && tables.up_scale_bytes <= u32::MAX
    &&& tables.down_packed_bytes <= u32::MAX && tables.down_scale_bytes <= u32::MAX
}

/// After the gather, each slot holds the weights of its expert's gate, up and down projection
/// one after the other, and the scales likewise: byte by byte, a projection's part of a slot
/// comes through the pointers of that projection, and lies within the buffer. The projection's
/// two scales of the whole tensor come with it.
pub proof fn gathered_slots_hold_their_expert(
    top_k: usize,
    num_experts: usize,
    tables: &MoeDeviceTables,
    bulk_packed: &DeviceBuffer<u8>,
    bulk_scales: &DeviceBuffer<u8>,
    slot_in_scale: &DeviceBuffer<F32>,
    slot_out_scale: &DeviceBuffer<F32>,
    slot: int,
    p: Projection,
    byte: int,
)
    requires
        top_k <= u32::MAX,
        num_experts <= u32::MAX,
        fits_words(*tables),
        0 <= slot < top_k,
        0 <= byte,
    ensures
        moe_gpu_driven::moe_gather_steps(
            top_k,
            num_experts,
            tables,
            bulk_packed,
            bulk_scales,
            slot_in_scale,
            slot_out_scale,
        ) matches Ok(steps) ==> {
            &&& steps.len() == 1
            &&& steps[0] matches StepView::Launch(launch)
            &&& {
                let work = kernels::gather(launch);
                let start = kernels::part_start(packed_sizes(*tables), p);
                let scale_start = kernels::part_start(scale_sizes(*tables), p);
                &&& launch.kernel is MoeGatherExperts
                &&& launch.args.len() == 25
                &&& launch.config.grid_dim.0 == 3 && launch.config.grid_dim.1 == work.slots
                    && launch.config.grid_dim.2 == 1
                &&& launch.config.block_dim == (256u32, 1u32, 1u32)
                &&& launch.config.shared_mem_bytes == 0
                &&& work.routes == Arg::Buffer(Operand::PackedTopk)
                &&& work.slots == top_k && work.experts == num_experts
                &&& work.packed == Arg::Buffer(Operand::BulkPacked)
                &&& work.scales == Arg::Buffer(Operand::BulkScales)
                &&& work.slot_in_scales == Arg::Buffer(Operand::SlotInScale)
                &&& work.slot_out_scales == Arg::Buffer(Operand::SlotOutScale)
                &&& kernels::slot_bytes(work.packed_bytes) == tables.gate_packed_bytes
                    + tables.up_packed_bytes + tables.down_packed_bytes
                &&& kernels::slot_bytes(work.scale_bytes) == tables.gate_scale_bytes
                    + tables.up_scale_bytes + tables.down_scale_bytes
                &&& byte < packed_sizes(*tables)(p) ==> work.packed_source(start + byte) == (
                    Arg::Buffer(packed_table(p)),
                    byte,
                ) && 0 <= slot * kernels::slot_bytes(work.packed_bytes) + start + byte
                    < bulk_packed.len()
                &&& byte < scale_sizes(*tables)(p) ==> work.scale_source(scale_start + byte) == (
                    Arg::Buffer(scale_table(p)),
                    byte,
                ) && 0 <= slot * kernels::slot_bytes(work.scale_bytes) + scale_start + byte
                    < bulk_scales.len()
                &&& (work.in_scales)(p) == Arg::Buffer(in_table(p))
                &&& (work.out_scales)(p) == Arg::Buffer(out_table(p))
                &&& 3 * slot + p.place() < slot_in_scale.len()
                &&& 3 * slot + p.place() < slot_out_scale.len()
            }
        },
{
    let whole = tables.slot_packed_bytes();
    let scales = tables.slot_scale_bytes();
    assert(0 <= slot * whole && slot * whole + whole <= whole * top_k) by (nonlinear_arith)
        requires
            0 <= slot < top_k,
            0 <= whole,
    ;
    assert(0 <= slot * scales && slot * scales + scales <= scales * top_k) by (nonlinear_arith)
        requires
            0 <= slot < top_k,
            0 <= scales,
    ;
}

/// The inputs of one slot's projection are quantized number by number, with the scale of that
/// slot and projection alone.
pub proof fn slot_inputs_are_quantized(
    input: &DeviceBuffer<F32>,
    slot_in_scale: &DeviceBuffer<F32>,
    slot_proj: usize,
    output: &DeviceBuffer<F32>,
)
    requires
        input.len() <= u32::MAX,
    ensures
        moe_gpu_driven::quantize_dptr_steps(
            input,
            slot_in_scale,
            slot_proj,
            output,
        ) matches Ok(steps) ==> {
            &&& steps.len() == 1
            &&& steps[0] matches StepView::Launch(launch)
            &&& launch.kernel is Nvfp4QuantizeInputDptr
            &&& launch.args.len() == 4
            &&& launch.args[0] == Arg::Buffer(Operand::Input)
            &&& kernels::number(launch.args[1]) == input.len()
            &&& launch.args[2] == Arg::View(
                Region {
                    operand: Operand::SlotInScale,
                    start: slot_proj,
                    end: (slot_proj + 1) as usize,
                },
            )
            &&& slot_proj < slot_in_scale.len()
            &&& launch.args[3] == Arg::Buffer(Operand::Output)
            &&& input.len() <= output.len()
            &&& kernels::tiled(launch.config.grid_dim.0 as int, 16, input.len() as int)
            &&& launch.config.grid_dim.1 == 1 && launch.config.grid_dim.2 == 1
            &&& launch.config.block_dim == (16u32, 1u32, 1u32)
            &&& launch.config.shared_mem_bytes == 0
        },
        moe_gpu_driven::quantize_dptr_steps(input, slot_in_scale, slot_proj, output) is Ok
            <==> input.len() <= output.len() && slot_proj < slot_in_scale.len(),
{
    super::prefill::lemma_tiled(input.len() as int, 16);
    runtime::lemma_blocks(input.len() as int, 16);
}

/// The product of one slot's projection reads the bytes that it was told, all of them within
/// the gathered weights, and makes one number for each row.
pub proof fn one_slot_is_multiplied(
    bulk_packed: &DeviceBuffer<u8>,
    bulk_scales: &DeviceBuffer<u8>,
    packed_offset: usize,
    packed_bytes: usize,
    scales_offset: usize,
    scale_bytes: usize,
    rows: usize,
    cols: usize,
    slot_out_scale: &DeviceBuffer<F32>,
    slot_proj: usize,
    quantized_input: &DeviceBuffer<F32>,
    output: &DeviceBuffer<F32>,
)
    requires
        rows <= u32::MAX,
        cols <= u32::MAX,
    ensures
        moe_gpu_driven::prequantized_dptr_steps(
            bulk_packed,
            bulk_scales,
            packed_offset,
            packed_bytes,
            scales_offset,
            scale_bytes,
            rows,
            cols,
            slot_out_scale,
            slot_proj,
            quantized_input,
            output,
        ) matches Ok(steps) ==> {
            &&& steps.len() == 1
            &&& steps[0] matches StepView::Launch(launch)
            &&& launch.kernel is Nvfp4PrequantDptr
            &&& launch.args.len() == 7
            &&& launch.args[0] matches Arg::View(weights)
            &&& weights.operand == Operand::BulkPacked && weights.start == packed_offset
                && weights.end - weights.start == packed_bytes && weights.end <= bulk_packed.len()
            &&& launch.args[1] matches Arg::View(scales)
            &&& scales.operand == Operand::BulkScales && scales.start == scales_offset
                && scales.end - scales.start == scale_bytes && scales.end <= bulk_scales.len()
            &&& launch.args[2] == Arg::Buffer(Operand::QuantizedInput)
            &&& kernels::number(launch.args[3]) == rows
            &&& kernels::number(launch.args[4]) == cols
            &&& launch.args[5] matches Arg::View(scale)
            &&& scale.operand == Operand::SlotOutScale && scale.start == slot_proj
                && scale.end - scale.start == 1 && scale.end <= slot_out_scale.len()
            &&& launch.args[6] == Arg::Buffer(Operand::Output)
            &&& rows <= output.len()
            &&& cols <= quantized_input.len()
            &&& launch.config.grid_dim == (rows as u32, 1u32, 1u32)
            &&& launch.config.block_dim == (128u32, 1u32, 1u32)
            &&& launch.config.shared_mem_bytes == 4 * 128
        },
{
}

/// Adding a slot's outputs adds every one of them, with the weight of that slot.
pub proof fn slot_outputs_are_added(out: &DeviceBuffer<F32>, src: &DeviceBuffer<F32>, slot: usize)
    requires
        src.len() <= u32::MAX,
        slot <= u32::MAX,
    ensures
        moe_gpu_driven::axpy_topk_steps(out, src, slot) is Ok <==> src.len() == out.len(),
        moe_gpu_driven::axpy_topk_steps(out, src, slot) matches Ok(steps) ==> {
            &&& steps.len() == 1
            &&& steps[0] matches StepView::Launch(launch)
            &&& launch.kernel is AxpyF32TopkWeight
            &&& launch.args.len() == 5
            &&& launch.args[0] == Arg::Buffer(Operand::Output)
            &&& launch.args[1] == Arg::Buffer(Operand::Input)
            &&& launch.args[2] == Arg::Buffer(Operand::PackedTopk)
            &&& kernels::number(launch.args[3]) == slot
            &&& kernels::number(launch.args[4]) == src.len()
            &&& kernels::tiled(launch.config.grid_dim.0 as int, 256, src.len() as int)
            &&& launch.config.grid_dim.1 == 1 && launch.config.grid_dim.2 == 1
            &&& launch.config.block_dim == (256u32, 1u32, 1u32)
            &&& launch.config.shared_mem_bytes == 0
        },
{
    super::prefill::lemma_tiled(src.len() as int, 256);
    runtime::lemma_blocks(src.len() as int, 256);
}

/// The inputs of all slots are quantized: each slot reads its own row, or all of them the one
/// row where the stride is zero, and writes its own row, all within their buffers.
pub proof fn batched_inputs_are_quantized(
    input: &DeviceBuffer<F32>,
    input_stride: usize,
    len: usize,
    output_stride: usize,
    slot_in_scale: &DeviceBuffer<F32>,
    proj_off: usize,
    top_k: usize,
    output: &DeviceBuffer<F32>,
    slot: int,
)
    requires
        input_stride <= u32::MAX,
        len <= u32::MAX,
        output_stride <= u32::MAX,
        top_k <= u32::MAX,
        0 <= slot < top_k,
    ensures
        moe_gpu_driven::quantize_batched_dptr_steps(
            input,
            input_stride,
            len,
            output_stride,
            slot_in_scale,
            proj_off,
            top_k,
            output,
        ) matches Ok(steps) ==> {
            &&& steps.len() == 1
            &&& steps[0] matches StepView::Launch(launch)
            &&& launch.kernel is Nvfp4QuantizeInputBatchedDptr
            &&& launch.args.len() == 8
            &&& launch.args[0] == Arg::Buffer(Operand::Input)
            &&& kernels::number(launch.args[1]) == input_stride
            &&& kernels::number(launch.args[2]) == len
            &&& kernels::number(launch.args[3]) == output_stride
            &&& launch.args[4] == Arg::Buffer(Operand::SlotInScale)
            &&& kernels::number(launch.args[5]) == proj_off
            &&& kernels::number(launch.args[6]) == top_k
            &&& launch.args[7] == Arg::Buffer(Operand::Output)
            &&& slot * kernels::number(launch.args[1]) + len <= input.len()
            &&& slot * kernels::number(launch.args[3]) + len <= (slot + 1) * kernels::number(
                launch.args[3],
            ) <= output.len()
            &&& proj_off < 3 && 3 * slot + proj_off < slot_in_scale.len()
            &&& kernels::tiled(launch.config.grid_dim.0 as int, 16, len as int)
            &&& launch.config.grid_dim.1 == top_k && launch.config.grid_dim.2 == 1
            &&& launch.config.block_dim == (16u32, 1u32, 1u32)
            &&& launch.config.shared_mem_bytes == 0
        },
{
    super::prefill::lemma_tiled(len as int, 16);
    runtime::lemma_blocks(len as int, 16);
    lemma_slot_row(slot, top_k as int, input_stride as int);
    lemma_slot_row(slot, top_k as int, output_stride as int);
    assert(slot * 0 == 0);
}

/// A slot's row lies within the rows of all slots.
proof fn lemma_slot_row(slot: int, slots: int, stride: int)
    requires
        0 <= slot < slots,
        0 <= stride,
    ensures
        0 <= slot * stride,
        slot * stride + stride == (slot + 1) * stride,
        (slot + 1) * stride <= slots * stride,
{
    assert(0 <= slot * stride && slot * stride + stride == (slot + 1) * stride && (slot + 1)
        * stride <= slots * stride) by (nonlinear_arith)
        requires
            0 <= slot < slots,
            0 <= stride,
    ;
}

/// The products of all slots: each row of a slot's projection has its weights within the slot,
/// its inputs in the slot's row, and its result in the slot's row of the output.
pub proof fn slots_are_multiplied(
    bulk_packed: &DeviceBuffer<u8>,
    bulk_scales: &DeviceBuffer<u8>,
    per_slot_packed: usize,
    per_slot_scale: usize,
    proj_packed_off: usize,
    proj_scale_off: usize,
    input: &DeviceBuffer<F32>,
    input_stride: usize,
    rows: usize,
    cols: usize,
    slot_out_scale: &DeviceBuffer<F32>,
    proj_off: usize,
    output_stride: usize,
    top_k: usize,
    output: &DeviceBuffer<F32>,
    fast: bool,
    slot: int,
    row: int,
)
    requires
        per_slot_packed <= u32::MAX,
        per_slot_scale <= u32::MAX,
        input_stride <= u32::MAX,
        output_stride <= u32::MAX,
        top_k <= u32::MAX,
        0 <= slot < top_k,
        0 <= row < rows,
    ensures
        moe_gpu_driven::prequantized_batched_dptr_steps(
            bulk_packed,
            bulk_scales,
            per_slot_packed,
            per_slot_scale,
            proj_packed_off,
            proj_scale_off,
            input,
            input_stride,
            rows,
            cols,
            slot_out_scale,
            proj_off,
            output_stride,
            top_k,
            output,
            fast,
        ) matches Ok(steps) ==> {
            &&& steps.len() == 1
            &&& steps[0] matches StepView::Launch(launch)
            &&& {
                let work = kernels::slot_matvec(launch);
                &&& launch.kernel == (if fast {
                    Kernel::Nvfp4PrequantBatchedDptrWarp
                } else {
                    Kernel::Nvfp4PrequantBatchedDptr
                })
                &&& launch.args.len() == 15
                &&& work == (SlotMatvec {
                    packed: Arg::Buffer(Operand::BulkPacked),
                    scales: Arg::Buffer(Operand::BulkScales),
                    packed_stride: per_slot_packed as int,
                    scale_stride: per_slot_scale as int,
                    packed_offset: proj_packed_off as int,
                    scale_offset: proj_scale_off as int,
                    input: Arg::Buffer(Operand::Input),
                    input_stride: input_stride as int,
                    rows: rows as int,
                    cols: cols as int,
                    out_scales: Arg::Buffer(Operand::SlotOutScale),
                    projection: proj_off as int,
                    output_stride: output_stride as int,
                    slots: top_k as int,
                    output: Arg::Buffer(Operand::Output),
                })
                &&& slot * work.packed_stride <= work.weight_row(slot, row)
                &&& work.weight_row(slot, row) + work.cols / 2 <= (slot + 1) * work.packed_stride
                    <= bulk_packed.len()
                &&& slot * work.scale_stride <= work.scale_row(slot, row)
                &&& work.scale_row(slot, row) + work.cols / 16 <= (slot + 1) * work.scale_stride
                    <= bulk_scales.len()
                &&& slot * work.input_stride + work.cols <= (slot + 1) * work.input_stride
                    <= input.len()
                &&& slot * work.output_stride + row < (slot + 1) * work.output_stride
                    <= output.len()
                &&& proj_off < 3 && 3 * slot + proj_off < slot_out_scale.len()
                &&& launch.config.grid_dim == (rows as u32, top_k as u32, 1u32)
                &&& launch.config.block_dim == (128u32, 1u32, 1u32)
                &&& launch.config.shared_mem_bytes == (if fast {
                    0int
                } else {
                    512int
                })
            }
        },
{
    lemma_slot_row(slot, top_k as int, per_slot_packed as int);
    lemma_slot_row(slot, top_k as int, per_slot_scale as int);
    lemma_slot_row(slot, top_k as int, input_stride as int);
    lemma_slot_row(slot, top_k as int, output_stride as int);
    lemma_slot_row(row, rows as int, cols as int / 2);
    lemma_slot_row(row, rows as int, cols as int / 16);
}

/// The gated activation of all slots takes each slot's rows of gate and up to its row of the
/// output, all within their buffers.
pub proof fn slots_are_activated(
    gate: &DeviceBuffer<F32>,
    up: &DeviceBuffer<F32>,
    len: usize,
    stride: usize,
    top_k: usize,
    output: &DeviceBuffer<F32>,
    slot: int,
)
    requires
        stride <= u32::MAX,
        top_k <= u32::MAX,
        0 <= slot < top_k,
    ensures
        moe_gpu_driven::geglu_batched_steps(
            gate,
            up,
            len,
            stride,
            top_k,
            output,
        ) matches Ok(steps) ==> {
            &&& steps.len() == 1
            &&& steps[0] matches StepView::Launch(launch)
            &&& launch.kernel is MoeGegluTanhBatchedSlots
            &&& launch.args.len() == 6
            &&& launch.args[0] == Arg::Buffer(Operand::GateOutput)
            &&& launch.args[1] == Arg::Buffer(Operand::UpOutput)
            &&& kernels::number(launch.args[2]) == len
            &&& kernels::number(launch.args[3]) == stride
            &&& kernels::number(launch.args[4]) == top_k
            &&& launch.args[5] == Arg::Buffer(Operand::Output)
            &&& slot * stride + len <= (slot + 1) * stride
            &&& (slot + 1) * stride <= gate.len()
            &&& (slot + 1) * stride <= up.len()
            &&& (slot + 1) * stride <= output.len()
            &&& kernels::tiled(launch.config.grid_dim.0 as int, 256, len as int)
            &&& launch.config.grid_dim.1 == top_k && launch.config.grid_dim.2 == 1
            &&& launch.config.block_dim == (256u32, 1u32, 1u32)
            &&& launch.config.shared_mem_bytes == 0
        },
{
    super::prefill::lemma_tiled(len as int, 256);
    runtime::lemma_blocks(len as int, 256);
    lemma_slot_row(slot, top_k as int, stride as int);
}

/// The outputs of all slots are added up number by number, each with the weight of its slot.
pub proof fn slots_are_added_up(
    out: &DeviceBuffer<F32>,
    expert_out: &DeviceBuffer<F32>,
    output_stride: usize,
    packed_topk: &DeviceBuffer<u32>,
    top_k: usize,
    len: usize,
    slot: int,
)
    requires
        output_stride <= u32::MAX,
        top_k <= u32::MAX,
        0 <= slot < top_k,
    ensures
        moe_gpu_driven::accumulate_steps(
            out,
            expert_out,
            output_stride,
            packed_topk,
            top_k,
            len,
        ) matches Ok(steps) ==> {
            &&& steps.len() == 1
            &&& steps[0] matches StepView::Launch(launch)
            &&& launch.kernel is MoeWeightedAccumulate
            &&& launch.args.len() == 6
            &&& launch.args[0] == Arg::Buffer(Operand::Output)
            &&& launch.args[1] == Arg::Buffer(Operand::ExpertOutput)
            &&& kernels::number(launch.args[2]) == output_stride
            &&& launch.args[3] == Arg::Buffer(Operand::PackedTopk)
            &&& kernels::number(launch.args[4]) == top_k
            &&& kernels::number(launch.args[5]) == len
            &&& len <= out.len()
            &&& slot * output_stride + len <= (slot + 1) * output_stride <= expert_out.len()
            &&& 2 * slot + 1 < packed_topk.len()
            &&& kernels::tiled(launch.config.grid_dim.0 as int, 256, len as int)
            &&& launch.config.grid_dim.1 == 1 && launch.config.grid_dim.2 == 1
            &&& launch.config.block_dim == (256u32, 1u32, 1u32)
            &&& launch.config.shared_mem_bytes == 0
        },
{
    super::prefill::lemma_tiled(len as int, 256);
    runtime::lemma_blocks(len as int, 256);
    lemma_slot_row(slot, top_k as int, output_stride as int);
}

} // verus!
