//! Mixture-of-experts decoding that the device drives: the weights of the routed experts
//! are gathered in one launch and multiplied slot by slot.
use crate::error::{invalid_plan, number, AegisError, Value, Values};
use crate::functions::Kernel;
use crate::launch::{Arg, LaunchConfig, Operand, Plan, Region, StepView};
use crate::runtime::{self, ceil_div, CudaRuntime};
use crate::types::{DeviceBuffer, MoeDeviceTables, F32};
use vstd::prelude::*;

verus! {

/// The steps of [`CudaRuntime::moe_gather_experts_device`].
pub open spec fn moe_gather_steps(
    top_k: usize,
    num_experts: usize,
    tables: &MoeDeviceTables,
    bulk_packed: &DeviceBuffer<u8>,
    bulk_scales: &DeviceBuffer<u8>,
    slot_in_scale: &DeviceBuffer<F32>,
    slot_out_scale: &DeviceBuffer<F32>,
) -> Result<Seq<StepView>, AegisError> {
    let need_packed = tables.slot_packed_bytes() * top_k;
    let need_scale = tables.slot_scale_bytes() * top_k;
    if bulk_packed.len() < need_packed || bulk_scales.len() < need_scale {
        Err(AegisError::invalid_with(
                "moe_gather: bulk too small: packed have {} need {}, scales have {} need {}",
                Values::Four(
                    Value::num(bulk_packed.len() as int),
                    Value::num(need_packed as int),
                    Value::num(bulk_scales.len() as int),
                    Value::num(need_scale as int),
                ),
            ))
    } else if slot_in_scale.len() < top_k * 3 || slot_out_scale.len() < top_k * 3 {
        Err(AegisError::invalid_with(
                "moe_gather: slot scale arrays too small: in {} out {} need {}",
                Values::Three(
                    Value::num(slot_in_scale.len() as int),
                    Value::num(slot_out_scale.len() as int),
                    Value::num((top_k * 3) as int),
                ),
            ))
    } else {
        Ok(
            seq![
                StepView::launching(
                    Kernel::MoeGatherExperts,
                    "launch moe_gather_experts",
                    LaunchConfig::of(3, top_k as int, 1, 256, 0),
                    seq![
                        Arg::Buffer(Operand::PackedTopk),
                        Arg::word(top_k as int),
                        Arg::word(num_experts as int),
                        Arg::Buffer(Operand::GatePackedPtrs),
                        Arg::Buffer(Operand::UpPackedPtrs),
                        Arg::Buffer(Operand::DownPackedPtrs),
                        Arg::Buffer(Operand::GateScalePtrs),
                        Arg::Buffer(Operand::UpScalePtrs),
                        Arg::Buffer(Operand::DownScalePtrs),
                        Arg::word(tables.gate_packed_bytes as int),
                        Arg::word(tables.gate_scale_bytes as int),
                        Arg::word(tables.up_packed_bytes as int),
                        Arg::word(tables.up_scale_bytes as int),
                        Arg::word(tables.down_packed_bytes as int),
                        Arg::word(tables.down_scale_bytes as int),
                        Arg::Buffer(Operand::GateInScale),
                        Arg::Buffer(Operand::UpInScale),
                        Arg::Buffer(Operand::DownInScale),
                        Arg::Buffer(Operand::GateOutScale),
                        Arg::Buffer(Operand::UpOutScale),
                        Arg::Buffer(Operand::DownOutScale),
                        Arg::Buffer(Operand::BulkPacked),
                        Arg::Buffer(Operand::BulkScales),
                        Arg::Buffer(Operand::SlotInScale),
                        Arg::Buffer(Operand::SlotOutScale),
                    ],
                ),
            ],
        )
    }
}

/// The steps of [`CudaRuntime::quantize_nvfp4_input_dptr_device`].
pub open spec fn quantize_dptr_steps(
    input: &DeviceBuffer<F32>,
    slot_in_scale: &DeviceBuffer<F32>,
    slot_proj: usize,
    output: &DeviceBuffer<F32>,
) -> Result<Seq<StepView>, AegisError> {
    if input.len() > output.len() {
        Err(AegisError::invalid_with(
                "nvfp4 dptr input quant shape mismatch: input={} output={}",
                Values::Two(Value::num(input.len() as int), Value::num(output.len() as int)),
            ))
    } else if slot_proj >= slot_in_scale.len() {
        Err(AegisError::invalid_with(
                "nvfp4 dptr input quant: slot_proj {} out of bounds {}",
                Values::Two(
                    Value::num(slot_proj as int),
                    Value::num(slot_in_scale.len() as int),
                ),
            ))
    } else {
        Ok(
            seq![
                StepView::launching(
                    Kernel::Nvfp4QuantizeInputDptr,
                    "launch nvfp4 quantize input dptr",
                    LaunchConfig::of(
                        runtime::blocks((input.len() as u32) as int, 16),
                        1,
                        1,
                        16,
                        0,
                    ),
                    seq![
                        Arg::Buffer(Operand::Input),
                        Arg::word(input.len() as int),
                        Arg::view(Operand::SlotInScale, slot_proj as int, (slot_proj + 1) as int),
                        Arg::Buffer(Operand::Output),
                    ],
                ),
            ],
        )
    }
}

/// The steps of [`CudaRuntime::matvec_nvfp4_prequantized_dptr_bulk_device`].
pub open spec fn prequantized_dptr_steps(
    bulk_packed: &DeviceBuffer<u8>,
    bulk_scales: &DeviceBuffer<u8>,
    packed_offset: usize,
    packed_bytes: usize,
    scales_offset: usize,
    scale_bytes: usize,
    rows: usize,
    cols: usize,
    slot_out_scale: &DeviceBuffer<F32>,
    slot_proj: usize,
    quantized_input: &DeviceBuffer<F32>,
    output: &DeviceBuffer<F32>,
) -> Result<Seq<StepView>, AegisError> {
    if packed_offset + packed_bytes > bulk_packed.len() || scales_offset + scale_bytes > bulk_scales.len() {
        Err(AegisError::invalid_with(
                "dptr bulk view out of bounds: packed {}+{}>{}  scales {}+{}>{}",
                Values::Six(
                    Value::num(packed_offset as int),
                    Value::num(packed_bytes as int),
                    Value::num(bulk_packed.len() as int),
                    Value::num(scales_offset as int),
                    Value::num(scale_bytes as int),
                    Value::num(bulk_scales.len() as int),
                ),
            ))
    } else if slot_proj >= slot_out_scale.len() {
        Err(AegisError::invalid_with(
                "dptr bulk gemv: slot_proj {} out of bounds {}",
                Values::Two(
                    Value::num(slot_proj as int),
                    Value::num(slot_out_scale.len() as int),
                ),
            ))
    } else if quantized_input.len() < cols || output.len() < rows {
        Err(AegisError::invalid_with(
                "dptr bulk gemv shape too small: input={} need {}, output={} need {}",
                Values::Four(
                    Value::num(quantized_input.len() as int),
                    Value::num(cols as int),
                    Value::num(output.len() as int),
                    Value::num(rows as int),
                ),
            ))
    } else {
        Ok(
            seq![
                StepView::launching(
                    Kernel::Nvfp4PrequantDptr,
                    "launch nvfp4 prequantized dptr bulk",
                    LaunchConfig::of(rows as int, 1, 1, 128, 512),
                    seq![
                        Arg::view(Operand::BulkPacked, packed_offset as int, (packed_offset + packed_bytes) as int),
                        Arg::view(Operand::BulkScales, scales_offset as int, (scales_offset + scale_bytes) as int),
                        Arg::Buffer(Operand::QuantizedInput),
                        Arg::word(rows as int),
                        Arg::word(cols as int),
                        Arg::view(Operand::SlotOutScale, slot_proj as int, (slot_proj + 1) as int),
                        Arg::Buffer(Operand::Output),
                    ],
                ),
            ],
        )
    }
}

/// The steps of [`CudaRuntime::axpy_f32_topk_weight_device`].
pub open spec fn axpy_topk_steps(
    out: &DeviceBuffer<F32>,
    src: &DeviceBuffer<F32>,
    slot: usize,
) -> Result<Seq<StepView>, AegisError> {
    if src.len() != out.len() {
        Err(AegisError::invalid_with(
                "axpy topk-weight shape mismatch: src={} out={}",
                Values::Two(Value::num(src.len() as int), Value::num(out.len() as int)),
            ))
    } else {
        Ok(
            seq![
                StepView::launching(
                    Kernel::AxpyF32TopkWeight,
                    "launch axpy_f32_topk_weight",
                    LaunchConfig::of(
                        runtime::blocks((src.len() as u32) as int, 256),
                        1,
                        1,
                        256,
                        0,
                    ),
                    seq![
                        Arg::Buffer(Operand::Output),
                        Arg::Buffer(Operand::Input),
                        Arg::Buffer(Operand::PackedTopk),
                        Arg::word(slot as int),
                        Arg::word(src.len() as int),
                    ],
                ),
            ],
        )
    }
}

/// The steps of [`CudaRuntime::quantize_nvfp4_input_batched_dptr_device`].
pub open spec fn quantize_batched_dptr_steps(
    input: &DeviceBuffer<F32>,
    input_stride: usize,
    len: usize,
    output_stride: usize,
    slot_in_scale: &DeviceBuffer<F32>,
    proj_off: usize,
    top_k: usize,
    output: &DeviceBuffer<F32>,
) -> Result<Seq<StepView>, AegisError> {
    let needed_in = if input_stride == 0 { len as int } else { top_k * input_stride };
    if proj_off >= 3 || top_k == 0 {
        Err(AegisError::invalid_with(
                "batched quant: bad proj_off={} or top_k={}",
                Values::Two(Value::num(proj_off as int), Value::num(top_k as int)),
            ))
    } else if output_stride < len || output.len() < top_k * output_stride {
        Err(AegisError::invalid_with(
                "batched quant: output too small: len {} stride {} top_k {} have {}",
                Values::Four(
                    Value::num(len as int),
                    Value::num(output_stride as int),
                    Value::num(top_k as int),
                    Value::num(output.len() as int),
                ),
            ))
    } else if input.len() < needed_in || (input_stride != 0 && input_stride < len) {
        Err(AegisError::invalid_with(
                "batched quant: input too small: len {} stride {} have {}",
                Values::Three(
                    Value::num(len as int),
                    Value::num(input_stride as int),
                    Value::num(input.len() as int),
                ),
            ))
    } else if slot_in_scale.len() < top_k * 3 {
        Err(AegisError::invalid_with(
                "batched quant: slot_in_scale {} need {}",
                Values::Two(
                    Value::num(slot_in_scale.len() as int),
                    Value::num((top_k * 3) as int),
                ),
            ))
    } else {
        Ok(
            seq![
                StepView::launching(
                    Kernel::Nvfp4QuantizeInputBatchedDptr,
                    "launch nvfp4 quantize input batched dptr",
                    LaunchConfig::of(
                        runtime::blocks((len as u32) as int, 16),
                        top_k as int,
                        1,
                        16,
                        0,
                    ),
                    seq![
                        Arg::Buffer(Operand::Input),
                        Arg::word(input_stride as int),
                        Arg::word(len as int),
                        Arg::word(output_stride as int),
                        Arg::Buffer(Operand::SlotInScale),
                        Arg::word(proj_off as int),
                        Arg::word(top_k as int),
                        Arg::Buffer(Operand::Output),
                    ],
                ),
            ],
        )
    }
}

/// The steps of [`CudaRuntime::matvec_nvfp4_prequantized_batched_dptr_device`].
pub open spec fn prequantized_batched_dptr_steps(
    bulk_packed: &DeviceBuffer<u8>,
    bulk_scales: &DeviceBuffer<u8>,
    per_slot_packed: usize,
    per_slot_scale: usize,
    proj_packed_off: usize,
    proj_scale_off: usize,
    input: &DeviceBuffer<F32>,
    input_stride: usize,
    rows: usize,
    cols: usize,
    slot_out_scale: &DeviceBuffer<F32>,
    proj_off: usize,
    output_stride: usize,
    top_k: usize,
    output: &DeviceBuffer<F32>,
    fast: bool,
) -> Result<Seq<StepView>, AegisError> {
    if proj_off >= 3 || top_k == 0 {
        Err(AegisError::invalid_with(
                "batched gemv: bad proj_off={} or top_k={}",
                Values::Two(Value::num(proj_off as int), Value::num(top_k as int)),
            ))
    } else if bulk_packed.len() < top_k * per_slot_packed || bulk_scales.len() < top_k * per_slot_scale {
        Err(AegisError::invalid_with(
                "batched gemv: bulk too small: packed {} need {}, scales {} need {}",
                Values::Four(
                    Value::num(bulk_packed.len() as int),
                    Value::num((top_k * per_slot_packed) as int),
                    Value::num(bulk_scales.len() as int),
                    Value::num((top_k * per_slot_scale) as int),
                ),
            ))
    } else if proj_packed_off + rows * (cols as int / 2) > per_slot_packed || proj_scale_off + rows * (cols as int / 16) > per_slot_scale {
        Err(AegisError::invalid_with(
                "batched gemv: proj offset/extent out of slot: packed {}+{}*{}>{}",
                Values::Four(
                    Value::num(proj_packed_off as int),
                    Value::num(rows as int),
                    Value::num((cols / 2) as int),
                    Value::num(per_slot_packed as int),
                ),
            ))
    } else if input_stride < cols || input.len() < top_k * input_stride {
        Err(AegisError::invalid_with(
                "batched gemv: input too small: cols {} stride {} top_k {} have {}",
                Values::Four(
                    Value::num(cols as int),
                    Value::num(input_stride as int),
                    Value::num(top_k as int),
                    Value::num(input.len() as int),
                ),
            ))
    } else if output_stride < rows || output.len() < top_k * output_stride {
        Err(AegisError::invalid_with(
                "batched gemv: output too small: rows {} stride {} top_k {} have {}",
                Values::Four(
                    Value::num(rows as int),
                    Value::num(output_stride as int),
                    Value::num(top_k as int),
                    Value::num(output.len() as int),
                ),
            ))
    } else if slot_out_scale.len() < top_k * 3 {
        Err(AegisError::invalid_with(
                "batched gemv: slot_out_scale {} need {}",
                Values::Two(
                    Value::num(slot_out_scale.len() as int),
                    Value::num((top_k * 3) as int),
                ),
            ))
    } else if fast {
        Ok(
            seq![
                StepView::launching(
                    Kernel::Nvfp4PrequantBatchedDptrWarp,
                    "launch nvfp4 prequant batched dptr",
                    LaunchConfig::of(rows as int, top_k as int, 1, 128, 0),
                    seq![
                        Arg::Buffer(Operand::BulkPacked),
                        Arg::Buffer(Operand::BulkScales),
                        Arg::word(per_slot_packed as int),
                        Arg::word(per_slot_scale as int),
                        Arg::word(proj_packed_off as int),
                        Arg::word(proj_scale_off as int),
                        Arg::Buffer(Operand::Input),
                        Arg::word(input_stride as int),
                        Arg::word(rows as int),
                        Arg::word(cols as int),
                        Arg::Buffer(Operand::SlotOutScale),
                        Arg::word(proj_off as int),
                        Arg::word(output_stride as int),
                        Arg::word(top_k as int),
                        Arg::Buffer(Operand::Output),
                    ],
                ),
            ],
        )
    } else {
        Ok(
            seq![
                StepView::launching(
                    Kernel::Nvfp4PrequantBatchedDptr,
                    "launch nvfp4 prequant batched dptr",
                    LaunchConfig::of(rows as int, top_k as int, 1, 128, 512),
                    seq![
                        Arg::Buffer(Operand::BulkPacked),
                        Arg::Buffer(Operand::BulkScales),
                        Arg::word(per_slot_packed as int),
                        Arg::word(per_slot_scale as int),
                        Arg::word(proj_packed_off as int),
                        Arg::word(proj_scale_off as int),
                        Arg::Buffer(Operand::Input),
                        Arg::word(input_stride as int),
                        Arg::word(rows as int),
                        Arg::word(cols as int),
                        Arg::Buffer(Operand::SlotOutScale),
                        Arg::word(proj_off as int),
                        Arg::word(output_stride as int),
                        Arg::word(top_k as int),
                        Arg::Buffer(Operand::Output),
                    ],
                ),
            ],
        )
    }
}

/// The steps of [`CudaRuntime::geglu_tanh_batched_slots_device`].
pub open spec fn geglu_batched_steps(
    gate: &DeviceBuffer<F32>,
    up: &DeviceBuffer<F32>,
    len: usize,
    stride: usize,
    top_k: usize,
    output: &DeviceBuffer<F32>,
) -> Result<Seq<StepView>, AegisError> {
    if top_k == 0 || stride < len {
        Err(AegisError::invalid_with(
                "batched geglu: bad top_k={} or stride {} < len {}",
                Values::Three(
                    Value::num(top_k as int),
                    Value::num(stride as int),
                    Value::num(len as int),
                ),
            ))
    } else if gate.len() < top_k * stride || up.len() < top_k * stride || output.len() < top_k * stride {
        Err(AegisError::invalid_with(
                "batched geglu: buffers too small: stride {} top_k {} gate {} up {} out {}",
                Values::Five(
                    Value::num(stride as int),
                    Value::num(top_k as int),
                    Value::num(gate.len() as int),
                    Value::num(up.len() as int),
                    Value::num(output.len() as int),
                ),
            ))
    } else {
        Ok(
            seq![
                StepView::launching(
                    Kernel::MoeGegluTanhBatchedSlots,
                    "launch moe geglu tanh batched slots",
                    LaunchConfig::of(
                        runtime::blocks((len as u32) as int, 256),
                        top_k as int,
                        1,
                        256,
                        0,
                    ),
                    seq![
                        Arg::Buffer(Operand::GateOutput),
                        Arg::Buffer(Operand::UpOutput),
                        Arg::word(len as int),
                        Arg::word(stride as int),
                        Arg::word(top_k as int),
                        Arg::Buffer(Operand::Output),
                    ],
                ),
            ],
        )
    }
}

/// The steps of [`CudaRuntime::moe_weighted_accumulate_device`].
pub open spec fn accumulate_steps(
    out: &DeviceBuffer<F32>,
    expert_out: &DeviceBuffer<F32>,
    output_stride: usize,
    packed_topk: &DeviceBuffer<u32>,
    top_k: usize,
    len: usize,
) -> Result<Seq<StepView>, AegisError> {
    if top_k == 0 || output_stride < len {
        Err(AegisError::invalid_with(
                "batched accumulate: bad top_k={} or stride {} < len {}",
                Values::Three(
                    Value::num(top_k as int),
                    Value::num(output_stride as int),
                    Value::num(len as int),
                ),
            ))
    } else if out.len() < len || expert_out.len() < top_k * output_stride {
        Err(AegisError::invalid_with(
                "batched accumulate: buffers too small: len {} stride {} top_k {} out {} expert_out {}",
                Values::Five(
                    Value::num(len as int),
                    Value::num(output_stride as int),
                    Value::num(top_k as int),
                    Value::num(out.len() as int),
                    Value::num(expert_out.len() as int),
                ),
            ))
    } else if packed_topk.len() < top_k * 2 {
        Err(AegisError::invalid_with(
                "batched accumulate: packed_topk {} need {}",
                Values::Two(
                    Value::num(packed_topk.len() as int),
                    Value::num((top_k * 2) as int),
                ),
            ))
    } else {
        Ok(
            seq![
                StepView::launching(
                    Kernel::MoeWeightedAccumulate,
                    "launch moe weighted accumulate",
                    LaunchConfig::of(
                        runtime::blocks((len as u32) as int, 256),
                        1,
                        1,
                        256,
                        0,
                    ),
                    seq![
                        Arg::Buffer(Operand::Output),
                        Arg::Buffer(Operand::ExpertOutput),
                        Arg::word(output_stride as int),
                        Arg::Buffer(Operand::PackedTopk),
                        Arg::word(top_k as int),
                        Arg::word(len as int),
                    ],
                ),
            ],
        )
    }
}

impl CudaRuntime {
    /// Gathers the weights of the routed experts, from host memory that the device maps,
    /// slot by slot: one block per slot and projection.
    pub fn moe_gather_experts_device(
        &self,
        top_k: usize,
        num_experts: usize,
        tables: &MoeDeviceTables,
        bulk_packed: &DeviceBuffer<u8>,
        bulk_scales: &DeviceBuffer<u8>,
        slot_in_scale: &DeviceBuffer<F32>,
        slot_out_scale: &DeviceBuffer<F32>,
    ) -> (plan: Result<Plan, AegisError>)
        requires
            tables.slot_packed_bytes() * top_k <= usize::MAX,
            tables.slot_scale_bytes() * top_k <= usize::MAX,
            tables.slot_packed_bytes() <= usize::MAX,
            tables.slot_scale_bytes() <= usize::MAX,
            top_k * 3 <= usize::MAX,
        ensures
            Plan::outcome(plan) =~~= moe_gather_steps(
                top_k,
                num_experts,
                tables,
                bulk_packed,
                bulk_scales,
                slot_in_scale,
                slot_out_scale,
            ),
    {
        let need_packed: usize = (tables.gate_packed_bytes + tables.up_packed_bytes + tables.down_packed_bytes) * top_k;
        let need_scale: usize = (tables.gate_scale_bytes + tables.up_scale_bytes + tables.down_scale_bytes) * top_k;
        if bulk_packed.len() < need_packed || bulk_scales.len() < need_scale {
            return Err(invalid_plan(
                "moe_gather: bulk too small: packed have {} need {}, scales have {} need {}",
                Values::Four(
                    number(bulk_packed.len()),
                    number(need_packed),
                    number(bulk_scales.len()),
                    number(need_scale),
                ),
            ));
        }
        if slot_in_scale.len() < top_k * 3 || slot_out_scale.len() < top_k * 3 {
            return Err(invalid_plan(
                "moe_gather: slot scale arrays too small: in {} out {} need {}",
                Values::Three(
                    number(slot_in_scale.len()),
                    number(slot_out_scale.len()),
                    number(top_k * 3),
                ),
            ));
        }
        let slots: u32 = top_k as u32;
        let experts: u32 = num_experts as u32;
        let gate_packed: u32 = tables.gate_packed_bytes as u32;
        let gate_scale: u32 = tables.gate_scale_bytes as u32;
        let up_packed: u32 = tables.up_packed_bytes as u32;
        let up_scale: u32 = tables.up_scale_bytes as u32;
        let down_packed: u32 = tables.down_packed_bytes as u32;
        let down_scale: u32 = tables.down_scale_bytes as u32;
        Ok(
            Plan::launch(
                Kernel::MoeGatherExperts,
                "launch moe_gather_experts",
                LaunchConfig {
                    grid_dim: (3, slots, 1),
                    block_dim: (256, 1, 1),
                    shared_mem_bytes: 0,
                },
                vec![
                    Arg::Buffer(Operand::PackedTopk),
                    Arg::U32(slots),
                    Arg::U32(experts),
                    Arg::Buffer(Operand::GatePackedPtrs),
                    Arg::Buffer(Operand::UpPackedPtrs),
                    Arg::Buffer(Operand::DownPackedPtrs),
                    Arg::Buffer(Operand::GateScalePtrs),
                    Arg::Buffer(Operand::UpScalePtrs),
                    Arg::Buffer(Operand::DownScalePtrs),
                    Arg::U32(gate_packed),
                    Arg::U32(gate_scale),
                    Arg::U32(up_packed),
                    Arg::U32(up_scale),
                    Arg::U32(down_packed),
                    Arg::U32(down_scale),
                    Arg::Buffer(Operand::GateInScale),
                    Arg::Buffer(Operand::UpInScale),
                    Arg::Buffer(Operand::DownInScale),
                    Arg::Buffer(Operand::GateOutScale),
                    Arg::Buffer(Operand::UpOutScale),
                    Arg::Buffer(Operand::DownOutScale),
                    Arg::Buffer(Operand::BulkPacked),
                    Arg::Buffer(Operand::BulkScales),
                    Arg::Buffer(Operand::SlotInScale),
                    Arg::Buffer(Operand::SlotOutScale),
                ],
            ),
        )
    }

    /// Quantizes an input with the scale of one slot and projection: blocks of sixteen
    /// values.
    pub fn quantize_nvfp4_input_dptr_device(
        &self,
        input: &DeviceBuffer<F32>,
        slot_in_scale: &DeviceBuffer<F32>,
        slot_proj: usize,
        output: &DeviceBuffer<F32>,
    ) -> (plan: Result<Plan, AegisError>)
        ensures
            Plan::outcome(plan) =~~= quantize_dptr_steps(input, slot_in_scale, slot_proj, output),
    {
        if input.len() > output.len() {
            return Err(invalid_plan(
                "nvfp4 dptr input quant shape mismatch: input={} output={}",
                Values::Two(number(input.len()), number(output.len())),
            ));
        }
        if slot_proj >= slot_in_scale.len() {
            return Err(invalid_plan(
                "nvfp4 dptr input quant: slot_proj {} out of bounds {}",
                Values::Two(number(slot_proj), number(slot_in_scale.len())),
            ));
        }
        let len: u32 = input.len() as u32;
        Ok(
            Plan::launch(
                Kernel::Nvfp4QuantizeInputDptr,
                "launch nvfp4 quantize input dptr",
                LaunchConfig {
                    grid_dim: (ceil_div(len, 16), 1, 1),
                    block_dim: (16, 1, 1),
                    shared_mem_bytes: 0,
                },
                vec![
                    Arg::Buffer(Operand::Input),
                    Arg::U32(len),
                    Arg::View(Region { operand: Operand::SlotInScale, start: slot_proj, end: slot_proj + 1 }),
                    Arg::Buffer(Operand::Output),
                ],
            ),
        )
    }

    /// Multiplies one quantized vector by the gathered weights of one slot and projection:
    /// one block per row.
    pub fn matvec_nvfp4_prequantized_dptr_bulk_device(
        &self,
        bulk_packed: &DeviceBuffer<u8>,
        bulk_scales: &DeviceBuffer<u8>,
        packed_offset: usize,
        packed_bytes: usize,
        scales_offset: usize,
        scale_bytes: usize,
        rows: usize,
        cols: usize,
        slot_out_scale: &DeviceBuffer<F32>,
        slot_proj: usize,
        quantized_input: &DeviceBuffer<F32>,
        output: &DeviceBuffer<F32>,
    ) -> (plan: Result<Plan, AegisError>)
        requires
            packed_offset + packed_bytes <= usize::MAX,
            scales_offset + scale_bytes <= usize::MAX,
        ensures
            Plan::outcome(plan) =~~= prequantized_dptr_steps(
                bulk_packed,
                bulk_scales,
                packed_offset,
                packed_bytes,
                scales_offset,
                scale_bytes,
                rows,
                cols,
                slot_out_scale,
                slot_proj,
                quantized_input,
                output,
            ),
    {
        if packed_offset + packed_bytes > bulk_packed.len() || scales_offset + scale_bytes > bulk_scales.len() {
            return Err(invalid_plan(
                "dptr bulk view out of bounds: packed {}+{}>{}  scales {}+{}>{}",
                Values::Six(
                    number(packed_offset),
                    number(packed_bytes),
                    number(bulk_packed.len()),
                    number(scales_offset),
                    number(scale_bytes),
                    number(bulk_scales.len()),
                ),
            ));
        }
        if slot_proj >= slot_out_scale.len() {
            return Err(invalid_plan(
                "dptr bulk gemv: slot_proj {} out of bounds {}",
                Values::Two(number(slot_proj), number(slot_out_scale.len())),
            ));
        }
        if quantized_input.len() < cols || output.len() < rows {
            return Err(invalid_plan(
                "dptr bulk gemv shape too small: input={} need {}, output={} need {}",
                Values::Four(
                    number(quantized_input.len()),
                    number(cols),
                    number(output.len()),
                    number(rows),
                ),
            ));
        }
        let row_word: u32 = rows as u32;
        let col_word: u32 = cols as u32;
        Ok(
            Plan::launch(
                Kernel::Nvfp4PrequantDptr,
                "launch nvfp4 prequantized dptr bulk",
                LaunchConfig {
                    grid_dim: (row_word, 1, 1),
                    block_dim: (128, 1, 1),
                    shared_mem_bytes: 512,
                },
                vec![
                    Arg::View(Region { operand: Operand::BulkPacked, start: packed_offset, end: packed_offset + packed_bytes }),
                    Arg::View(Region { operand: Operand::BulkScales, start: scales_offset, end: scales_offset + scale_bytes }),
                    Arg::Buffer(Operand::QuantizedInput),
                    Arg::U32(row_word),
                    Arg::U32(col_word),
                    Arg::View(Region { operand: Operand::SlotOutScale, start: slot_proj, end: slot_proj + 1 }),
                    Arg::Buffer(Operand::Output),
                ],
            ),
        )
    }

    /// Adds a vector, times the routing weight of a slot, to the output.
    pub fn axpy_f32_topk_weight_device(
        &self,
        out: &DeviceBuffer<F32>,
        src: &DeviceBuffer<F32>,
        slot: usize,
    ) -> (plan: Result<Plan, AegisError>)
        ensures
            Plan::outcome(plan) =~~= axpy_topk_steps(out, src, slot),
    {
        if src.len() != out.len() {
            return Err(invalid_plan(
                "axpy topk-weight shape mismatch: src={} out={}",
                Values::Two(number(src.len()), number(out.len())),
            ));
        }
        let len: u32 = src.len() as u32;
        let slot_word: u32 = slot as u32;
        Ok(
            Plan::launch(
                Kernel::AxpyF32TopkWeight,
                "launch axpy_f32_topk_weight",
                LaunchConfig {
                    grid_dim: (ceil_div(len, 256), 1, 1),
                    block_dim: (256, 1, 1),
                    shared_mem_bytes: 0,
                },
                vec![
                    Arg::Buffer(Operand::Output),
                    Arg::Buffer(Operand::Input),
                    Arg::Buffer(Operand::PackedTopk),
                    Arg::U32(slot_word),
                    Arg::U32(len),
                ],
            ),
        )
    }

    /// Quantizes the input of every slot with the slot's own scale, slots apart by the given
    /// strides. A stride of none reads one input for all slots.
    pub fn quantize_nvfp4_input_batched_dptr_device(
        &self,
        input: &DeviceBuffer<F32>,
        input_stride: usize,
        len: usize,
        output_stride: usize,
        slot_in_scale: &DeviceBuffer<F32>,
        proj_off: usize,
        top_k: usize,
        output: &DeviceBuffer<F32>,
    ) -> (plan: Result<Plan, AegisError>)
        requires
            proj_off < 3 && 0 < top_k ==> top_k * output_stride <= usize::MAX,
            proj_off < 3 && 0 < top_k ==> top_k * input_stride <= usize::MAX,
            proj_off < 3 && 0 < top_k ==> top_k * 3 <= usize::MAX,
        ensures
            Plan::outcome(plan) =~~= quantize_batched_dptr_steps(
                input,
                input_stride,
                len,
                output_stride,
                slot_in_scale,
                proj_off,
                top_k,
                output,
            ),
    {
        if proj_off >= 3 || top_k == 0 {
            return Err(invalid_plan(
                "batched quant: bad proj_off={} or top_k={}",
                Values::Two(number(proj_off), number(top_k)),
            ));
        }
        if output_stride < len || output.len() < top_k * output_stride {
            return Err(invalid_plan(
                "batched quant: output too small: len {} stride {} top_k {} have {}",
                Values::Four(
                    number(len),
                    number(output_stride),
                    number(top_k),
                    number(output.len()),
                ),
            ));
        }
        let needed_in: usize = if input_stride == 0 { len } else { top_k * input_stride };
        if input.len() < needed_in || (input_stride != 0 && input_stride < len) {
            return Err(invalid_plan(
                "batched quant: input too small: len {} stride {} have {}",
                Values::Three(number(len), number(input_stride), number(input.len())),
            ));
        }
        if slot_in_scale.len() < top_k * 3 {
            return Err(invalid_plan(
                "batched quant: slot_in_scale {} need {}",
                Values::Two(number(slot_in_scale.len()), number(top_k * 3)),
            ));
        }
        let input_stride_word: u32 = input_stride as u32;
        let len_word: u32 = len as u32;
        let output_stride_word: u32 = output_stride as u32;
        let proj_word: u32 = proj_off as u32;
        let slots: u32 = top_k as u32;
        Ok(
            Plan::launch(
                Kernel::Nvfp4QuantizeInputBatchedDptr,
                "launch nvfp4 quantize input batched dptr",
                LaunchConfig {
                    grid_dim: (ceil_div(len_word, 16), slots, 1),
                    block_dim: (16, 1, 1),
                    shared_mem_bytes: 0,
                },
                vec![
                    Arg::Buffer(Operand::Input),
                    Arg::U32(input_stride_word),
                    Arg::U32(len_word),
                    Arg::U32(output_stride_word),
                    Arg::Buffer(Operand::SlotInScale),
                    Arg::U32(proj_word),
                    Arg::U32(slots),
                    Arg::Buffer(Operand::Output),
                ],
            ),
        )
    }

    /// Multiplies the quantized vector of every slot by the slot's gathered weights of one
    /// projection: one block per row and slot.
    pub fn matvec_nvfp4_prequantized_batched_dptr_device(
        &self,
        bulk_packed: &DeviceBuffer<u8>,
        bulk_scales: &DeviceBuffer<u8>,
        per_slot_packed: usize,
        per_slot_scale: usize,
        proj_packed_off: usize,
        proj_scale_off: usize,
        input: &DeviceBuffer<F32>,
        input_stride: usize,
        rows: usize,
        cols: usize,
        slot_out_scale: &DeviceBuffer<F32>,
        proj_off: usize,
        output_stride: usize,
        top_k: usize,
        output: &DeviceBuffer<F32>,
        fast: bool,
    ) -> (plan: Result<Plan, AegisError>)
        requires
            proj_off < 3 && 0 < top_k ==> top_k * per_slot_packed <= usize::MAX,
            proj_off < 3 && 0 < top_k ==> top_k * per_slot_scale <= usize::MAX,
            proj_off < 3 && 0 < top_k ==> proj_packed_off + rows * (cols as int / 2) <= usize::MAX,
            proj_off < 3 && 0 < top_k ==> proj_scale_off + rows * (cols as int / 16) <= usize::MAX,
            proj_off < 3 && 0 < top_k ==> top_k * input_stride <= usize::MAX,
            proj_off < 3 && 0 < top_k ==> top_k * output_stride <= usize::MAX,
            proj_off < 3 && 0 < top_k ==> top_k * 3 <= usize::MAX,
        ensures
            Plan::outcome(plan) =~~= prequantized_batched_dptr_steps(
                bulk_packed,
                bulk_scales,
                per_slot_packed,
                per_slot_scale,
                proj_packed_off,
                proj_scale_off,
                input,
                input_stride,
                rows,
                cols,
                slot_out_scale,
                proj_off,
                output_stride,
                top_k,
                output,
                fast,
            ),
    {
        if proj_off >= 3 || top_k == 0 {
            return Err(invalid_plan(
                "batched gemv: bad proj_off={} or top_k={}",
                Values::Two(number(proj_off), number(top_k)),
            ));
        }
        if bulk_packed.len() < top_k * per_slot_packed || bulk_scales.len() < top_k * per_slot_scale {
            return Err(invalid_plan(
                "batched gemv: bulk too small: packed {} need {}, scales {} need {}",
                Values::Four(
                    number(bulk_packed.len()),
                    number(top_k * per_slot_packed),
                    number(bulk_scales.len()),
                    number(top_k * per_slot_scale),
                ),
            ));
        }
        if proj_packed_off + rows * (cols / 2) > per_slot_packed || proj_scale_off + rows * (cols / 16) > per_slot_scale {
            return Err(invalid_plan(
                "batched gemv: proj offset/extent out of slot: packed {}+{}*{}>{}",
                Values::Four(
                    number(proj_packed_off),
                    number(rows),
                    number(cols / 2),
                    number(per_slot_packed),
                ),
            ));
        }
        if input_stride < cols || input.len() < top_k * input_stride {
            return Err(invalid_plan(
                "batched gemv: input too small: cols {} stride {} top_k {} have {}",
                Values::Four(
                    number(cols),
                    number(input_stride),
                    number(top_k),
                    number(input.len()),
                ),
            ));
        }
        if output_stride < rows || output.len() < top_k * output_stride {
            return Err(invalid_plan(
                "batched gemv: output too small: rows {} stride {} top_k {} have {}",
                Values::Four(
                    number(rows),
                    number(output_stride),
                    number(top_k),
                    number(output.len()),
                ),
            ));
        }
        if slot_out_scale.len() < top_k * 3 {
            return Err(invalid_plan(
                "batched gemv: slot_out_scale {} need {}",
                Values::Two(number(slot_out_scale.len()), number(top_k * 3)),
            ));
        }
        let slot_packed: u32 = per_slot_packed as u32;
        let slot_scale: u32 = per_slot_scale as u32;
        let packed_off: u32 = proj_packed_off as u32;
        let scale_off: u32 = proj_scale_off as u32;
        let input_stride_word: u32 = input_stride as u32;
        let row_word: u32 = rows as u32;
        let col_word: u32 = cols as u32;
        let proj_word: u32 = proj_off as u32;
        let output_stride_word: u32 = output_stride as u32;
        let slots: u32 = top_k as u32;
        if fast {
            return Ok(
                Plan::launch(
                    Kernel::Nvfp4PrequantBatchedDptrWarp,
                    "launch nvfp4 prequant batched dptr",
                    LaunchConfig {
                        grid_dim: (row_word, slots, 1),
                        block_dim: (128, 1, 1),
                        shared_mem_bytes: 0,
                    },
                    vec![
                        Arg::Buffer(Operand::BulkPacked),
                        Arg::Buffer(Operand::BulkScales),
                        Arg::U32(slot_packed),
                        Arg::U32(slot_scale),
                        Arg::U32(packed_off),
                        Arg::U32(scale_off),
                        Arg::Buffer(Operand::Input),
                        Arg::U32(input_stride_word),
                        Arg::U32(row_word),
                        Arg::U32(col_word),
                        Arg::Buffer(Operand::SlotOutScale),
                        Arg::U32(proj_word),
                        Arg::U32(output_stride_word),
                        Arg::U32(slots),
                        Arg::Buffer(Operand::Output),
                    ],
                ),
            );
        }
        Ok(
            Plan::launch(
                Kernel::Nvfp4PrequantBatchedDptr,
                "launch nvfp4 prequant batched dptr",
                LaunchConfig {
                    grid_dim: (row_word, slots, 1),
                    block_dim: (128, 1, 1),
                    shared_mem_bytes: 512,
                },
                vec![
                    Arg::Buffer(Operand::BulkPacked),
                    Arg::Buffer(Operand::BulkScales),
                    Arg::U32(slot_packed),
                    Arg::U32(slot_scale),
                    Arg::U32(packed_off),
                    Arg::U32(scale_off),
                    Arg::Buffer(Operand::Input),
                    Arg::U32(input_stride_word),
                    Arg::U32(row_word),
                    Arg::U32(col_word),
                    Arg::Buffer(Operand::SlotOutScale),
                    Arg::U32(proj_word),
                    Arg::U32(output_stride_word),
                    Arg::U32(slots),
                    Arg::Buffer(Operand::Output),
                ],
            ),
        )
    }

    /// Gates the projections of every slot, slots apart by `stride`.
    pub fn geglu_tanh_batched_slots_device(
        &self,
        gate: &DeviceBuffer<F32>,
        up: &DeviceBuffer<F32>,
        len: usize,
        stride: usize,
        top_k: usize,
        output: &DeviceBuffer<F32>,
    ) -> (plan: Result<Plan, AegisError>)
        requires
            0 < top_k && len <= stride ==> top_k * stride <= usize::MAX,
        ensures
            Plan::outcome(plan) =~~= geglu_batched_steps(gate, up, len, stride, top_k, output),
    {
        if top_k == 0 || stride < len {
            return Err(invalid_plan(
                "batched geglu: bad top_k={} or stride {} < len {}",
                Values::Three(number(top_k), number(stride), number(len)),
            ));
        }
        if gate.len() < top_k * stride || up.len() < top_k * stride || output.len() < top_k * stride {
            return Err(invalid_plan(
                "batched geglu: buffers too small: stride {} top_k {} gate {} up {} out {}",
                Values::Five(
                    number(stride),
                    number(top_k),
                    number(gate.len()),
                    number(up.len()),
                    number(output.len()),
                ),
            ));
        }
        let len_word: u32 = len as u32;
        let stride_word: u32 = stride as u32;
        let slots: u32 = top_k as u32;
        Ok(
            Plan::launch(
                Kernel::MoeGegluTanhBatchedSlots,
                "launch moe geglu tanh batched slots",
                LaunchConfig {
                    grid_dim: (ceil_div(len_word, 256), slots, 1),
                    block_dim: (256, 1, 1),
                    shared_mem_bytes: 0,
                },
                vec![
                    Arg::Buffer(Operand::GateOutput),
                    Arg::Buffer(Operand::UpOutput),
                    Arg::U32(len_word),
                    Arg::U32(stride_word),
                    Arg::U32(slots),
                    Arg::Buffer(Operand::Output),
                ],
            ),
        )
    }

    /// Sums the outputs of the slots, each times its routing weight.
    pub fn moe_weighted_accumulate_device(
        &self,
        out: &DeviceBuffer<F32>,
        expert_out: &DeviceBuffer<F32>,
        output_stride: usize,
        packed_topk: &DeviceBuffer<u32>,
        top_k: usize,
        len: usize,
    ) -> (plan: Result<Plan, AegisError>)
        requires
            0 < top_k && len <= output_stride ==> top_k * output_stride <= usize::MAX,
            0 < top_k && len <= output_stride ==> top_k * 2 <= usize::MAX,
        ensures
            Plan::outcome(plan) =~~= accumulate_steps(
                out,
                expert_out,
                output_stride,
                packed_topk,
                top_k,
                len,
            ),
    {
        if top_k == 0 || output_stride < len {
            return Err(invalid_plan(
                "batched accumulate: bad top_k={} or stride {} < len {}",
                Values::Three(number(top_k), number(output_stride), number(len)),
            ));
        }
        if out.len() < len || expert_out.len() < top_k * output_stride {
            return Err(invalid_plan(
                "batched accumulate: buffers too small: len {} stride {} top_k {} out {} expert_out {}",
                Values::Five(
                    number(len),
                    number(output_stride),
                    number(top_k),
                    number(out.len()),
                    number(expert_out.len()),
                ),
            ));
        }
        if packed_topk.len() < top_k * 2 {
            return Err(invalid_plan(
                "batched accumulate: packed_topk {} need {}",
                Values::Two(number(packed_topk.len()), number(top_k * 2)),
            ));
        }
        let stride_word: u32 = output_stride as u32;
        let slots: u32 = top_k as u32;
        let len_word: u32 = len as u32;
        Ok(
            Plan::launch(
                Kernel::MoeWeightedAccumulate,
                "launch moe weighted accumulate",
                LaunchConfig {
                    grid_dim: (ceil_div(len_word, 256), 1, 1),
                    block_dim: (256, 1, 1),
                    shared_mem_bytes: 0,
                },
                vec![
                    Arg::Buffer(Operand::Output),
                    Arg::Buffer(Operand::ExpertOutput),
                    Arg::U32(stride_word),
                    Arg::Buffer(Operand::PackedTopk),
                    Arg::U32(slots),
                    Arg::U32(len_word),
                ],
            ),
        )
    }
}

} // verus!
