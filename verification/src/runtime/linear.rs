//! Linear layers: matrix products over BF16, FP8 and four-bit weights.
use crate::error::{invalid_plan, number, AegisError, Value, Values};
use crate::functions::Kernel;
use crate::launch::{Arg, Engine, LaunchConfig, Operand, Plan, Region, Scalar, Step, StepView};
use crate::runtime::{self, ceil_div, CudaRuntime};
use crate::types::{
    DeviceBf16Matrix, DeviceBuffer, DeviceNvfp4Linear, HostResidentWeights, KernelFamily,
    StandaloneFp8Linear, F32,
};
use vstd::prelude::*;

verus! {

/// The error for an argument that does not fit 32 bits.
pub open spec fn wide(name: &'static str, value: int) -> AegisError {
    AegisError::invalid_with(
        "CUDA linear argument {} exceeds u32 range: {}",
        Values::Two(Value::Label(name), Value::num(value)),
    )
}

/// Narrows an argument to 32 bits.
pub fn u32_arg(name: &'static str, value: usize) -> (word: Result<u32, AegisError>)
    ensures
        match word {
            Ok(narrow) => narrow == value,
            Err(error) => value > u32::MAX && error == wide(name, value as int),
        },
{
    if value as u64 <= u32::MAX as u64 {
        Ok(value as u32)
    } else {
        Err(
            invalid_plan(
                "CUDA linear argument {} exceeds u32 range: {}",
                Values::Two(Value::Label(name), number(value)),
            ),
        )
    }
}

/// The error for a product that is no length.
pub open spec fn long_product(label: &'static str, lhs: int, rhs: int) -> AegisError {
    AegisError::invalid_with(
        "CUDA linear {} length overflow: {} * {}",
        Values::Three(Value::Label(label), Value::num(lhs), Value::num(rhs)),
    )
}

/// The product of two extents, if it is a length.
pub fn checked_len(label: &'static str, lhs: usize, rhs: usize) -> (len: Result<usize, AegisError>)
    ensures
        match len {
            Ok(len) => len == lhs * rhs,
            Err(error) => lhs * rhs > usize::MAX && error == long_product(label, lhs as int, rhs as int),
        },
{
    match lhs.checked_mul(rhs) {
        Some(len) => Ok(len),
        None => Err(
            invalid_plan(
                "CUDA linear {} length overflow: {} * {}",
                Values::Three(Value::Label(label), number(lhs), number(rhs)),
            ),
        ),
    }
}

/// A number of blocks, at least one and at most 65535.
pub open spec fn clamped(blocks: int) -> int {
    if blocks < 1 {
        1
    } else if blocks > 65535 {
        65535
    } else {
        blocks
    }
}

/// Holds a number of blocks between one and 65535.
fn clamp_grid(blocks: u32) -> (held: u32)
    ensures
        held == clamped(blocks as int),
{
    if blocks < 1 {
        1
    } else if blocks > 65535 {
        65535
    } else {
        blocks
    }
}

/// Whether a product is a length.
fn fits(lhs: usize, rhs: usize) -> (yes: bool)
    ensures
        yes == (lhs * rhs <= usize::MAX),
{
    lhs.checked_mul(rhs).is_some()
}

/// A row of a matrix lies within the matrix.
pub proof fn lemma_row_range(row: int, rows: int, cols: int)
    requires
        0 <= row < rows,
        0 <= cols,
    ensures
        0 <= row * cols,
        row * cols + cols <= rows * cols,
{
    assert(0 <= row * cols && row * cols + cols <= rows * cols) by (nonlinear_arith)
        requires
            0 <= row < rows,
            0 <= cols,
    ;
}

/// The steps of [`CudaRuntime::split_qkv_scaled_device`].
pub open spec fn split_qkv_steps(
    qkv: &DeviceBuffer<F32>,
    batch: usize,
    q_rows: usize,
    kv_rows: usize,
    q_output: &DeviceBuffer<F32>,
    k_output: &DeviceBuffer<F32>,
    v_output: &DeviceBuffer<F32>,
) -> Result<Seq<StepView>, AegisError> {
    let qkv_rows = q_rows + kv_rows + kv_rows;
    let expected_qkv = batch * qkv_rows;
    let expected_q = batch * q_rows;
    let expected_kv = batch * kv_rows;
    if qkv_rows > usize::MAX {
        Err(AegisError::invalid("split qkv rows overflow"))
    } else if expected_qkv > usize::MAX {
        Err(long_product("split qkv input", batch as int, qkv_rows as int))
    } else if expected_q > usize::MAX {
        Err(long_product("split q output", batch as int, q_rows as int))
    } else if expected_kv > usize::MAX {
        Err(long_product("split kv output", batch as int, kv_rows as int))
    } else if qkv.len() < expected_qkv || q_output.len() < expected_q || k_output.len() < expected_kv || v_output.len() < expected_kv {
        Err(AegisError::invalid_with(
                "split qkv buffers too small: qkv={} expected_qkv={} q={} expected_q={} k={} v={} expected_kv={}",
                Values::Seven(
                    Value::num(qkv.len() as int),
                    Value::num(expected_qkv as int),
                    Value::num(q_output.len() as int),
                    Value::num(expected_q as int),
                    Value::num(k_output.len() as int),
                    Value::num(v_output.len() as int),
                    Value::num(expected_kv as int),
                ),
            ))
    } else if expected_qkv > u32::MAX {
        Err(wide("split qkv elements", expected_qkv as int))
    } else if batch > u32::MAX {
        Err(wide("batch", batch as int))
    } else if q_rows > u32::MAX {
        Err(wide("q_rows", q_rows as int))
    } else if kv_rows > u32::MAX {
        Err(wide("kv_rows", kv_rows as int))
    } else {
        Ok(
            seq![
                StepView::launching(
                    Kernel::SplitQkvScaled,
                    "launch split qkv scaled",
                    LaunchConfig::of(
                        clamped(runtime::blocks(expected_qkv as int, 256)),
                        1,
                        1,
                        256,
                        0,
                    ),
                    seq![
                        Arg::Buffer(Operand::Qkv),
                        Arg::word(batch as int),
                        Arg::word(q_rows as int),
                        Arg::word(kv_rows as int),
                        Arg::Scalar(Scalar::QOutputScale),
                        Arg::Scalar(Scalar::KOutputScale),
                        Arg::Scalar(Scalar::VOutputScale),
                        Arg::Buffer(Operand::QOutput),
                        Arg::Buffer(Operand::KOutput),
                        Arg::Buffer(Operand::VOutput),
                    ],
                ),
            ],
        )
    }
}

/// The steps of [`CudaRuntime::quantize_bf16_to_fp8_per_row_device`].
pub open spec fn quantize_fp8_steps(
    bf16: &DeviceBuffer<u16>,
    rows: usize,
    cols: usize,
    fp8_out: &DeviceBuffer<u8>,
    row_scales_out: &DeviceBuffer<F32>,
) -> Result<Seq<StepView>, AegisError> {
    let total = rows * cols;
    if bf16.len() < total {
        Err(AegisError::invalid_with(
                "fp8 quantize: bf16 buffer too small: have {} need {}*{}={}",
                Values::Four(
                    Value::num(bf16.len() as int),
                    Value::num(rows as int),
                    Value::num(cols as int),
                    Value::num(total as int),
                ),
            ))
    } else if fp8_out.len() < total {
        Err(AegisError::invalid_with(
                "fp8 quantize: output buffer too small: have {} need {}",
                Values::Two(Value::num(fp8_out.len() as int), Value::num(total as int)),
            ))
    } else if row_scales_out.len() < rows {
        Err(AegisError::invalid_with(
                "fp8 quantize: scales buffer too small: have {} need {}",
                Values::Two(Value::num(row_scales_out.len() as int), Value::num(rows as int)),
            ))
    } else if rows > u32::MAX {
        Err(wide("rows", rows as int))
    } else if cols > u32::MAX {
        Err(wide("cols", cols as int))
    } else {
        Ok(
            seq![
                StepView::launching(
                    Kernel::Fp8QuantizeBf16PerRow,
                    "launch fp8 quantize bf16 per row",
                    LaunchConfig::of(rows as int, 1, 1, 256, 1024),
                    seq![
                        Arg::Buffer(Operand::Bf16),
                        Arg::Buffer(Operand::Fp8Out),
                        Arg::Buffer(Operand::RowScalesOut),
                        Arg::word(rows as int),
                        Arg::word(cols as int),
                    ],
                ),
            ],
        )
    }
}

/// The steps of [`CudaRuntime::matvec_fp8_standalone_device`].
pub open spec fn matvec_fp8_steps(
    linear: &StandaloneFp8Linear,
    input: &DeviceBuffer<F32>,
    output: &DeviceBuffer<F32>,
) -> Result<Seq<StepView>, AegisError> {
    if input.len() < linear.cols || output.len() < linear.rows {
        Err(AegisError::invalid_with(
                "fp8 matvec shape mismatch for {}: input={} need {}, output={} need {}",
                Values::Five(
                    Value::Name(linear.name),
                    Value::num(input.len() as int),
                    Value::num(linear.cols as int),
                    Value::num(output.len() as int),
                    Value::num(linear.rows as int),
                ),
            ))
    } else if linear.rows > u32::MAX {
        Err(wide("rows", linear.rows as int))
    } else if linear.cols > u32::MAX {
        Err(wide("cols", linear.cols as int))
    } else {
        Ok(
            seq![
                StepView::launching(
                    Kernel::Fp8Matvec,
                    "launch fp8 matvec",
                    LaunchConfig::of(linear.rows as int, 1, 1, 256, 1024),
                    seq![
                        Arg::Buffer(Operand::Fp8Data),
                        Arg::Buffer(Operand::Fp8RowScales),
                        Arg::Buffer(Operand::Input),
                        Arg::word(linear.rows as int),
                        Arg::word(linear.cols as int),
                        Arg::Buffer(Operand::Output),
                    ],
                ),
            ],
        )
    }
}

/// The steps of [`CudaRuntime::dequant_fp8_to_bf16_device`].
pub open spec fn dequant_fp8_steps(
    linear: &StandaloneFp8Linear,
    bf16_out: &DeviceBuffer<u16>,
) -> Result<Seq<StepView>, AegisError> {
    let total = linear.rows * linear.cols;
    if bf16_out.len() < total {
        Err(AegisError::invalid_with(
                "fp8→bf16 dequant: scratch too small for `{}`: have {} need {}",
                Values::Three(
                    Value::Name(linear.name),
                    Value::num(bf16_out.len() as int),
                    Value::num(total as int),
                ),
            ))
    } else if linear.rows > u32::MAX {
        Err(wide("rows", linear.rows as int))
    } else if linear.cols > u32::MAX {
        Err(wide("cols", linear.cols as int))
    } else {
        Ok(
            seq![
                StepView::launching(
                    Kernel::Fp8DequantToBf16,
                    "launch fp8 dequant to bf16",
                    LaunchConfig::of(
                        linear.rows as int,
                        runtime::blocks(linear.cols as int, 256),
                        1,
                        256,
                        0,
                    ),
                    seq![
                        Arg::Buffer(Operand::Fp8Data),
                        Arg::Buffer(Operand::Fp8RowScales),
                        Arg::Buffer(Operand::Bf16),
                        Arg::word(linear.rows as int),
                        Arg::word(linear.cols as int),
                    ],
                ),
            ],
        )
    }
}

/// The steps of [`CudaRuntime::matmul_fp8_standalone_batched_device`].
pub open spec fn matmul_fp8_steps(
    linear: &StandaloneFp8Linear,
    input: &DeviceBuffer<F32>,
    batch: usize,
    output: &DeviceBuffer<F32>,
) -> Result<Seq<StepView>, AegisError> {
    let total_in = batch * linear.cols;
    let total_out = batch * linear.rows;
    if total_in > usize::MAX {
        Err(long_product("fp8 matmul input", batch as int, linear.cols as int))
    } else if total_out > usize::MAX {
        Err(long_product("fp8 matmul output", batch as int, linear.rows as int))
    } else if input.len() < total_in || output.len() < total_out {
        Err(AegisError::invalid_with(
                "fp8 matmul shape mismatch for {}: input={} need {}, output={} need {}",
                Values::Five(
                    Value::Name(linear.name),
                    Value::num(input.len() as int),
                    Value::num(total_in as int),
                    Value::num(output.len() as int),
                    Value::num(total_out as int),
                ),
            ))
    } else if linear.rows > u32::MAX {
        Err(wide("rows", linear.rows as int))
    } else if linear.cols > u32::MAX {
        Err(wide("cols", linear.cols as int))
    } else if batch > u32::MAX {
        Err(wide("batch", batch as int))
    } else {
        Ok(
            seq![
                StepView::launching(
                    Kernel::Fp8MatmulBatched,
                    "launch fp8 matmul batched",
                    LaunchConfig::of(linear.rows as int, batch as int, 1, 128, 512),
                    seq![
                        Arg::Buffer(Operand::Fp8Data),
                        Arg::Buffer(Operand::Fp8RowScales),
                        Arg::Buffer(Operand::Input),
                        Arg::word(linear.rows as int),
                        Arg::word(linear.cols as int),
                        Arg::word(batch as int),
                        Arg::Buffer(Operand::Output),
                    ],
                ),
            ],
        )
    }
}

/// The steps of [`CudaRuntime::matmul_bf16_reference_batched_device`].
pub open spec fn matmul_bf16_steps(
    matrix: &DeviceBf16Matrix,
    input: &DeviceBuffer<F32>,
    batch: usize,
    output: &DeviceBuffer<F32>,
) -> Result<Seq<StepView>, AegisError> {
    let total_in = batch * matrix.cols;
    let total_out = batch * matrix.rows;
    if matrix.is_host_resident() {
        Err(AegisError::invalid_with(
                "batched bf16 matmul does not support host-resident matrix `{}`; load to VRAM",
                Values::One(Value::Name(matrix.name)),
            ))
    } else if total_in > usize::MAX {
        Err(long_product("bf16 matmul input", batch as int, matrix.cols as int))
    } else if total_out > usize::MAX {
        Err(long_product("bf16 matmul output", batch as int, matrix.rows as int))
    } else if input.len() < total_in || output.len() < total_out {
        Err(AegisError::invalid_with(
                "batched bf16 matmul shape mismatch for {}: input.len()={} need {}*{}={}, output.len()={} need {}*{}={}",
                Values::Nine(
                    Value::Name(matrix.name),
                    Value::num(input.len() as int),
                    Value::num(batch as int),
                    Value::num(matrix.cols as int),
                    Value::num(total_in as int),
                    Value::num(output.len() as int),
                    Value::num(batch as int),
                    Value::num(matrix.rows as int),
                    Value::num(total_out as int),
                ),
            ))
    } else if matrix.rows > u32::MAX {
        Err(wide("rows", matrix.rows as int))
    } else if matrix.cols > u32::MAX {
        Err(wide("cols", matrix.cols as int))
    } else if batch > u32::MAX {
        Err(wide("batch", batch as int))
    } else {
        Ok(
            seq![
                StepView::launching(
                    Kernel::Bf16MatmulReferenceBatched,
                    "launch bf16_matmul_reference_batched",
                    LaunchConfig::of(matrix.rows as int, batch as int, 1, 128, 512),
                    seq![
                        Arg::Buffer(Operand::MatrixValues),
                        Arg::Buffer(Operand::Input),
                        Arg::word(matrix.rows as int),
                        Arg::word(matrix.cols as int),
                        Arg::word(batch as int),
                        Arg::Buffer(Operand::Output),
                    ],
                ),
            ],
        )
    }
}

/// The steps of [`CudaRuntime::launch_bf16_matvec_reference`].
pub open spec fn matvec_bf16_steps(
    matrix: &DeviceBf16Matrix,
    input: &DeviceBuffer<F32>,
    output: &DeviceBuffer<F32>,
) -> Result<Seq<StepView>, AegisError> {
    if input.len() < matrix.cols || output.len() < matrix.rows {
        Err(AegisError::invalid_with(
                "bf16 matvec shape mismatch for {}: expected input={} output={}, got input={} output={}",
                Values::Five(
                    Value::Name(matrix.name),
                    Value::num(matrix.cols as int),
                    Value::num(matrix.rows as int),
                    Value::num(input.len() as int),
                    Value::num(output.len() as int),
                ),
            ))
    } else {
        Ok(
            seq![
                StepView::launching(
                    Kernel::Bf16Matvec,
                    "launch bf16 matvec reference",
                    LaunchConfig::of(matrix.rows as int, 1, 1, 128, 512),
                    seq![
                        Arg::Buffer(Operand::MatrixValues),
                        Arg::Buffer(Operand::Input),
                        Arg::word(matrix.rows as int),
                        Arg::word(matrix.cols as int),
                        Arg::Buffer(Operand::Output),
                    ],
                ),
            ],
        )
    }
}

/// The steps of [`CudaRuntime::matvec_bf16_host_resident_device`].
pub open spec fn matvec_bf16_host_steps(
    matrix: &DeviceBf16Matrix,
    input: &DeviceBuffer<F32>,
    output: &DeviceBuffer<F32>,
) -> Result<Seq<StepView>, AegisError> {
    if !matrix.is_host_resident() {
        Err(AegisError::invalid_with(
                "host-resident matvec called on non-host-resident `{}`",
                Values::One(Value::Name(matrix.name)),
            ))
    } else if input.len() < matrix.cols || output.len() < matrix.rows {
        Err(AegisError::invalid_with(
                "bf16 host matvec shape mismatch for {}: input={} cols={} output={} rows={}",
                Values::Five(
                    Value::Name(matrix.name),
                    Value::num(input.len() as int),
                    Value::num(matrix.cols as int),
                    Value::num(output.len() as int),
                    Value::num(matrix.rows as int),
                ),
            ))
    } else {
        Ok(
            seq![
                StepView::HostMatvec { rows: matrix.rows, cols: matrix.cols, stage: "upload host bf16 matvec result" },
            ],
        )
    }
}

/// The steps of [`CudaRuntime::bf16_row_to_f32_device`].
pub open spec fn bf16_row_steps(
    matrix: &DeviceBf16Matrix,
    row: usize,
    output: &DeviceBuffer<F32>,
) -> Result<Seq<StepView>, AegisError> {
    if row >= matrix.rows || output.len() != matrix.cols {
        Err(AegisError::invalid_with(
                "bf16 row shape mismatch for {}: row={} rows={} output={} cols={}",
                Values::Five(
                    Value::Name(matrix.name),
                    Value::num(row as int),
                    Value::num(matrix.rows as int),
                    Value::num(output.len() as int),
                    Value::num(matrix.cols as int),
                ),
            ))
    } else if matrix.is_host_resident() {
        Ok(
            seq![
                StepView::UploadWidened {
                    from: Region {
                        operand: Operand::HostMatrix,
                        start: (row * matrix.cols) as usize,
                        end: (row * matrix.cols + matrix.cols) as usize,
                    },
                    to: Region { operand: Operand::Output, start: 0, end: matrix.cols },
                    map: "read pinned bf16 row",
                    stage: "upload host bf16 row",
                },
            ],
        )
    } else {
        Ok(
            seq![
                StepView::launching(
                    Kernel::Bf16Row,
                    "launch bf16 row to f32",
                    LaunchConfig::of(
                        runtime::blocks((matrix.cols as u32) as int, 256),
                        1,
                        1,
                        256,
                        0,
                    ),
                    seq![
                        Arg::Buffer(Operand::MatrixValues),
                        Arg::word(row as int),
                        Arg::word(matrix.cols as int),
                        Arg::Buffer(Operand::Output),
                    ],
                ),
            ],
        )
    }
}

/// The steps of [`CudaRuntime::bf16_rows_to_f32_device`].
pub open spec fn bf16_rows_steps(
    matrix: &DeviceBf16Matrix,
    rows: &DeviceBuffer<u32>,
    batch: usize,
    output: &DeviceBuffer<F32>,
) -> Result<Seq<StepView>, AegisError> {
    let output_len = batch * matrix.cols;
    if output_len > usize::MAX {
        Err(AegisError::invalid_with(
                "bf16 rows output length overflow for {}: batch={} cols={}",
                Values::Three(
                    Value::Name(matrix.name),
                    Value::num(batch as int),
                    Value::num(matrix.cols as int),
                ),
            ))
    } else if rows.len() < batch || output.len() < output_len {
        Err(AegisError::invalid_with(
                "bf16 rows shape mismatch for {}: rows={} batch={} output={} expected={}",
                Values::Five(
                    Value::Name(matrix.name),
                    Value::num(rows.len() as int),
                    Value::num(batch as int),
                    Value::num(output.len() as int),
                    Value::num(output_len as int),
                ),
            ))
    } else if matrix.is_host_resident() {
        Ok(
            seq![
                StepView::GatherHostRows {
                    rows: matrix.rows,
                    cols: matrix.cols,
                    batch,
                    output_len: output_len as usize,
                    stage: "upload host bf16 rows",
                },
            ],
        )
    } else if batch > u32::MAX {
        Err(wide("batch", batch as int))
    } else if matrix.rows > u32::MAX {
        Err(wide("rows", matrix.rows as int))
    } else if matrix.cols > u32::MAX {
        Err(wide("cols", matrix.cols as int))
    } else {
        Ok(
            seq![
                StepView::launching(
                    Kernel::Bf16Rows,
                    "launch bf16 rows to f32",
                    LaunchConfig::of(
                        runtime::blocks(matrix.cols as int, 256),
                        batch as int,
                        1,
                        256,
                        0,
                    ),
                    seq![
                        Arg::Buffer(Operand::MatrixValues),
                        Arg::Buffer(Operand::RowIndices),
                        Arg::word(batch as int),
                        Arg::word(matrix.rows as int),
                        Arg::word(matrix.cols as int),
                        Arg::Buffer(Operand::Output),
                    ],
                ),
            ],
        )
    }
}

/// The steps of [`CudaRuntime::launch_nvfp4_reference`].
pub open spec fn nvfp4_reference_steps(
    linear: &DeviceNvfp4Linear,
    input: &DeviceBuffer<F32>,
    output: &DeviceBuffer<F32>,
) -> Result<Seq<StepView>, AegisError> {
    if input.len() != linear.cols || output.len() != linear.rows {
        Err(AegisError::invalid_with(
                "nvfp4 reference shape mismatch for {}: expected input={} output={}, got input={} output={}",
                Values::Five(
                    Value::Name(linear.name),
                    Value::num(linear.cols as int),
                    Value::num(linear.rows as int),
                    Value::num(input.len() as int),
                    Value::num(output.len() as int),
                ),
            ))
    } else {
        Ok(
            seq![
                StepView::launching(
                    Kernel::Nvfp4Reference,
                    "launch nvfp4 reference linear",
                    LaunchConfig::of(linear.rows as int, 1, 1, 128, 512),
                    seq![
                        Arg::Buffer(Operand::Packed),
                        Arg::Buffer(Operand::Scales),
                        Arg::Buffer(Operand::Input),
                        Arg::word(linear.rows as int),
                        Arg::word(linear.cols as int),
                        Arg::Scalar(Scalar::InputScale),
                        Arg::Scalar(Scalar::OutputScale),
                        Arg::Buffer(Operand::Output),
                    ],
                ),
            ],
        )
    }
}

/// The steps of [`CudaRuntime::launch_nvfp4_prequantized`].
pub open spec fn nvfp4_prequantized_steps(
    linear: &DeviceNvfp4Linear,
    quantized_input: &DeviceBuffer<F32>,
    output: &DeviceBuffer<F32>,
) -> Result<Seq<StepView>, AegisError> {
    if quantized_input.len() != linear.cols || output.len() != linear.rows {
        Err(AegisError::invalid_with(
                "nvfp4 prequantized shape mismatch for {}: expected input={} output={}, got input={} output={}",
                Values::Five(
                    Value::Name(linear.name),
                    Value::num(linear.cols as int),
                    Value::num(linear.rows as int),
                    Value::num(quantized_input.len() as int),
                    Value::num(output.len() as int),
                ),
            ))
    } else {
        Ok(
            seq![
                StepView::launching(
                    Kernel::Nvfp4Prequant,
                    "launch nvfp4 prequantized linear",
                    LaunchConfig::of(linear.rows as int, 1, 1, 128, 512),
                    seq![
                        Arg::Buffer(Operand::Packed),
                        Arg::Buffer(Operand::Scales),
                        Arg::Buffer(Operand::QuantizedInput),
                        Arg::word(linear.rows as int),
                        Arg::word(linear.cols as int),
                        Arg::Scalar(Scalar::OutputScale),
                        Arg::Buffer(Operand::Output),
                    ],
                ),
            ],
        )
    }
}

/// The steps of [`CudaRuntime::matvec_nvfp4_reference_batched_device`].
pub open spec fn nvfp4_reference_batched_steps(
    linear: &DeviceNvfp4Linear,
    input: &DeviceBuffer<F32>,
    batch: usize,
    output: &DeviceBuffer<F32>,
) -> Result<Seq<StepView>, AegisError> {
    let total_in = batch * linear.cols;
    let total_out = batch * linear.rows;
    if input.len() < total_in || output.len() < total_out {
        Err(AegisError::invalid_with(
                "batched nvfp4 linear shape mismatch for {}: input={} expected={} output={} expected={}",
                Values::Five(
                    Value::Name(linear.name),
                    Value::num(input.len() as int),
                    Value::num(total_in as int),
                    Value::num(output.len() as int),
                    Value::num(total_out as int),
                ),
            ))
    } else {
        Ok(
            seq![
                StepView::launching(
                    Kernel::Nvfp4ReferenceBatched,
                    "launch batched nvfp4 matvec reference",
                    LaunchConfig::of(linear.rows as int, batch as int, 1, 256, 1024),
                    seq![
                        Arg::Buffer(Operand::Packed),
                        Arg::Buffer(Operand::Scales),
                        Arg::Buffer(Operand::Input),
                        Arg::word(linear.rows as int),
                        Arg::word(linear.cols as int),
                        Arg::Scalar(Scalar::InputScale),
                        Arg::Scalar(Scalar::OutputScale),
                        Arg::Buffer(Operand::Output),
                    ],
                ),
            ],
        )
    }
}

/// The steps of [`CudaRuntime::matmul_nvfp4_grouped_prequant_wmma_bf16_device`].
pub open spec fn nvfp4_grouped_steps(
    rows: usize,
    cols: usize,
    max_tokens_per_expert: usize,
    num_active_experts: usize,
    t32_disabled: bool,
) -> Result<Seq<StepView>, AegisError> {
    if num_active_experts == 0 || max_tokens_per_expert == 0 {
        Ok(Seq::empty())
    } else if rows % 16 != 0 || cols % 16 != 0 {
        Err(AegisError::invalid_with(
                "grouped wmma gemm requires rows%16==0 and cols%16==0, got rows={} cols={}",
                Values::Two(Value::num(rows as int), Value::num(cols as int)),
            ))
    } else if rows > u32::MAX {
        Err(wide("rows", rows as int))
    } else if cols > u32::MAX {
        Err(wide("cols", cols as int))
    } else if num_active_experts > u32::MAX {
        Err(wide("num_active_experts", num_active_experts as int))
    } else if !t32_disabled && rows % 32 == 0 && max_tokens_per_expert >= 16 {
        Ok(
            seq![
                StepView::launching(
                    Kernel::Nvfp4GroupedPrequantGemmWmmaBf16T32,
                    "launch grouped nvfp4 wmma gemm t32",
                    LaunchConfig::of(
                        rows as int / 32,
                        (max_tokens_per_expert + 31) / 32,
                        num_active_experts as int,
                        128,
                        0,
                    ),
                    seq![
                        Arg::Buffer(Operand::PackedBase),
                        Arg::Buffer(Operand::ScalesBase),
                        Arg::Buffer(Operand::PackedOffsets),
                        Arg::Buffer(Operand::ScalesOffsets),
                        Arg::Buffer(Operand::OutputScales),
                        Arg::Buffer(Operand::ExpertTokenOffsets),
                        Arg::Buffer(Operand::PermutedInput),
                        Arg::word(rows as int),
                        Arg::word(cols as int),
                        Arg::Buffer(Operand::PermutedOutput),
                    ],
                ),
            ],
        )
    } else {
        Ok(
            seq![
                StepView::launching(
                    Kernel::Nvfp4GroupedPrequantGemmWmmaBf16,
                    "launch grouped nvfp4 wmma gemm",
                    LaunchConfig::of(
                        rows as int / 16,
                        (max_tokens_per_expert + 15) / 16,
                        num_active_experts as int,
                        32,
                        0,
                    ),
                    seq![
                        Arg::Buffer(Operand::PackedBase),
                        Arg::Buffer(Operand::ScalesBase),
                        Arg::Buffer(Operand::PackedOffsets),
                        Arg::Buffer(Operand::ScalesOffsets),
                        Arg::Buffer(Operand::OutputScales),
                        Arg::Buffer(Operand::ExpertTokenOffsets),
                        Arg::Buffer(Operand::PermutedInput),
                        Arg::word(rows as int),
                        Arg::word(cols as int),
                        Arg::Buffer(Operand::PermutedOutput),
                    ],
                ),
            ],
        )
    }
}

/// The steps of [`CudaRuntime::matvec_nvfp4_prequantized_batched_device`].
pub open spec fn nvfp4_prequantized_batched_steps(
    linear: &DeviceNvfp4Linear,
    input: &DeviceBuffer<F32>,
    batch: usize,
    output: &DeviceBuffer<F32>,
    wmma_disabled: bool,
) -> Result<Seq<StepView>, AegisError> {
    let total_in = batch * linear.cols;
    let total_out = batch * linear.rows;
    if input.len() < total_in || output.len() < total_out {
        Err(AegisError::invalid_with(
                "batched prequantized nvfp4 linear shape mismatch for {}: input={} expected={} output={} expected={}",
                Values::Five(
                    Value::Name(linear.name),
                    Value::num(input.len() as int),
                    Value::num(total_in as int),
                    Value::num(output.len() as int),
                    Value::num(total_out as int),
                ),
            ))
    } else if batch > 1 && !wmma_disabled && linear.rows % 16 == 0 && linear.cols % 16 == 0 && batch >= 32 {
        Ok(
            seq![
                StepView::launching(
                    Kernel::Nvfp4PrequantBatchedGemmWmmaBf16,
                    "launch batched nvfp4 gemm wmma bf16",
                    LaunchConfig::of(linear.rows as int / 16, (batch + 15) / 16, 1, 32, 0),
                    seq![
                        Arg::Buffer(Operand::Packed),
                        Arg::Buffer(Operand::Scales),
                        Arg::Buffer(Operand::Input),
                        Arg::word(linear.rows as int),
                        Arg::word(linear.cols as int),
                        Arg::word(batch as int),
                        Arg::Scalar(Scalar::OutputScale),
                        Arg::Buffer(Operand::Output),
                    ],
                ),
            ],
        )
    } else if batch > 1 {
        Ok(
            seq![
                StepView::launching(
                    Kernel::Nvfp4PrequantBatchedGemm,
                    "launch batched nvfp4 gemm prequantized",
                    LaunchConfig::of(
                        linear.rows as int,
                        (batch + 7) / 8,
                        1,
                        256,
                        linear.cols as int / 2 + linear.cols as int / 16,
                    ),
                    seq![
                        Arg::Buffer(Operand::Packed),
                        Arg::Buffer(Operand::Scales),
                        Arg::Buffer(Operand::Input),
                        Arg::word(linear.rows as int),
                        Arg::word(linear.cols as int),
                        Arg::word(batch as int),
                        Arg::Scalar(Scalar::OutputScale),
                        Arg::Buffer(Operand::Output),
                    ],
                ),
            ],
        )
    } else {
        Ok(
            seq![
                StepView::launching(
                    Kernel::Nvfp4PrequantBatched,
                    "launch batched nvfp4 matvec prequantized",
                    LaunchConfig::of(linear.rows as int, batch as int, 1, 256, 1024),
                    seq![
                        Arg::Buffer(Operand::Packed),
                        Arg::Buffer(Operand::Scales),
                        Arg::Buffer(Operand::Input),
                        Arg::word(linear.rows as int),
                        Arg::word(linear.cols as int),
                        Arg::Scalar(Scalar::OutputScale),
                        Arg::Buffer(Operand::Output),
                    ],
                ),
            ],
        )
    }
}

/// The steps of [`CudaRuntime::launch_nvfp4_prequantized_batched_views`].
pub open spec fn staged_prequantized_batched_steps(
    rows: usize,
    cols: usize,
    batch: usize,
    wmma_disabled: bool,
) -> Result<Seq<StepView>, AegisError> {
    if batch > 1 && !wmma_disabled && rows % 16 == 0 && cols % 16 == 0 && batch >= 32 {
        Ok(
            seq![
                StepView::launching(
                    Kernel::Nvfp4PrequantBatchedGemmWmmaBf16,
                    "launch staged nvfp4 wmma bf16 batched gemm",
                    LaunchConfig::of(rows as int / 16, (batch + 15) / 16, 1, 32, 0),
                    seq![
                        Arg::Buffer(Operand::StagedPacked),
                        Arg::Buffer(Operand::StagedScales),
                        Arg::Buffer(Operand::QuantizedInput),
                        Arg::word(rows as int),
                        Arg::word(cols as int),
                        Arg::word(batch as int),
                        Arg::Scalar(Scalar::OutputScale),
                        Arg::Buffer(Operand::Output),
                    ],
                ),
            ],
        )
    } else if batch > 1 {
        Ok(
            seq![
                StepView::launching(
                    Kernel::Nvfp4PrequantBatchedGemm,
                    "launch staged nvfp4 prequantized batched gemm",
                    LaunchConfig::of(
                        rows as int,
                        (batch + 7) / 8,
                        1,
                        256,
                        cols as int / 2 + cols as int / 16,
                    ),
                    seq![
                        Arg::Buffer(Operand::StagedPacked),
                        Arg::Buffer(Operand::StagedScales),
                        Arg::Buffer(Operand::QuantizedInput),
                        Arg::word(rows as int),
                        Arg::word(cols as int),
                        Arg::word(batch as int),
                        Arg::Scalar(Scalar::OutputScale),
                        Arg::Buffer(Operand::Output),
                    ],
                ),
            ],
        )
    } else {
        Ok(
            seq![
                StepView::launching(
                    Kernel::Nvfp4PrequantBatched,
                    "launch staged nvfp4 prequantized batched",
                    LaunchConfig::of(rows as int, batch as int, 1, 256, 1024),
                    seq![
                        Arg::Buffer(Operand::StagedPacked),
                        Arg::Buffer(Operand::StagedScales),
                        Arg::Buffer(Operand::QuantizedInput),
                        Arg::word(rows as int),
                        Arg::word(cols as int),
                        Arg::Scalar(Scalar::OutputScale),
                        Arg::Buffer(Operand::Output),
                    ],
                ),
            ],
        )
    }
}

/// The steps of [`CudaRuntime::launch_nvfp4_reference_views`].
pub open spec fn staged_reference_steps(
    rows: usize,
    cols: usize,
) -> Result<Seq<StepView>, AegisError> {
    Ok(
        seq![
            StepView::launching(
                Kernel::Nvfp4Reference,
                "launch staged nvfp4 reference",
                LaunchConfig::of(rows as int, 1, 1, 128, 512),
                seq![
                    Arg::Buffer(Operand::StagedPacked),
                    Arg::Buffer(Operand::StagedScales),
                    Arg::Buffer(Operand::Input),
                    Arg::word(rows as int),
                    Arg::word(cols as int),
                    Arg::Scalar(Scalar::InputScale),
                    Arg::Scalar(Scalar::OutputScale),
                    Arg::Buffer(Operand::Output),
                ],
            ),
        ],
    )
}

/// The steps of [`CudaRuntime::launch_nvfp4_prequantized_views`].
pub open spec fn staged_prequantized_steps(
    rows: usize,
    cols: usize,
) -> Result<Seq<StepView>, AegisError> {
    Ok(
        seq![
            StepView::launching(
                Kernel::Nvfp4Prequant,
                "launch staged nvfp4 prequantized",
                LaunchConfig::of(rows as int, 1, 1, 128, 512),
                seq![
                    Arg::Buffer(Operand::StagedPacked),
                    Arg::Buffer(Operand::StagedScales),
                    Arg::Buffer(Operand::QuantizedInput),
                    Arg::word(rows as int),
                    Arg::word(cols as int),
                    Arg::Scalar(Scalar::OutputScale),
                    Arg::Buffer(Operand::Output),
                ],
            ),
        ],
    )
}

/// The steps of [`CudaRuntime::matvec_mxfp4_native_prepacked_device`].
pub open spec fn native_matvec_steps(
    linear: &DeviceNvfp4Linear,
    vector_bytes: Result<usize, AegisError>,
    input_mxfp4: &DeviceBuffer<u8>,
    output: &DeviceBuffer<F32>,
) -> Result<Seq<StepView>, AegisError> {
    let expected_input_bytes = vector_bytes->Ok_0;
    let native = linear.native_mxfp4->Some_0;
    if vector_bytes is Err {
        Err(vector_bytes->Err_0)
    } else if input_mxfp4.len() != expected_input_bytes || output.len() != linear.rows {
        Err(AegisError::invalid_with(
                "native mxfp4 matvec shape mismatch for {}: expected input_bytes={} output={}, got input_bytes={} output={}",
                Values::Five(
                    Value::Name(linear.name),
                    Value::num(expected_input_bytes as int),
                    Value::num(linear.rows as int),
                    Value::num(input_mxfp4.len() as int),
                    Value::num(output.len() as int),
                ),
            ))
    } else if linear.native_mxfp4 is None {
        Err(AegisError::invalid_with(
                "native mxfp4 inference requested for `{}`, but no native MXFP4 resident layout was materialized; enable CudaRuntimeConfig.native_mxfp4_repack",
                Values::One(Value::Name(linear.name)),
            ))
    } else if linear.cols % 64 != 0 {
        Err(AegisError::invalid_with(
                "native mxfp4 matvec for `{}` requires cols divisible by 64, got {}",
                Values::Two(Value::Name(linear.name), Value::num(linear.cols as int)),
            ))
    } else if linear.cols % 1024 == 0 {
        Ok(
            seq![
                StepView::launching(
                    Kernel::Mxfp4Matvec16warp,
                    "launch native mxfp4 matvec 16warp",
                    LaunchConfig::of(
                        runtime::blocks((linear.rows as u32) as int, 16),
                        1,
                        1,
                        512,
                        0,
                    ),
                    seq![
                        Arg::Buffer(Operand::NativeWeights),
                        Arg::Buffer(Operand::InputMxfp4),
                        Arg::word(linear.rows as int),
                        Arg::word(linear.cols as int),
                        Arg::word(native.blocks_per_row as int),
                        Arg::Scalar(Scalar::OutputScale),
                        Arg::Buffer(Operand::Output),
                    ],
                ),
            ],
        )
    } else if linear.cols % 256 == 0 {
        Ok(
            seq![
                StepView::launching(
                    Kernel::Mxfp4Matvec4warp,
                    "launch native mxfp4 matvec 4warp",
                    LaunchConfig::of(
                        runtime::blocks((linear.rows as u32) as int, 16),
                        1,
                        1,
                        128,
                        0,
                    ),
                    seq![
                        Arg::Buffer(Operand::NativeWeights),
                        Arg::Buffer(Operand::InputMxfp4),
                        Arg::word(linear.rows as int),
                        Arg::word(linear.cols as int),
                        Arg::word(native.blocks_per_row as int),
                        Arg::Scalar(Scalar::OutputScale),
                        Arg::Buffer(Operand::Output),
                    ],
                ),
            ],
        )
    } else {
        Ok(
            seq![
                StepView::launching(
                    Kernel::Mxfp4Matvec,
                    "launch native mxfp4 matvec 1warp",
                    LaunchConfig::of(
                        runtime::blocks((linear.rows as u32) as int, 16),
                        1,
                        1,
                        32,
                        0,
                    ),
                    seq![
                        Arg::Buffer(Operand::NativeWeights),
                        Arg::Buffer(Operand::InputMxfp4),
                        Arg::word(linear.rows as int),
                        Arg::word(linear.cols as int),
                        Arg::word(native.blocks_per_row as int),
                        Arg::Scalar(Scalar::OutputScale),
                        Arg::Buffer(Operand::Output),
                    ],
                ),
            ],
        )
    }
}

/// The steps of [`CudaRuntime::native_batched_into`].
pub open spec fn native_batched_steps(
    linear: &DeviceNvfp4Linear,
    vector_bytes: Result<usize, AegisError>,
    input_mxfp4: &DeviceBuffer<u8>,
    batch: usize,
    output: &DeviceBuffer<F32>,
    weights: Operand,
    scale: Scalar,
    target: Operand,
) -> Result<Seq<StepView>, AegisError> {
    let row_bytes = vector_bytes->Ok_0;
    let expected_input_bytes = batch * row_bytes;
    let expected_output = batch * linear.rows;
    let native = linear.native_mxfp4->Some_0;
    if vector_bytes is Err {
        Err(vector_bytes->Err_0)
    } else if expected_input_bytes > usize::MAX {
        Err(long_product("batched native mxfp4 input", batch as int, row_bytes as int))
    } else if expected_output > usize::MAX {
        Err(long_product("batched native mxfp4 output", batch as int, linear.rows as int))
    } else if input_mxfp4.len() < expected_input_bytes || output.len() < expected_output {
        Err(AegisError::invalid_with(
                "batched native mxfp4 matvec shape mismatch for {}: expected input_bytes>={} output>={}, got input_bytes={} output={}",
                Values::Five(
                    Value::Name(linear.name),
                    Value::num(expected_input_bytes as int),
                    Value::num(expected_output as int),
                    Value::num(input_mxfp4.len() as int),
                    Value::num(output.len() as int),
                ),
            ))
    } else if linear.native_mxfp4 is None {
        Err(AegisError::invalid_with(
                "batched native mxfp4 inference requested for `{}`, but no native MXFP4 resident layout was materialized; enable CudaRuntimeConfig.native_mxfp4_repack",
                Values::One(Value::Name(linear.name)),
            ))
    } else if linear.cols % 64 != 0 {
        Err(AegisError::invalid_with(
                "batched native mxfp4 matvec for `{}` requires cols divisible by 64, got {}",
                Values::Two(Value::Name(linear.name), Value::num(linear.cols as int)),
            ))
    } else if linear.rows > u32::MAX {
        Err(wide("rows", linear.rows as int))
    } else if linear.cols > u32::MAX {
        Err(wide("cols", linear.cols as int))
    } else if native.blocks_per_row > u32::MAX {
        Err(wide("blocks_per_row", native.blocks_per_row as int))
    } else if batch > u32::MAX {
        Err(wide("batch", batch as int))
    } else if batch >= 16 && linear.rows >= 64 {
        Ok(
            seq![
                StepView::launching(
                    Kernel::Mxfp4MatmulTileM16n64,
                    "launch tiled native mxfp4 prefill gemm",
                    LaunchConfig::of(
                        runtime::blocks(linear.rows as int, 64),
                        runtime::blocks(batch as int, 16),
                        1,
                        256,
                        0,
                    ),
                    seq![
                        Arg::Buffer(weights),
                        Arg::Buffer(Operand::InputMxfp4),
                        Arg::word(linear.rows as int),
                        Arg::word(linear.cols as int),
                        Arg::word(native.blocks_per_row as int),
                        Arg::word(batch as int),
                        Arg::Scalar(scale),
                        Arg::Buffer(target),
                    ],
                ),
            ],
        )
    } else if batch >= 16 {
        Ok(
            seq![
                StepView::launching(
                    Kernel::Mxfp4MatmulTileM16n32,
                    "launch tiled native mxfp4 prefill gemm",
                    LaunchConfig::of(
                        runtime::blocks(linear.rows as int, 32),
                        runtime::blocks(batch as int, 16),
                        1,
                        128,
                        0,
                    ),
                    seq![
                        Arg::Buffer(weights),
                        Arg::Buffer(Operand::InputMxfp4),
                        Arg::word(linear.rows as int),
                        Arg::word(linear.cols as int),
                        Arg::word(native.blocks_per_row as int),
                        Arg::word(batch as int),
                        Arg::Scalar(scale),
                        Arg::Buffer(target),
                    ],
                ),
            ],
        )
    } else if batch > 1 {
        Ok(
            seq![
                StepView::launching(
                    Kernel::Mxfp4MatmulN8,
                    "launch batched native mxfp4 matmul n8",
                    LaunchConfig::of(
                        runtime::blocks(linear.rows as int, 16),
                        runtime::blocks(batch as int, 8),
                        1,
                        32,
                        0,
                    ),
                    seq![
                        Arg::Buffer(weights),
                        Arg::Buffer(Operand::InputMxfp4),
                        Arg::word(linear.rows as int),
                        Arg::word(linear.cols as int),
                        Arg::word(native.blocks_per_row as int),
                        Arg::word(batch as int),
                        Arg::Scalar(scale),
                        Arg::Buffer(target),
                    ],
                ),
            ],
        )
    } else {
        Ok(
            seq![
                StepView::launching(
                    Kernel::Mxfp4Matvec,
                    "launch batched native mxfp4 matvec",
                    LaunchConfig::of(
                        runtime::blocks(linear.rows as int, 16),
                        batch as int,
                        1,
                        32,
                        0,
                    ),
                    seq![
                        Arg::Buffer(weights),
                        Arg::Buffer(Operand::InputMxfp4),
                        Arg::word(linear.rows as int),
                        Arg::word(linear.cols as int),
                        Arg::word(native.blocks_per_row as int),
                        Arg::Scalar(scale),
                        Arg::Buffer(target),
                    ],
                ),
            ],
        )
    }
}

/// The steps of [`CudaRuntime::launch_native_mxfp4_batched_views`].
pub open spec fn staged_native_batched_steps(
    rows: usize,
    cols: usize,
    blocks_per_row: usize,
    batch: usize,
) -> Result<Seq<StepView>, AegisError> {
    if rows > u32::MAX {
        Err(wide("rows", rows as int))
    } else if cols > u32::MAX {
        Err(wide("cols", cols as int))
    } else if blocks_per_row > u32::MAX {
        Err(wide("blocks_per_row", blocks_per_row as int))
    } else if batch > u32::MAX {
        Err(wide("batch", batch as int))
    } else if batch >= 16 && rows >= 64 {
        Ok(
            seq![
                StepView::launching(
                    Kernel::Mxfp4MatmulTileM16n64,
                    "launch staged native mxfp4 prefill tile",
                    LaunchConfig::of(
                        runtime::blocks(rows as int, 64),
                        runtime::blocks(batch as int, 16),
                        1,
                        256,
                        0,
                    ),
                    seq![
                        Arg::Buffer(Operand::StagedNative),
                        Arg::Buffer(Operand::InputMxfp4),
                        Arg::word(rows as int),
                        Arg::word(cols as int),
                        Arg::word(blocks_per_row as int),
                        Arg::word(batch as int),
                        Arg::Scalar(Scalar::OutputScale),
                        Arg::Buffer(Operand::Output),
                    ],
                ),
            ],
        )
    } else if batch >= 16 {
        Ok(
            seq![
                StepView::launching(
                    Kernel::Mxfp4MatmulTileM16n32,
                    "launch staged native mxfp4 prefill tile",
                    LaunchConfig::of(
                        runtime::blocks(rows as int, 32),
                        runtime::blocks(batch as int, 16),
                        1,
                        128,
                        0,
                    ),
                    seq![
                        Arg::Buffer(Operand::StagedNative),
                        Arg::Buffer(Operand::InputMxfp4),
                        Arg::word(rows as int),
                        Arg::word(cols as int),
                        Arg::word(blocks_per_row as int),
                        Arg::word(batch as int),
                        Arg::Scalar(Scalar::OutputScale),
                        Arg::Buffer(Operand::Output),
                    ],
                ),
            ],
        )
    } else if batch > 1 {
        Ok(
            seq![
                StepView::launching(
                    Kernel::Mxfp4MatmulN8,
                    "launch staged native mxfp4 n8",
                    LaunchConfig::of(
                        runtime::blocks(rows as int, 16),
                        runtime::blocks(batch as int, 8),
                        1,
                        32,
                        0,
                    ),
                    seq![
                        Arg::Buffer(Operand::StagedNative),
                        Arg::Buffer(Operand::InputMxfp4),
                        Arg::word(rows as int),
                        Arg::word(cols as int),
                        Arg::word(blocks_per_row as int),
                        Arg::word(batch as int),
                        Arg::Scalar(Scalar::OutputScale),
                        Arg::Buffer(Operand::Output),
                    ],
                ),
            ],
        )
    } else {
        Ok(
            seq![
                StepView::launching(
                    Kernel::Mxfp4Matvec,
                    "launch staged native mxfp4 matvec",
                    LaunchConfig::of(
                        runtime::blocks(rows as int, 16),
                        batch as int,
                        1,
                        32,
                        0,
                    ),
                    seq![
                        Arg::Buffer(Operand::StagedNative),
                        Arg::Buffer(Operand::InputMxfp4),
                        Arg::word(rows as int),
                        Arg::word(cols as int),
                        Arg::word(blocks_per_row as int),
                        Arg::Scalar(Scalar::OutputScale),
                        Arg::Buffer(Operand::Output),
                    ],
                ),
            ],
        )
    }
}

/// The steps of [`CudaRuntime::grouped_qkv`].
pub open spec fn grouped_qkv_steps(
    q_proj: &DeviceNvfp4Linear,
    k_proj: &DeviceNvfp4Linear,
    v_proj: &DeviceNvfp4Linear,
    vector_bytes: Result<usize, AegisError>,
    input_mxfp4: &DeviceBuffer<u8>,
    batch: usize,
    q_output: &DeviceBuffer<F32>,
    k_output: &DeviceBuffer<F32>,
    v_output: &DeviceBuffer<F32>,
) -> Result<Seq<StepView>, AegisError> {
    let input_row_bytes = vector_bytes->Ok_0;
    let expected_input_bytes = batch * input_row_bytes;
    let expected_q = batch * q_proj.rows;
    let expected_k = batch * k_proj.rows;
    let expected_v = batch * v_proj.rows;
    let max_rows = if q_proj.rows >= k_proj.rows { q_proj.rows } else { k_proj.rows };
    if q_proj.cols != k_proj.cols || q_proj.cols != v_proj.cols || k_proj.rows != v_proj.rows {
        Err(AegisError::invalid_with(
                "grouped qkv mxfp4 prefill shape mismatch: q={}x{} k={}x{} v={}x{}",
                Values::Six(
                    Value::num(q_proj.rows as int),
                    Value::num(q_proj.cols as int),
                    Value::num(k_proj.rows as int),
                    Value::num(k_proj.cols as int),
                    Value::num(v_proj.rows as int),
                    Value::num(v_proj.cols as int),
                ),
            ))
    } else if vector_bytes is Err {
        Err(vector_bytes->Err_0)
    } else if expected_input_bytes > usize::MAX {
        Err(long_product("grouped qkv mxfp4 input", batch as int, input_row_bytes as int))
    } else if expected_q > usize::MAX {
        Err(long_product("grouped qkv q output", batch as int, q_proj.rows as int))
    } else if expected_k > usize::MAX {
        Err(long_product("grouped qkv k output", batch as int, k_proj.rows as int))
    } else if expected_v > usize::MAX {
        Err(long_product("grouped qkv v output", batch as int, v_proj.rows as int))
    } else if input_mxfp4.len() < expected_input_bytes || q_output.len() < expected_q || k_output.len() < expected_k || v_output.len() < expected_v {
        Err(AegisError::invalid_with(
                "grouped qkv mxfp4 prefill buffers too small: input={} expected_input={} q_out={} k_out={} v_out={} batch={}",
                Values::Six(
                    Value::num(input_mxfp4.len() as int),
                    Value::num(expected_input_bytes as int),
                    Value::num(q_output.len() as int),
                    Value::num(k_output.len() as int),
                    Value::num(v_output.len() as int),
                    Value::num(batch as int),
                ),
            ))
    } else if q_proj.native_mxfp4.is_none() || k_proj.native_mxfp4.is_none() || v_proj.native_mxfp4.is_none() {
        Err(AegisError::invalid("grouped qkv mxfp4 prefill requires native MXFP4 resident layouts"))
    } else if q_proj.cols % 64 != 0 {
        Err(AegisError::invalid_with(
                "grouped qkv mxfp4 prefill requires cols divisible by 64, got {}",
                Values::One(Value::num(q_proj.cols as int)),
            ))
    } else if q_proj.rows > u32::MAX {
        Err(wide("q_rows", q_proj.rows as int))
    } else if k_proj.rows > u32::MAX {
        Err(wide("kv_rows", k_proj.rows as int))
    } else if q_proj.cols > u32::MAX {
        Err(wide("cols", q_proj.cols as int))
    } else if q_proj.native_mxfp4_blocks_per_row() > u32::MAX {
        Err(wide("q_blocks_per_row", q_proj.native_mxfp4_blocks_per_row() as int))
    } else if k_proj.native_mxfp4_blocks_per_row() > u32::MAX {
        Err(wide("k_blocks_per_row", k_proj.native_mxfp4_blocks_per_row() as int))
    } else if v_proj.native_mxfp4_blocks_per_row() > u32::MAX {
        Err(wide("v_blocks_per_row", v_proj.native_mxfp4_blocks_per_row() as int))
    } else if batch > u32::MAX {
        Err(wide("batch", batch as int))
    } else if max_rows >= 64 {
        Ok(
            seq![
                StepView::launching(
                    Kernel::Mxfp4MatmulQkvTileM16n64,
                    "launch grouped qkv native mxfp4 prefill gemm",
                    LaunchConfig::of(
                        runtime::blocks(max_rows as int, 64),
                        runtime::blocks(batch as int, 16),
                        3,
                        256,
                        0,
                    ),
                    seq![
                        Arg::Buffer(Operand::QNative),
                        Arg::Buffer(Operand::KNative),
                        Arg::Buffer(Operand::VNative),
                        Arg::Buffer(Operand::InputMxfp4),
                        Arg::word(q_proj.rows as int),
                        Arg::word(k_proj.rows as int),
                        Arg::word(q_proj.cols as int),
                        Arg::word(q_proj.native_mxfp4_blocks_per_row() as int),
                        Arg::word(k_proj.native_mxfp4_blocks_per_row() as int),
                        Arg::word(v_proj.native_mxfp4_blocks_per_row() as int),
                        Arg::word(batch as int),
                        Arg::Scalar(Scalar::QOutputScale),
                        Arg::Scalar(Scalar::KOutputScale),
                        Arg::Scalar(Scalar::VOutputScale),
                        Arg::Buffer(Operand::QOutput),
                        Arg::Buffer(Operand::KOutput),
                        Arg::Buffer(Operand::VOutput),
                    ],
                ),
            ],
        )
    } else {
        Ok(
            seq![
                StepView::launching(
                    Kernel::Mxfp4MatmulQkvTileM16n32,
                    "launch grouped qkv native mxfp4 prefill gemm",
                    LaunchConfig::of(
                        runtime::blocks(max_rows as int, 32),
                        runtime::blocks(batch as int, 16),
                        3,
                        128,
                        0,
                    ),
                    seq![
                        Arg::Buffer(Operand::QNative),
                        Arg::Buffer(Operand::KNative),
                        Arg::Buffer(Operand::VNative),
                        Arg::Buffer(Operand::InputMxfp4),
                        Arg::word(q_proj.rows as int),
                        Arg::word(k_proj.rows as int),
                        Arg::word(q_proj.cols as int),
                        Arg::word(q_proj.native_mxfp4_blocks_per_row() as int),
                        Arg::word(k_proj.native_mxfp4_blocks_per_row() as int),
                        Arg::word(v_proj.native_mxfp4_blocks_per_row() as int),
                        Arg::word(batch as int),
                        Arg::Scalar(Scalar::QOutputScale),
                        Arg::Scalar(Scalar::KOutputScale),
                        Arg::Scalar(Scalar::VOutputScale),
                        Arg::Buffer(Operand::QOutput),
                        Arg::Buffer(Operand::KOutput),
                        Arg::Buffer(Operand::VOutput),
                    ],
                ),
            ],
        )
    }
}

/// The steps of [`CudaRuntime::grouped_gate_up`].
pub open spec fn grouped_gate_up_steps(
    gate_proj: &DeviceNvfp4Linear,
    up_proj: &DeviceNvfp4Linear,
    vector_bytes: Result<usize, AegisError>,
    input_mxfp4: &DeviceBuffer<u8>,
    batch: usize,
    gate_output: &DeviceBuffer<F32>,
    up_output: &DeviceBuffer<F32>,
) -> Result<Seq<StepView>, AegisError> {
    let input_row_bytes = vector_bytes->Ok_0;
    let expected_input_bytes = batch * input_row_bytes;
    let expected_gate = batch * gate_proj.rows;
    let expected_up = batch * up_proj.rows;
    let max_rows = if gate_proj.rows >= up_proj.rows { gate_proj.rows } else { up_proj.rows };
    if gate_proj.cols != up_proj.cols {
        Err(AegisError::invalid_with(
                "grouped gate/up mxfp4 prefill shape mismatch: gate={}x{} up={}x{}",
                Values::Four(
                    Value::num(gate_proj.rows as int),
                    Value::num(gate_proj.cols as int),
                    Value::num(up_proj.rows as int),
                    Value::num(up_proj.cols as int),
                ),
            ))
    } else if vector_bytes is Err {
        Err(vector_bytes->Err_0)
    } else if expected_input_bytes > usize::MAX {
        Err(long_product("grouped gate/up mxfp4 input", batch as int, input_row_bytes as int))
    } else if expected_gate > usize::MAX {
        Err(long_product("grouped gate/up gate output", batch as int, gate_proj.rows as int))
    } else if expected_up > usize::MAX {
        Err(long_product("grouped gate/up up output", batch as int, up_proj.rows as int))
    } else if input_mxfp4.len() < expected_input_bytes || gate_output.len() < expected_gate || up_output.len() < expected_up {
        Err(AegisError::invalid_with(
                "grouped gate/up mxfp4 prefill buffers too small: input={} expected_input={} gate_out={} up_out={} batch={}",
                Values::Five(
                    Value::num(input_mxfp4.len() as int),
                    Value::num(expected_input_bytes as int),
                    Value::num(gate_output.len() as int),
                    Value::num(up_output.len() as int),
                    Value::num(batch as int),
                ),
            ))
    } else if gate_proj.native_mxfp4.is_none() || up_proj.native_mxfp4.is_none() {
        Err(AegisError::invalid("grouped gate/up mxfp4 prefill requires native MXFP4 resident layouts"))
    } else if gate_proj.cols % 64 != 0 {
        Err(AegisError::invalid_with(
                "grouped gate/up mxfp4 prefill requires cols divisible by 64, got {}",
                Values::One(Value::num(gate_proj.cols as int)),
            ))
    } else if gate_proj.rows > u32::MAX {
        Err(wide("gate_rows", gate_proj.rows as int))
    } else if up_proj.rows > u32::MAX {
        Err(wide("up_rows", up_proj.rows as int))
    } else if gate_proj.cols > u32::MAX {
        Err(wide("cols", gate_proj.cols as int))
    } else if gate_proj.native_mxfp4_blocks_per_row() > u32::MAX {
        Err(wide("gate_blocks_per_row", gate_proj.native_mxfp4_blocks_per_row() as int))
    } else if up_proj.native_mxfp4_blocks_per_row() > u32::MAX {
        Err(wide("up_blocks_per_row", up_proj.native_mxfp4_blocks_per_row() as int))
    } else if batch > u32::MAX {
        Err(wide("batch", batch as int))
    } else if max_rows >= 64 {
        Ok(
            seq![
                StepView::launching(
                    Kernel::Mxfp4MatmulGateUpTileM16n64,
                    "launch grouped gate/up native mxfp4 prefill gemm",
                    LaunchConfig::of(
                        runtime::blocks(max_rows as int, 64),
                        runtime::blocks(batch as int, 16),
                        2,
                        256,
                        0,
                    ),
                    seq![
                        Arg::Buffer(Operand::GateNative),
                        Arg::Buffer(Operand::UpNative),
                        Arg::Buffer(Operand::InputMxfp4),
                        Arg::word(gate_proj.rows as int),
                        Arg::word(up_proj.rows as int),
                        Arg::word(gate_proj.cols as int),
                        Arg::word(gate_proj.native_mxfp4_blocks_per_row() as int),
                        Arg::word(up_proj.native_mxfp4_blocks_per_row() as int),
                        Arg::word(batch as int),
                        Arg::Scalar(Scalar::GateOutputScale),
                        Arg::Scalar(Scalar::UpOutputScale),
                        Arg::Buffer(Operand::GateOutput),
                        Arg::Buffer(Operand::UpOutput),
                    ],
                ),
            ],
        )
    } else {
        Ok(
            seq![
                StepView::launching(
                    Kernel::Mxfp4MatmulGateUpTileM16n32,
                    "launch grouped gate/up native mxfp4 prefill gemm",
                    LaunchConfig::of(
                        runtime::blocks(max_rows as int, 32),
                        runtime::blocks(batch as int, 16),
                        2,
                        128,
                        0,
                    ),
                    seq![
                        Arg::Buffer(Operand::GateNative),
                        Arg::Buffer(Operand::UpNative),
                        Arg::Buffer(Operand::InputMxfp4),
                        Arg::word(gate_proj.rows as int),
                        Arg::word(up_proj.rows as int),
                        Arg::word(gate_proj.cols as int),
                        Arg::word(gate_proj.native_mxfp4_blocks_per_row() as int),
                        Arg::word(up_proj.native_mxfp4_blocks_per_row() as int),
                        Arg::word(batch as int),
                        Arg::Scalar(Scalar::GateOutputScale),
                        Arg::Scalar(Scalar::UpOutputScale),
                        Arg::Buffer(Operand::GateOutput),
                        Arg::Buffer(Operand::UpOutput),
                    ],
                ),
            ],
        )
    }
}

impl CudaRuntime {
    /// Splits fused projections into queries, keys and values, each with its own scale.
    /// One thread per element, in at most 65535 blocks.
    pub fn split_qkv_scaled_device(
        &self,
        qkv: &DeviceBuffer<F32>,
        batch: usize,
        q_rows: usize,
        kv_rows: usize,
        q_output: &DeviceBuffer<F32>,
        k_output: &DeviceBuffer<F32>,
        v_output: &DeviceBuffer<F32>,
    ) -> (plan: Result<Plan, AegisError>)
        ensures
            Plan::outcome(plan) =~~= split_qkv_steps(
                qkv,
                batch,
                q_rows,
                kv_rows,
                q_output,
                k_output,
                v_output,
            ),
    {
        if q_rows > usize::MAX - kv_rows || q_rows + kv_rows > usize::MAX - kv_rows {
            return Err(invalid_plan("split qkv rows overflow", Values::Zero));
        }
        let qkv_rows: usize = q_rows + kv_rows + kv_rows;
        let expected_qkv: usize = checked_len("split qkv input", batch, qkv_rows)?;
        let expected_q: usize = checked_len("split q output", batch, q_rows)?;
        let expected_kv: usize = checked_len("split kv output", batch, kv_rows)?;
        if qkv.len() < expected_qkv || q_output.len() < expected_q || k_output.len() < expected_kv || v_output.len() < expected_kv {
            return Err(invalid_plan(
                "split qkv buffers too small: qkv={} expected_qkv={} q={} expected_q={} k={} v={} expected_kv={}",
                Values::Seven(
                    number(qkv.len()),
                    number(expected_qkv),
                    number(q_output.len()),
                    number(expected_q),
                    number(k_output.len()),
                    number(v_output.len()),
                    number(expected_kv),
                ),
            ));
        }
        let total: u32 = u32_arg("split qkv elements", expected_qkv)?;
        let batch_word: u32 = u32_arg("batch", batch)?;
        let q_word: u32 = u32_arg("q_rows", q_rows)?;
        let kv_word: u32 = u32_arg("kv_rows", kv_rows)?;
        Ok(
            Plan::launch(
                Kernel::SplitQkvScaled,
                "launch split qkv scaled",
                LaunchConfig {
                    grid_dim: (clamp_grid(ceil_div(total, 256)), 1, 1),
                    block_dim: (256, 1, 1),
                    shared_mem_bytes: 0,
                },
                vec![
                    Arg::Buffer(Operand::Qkv),
                    Arg::U32(batch_word),
                    Arg::U32(q_word),
                    Arg::U32(kv_word),
                    Arg::Scalar(Scalar::QOutputScale),
                    Arg::Scalar(Scalar::KOutputScale),
                    Arg::Scalar(Scalar::VOutputScale),
                    Arg::Buffer(Operand::QOutput),
                    Arg::Buffer(Operand::KOutput),
                    Arg::Buffer(Operand::VOutput),
                ],
            ),
        )
    }

    /// Quantizes a BF16 matrix to FP8 with one scale per row: one block per row.
    pub fn quantize_bf16_to_fp8_per_row_device(
        &self,
        bf16: &DeviceBuffer<u16>,
        rows: usize,
        cols: usize,
        fp8_out: &DeviceBuffer<u8>,
        row_scales_out: &DeviceBuffer<F32>,
    ) -> (plan: Result<Plan, AegisError>)
        requires
            rows * cols <= usize::MAX,
        ensures
            Plan::outcome(plan) =~~= quantize_fp8_steps(bf16, rows, cols, fp8_out, row_scales_out),
    {
        let total: usize = rows * cols;
        if bf16.len() < total {
            return Err(invalid_plan(
                "fp8 quantize: bf16 buffer too small: have {} need {}*{}={}",
                Values::Four(number(bf16.len()), number(rows), number(cols), number(total)),
            ));
        }
        if fp8_out.len() < total {
            return Err(invalid_plan(
                "fp8 quantize: output buffer too small: have {} need {}",
                Values::Two(number(fp8_out.len()), number(total)),
            ));
        }
        if row_scales_out.len() < rows {
            return Err(invalid_plan(
                "fp8 quantize: scales buffer too small: have {} need {}",
                Values::Two(number(row_scales_out.len()), number(rows)),
            ));
        }
        let rows_word: u32 = u32_arg("rows", rows)?;
        let cols_word: u32 = u32_arg("cols", cols)?;
        Ok(
            Plan::launch(
                Kernel::Fp8QuantizeBf16PerRow,
                "launch fp8 quantize bf16 per row",
                LaunchConfig {
                    grid_dim: (rows_word, 1, 1),
                    block_dim: (256, 1, 1),
                    shared_mem_bytes: 1024,
                },
                vec![
                    Arg::Buffer(Operand::Bf16),
                    Arg::Buffer(Operand::Fp8Out),
                    Arg::Buffer(Operand::RowScalesOut),
                    Arg::U32(rows_word),
                    Arg::U32(cols_word),
                ],
            ),
        )
    }

    /// Multiplies one vector by an FP8 matrix: one block per row.
    pub fn matvec_fp8_standalone_device(
        &self,
        linear: &StandaloneFp8Linear,
        input: &DeviceBuffer<F32>,
        output: &DeviceBuffer<F32>,
    ) -> (plan: Result<Plan, AegisError>)
        ensures
            Plan::outcome(plan) =~~= matvec_fp8_steps(linear, input, output),
    {
        if input.len() < linear.cols || output.len() < linear.rows {
            return Err(invalid_plan(
                "fp8 matvec shape mismatch for {}: input={} need {}, output={} need {}",
                Values::Five(
                    Value::Name(linear.name.clone()),
                    number(input.len()),
                    number(linear.cols),
                    number(output.len()),
                    number(linear.rows),
                ),
            ));
        }
        let rows: u32 = u32_arg("rows", linear.rows)?;
        let cols: u32 = u32_arg("cols", linear.cols)?;
        Ok(
            Plan::launch(
                Kernel::Fp8Matvec,
                "launch fp8 matvec",
                LaunchConfig {
                    grid_dim: (rows, 1, 1),
                    block_dim: (256, 1, 1),
                    shared_mem_bytes: 1024,
                },
                vec![
                    Arg::Buffer(Operand::Fp8Data),
                    Arg::Buffer(Operand::Fp8RowScales),
                    Arg::Buffer(Operand::Input),
                    Arg::U32(rows),
                    Arg::U32(cols),
                    Arg::Buffer(Operand::Output),
                ],
            ),
        )
    }

    /// Expands an FP8 matrix to BF16: one thread per element.
    pub fn dequant_fp8_to_bf16_device(
        &self,
        linear: &StandaloneFp8Linear,
        bf16_out: &DeviceBuffer<u16>,
    ) -> (plan: Result<Plan, AegisError>)
        requires
            linear.rows * linear.cols <= usize::MAX,
        ensures
            Plan::outcome(plan) =~~= dequant_fp8_steps(linear, bf16_out),
    {
        let total: usize = linear.rows * linear.cols;
        if bf16_out.len() < total {
            return Err(invalid_plan(
                "fp8→bf16 dequant: scratch too small for `{}`: have {} need {}",
                Values::Three(
                    Value::Name(linear.name.clone()),
                    number(bf16_out.len()),
                    number(total),
                ),
            ));
        }
        let rows: u32 = u32_arg("rows", linear.rows)?;
        let cols: u32 = u32_arg("cols", linear.cols)?;
        Ok(
            Plan::launch(
                Kernel::Fp8DequantToBf16,
                "launch fp8 dequant to bf16",
                LaunchConfig {
                    grid_dim: (rows, ceil_div(cols, 256), 1),
                    block_dim: (256, 1, 1),
                    shared_mem_bytes: 0,
                },
                vec![
                    Arg::Buffer(Operand::Fp8Data),
                    Arg::Buffer(Operand::Fp8RowScales),
                    Arg::Buffer(Operand::Bf16),
                    Arg::U32(rows),
                    Arg::U32(cols),
                ],
            ),
        )
    }

    /// Multiplies `batch` vectors by an FP8 matrix: one block per row and vector.
    pub fn matmul_fp8_standalone_batched_device(
        &self,
        linear: &StandaloneFp8Linear,
        input: &DeviceBuffer<F32>,
        batch: usize,
        output: &DeviceBuffer<F32>,
    ) -> (plan: Result<Plan, AegisError>)
        ensures
            Plan::outcome(plan) =~~= matmul_fp8_steps(linear, input, batch, output),
    {
        let total_in: usize = checked_len("fp8 matmul input", batch, linear.cols)?;
        let total_out: usize = checked_len("fp8 matmul output", batch, linear.rows)?;
        if input.len() < total_in || output.len() < total_out {
            return Err(invalid_plan(
                "fp8 matmul shape mismatch for {}: input={} need {}, output={} need {}",
                Values::Five(
                    Value::Name(linear.name.clone()),
                    number(input.len()),
                    number(total_in),
                    number(output.len()),
                    number(total_out),
                ),
            ));
        }
        let rows: u32 = u32_arg("rows", linear.rows)?;
        let cols: u32 = u32_arg("cols", linear.cols)?;
        let batch_word: u32 = u32_arg("batch", batch)?;
        Ok(
            Plan::launch(
                Kernel::Fp8MatmulBatched,
                "launch fp8 matmul batched",
                LaunchConfig {
                    grid_dim: (rows, batch_word, 1),
                    block_dim: (128, 1, 1),
                    shared_mem_bytes: 512,
                },
                vec![
                    Arg::Buffer(Operand::Fp8Data),
                    Arg::Buffer(Operand::Fp8RowScales),
                    Arg::Buffer(Operand::Input),
                    Arg::U32(rows),
                    Arg::U32(cols),
                    Arg::U32(batch_word),
                    Arg::Buffer(Operand::Output),
                ],
            ),
        )
    }

    /// Multiplies `batch` vectors by a BF16 matrix in device memory: one block per row
    /// and vector.
    pub fn matmul_bf16_reference_batched_device(
        &self,
        matrix: &DeviceBf16Matrix,
        input: &DeviceBuffer<F32>,
        batch: usize,
        output: &DeviceBuffer<F32>,
    ) -> (plan: Result<Plan, AegisError>)
        ensures
            Plan::outcome(plan) =~~= matmul_bf16_steps(matrix, input, batch, output),
    {
        if matrix.is_host_resident() {
            return Err(invalid_plan(
                "batched bf16 matmul does not support host-resident matrix `{}`; load to VRAM",
                Values::One(Value::Name(matrix.name.clone())),
            ));
        }
        let total_in: usize = checked_len("bf16 matmul input", batch, matrix.cols)?;
        let total_out: usize = checked_len("bf16 matmul output", batch, matrix.rows)?;
        if input.len() < total_in || output.len() < total_out {
            return Err(invalid_plan(
                "batched bf16 matmul shape mismatch for {}: input.len()={} need {}*{}={}, output.len()={} need {}*{}={}",
                Values::Nine(
                    Value::Name(matrix.name.clone()),
                    number(input.len()),
                    number(batch),
                    number(matrix.cols),
                    number(total_in),
                    number(output.len()),
                    number(batch),
                    number(matrix.rows),
                    number(total_out),
                ),
            ));
        }
        let rows: u32 = u32_arg("rows", matrix.rows)?;
        let cols: u32 = u32_arg("cols", matrix.cols)?;
        let batch_word: u32 = u32_arg("batch", batch)?;
        Ok(
            Plan::launch(
                Kernel::Bf16MatmulReferenceBatched,
                "launch bf16_matmul_reference_batched",
                LaunchConfig {
                    grid_dim: (rows, batch_word, 1),
                    block_dim: (128, 1, 1),
                    shared_mem_bytes: 512,
                },
                vec![
                    Arg::Buffer(Operand::MatrixValues),
                    Arg::Buffer(Operand::Input),
                    Arg::U32(rows),
                    Arg::U32(cols),
                    Arg::U32(batch_word),
                    Arg::Buffer(Operand::Output),
                ],
            ),
        )
    }

    /// Multiplies one vector by a BF16 matrix in device memory: one block per row.
    pub fn launch_bf16_matvec_reference(
        &self,
        matrix: &DeviceBf16Matrix,
        input: &DeviceBuffer<F32>,
        output: &DeviceBuffer<F32>,
    ) -> (plan: Result<Plan, AegisError>)
        ensures
            Plan::outcome(plan) =~~= matvec_bf16_steps(matrix, input, output),
    {
        if input.len() < matrix.cols || output.len() < matrix.rows {
            return Err(invalid_plan(
                "bf16 matvec shape mismatch for {}: expected input={} output={}, got input={} output={}",
                Values::Five(
                    Value::Name(matrix.name.clone()),
                    number(matrix.cols),
                    number(matrix.rows),
                    number(input.len()),
                    number(output.len()),
                ),
            ));
        }
        let rows: u32 = matrix.rows as u32;
        let cols: u32 = matrix.cols as u32;
        Ok(
            Plan::launch(
                Kernel::Bf16Matvec,
                "launch bf16 matvec reference",
                LaunchConfig {
                    grid_dim: (rows, 1, 1),
                    block_dim: (128, 1, 1),
                    shared_mem_bytes: 512,
                },
                vec![
                    Arg::Buffer(Operand::MatrixValues),
                    Arg::Buffer(Operand::Input),
                    Arg::U32(rows),
                    Arg::U32(cols),
                    Arg::Buffer(Operand::Output),
                ],
            ),
        )
    }

    /// Multiplies one vector by a BF16 matrix in host memory, on the processor.
    pub fn matvec_bf16_host_resident_device(
        &self,
        matrix: &DeviceBf16Matrix,
        input: &DeviceBuffer<F32>,
        output: &DeviceBuffer<F32>,
    ) -> (plan: Result<Plan, AegisError>)
        ensures
            Plan::outcome(plan) =~~= matvec_bf16_host_steps(matrix, input, output),
    {
        if !matrix.is_host_resident() {
            return Err(invalid_plan(
                "host-resident matvec called on non-host-resident `{}`",
                Values::One(Value::Name(matrix.name.clone())),
            ));
        }
        if input.len() < matrix.cols || output.len() < matrix.rows {
            return Err(invalid_plan(
                "bf16 host matvec shape mismatch for {}: input={} cols={} output={} rows={}",
                Values::Five(
                    Value::Name(matrix.name.clone()),
                    number(input.len()),
                    number(matrix.cols),
                    number(output.len()),
                    number(matrix.rows),
                ),
            ));
        }
        Ok(
            Plan::of(Step::HostMatvec { rows: matrix.rows, cols: matrix.cols, stage: "upload host bf16 matvec result" }),
        )
    }

    /// Widens one row of a BF16 matrix to single precision: on the device one thread per
    /// element, from host memory an upload of the widened row.
    pub fn bf16_row_to_f32_device(
        &self,
        matrix: &DeviceBf16Matrix,
        row: usize,
        output: &DeviceBuffer<F32>,
    ) -> (plan: Result<Plan, AegisError>)
        requires
            matrix.wf(),
        ensures
            Plan::outcome(plan) =~~= bf16_row_steps(matrix, row, output),
    {
        if row >= matrix.rows || output.len() != matrix.cols {
            return Err(invalid_plan(
                "bf16 row shape mismatch for {}: row={} rows={} output={} cols={}",
                Values::Five(
                    Value::Name(matrix.name.clone()),
                    number(row),
                    number(matrix.rows),
                    number(output.len()),
                    number(matrix.cols),
                ),
            ));
        }
        proof {
            lemma_row_range(row as int, matrix.rows as int, matrix.cols as int);
        }
        let row_word: u32 = row as u32;
        let cols: u32 = matrix.cols as u32;
        if matrix.is_host_resident() {
            return Ok(
                Plan::of(
                    Step::UploadWidened {
                        from: Region {
                            operand: Operand::HostMatrix,
                            start: row * matrix.cols,
                            end: row * matrix.cols + matrix.cols,
                        },
                        to: Region { operand: Operand::Output, start: 0, end: matrix.cols },
                        map: "read pinned bf16 row",
                        stage: "upload host bf16 row",
                    },
                ),
            );
        }
        Ok(
            Plan::launch(
                Kernel::Bf16Row,
                "launch bf16 row to f32",
                LaunchConfig {
                    grid_dim: (ceil_div(cols, 256), 1, 1),
                    block_dim: (256, 1, 1),
                    shared_mem_bytes: 0,
                },
                vec![
                    Arg::Buffer(Operand::MatrixValues),
                    Arg::U32(row_word),
                    Arg::U32(cols),
                    Arg::Buffer(Operand::Output),
                ],
            ),
        )
    }

    /// Widens the rows that `rows` names: on the device one thread per element; from host
    /// memory the names are downloaded first and the rows gathered on the processor (see
    /// [`gather_bf16_rows`]).
    pub fn bf16_rows_to_f32_device(
        &self,
        matrix: &DeviceBf16Matrix,
        rows: &DeviceBuffer<u32>,
        batch: usize,
        output: &DeviceBuffer<F32>,
    ) -> (plan: Result<Plan, AegisError>)
        ensures
            Plan::outcome(plan) =~~= bf16_rows_steps(matrix, rows, batch, output),
    {
        if !fits(batch, matrix.cols) {
            return Err(invalid_plan(
                "bf16 rows output length overflow for {}: batch={} cols={}",
                Values::Three(
                    Value::Name(matrix.name.clone()),
                    number(batch),
                    number(matrix.cols),
                ),
            ));
        }
        let output_len: usize = batch * matrix.cols;
        if rows.len() < batch || output.len() < output_len {
            return Err(invalid_plan(
                "bf16 rows shape mismatch for {}: rows={} batch={} output={} expected={}",
                Values::Five(
                    Value::Name(matrix.name.clone()),
                    number(rows.len()),
                    number(batch),
                    number(output.len()),
                    number(output_len),
                ),
            ));
        }
        if matrix.is_host_resident() {
            return Ok(
                Plan::of(
                    Step::GatherHostRows {
                        rows: matrix.rows,
                        cols: matrix.cols,
                        batch,
                        output_len,
                        stage: "upload host bf16 rows",
                    },
                ),
            );
        }
        let batch_word: u32 = u32_arg("batch", batch)?;
        let rows_total: u32 = u32_arg("rows", matrix.rows)?;
        let cols: u32 = u32_arg("cols", matrix.cols)?;
        Ok(
            Plan::launch(
                Kernel::Bf16Rows,
                "launch bf16 rows to f32",
                LaunchConfig {
                    grid_dim: (ceil_div(cols, 256), batch_word, 1),
                    block_dim: (256, 1, 1),
                    shared_mem_bytes: 0,
                },
                vec![
                    Arg::Buffer(Operand::MatrixValues),
                    Arg::Buffer(Operand::RowIndices),
                    Arg::U32(batch_word),
                    Arg::U32(rows_total),
                    Arg::U32(cols),
                    Arg::Buffer(Operand::Output),
                ],
            ),
        )
    }

    /// Multiplies one vector by four-bit weights, quantizing the vector on the way: one
    /// block per row.
    pub fn launch_nvfp4_reference(
        &self,
        linear: &DeviceNvfp4Linear,
        input: &DeviceBuffer<F32>,
        output: &DeviceBuffer<F32>,
    ) -> (plan: Result<Plan, AegisError>)
        ensures
            Plan::outcome(plan) =~~= nvfp4_reference_steps(linear, input, output),
    {
        if input.len() != linear.cols || output.len() != linear.rows {
            return Err(invalid_plan(
                "nvfp4 reference shape mismatch for {}: expected input={} output={}, got input={} output={}",
                Values::Five(
                    Value::Name(linear.name.clone()),
                    number(linear.cols),
                    number(linear.rows),
                    number(input.len()),
                    number(output.len()),
                ),
            ));
        }
        let rows: u32 = linear.rows as u32;
        let cols: u32 = linear.cols as u32;
        Ok(
            Plan::launch(
                Kernel::Nvfp4Reference,
                "launch nvfp4 reference linear",
                LaunchConfig {
                    grid_dim: (rows, 1, 1),
                    block_dim: (128, 1, 1),
                    shared_mem_bytes: 512,
                },
                vec![
                    Arg::Buffer(Operand::Packed),
                    Arg::Buffer(Operand::Scales),
                    Arg::Buffer(Operand::Input),
                    Arg::U32(rows),
                    Arg::U32(cols),
                    Arg::Scalar(Scalar::InputScale),
                    Arg::Scalar(Scalar::OutputScale),
                    Arg::Buffer(Operand::Output),
                ],
            ),
        )
    }

    /// Multiplies one quantized vector by four-bit weights: one block per row.
    pub fn launch_nvfp4_prequantized(
        &self,
        linear: &DeviceNvfp4Linear,
        quantized_input: &DeviceBuffer<F32>,
        output: &DeviceBuffer<F32>,
    ) -> (plan: Result<Plan, AegisError>)
        ensures
            Plan::outcome(plan) =~~= nvfp4_prequantized_steps(linear, quantized_input, output),
    {
        if quantized_input.len() != linear.cols || output.len() != linear.rows {
            return Err(invalid_plan(
                "nvfp4 prequantized shape mismatch for {}: expected input={} output={}, got input={} output={}",
                Values::Five(
                    Value::Name(linear.name.clone()),
                    number(linear.cols),
                    number(linear.rows),
                    number(quantized_input.len()),
                    number(output.len()),
                ),
            ));
        }
        let rows: u32 = linear.rows as u32;
        let cols: u32 = linear.cols as u32;
        Ok(
            Plan::launch(
                Kernel::Nvfp4Prequant,
                "launch nvfp4 prequantized linear",
                LaunchConfig {
                    grid_dim: (rows, 1, 1),
                    block_dim: (128, 1, 1),
                    shared_mem_bytes: 512,
                },
                vec![
                    Arg::Buffer(Operand::Packed),
                    Arg::Buffer(Operand::Scales),
                    Arg::Buffer(Operand::QuantizedInput),
                    Arg::U32(rows),
                    Arg::U32(cols),
                    Arg::Scalar(Scalar::OutputScale),
                    Arg::Buffer(Operand::Output),
                ],
            ),
        )
    }

    /// Multiplies `batch` vectors by four-bit weights, quantizing them on the way: one
    /// block per row and vector.
    pub fn matvec_nvfp4_reference_batched_device(
        &self,
        linear: &DeviceNvfp4Linear,
        input: &DeviceBuffer<F32>,
        batch: usize,
        output: &DeviceBuffer<F32>,
    ) -> (plan: Result<Plan, AegisError>)
        requires
            batch * linear.cols <= usize::MAX,
            batch * linear.rows <= usize::MAX,
        ensures
            Plan::outcome(plan) =~~= nvfp4_reference_batched_steps(linear, input, batch, output),
    {
        let total_in: usize = batch * linear.cols;
        let total_out: usize = batch * linear.rows;
        if input.len() < total_in || output.len() < total_out {
            return Err(invalid_plan(
                "batched nvfp4 linear shape mismatch for {}: input={} expected={} output={} expected={}",
                Values::Five(
                    Value::Name(linear.name.clone()),
                    number(input.len()),
                    number(total_in),
                    number(output.len()),
                    number(total_out),
                ),
            ));
        }
        let rows: u32 = linear.rows as u32;
        let cols: u32 = linear.cols as u32;
        let batch_word: u32 = batch as u32;
        Ok(
            Plan::launch(
                Kernel::Nvfp4ReferenceBatched,
                "launch batched nvfp4 matvec reference",
                LaunchConfig {
                    grid_dim: (rows, batch_word, 1),
                    block_dim: (256, 1, 1),
                    shared_mem_bytes: 1024,
                },
                vec![
                    Arg::Buffer(Operand::Packed),
                    Arg::Buffer(Operand::Scales),
                    Arg::Buffer(Operand::Input),
                    Arg::U32(rows),
                    Arg::U32(cols),
                    Arg::Scalar(Scalar::InputScale),
                    Arg::Scalar(Scalar::OutputScale),
                    Arg::Buffer(Operand::Output),
                ],
            ),
        )
    }

    /// Multiplies the tokens of every active expert by that expert's four-bit weights in
    /// one launch: a tile of output per block, one layer of blocks per expert.
    pub fn matmul_nvfp4_grouped_prequant_wmma_bf16_device(
        &self,
        rows: usize,
        cols: usize,
        max_tokens_per_expert: usize,
        num_active_experts: usize,
        t32_disabled: bool,
    ) -> (plan: Result<Plan, AegisError>)
        requires
            max_tokens_per_expert + 31 <= usize::MAX,
        ensures
            Plan::outcome(plan) =~~= nvfp4_grouped_steps(
                rows,
                cols,
                max_tokens_per_expert,
                num_active_experts,
                t32_disabled,
            ),
    {
        if num_active_experts == 0 || max_tokens_per_expert == 0 {
            return Ok(Plan::empty());
        }
        if rows % 16 != 0 || cols % 16 != 0 {
            return Err(invalid_plan(
                "grouped wmma gemm requires rows%16==0 and cols%16==0, got rows={} cols={}",
                Values::Two(number(rows), number(cols)),
            ));
        }
        let rows_word: u32 = u32_arg("rows", rows)?;
        let cols_word: u32 = u32_arg("cols", cols)?;
        let experts: u32 = u32_arg("num_active_experts", num_active_experts)?;
        if !t32_disabled && rows % 32 == 0 && max_tokens_per_expert >= 16 {
            return Ok(
                Plan::launch(
                    Kernel::Nvfp4GroupedPrequantGemmWmmaBf16T32,
                    "launch grouped nvfp4 wmma gemm t32",
                    LaunchConfig {
                        grid_dim: ((rows / 32) as u32, ((max_tokens_per_expert + 31) / 32) as u32, experts),
                        block_dim: (128, 1, 1),
                        shared_mem_bytes: 0,
                    },
                    vec![
                        Arg::Buffer(Operand::PackedBase),
                        Arg::Buffer(Operand::ScalesBase),
                        Arg::Buffer(Operand::PackedOffsets),
                        Arg::Buffer(Operand::ScalesOffsets),
                        Arg::Buffer(Operand::OutputScales),
                        Arg::Buffer(Operand::ExpertTokenOffsets),
                        Arg::Buffer(Operand::PermutedInput),
                        Arg::U32(rows_word),
                        Arg::U32(cols_word),
                        Arg::Buffer(Operand::PermutedOutput),
                    ],
                ),
            );
        }
        Ok(
            Plan::launch(
                Kernel::Nvfp4GroupedPrequantGemmWmmaBf16,
                "launch grouped nvfp4 wmma gemm",
                LaunchConfig {
                    grid_dim: ((rows / 16) as u32, ((max_tokens_per_expert + 15) / 16) as u32, experts),
                    block_dim: (32, 1, 1),
                    shared_mem_bytes: 0,
                },
                vec![
                    Arg::Buffer(Operand::PackedBase),
                    Arg::Buffer(Operand::ScalesBase),
                    Arg::Buffer(Operand::PackedOffsets),
                    Arg::Buffer(Operand::ScalesOffsets),
                    Arg::Buffer(Operand::OutputScales),
                    Arg::Buffer(Operand::ExpertTokenOffsets),
                    Arg::Buffer(Operand::PermutedInput),
                    Arg::U32(rows_word),
                    Arg::U32(cols_word),
                    Arg::Buffer(Operand::PermutedOutput),
                ],
            ),
        )
    }

    /// Multiplies `batch` quantized vectors by four-bit weights: on tensor cores where the
    /// shape is made of whole tiles and the batch fills the device, in groups of eight
    /// otherwise.
    pub fn matvec_nvfp4_prequantized_batched_device(
        &self,
        linear: &DeviceNvfp4Linear,
        input: &DeviceBuffer<F32>,
        batch: usize,
        output: &DeviceBuffer<F32>,
        wmma_disabled: bool,
    ) -> (plan: Result<Plan, AegisError>)
        requires
            batch * linear.cols <= usize::MAX,
            batch * linear.rows <= usize::MAX,
            batch + 15 <= usize::MAX,
        ensures
            Plan::outcome(plan) =~~= nvfp4_prequantized_batched_steps(
                linear,
                input,
                batch,
                output,
                wmma_disabled,
            ),
    {
        let total_in: usize = batch * linear.cols;
        let total_out: usize = batch * linear.rows;
        if input.len() < total_in || output.len() < total_out {
            return Err(invalid_plan(
                "batched prequantized nvfp4 linear shape mismatch for {}: input={} expected={} output={} expected={}",
                Values::Five(
                    Value::Name(linear.name.clone()),
                    number(input.len()),
                    number(total_in),
                    number(output.len()),
                    number(total_out),
                ),
            ));
        }
        let rows_word: u32 = linear.rows as u32;
        let cols_word: u32 = linear.cols as u32;
        let batch_word: u32 = batch as u32;
        if batch > 1 && !wmma_disabled && linear.rows % 16 == 0 && linear.cols % 16 == 0 && batch >= 32 {
            return Ok(
                Plan::launch(
                    Kernel::Nvfp4PrequantBatchedGemmWmmaBf16,
                    "launch batched nvfp4 gemm wmma bf16",
                    LaunchConfig {
                        grid_dim: ((linear.rows / 16) as u32, ((batch + 15) / 16) as u32, 1),
                        block_dim: (32, 1, 1),
                        shared_mem_bytes: 0,
                    },
                    vec![
                        Arg::Buffer(Operand::Packed),
                        Arg::Buffer(Operand::Scales),
                        Arg::Buffer(Operand::Input),
                        Arg::U32(rows_word),
                        Arg::U32(cols_word),
                        Arg::U32(batch_word),
                        Arg::Scalar(Scalar::OutputScale),
                        Arg::Buffer(Operand::Output),
                    ],
                ),
            );
        }
        if batch > 1 {
            return Ok(
                Plan::launch(
                    Kernel::Nvfp4PrequantBatchedGemm,
                    "launch batched nvfp4 gemm prequantized",
                    LaunchConfig {
                        grid_dim: (rows_word, ((batch + 7) / 8) as u32, 1),
                        block_dim: (256, 1, 1),
                        shared_mem_bytes: (linear.cols / 2 + linear.cols / 16) as u32,
                    },
                    vec![
                        Arg::Buffer(Operand::Packed),
                        Arg::Buffer(Operand::Scales),
                        Arg::Buffer(Operand::Input),
                        Arg::U32(rows_word),
                        Arg::U32(cols_word),
                        Arg::U32(batch_word),
                        Arg::Scalar(Scalar::OutputScale),
                        Arg::Buffer(Operand::Output),
                    ],
                ),
            );
        }
        Ok(
            Plan::launch(
                Kernel::Nvfp4PrequantBatched,
                "launch batched nvfp4 matvec prequantized",
                LaunchConfig {
                    grid_dim: (rows_word, batch_word, 1),
                    block_dim: (256, 1, 1),
                    shared_mem_bytes: 1024,
                },
                vec![
                    Arg::Buffer(Operand::Packed),
                    Arg::Buffer(Operand::Scales),
                    Arg::Buffer(Operand::Input),
                    Arg::U32(rows_word),
                    Arg::U32(cols_word),
                    Arg::Scalar(Scalar::OutputScale),
                    Arg::Buffer(Operand::Output),
                ],
            ),
        )
    }

    /// [`Self::matvec_nvfp4_prequantized_batched_device`] on staged weights.
    pub fn launch_nvfp4_prequantized_batched_views(
        &self,
        rows: usize,
        cols: usize,
        batch: usize,
        wmma_disabled: bool,
    ) -> (plan: Result<Plan, AegisError>)
        requires
            batch + 15 <= usize::MAX,
        ensures
            Plan::outcome(plan) =~~= staged_prequantized_batched_steps(
                rows,
                cols,
                batch,
                wmma_disabled,
            ),
    {
        let rows_word: u32 = rows as u32;
        let cols_word: u32 = cols as u32;
        let batch_word: u32 = batch as u32;
        if batch > 1 && !wmma_disabled && rows % 16 == 0 && cols % 16 == 0 && batch >= 32 {
            return Ok(
                Plan::launch(
                    Kernel::Nvfp4PrequantBatchedGemmWmmaBf16,
                    "launch staged nvfp4 wmma bf16 batched gemm",
                    LaunchConfig {
                        grid_dim: ((rows / 16) as u32, ((batch + 15) / 16) as u32, 1),
                        block_dim: (32, 1, 1),
                        shared_mem_bytes: 0,
                    },
                    vec![
                        Arg::Buffer(Operand::StagedPacked),
                        Arg::Buffer(Operand::StagedScales),
                        Arg::Buffer(Operand::QuantizedInput),
                        Arg::U32(rows_word),
                        Arg::U32(cols_word),
                        Arg::U32(batch_word),
                        Arg::Scalar(Scalar::OutputScale),
                        Arg::Buffer(Operand::Output),
                    ],
                ),
            );
        }
        if batch > 1 {
            return Ok(
                Plan::launch(
                    Kernel::Nvfp4PrequantBatchedGemm,
                    "launch staged nvfp4 prequantized batched gemm",
                    LaunchConfig {
                        grid_dim: (rows_word, ((batch + 7) / 8) as u32, 1),
                        block_dim: (256, 1, 1),
                        shared_mem_bytes: (cols / 2 + cols / 16) as u32,
                    },
                    vec![
                        Arg::Buffer(Operand::StagedPacked),
                        Arg::Buffer(Operand::StagedScales),
                        Arg::Buffer(Operand::QuantizedInput),
                        Arg::U32(rows_word),
                        Arg::U32(cols_word),
                        Arg::U32(batch_word),
                        Arg::Scalar(Scalar::OutputScale),
                        Arg::Buffer(Operand::Output),
                    ],
                ),
            );
        }
        Ok(
            Plan::launch(
                Kernel::Nvfp4PrequantBatched,
                "launch staged nvfp4 prequantized batched",
                LaunchConfig {
                    grid_dim: (rows_word, batch_word, 1),
                    block_dim: (256, 1, 1),
                    shared_mem_bytes: 1024,
                },
                vec![
                    Arg::Buffer(Operand::StagedPacked),
                    Arg::Buffer(Operand::StagedScales),
                    Arg::Buffer(Operand::QuantizedInput),
                    Arg::U32(rows_word),
                    Arg::U32(cols_word),
                    Arg::Scalar(Scalar::OutputScale),
                    Arg::Buffer(Operand::Output),
                ],
            ),
        )
    }

    /// [`Self::launch_nvfp4_reference`] on staged weights.
    pub fn launch_nvfp4_reference_views(
        &self,
        rows: usize,
        cols: usize,
    ) -> (plan: Result<Plan, AegisError>)
        ensures
            Plan::outcome(plan) =~~= staged_reference_steps(rows, cols),
    {
        let rows_word: u32 = rows as u32;
        let cols_word: u32 = cols as u32;
        Ok(
            Plan::launch(
                Kernel::Nvfp4Reference,
                "launch staged nvfp4 reference",
                LaunchConfig {
                    grid_dim: (rows_word, 1, 1),
                    block_dim: (128, 1, 1),
                    shared_mem_bytes: 512,
                },
                vec![
                    Arg::Buffer(Operand::StagedPacked),
                    Arg::Buffer(Operand::StagedScales),
                    Arg::Buffer(Operand::Input),
                    Arg::U32(rows_word),
                    Arg::U32(cols_word),
                    Arg::Scalar(Scalar::InputScale),
                    Arg::Scalar(Scalar::OutputScale),
                    Arg::Buffer(Operand::Output),
                ],
            ),
        )
    }

    /// [`Self::launch_nvfp4_prequantized`] on staged weights.
    pub fn launch_nvfp4_prequantized_views(
        &self,
        rows: usize,
        cols: usize,
    ) -> (plan: Result<Plan, AegisError>)
        ensures
            Plan::outcome(plan) =~~= staged_prequantized_steps(rows, cols),
    {
        let rows_word: u32 = rows as u32;
        let cols_word: u32 = cols as u32;
        Ok(
            Plan::launch(
                Kernel::Nvfp4Prequant,
                "launch staged nvfp4 prequantized",
                LaunchConfig {
                    grid_dim: (rows_word, 1, 1),
                    block_dim: (128, 1, 1),
                    shared_mem_bytes: 512,
                },
                vec![
                    Arg::Buffer(Operand::StagedPacked),
                    Arg::Buffer(Operand::StagedScales),
                    Arg::Buffer(Operand::QuantizedInput),
                    Arg::U32(rows_word),
                    Arg::U32(cols_word),
                    Arg::Scalar(Scalar::OutputScale),
                    Arg::Buffer(Operand::Output),
                ],
            ),
        )
    }

    /// Multiplies one packed vector by weights repacked for the native tensor-core
    /// kernels: sixteen rows per block, and as many warps as divide the columns.
    pub fn matvec_mxfp4_native_prepacked_device(
        &self,
        linear: &DeviceNvfp4Linear,
        vector_bytes: Result<usize, AegisError>,
        input_mxfp4: &DeviceBuffer<u8>,
        output: &DeviceBuffer<F32>,
    ) -> (plan: Result<Plan, AegisError>)
        ensures
            Plan::outcome(plan) =~~= native_matvec_steps(linear, vector_bytes, input_mxfp4, output),
    {
        let expected_input_bytes: usize = vector_bytes?;
        if input_mxfp4.len() != expected_input_bytes || output.len() != linear.rows {
            return Err(invalid_plan(
                "native mxfp4 matvec shape mismatch for {}: expected input_bytes={} output={}, got input_bytes={} output={}",
                Values::Five(
                    Value::Name(linear.name.clone()),
                    number(expected_input_bytes),
                    number(linear.rows),
                    number(input_mxfp4.len()),
                    number(output.len()),
                ),
            ));
        }
        let native = match &linear.native_mxfp4 {
            Some(native) => native,
            None => {
                return Err(invalid_plan(
                    "native mxfp4 inference requested for `{}`, but no native MXFP4 resident layout was materialized; enable CudaRuntimeConfig.native_mxfp4_repack",
                    Values::One(Value::Name(linear.name.clone())),
                ));
            },
        };
        if linear.cols % 64 != 0 {
            return Err(invalid_plan(
                "native mxfp4 matvec for `{}` requires cols divisible by 64, got {}",
                Values::Two(Value::Name(linear.name.clone()), number(linear.cols)),
            ));
        }
        let rows: u32 = linear.rows as u32;
        let cols: u32 = linear.cols as u32;
        let blocks_per_row: u32 = native.blocks_per_row as u32;
        if linear.cols % 1024 == 0 {
            return Ok(
                Plan::launch(
                    Kernel::Mxfp4Matvec16warp,
                    "launch native mxfp4 matvec 16warp",
                    LaunchConfig {
                        grid_dim: (ceil_div(rows, 16), 1, 1),
                        block_dim: (512, 1, 1),
                        shared_mem_bytes: 0,
                    },
                    vec![
                        Arg::Buffer(Operand::NativeWeights),
                        Arg::Buffer(Operand::InputMxfp4),
                        Arg::U32(rows),
                        Arg::U32(cols),
                        Arg::U32(blocks_per_row),
                        Arg::Scalar(Scalar::OutputScale),
                        Arg::Buffer(Operand::Output),
                    ],
                ),
            );
        }
        if linear.cols % 256 == 0 {
            return Ok(
                Plan::launch(
                    Kernel::Mxfp4Matvec4warp,
                    "launch native mxfp4 matvec 4warp",
                    LaunchConfig {
                        grid_dim: (ceil_div(rows, 16), 1, 1),
                        block_dim: (128, 1, 1),
                        shared_mem_bytes: 0,
                    },
                    vec![
                        Arg::Buffer(Operand::NativeWeights),
                        Arg::Buffer(Operand::InputMxfp4),
                        Arg::U32(rows),
                        Arg::U32(cols),
                        Arg::U32(blocks_per_row),
                        Arg::Scalar(Scalar::OutputScale),
                        Arg::Buffer(Operand::Output),
                    ],
                ),
            );
        }
        Ok(
            Plan::launch(
                Kernel::Mxfp4Matvec,
                "launch native mxfp4 matvec 1warp",
                LaunchConfig {
                    grid_dim: (ceil_div(rows, 16), 1, 1),
                    block_dim: (32, 1, 1),
                    shared_mem_bytes: 0,
                },
                vec![
                    Arg::Buffer(Operand::NativeWeights),
                    Arg::Buffer(Operand::InputMxfp4),
                    Arg::U32(rows),
                    Arg::U32(cols),
                    Arg::U32(blocks_per_row),
                    Arg::Scalar(Scalar::OutputScale),
                    Arg::Buffer(Operand::Output),
                ],
            ),
        )
    }

    /// Multiplies `batch` packed vectors by repacked weights, with the operands that the
    /// launch is to name: tiles of sixteen vectors for long batches, groups of eight for
    /// short ones.
    pub fn native_batched_into(
        &self,
        linear: &DeviceNvfp4Linear,
        vector_bytes: Result<usize, AegisError>,
        input_mxfp4: &DeviceBuffer<u8>,
        batch: usize,
        output: &DeviceBuffer<F32>,
        weights: Operand,
        scale: Scalar,
        target: Operand,
    ) -> (plan: Result<Plan, AegisError>)
        ensures
            Plan::outcome(plan) =~~= native_batched_steps(
                linear,
                vector_bytes,
                input_mxfp4,
                batch,
                output,
                weights,
                scale,
                target,
            ),
    {
        let row_bytes: usize = vector_bytes?;
        let expected_input_bytes: usize = checked_len("batched native mxfp4 input", batch, row_bytes)?;
        let expected_output: usize = checked_len("batched native mxfp4 output", batch, linear.rows)?;
        if input_mxfp4.len() < expected_input_bytes || output.len() < expected_output {
            return Err(invalid_plan(
                "batched native mxfp4 matvec shape mismatch for {}: expected input_bytes>={} output>={}, got input_bytes={} output={}",
                Values::Five(
                    Value::Name(linear.name.clone()),
                    number(expected_input_bytes),
                    number(expected_output),
                    number(input_mxfp4.len()),
                    number(output.len()),
                ),
            ));
        }
        let native = match &linear.native_mxfp4 {
            Some(native) => native,
            None => {
                return Err(invalid_plan(
                    "batched native mxfp4 inference requested for `{}`, but no native MXFP4 resident layout was materialized; enable CudaRuntimeConfig.native_mxfp4_repack",
                    Values::One(Value::Name(linear.name.clone())),
                ));
            },
        };
        if linear.cols % 64 != 0 {
            return Err(invalid_plan(
                "batched native mxfp4 matvec for `{}` requires cols divisible by 64, got {}",
                Values::Two(Value::Name(linear.name.clone()), number(linear.cols)),
            ));
        }
        let row_word: u32 = u32_arg("rows", linear.rows)?;
        let col_word: u32 = u32_arg("cols", linear.cols)?;
        let block_word: u32 = u32_arg("blocks_per_row", native.blocks_per_row)?;
        let batch_word: u32 = u32_arg("batch", batch)?;
        if batch >= 16 && linear.rows >= 64 {
            return Ok(
                Plan::launch(
                    Kernel::Mxfp4MatmulTileM16n64,
                    "launch tiled native mxfp4 prefill gemm",
                    LaunchConfig {
                        grid_dim: (ceil_div(row_word, 64), ceil_div(batch_word, 16), 1),
                        block_dim: (256, 1, 1),
                        shared_mem_bytes: 0,
                    },
                    vec![
                        Arg::Buffer(weights),
                        Arg::Buffer(Operand::InputMxfp4),
                        Arg::U32(row_word),
                        Arg::U32(col_word),
                        Arg::U32(block_word),
                        Arg::U32(batch_word),
                        Arg::Scalar(scale),
                        Arg::Buffer(target),
                    ],
                ),
            );
        }
        if batch >= 16 {
            return Ok(
                Plan::launch(
                    Kernel::Mxfp4MatmulTileM16n32,
                    "launch tiled native mxfp4 prefill gemm",
                    LaunchConfig {
                        grid_dim: (ceil_div(row_word, 32), ceil_div(batch_word, 16), 1),
                        block_dim: (128, 1, 1),
                        shared_mem_bytes: 0,
                    },
                    vec![
                        Arg::Buffer(weights),
                        Arg::Buffer(Operand::InputMxfp4),
                        Arg::U32(row_word),
                        Arg::U32(col_word),
                        Arg::U32(block_word),
                        Arg::U32(batch_word),
                        Arg::Scalar(scale),
                        Arg::Buffer(target),
                    ],
                ),
            );
        }
        if batch > 1 {
            return Ok(
                Plan::launch(
                    Kernel::Mxfp4MatmulN8,
                    "launch batched native mxfp4 matmul n8",
                    LaunchConfig {
                        grid_dim: (ceil_div(row_word, 16), ceil_div(batch_word, 8), 1),
                        block_dim: (32, 1, 1),
                        shared_mem_bytes: 0,
                    },
                    vec![
                        Arg::Buffer(weights),
                        Arg::Buffer(Operand::InputMxfp4),
                        Arg::U32(row_word),
                        Arg::U32(col_word),
                        Arg::U32(block_word),
                        Arg::U32(batch_word),
                        Arg::Scalar(scale),
                        Arg::Buffer(target),
                    ],
                ),
            );
        }
        Ok(
            Plan::launch(
                Kernel::Mxfp4Matvec,
                "launch batched native mxfp4 matvec",
                LaunchConfig {
                    grid_dim: (ceil_div(row_word, 16), batch_word, 1),
                    block_dim: (32, 1, 1),
                    shared_mem_bytes: 0,
                },
                vec![
                    Arg::Buffer(weights),
                    Arg::Buffer(Operand::InputMxfp4),
                    Arg::U32(row_word),
                    Arg::U32(col_word),
                    Arg::U32(block_word),
                    Arg::Scalar(scale),
                    Arg::Buffer(target),
                ],
            ),
        )
    }

    /// [`Self::matvec_mxfp4_native_prepacked_batched_device`] on staged weights.
    pub fn launch_native_mxfp4_batched_views(
        &self,
        rows: usize,
        cols: usize,
        blocks_per_row: usize,
        batch: usize,
    ) -> (plan: Result<Plan, AegisError>)
        ensures
            Plan::outcome(plan) =~~= staged_native_batched_steps(rows, cols, blocks_per_row, batch),
    {
        let row_word: u32 = u32_arg("rows", rows)?;
        let col_word: u32 = u32_arg("cols", cols)?;
        let block_word: u32 = u32_arg("blocks_per_row", blocks_per_row)?;
        let batch_word: u32 = u32_arg("batch", batch)?;
        if batch >= 16 && rows >= 64 {
            return Ok(
                Plan::launch(
                    Kernel::Mxfp4MatmulTileM16n64,
                    "launch staged native mxfp4 prefill tile",
                    LaunchConfig {
                        grid_dim: (ceil_div(row_word, 64), ceil_div(batch_word, 16), 1),
                        block_dim: (256, 1, 1),
                        shared_mem_bytes: 0,
                    },
                    vec![
                        Arg::Buffer(Operand::StagedNative),
                        Arg::Buffer(Operand::InputMxfp4),
                        Arg::U32(row_word),
                        Arg::U32(col_word),
                        Arg::U32(block_word),
                        Arg::U32(batch_word),
                        Arg::Scalar(Scalar::OutputScale),
                        Arg::Buffer(Operand::Output),
                    ],
                ),
            );
        }
        if batch >= 16 {
            return Ok(
                Plan::launch(
                    Kernel::Mxfp4MatmulTileM16n32,
                    "launch staged native mxfp4 prefill tile",
                    LaunchConfig {
                        grid_dim: (ceil_div(row_word, 32), ceil_div(batch_word, 16), 1),
                        block_dim: (128, 1, 1),
                        shared_mem_bytes: 0,
                    },
                    vec![
                        Arg::Buffer(Operand::StagedNative),
                        Arg::Buffer(Operand::InputMxfp4),
                        Arg::U32(row_word),
                        Arg::U32(col_word),
                        Arg::U32(block_word),
                        Arg::U32(batch_word),
                        Arg::Scalar(Scalar::OutputScale),
                        Arg::Buffer(Operand::Output),
                    ],
                ),
            );
        }
        if batch > 1 {
            return Ok(
                Plan::launch(
                    Kernel::Mxfp4MatmulN8,
                    "launch staged native mxfp4 n8",
                    LaunchConfig {
                        grid_dim: (ceil_div(row_word, 16), ceil_div(batch_word, 8), 1),
                        block_dim: (32, 1, 1),
                        shared_mem_bytes: 0,
                    },
                    vec![
                        Arg::Buffer(Operand::StagedNative),
                        Arg::Buffer(Operand::InputMxfp4),
                        Arg::U32(row_word),
                        Arg::U32(col_word),
                        Arg::U32(block_word),
                        Arg::U32(batch_word),
                        Arg::Scalar(Scalar::OutputScale),
                        Arg::Buffer(Operand::Output),
                    ],
                ),
            );
        }
        Ok(
            Plan::launch(
                Kernel::Mxfp4Matvec,
                "launch staged native mxfp4 matvec",
                LaunchConfig {
                    grid_dim: (ceil_div(row_word, 16), batch_word, 1),
                    block_dim: (32, 1, 1),
                    shared_mem_bytes: 0,
                },
                vec![
                    Arg::Buffer(Operand::StagedNative),
                    Arg::Buffer(Operand::InputMxfp4),
                    Arg::U32(row_word),
                    Arg::U32(col_word),
                    Arg::U32(block_word),
                    Arg::Scalar(Scalar::OutputScale),
                    Arg::Buffer(Operand::Output),
                ],
            ),
        )
    }

    /// Computes queries, keys and values of `batch` packed vectors in one launch: a layer
    /// of blocks for each.
    pub fn grouped_qkv(
        &self,
        q_proj: &DeviceNvfp4Linear,
        k_proj: &DeviceNvfp4Linear,
        v_proj: &DeviceNvfp4Linear,
        vector_bytes: Result<usize, AegisError>,
        input_mxfp4: &DeviceBuffer<u8>,
        batch: usize,
        q_output: &DeviceBuffer<F32>,
        k_output: &DeviceBuffer<F32>,
        v_output: &DeviceBuffer<F32>,
    ) -> (plan: Result<Plan, AegisError>)
        ensures
            Plan::outcome(plan) =~~= grouped_qkv_steps(
                q_proj,
                k_proj,
                v_proj,
                vector_bytes,
                input_mxfp4,
                batch,
                q_output,
                k_output,
                v_output,
            ),
    {
        if q_proj.cols != k_proj.cols || q_proj.cols != v_proj.cols || k_proj.rows != v_proj.rows {
            return Err(invalid_plan(
                "grouped qkv mxfp4 prefill shape mismatch: q={}x{} k={}x{} v={}x{}",
                Values::Six(
                    number(q_proj.rows),
                    number(q_proj.cols),
                    number(k_proj.rows),
                    number(k_proj.cols),
                    number(v_proj.rows),
                    number(v_proj.cols),
                ),
            ));
        }
        let input_row_bytes: usize = vector_bytes?;
        let expected_input_bytes: usize = checked_len("grouped qkv mxfp4 input", batch, input_row_bytes)?;
        let expected_q: usize = checked_len("grouped qkv q output", batch, q_proj.rows)?;
        let expected_k: usize = checked_len("grouped qkv k output", batch, k_proj.rows)?;
        let expected_v: usize = checked_len("grouped qkv v output", batch, v_proj.rows)?;
        if input_mxfp4.len() < expected_input_bytes || q_output.len() < expected_q || k_output.len() < expected_k || v_output.len() < expected_v {
            return Err(invalid_plan(
                "grouped qkv mxfp4 prefill buffers too small: input={} expected_input={} q_out={} k_out={} v_out={} batch={}",
                Values::Six(
                    number(input_mxfp4.len()),
                    number(expected_input_bytes),
                    number(q_output.len()),
                    number(k_output.len()),
                    number(v_output.len()),
                    number(batch),
                ),
            ));
        }
        if q_proj.native_mxfp4.is_none() || k_proj.native_mxfp4.is_none() || v_proj.native_mxfp4.is_none() {
            return Err(invalid_plan(
                "grouped qkv mxfp4 prefill requires native MXFP4 resident layouts",
                Values::Zero,
            ));
        }
        if q_proj.cols % 64 != 0 {
            return Err(invalid_plan(
                "grouped qkv mxfp4 prefill requires cols divisible by 64, got {}",
                Values::One(number(q_proj.cols)),
            ));
        }
        let q_rows: u32 = u32_arg("q_rows", q_proj.rows)?;
        let kv_rows: u32 = u32_arg("kv_rows", k_proj.rows)?;
        let cols: u32 = u32_arg("cols", q_proj.cols)?;
        let q_blocks: u32 = u32_arg("q_blocks_per_row", q_proj.native_mxfp4_blocks_per_row())?;
        let k_blocks: u32 = u32_arg("k_blocks_per_row", k_proj.native_mxfp4_blocks_per_row())?;
        let v_blocks: u32 = u32_arg("v_blocks_per_row", v_proj.native_mxfp4_blocks_per_row())?;
        let batch_word: u32 = u32_arg("batch", batch)?;
        let max_rows: u32 = if q_rows >= kv_rows { q_rows } else { kv_rows };
        if max_rows >= 64 {
            return Ok(
                Plan::launch(
                    Kernel::Mxfp4MatmulQkvTileM16n64,
                    "launch grouped qkv native mxfp4 prefill gemm",
                    LaunchConfig {
                        grid_dim: (ceil_div(max_rows, 64), ceil_div(batch_word, 16), 3),
                        block_dim: (256, 1, 1),
                        shared_mem_bytes: 0,
                    },
                    vec![
                        Arg::Buffer(Operand::QNative),
                        Arg::Buffer(Operand::KNative),
                        Arg::Buffer(Operand::VNative),
                        Arg::Buffer(Operand::InputMxfp4),
                        Arg::U32(q_rows),
                        Arg::U32(kv_rows),
                        Arg::U32(cols),
                        Arg::U32(q_blocks),
                        Arg::U32(k_blocks),
                        Arg::U32(v_blocks),
                        Arg::U32(batch_word),
                        Arg::Scalar(Scalar::QOutputScale),
                        Arg::Scalar(Scalar::KOutputScale),
                        Arg::Scalar(Scalar::VOutputScale),
                        Arg::Buffer(Operand::QOutput),
                        Arg::Buffer(Operand::KOutput),
                        Arg::Buffer(Operand::VOutput),
                    ],
                ),
            );
        }
        Ok(
            Plan::launch(
                Kernel::Mxfp4MatmulQkvTileM16n32,
                "launch grouped qkv native mxfp4 prefill gemm",
                LaunchConfig {
                    grid_dim: (ceil_div(max_rows, 32), ceil_div(batch_word, 16), 3),
                    block_dim: (128, 1, 1),
                    shared_mem_bytes: 0,
                },
                vec![
                    Arg::Buffer(Operand::QNative),
                    Arg::Buffer(Operand::KNative),
                    Arg::Buffer(Operand::VNative),
                    Arg::Buffer(Operand::InputMxfp4),
                    Arg::U32(q_rows),
                    Arg::U32(kv_rows),
                    Arg::U32(cols),
                    Arg::U32(q_blocks),
                    Arg::U32(k_blocks),
                    Arg::U32(v_blocks),
                    Arg::U32(batch_word),
                    Arg::Scalar(Scalar::QOutputScale),
                    Arg::Scalar(Scalar::KOutputScale),
                    Arg::Scalar(Scalar::VOutputScale),
                    Arg::Buffer(Operand::QOutput),
                    Arg::Buffer(Operand::KOutput),
                    Arg::Buffer(Operand::VOutput),
                ],
            ),
        )
    }

    /// Computes gate and up projections of `batch` packed vectors in one launch: a layer
    /// of blocks for each.
    pub fn grouped_gate_up(
        &self,
        gate_proj: &DeviceNvfp4Linear,
        up_proj: &DeviceNvfp4Linear,
        vector_bytes: Result<usize, AegisError>,
        input_mxfp4: &DeviceBuffer<u8>,
        batch: usize,
        gate_output: &DeviceBuffer<F32>,
        up_output: &DeviceBuffer<F32>,
    ) -> (plan: Result<Plan, AegisError>)
        ensures
            Plan::outcome(plan) =~~= grouped_gate_up_steps(
                gate_proj,
                up_proj,
                vector_bytes,
                input_mxfp4,
                batch,
                gate_output,
                up_output,
            ),
    {
        if gate_proj.cols != up_proj.cols {
            return Err(invalid_plan(
                "grouped gate/up mxfp4 prefill shape mismatch: gate={}x{} up={}x{}",
                Values::Four(
                    number(gate_proj.rows),
                    number(gate_proj.cols),
                    number(up_proj.rows),
                    number(up_proj.cols),
                ),
            ));
        }
        let input_row_bytes: usize = vector_bytes?;
        let expected_input_bytes: usize = checked_len("grouped gate/up mxfp4 input", batch, input_row_bytes)?;
        let expected_gate: usize = checked_len("grouped gate/up gate output", batch, gate_proj.rows)?;
        let expected_up: usize = checked_len("grouped gate/up up output", batch, up_proj.rows)?;
        if input_mxfp4.len() < expected_input_bytes || gate_output.len() < expected_gate || up_output.len() < expected_up {
            return Err(invalid_plan(
                "grouped gate/up mxfp4 prefill buffers too small: input={} expected_input={} gate_out={} up_out={} batch={}",
                Values::Five(
                    number(input_mxfp4.len()),
                    number(expected_input_bytes),
                    number(gate_output.len()),
                    number(up_output.len()),
                    number(batch),
                ),
            ));
        }
        if gate_proj.native_mxfp4.is_none() || up_proj.native_mxfp4.is_none() {
            return Err(invalid_plan(
                "grouped gate/up mxfp4 prefill requires native MXFP4 resident layouts",
                Values::Zero,
            ));
        }
        if gate_proj.cols % 64 != 0 {
            return Err(invalid_plan(
                "grouped gate/up mxfp4 prefill requires cols divisible by 64, got {}",
                Values::One(number(gate_proj.cols)),
            ));
        }
        let gate_rows: u32 = u32_arg("gate_rows", gate_proj.rows)?;
        let up_rows: u32 = u32_arg("up_rows", up_proj.rows)?;
        let cols: u32 = u32_arg("cols", gate_proj.cols)?;
        let gate_blocks: u32 = u32_arg("gate_blocks_per_row", gate_proj.native_mxfp4_blocks_per_row())?;
        let up_blocks: u32 = u32_arg("up_blocks_per_row", up_proj.native_mxfp4_blocks_per_row())?;
        let batch_word: u32 = u32_arg("batch", batch)?;
        let max_rows: u32 = if gate_rows >= up_rows { gate_rows } else { up_rows };
        if max_rows >= 64 {
            return Ok(
                Plan::launch(
                    Kernel::Mxfp4MatmulGateUpTileM16n64,
                    "launch grouped gate/up native mxfp4 prefill gemm",
                    LaunchConfig {
                        grid_dim: (ceil_div(max_rows, 64), ceil_div(batch_word, 16), 2),
                        block_dim: (256, 1, 1),
                        shared_mem_bytes: 0,
                    },
                    vec![
                        Arg::Buffer(Operand::GateNative),
                        Arg::Buffer(Operand::UpNative),
                        Arg::Buffer(Operand::InputMxfp4),
                        Arg::U32(gate_rows),
                        Arg::U32(up_rows),
                        Arg::U32(cols),
                        Arg::U32(gate_blocks),
                        Arg::U32(up_blocks),
                        Arg::U32(batch_word),
                        Arg::Scalar(Scalar::GateOutputScale),
                        Arg::Scalar(Scalar::UpOutputScale),
                        Arg::Buffer(Operand::GateOutput),
                        Arg::Buffer(Operand::UpOutput),
                    ],
                ),
            );
        }
        Ok(
            Plan::launch(
                Kernel::Mxfp4MatmulGateUpTileM16n32,
                "launch grouped gate/up native mxfp4 prefill gemm",
                LaunchConfig {
                    grid_dim: (ceil_div(max_rows, 32), ceil_div(batch_word, 16), 2),
                    block_dim: (128, 1, 1),
                    shared_mem_bytes: 0,
                },
                vec![
                    Arg::Buffer(Operand::GateNative),
                    Arg::Buffer(Operand::UpNative),
                    Arg::Buffer(Operand::InputMxfp4),
                    Arg::U32(gate_rows),
                    Arg::U32(up_rows),
                    Arg::U32(cols),
                    Arg::U32(gate_blocks),
                    Arg::U32(up_blocks),
                    Arg::U32(batch_word),
                    Arg::Scalar(Scalar::GateOutputScale),
                    Arg::Scalar(Scalar::UpOutputScale),
                    Arg::Buffer(Operand::GateOutput),
                    Arg::Buffer(Operand::UpOutput),
                ],
            ),
        )
    }
}

/// What two planning calls come to, the second made once the first plan was issued.
pub open spec fn one_after_other(
    first: Result<Seq<StepView>, AegisError>,
    second: Result<Seq<StepView>, AegisError>,
) -> Result<Seq<StepView>, AegisError> {
    match first {
        Ok(steps) => Ok(Plan::spec_then(steps, second)),
        Err(error) => Err(error),
    }
}

/// The copy that brings `len` values from the host into the input.
pub open spec fn input_upload(len: usize) -> StepView {
    StepView::Copy {
        engine: Engine::Compute,
        from: Region { operand: Operand::Host, start: 0, end: len },
        to: Region { operand: Operand::Input, start: 0, end: len },
        stage: "htod f32 buffer",
    }
}

/// The copy that brings the `len` values of the output to the host.
pub open spec fn output_download(len: usize) -> StepView {
    StepView::Copy {
        engine: Engine::Compute,
        from: Region { operand: Operand::Output, start: 0, end: len },
        to: Region { operand: Operand::Downloaded, start: 0, end: len },
        stage: "dtoh f32 buffer",
    }
}

fn upload_input(len: usize) -> (plan: Plan)
    ensures
        plan@ == seq![input_upload(len)],
{
    Plan::of(
        Step::Copy {
            engine: Engine::Compute,
            from: Region { operand: Operand::Host, start: 0, end: len },
            to: Region { operand: Operand::Input, start: 0, end: len },
            stage: "htod f32 buffer",
        },
    )
}

fn download_output(len: usize) -> (step: Step)
    ensures
        step@ == output_download(len),
{
    Step::Copy {
        engine: Engine::Compute,
        from: Region { operand: Operand::Output, start: 0, end: len },
        to: Region { operand: Operand::Downloaded, start: 0, end: len },
        stage: "dtoh f32 buffer",
    }
}

/// The steps of [`CudaRuntime::matvec_bf16_reference_device`].
pub open spec fn matvec_bf16_reference_steps(
    matrix: &DeviceBf16Matrix,
    input: &DeviceBuffer<F32>,
    output: &DeviceBuffer<F32>,
) -> Result<Seq<StepView>, AegisError> {
    if matrix.is_host_resident() {
        matvec_bf16_host_steps(matrix, input, output)
    } else {
        matvec_bf16_steps(matrix, input, output)
    }
}

/// Whether staged weights are there, as `refusal` has it where they are not.
pub open spec fn staged_weights(linear: &DeviceNvfp4Linear, refusal: &'static str) -> Result<
    HostResidentWeights,
    AegisError,
> {
    match linear.host_weights {
        Some(weights) => Ok(weights),
        None => Err(AegisError::invalid_with(refusal, Values::One(Value::Name(linear.name)))),
    }
}

/// The steps of a product with packed weights that are staged first.
pub open spec fn staged_steps(
    linear: &DeviceNvfp4Linear,
    refusal: &'static str,
    launch: Result<Seq<StepView>, AegisError>,
) -> Result<Seq<StepView>, AegisError> {
    match staged_weights(linear, refusal) {
        Ok(_) => Ok(
            seq![
                StepView::StageWeights {
                    packed_bytes: linear.packed_bytes,
                    scale_bytes: linear.scale_bytes,
                },
            ] + marked(launch),
        ),
        Err(error) => Err(error),
    }
}

/// The steps of a product with repacked weights that are staged first.
pub open spec fn staged_native_steps(
    linear: &DeviceNvfp4Linear,
    refusal: &'static str,
    no_data: &'static str,
    batch: usize,
) -> Result<Seq<StepView>, AegisError> {
    match staged_weights(linear, refusal) {
        Ok(weights) => match weights.native_mxfp4 {
            Some(native) => Ok(
                seq![
                    StepView::StageWeights {
                        packed_bytes: linear.packed_bytes,
                        scale_bytes: linear.scale_bytes,
                    },
                    StepView::StageNative { native_bytes: native.data.len() },
                ] + marked(
                    staged_native_batched_steps(
                        linear.rows,
                        linear.cols,
                        native.blocks_per_row,
                        batch,
                    ),
                ),
            ),
            None => Err(AegisError::invalid_with(no_data, Values::One(Value::Name(linear.name)))),
        },
        Err(error) => Err(error),
    }
}

/// A launch that reads the staging, with the note that it was issued; a refusal comes
/// after the note.
pub open spec fn marked(launch: Result<Seq<StepView>, AegisError>) -> Seq<StepView> {
    match launch {
        Ok(steps) => steps.push(StepView::MarkLaunched),
        Err(error) => seq![StepView::MarkLaunched, StepView::Refuse(error)],
    }
}

fn mark(launch: Result<Plan, AegisError>) -> (plan: Plan)
    ensures
        plan@ == marked(Plan::outcome(launch)),
{
    match launch {
        Ok(plan) => {
            let noted = plan.followed_by(Plan::of(Step::MarkLaunched));
            assert(noted@ =~= plan@.push(StepView::MarkLaunched));
            noted
        },
        Err(error) => {
            let plan = Plan::of(Step::MarkLaunched).followed_by(Plan::of(Step::Refuse(error)));
            assert(plan@ =~= seq![StepView::MarkLaunched, StepView::Refuse(error)]);
            plan
        },
    }
}

/// The steps of [`CudaRuntime::matmul_mxfp4_native_qkv_prefill_device`].
pub open spec fn qkv_prefill_steps(
    q_proj: &DeviceNvfp4Linear,
    k_proj: &DeviceNvfp4Linear,
    v_proj: &DeviceNvfp4Linear,
    vector_bytes: (
        Result<usize, AegisError>,
        Result<usize, AegisError>,
        Result<usize, AegisError>,
    ),
    input_mxfp4: &DeviceBuffer<u8>,
    batch: usize,
    q_output: &DeviceBuffer<F32>,
    k_output: &DeviceBuffer<F32>,
    v_output: &DeviceBuffer<F32>,
) -> Result<Seq<StepView>, AegisError> {
    if batch == 1 {
        one_after_other(
            native_batched_steps(
                q_proj,
                vector_bytes.0,
                input_mxfp4,
                batch,
                q_output,
                Operand::QNative,
                Scalar::QOutputScale,
                Operand::QOutput,
            ),
            one_after_other(
                native_batched_steps(
                    k_proj,
                    vector_bytes.1,
                    input_mxfp4,
                    batch,
                    k_output,
                    Operand::KNative,
                    Scalar::KOutputScale,
                    Operand::KOutput,
                ),
                native_batched_steps(
                    v_proj,
                    vector_bytes.2,
                    input_mxfp4,
                    batch,
                    v_output,
                    Operand::VNative,
                    Scalar::VOutputScale,
                    Operand::VOutput,
                ),
            ),
        )
    } else {
        grouped_qkv_steps(
            q_proj,
            k_proj,
            v_proj,
            vector_bytes.0,
            input_mxfp4,
            batch,
            q_output,
            k_output,
            v_output,
        )
    }
}

/// The steps of [`CudaRuntime::matmul_mxfp4_native_gate_up_prefill_device`].
pub open spec fn gate_up_prefill_steps(
    gate_proj: &DeviceNvfp4Linear,
    up_proj: &DeviceNvfp4Linear,
    vector_bytes: (Result<usize, AegisError>, Result<usize, AegisError>),
    input_mxfp4: &DeviceBuffer<u8>,
    batch: usize,
    gate_output: &DeviceBuffer<F32>,
    up_output: &DeviceBuffer<F32>,
) -> Result<Seq<StepView>, AegisError> {
    if batch == 1 {
        one_after_other(
            native_batched_steps(
                gate_proj,
                vector_bytes.0,
                input_mxfp4,
                batch,
                gate_output,
                Operand::GateNative,
                Scalar::GateOutputScale,
                Operand::GateOutput,
            ),
            native_batched_steps(
                up_proj,
                vector_bytes.1,
                input_mxfp4,
                batch,
                up_output,
                Operand::UpNative,
                Scalar::UpOutputScale,
                Operand::UpOutput,
            ),
        )
    } else {
        grouped_gate_up_steps(
            gate_proj,
            up_proj,
            vector_bytes.0,
            input_mxfp4,
            batch,
            gate_output,
            up_output,
        )
    }
}

impl CudaRuntime {
    /// [`Self::launch_nvfp4_reference`].
    pub fn matvec_nvfp4_reference_device(
        &self,
        linear: &DeviceNvfp4Linear,
        input: &DeviceBuffer<F32>,
        output: &DeviceBuffer<F32>,
    ) -> (plan: Result<Plan, AegisError>)
        ensures
            Plan::outcome(plan) == nvfp4_reference_steps(linear, input, output),
    {
        self.launch_nvfp4_reference(linear, input, output)
    }

    /// [`Self::launch_nvfp4_prequantized`].
    pub fn matvec_nvfp4_prequantized_device(
        &self,
        linear: &DeviceNvfp4Linear,
        quantized_input: &DeviceBuffer<F32>,
        output: &DeviceBuffer<F32>,
    ) -> (plan: Result<Plan, AegisError>)
        ensures
            Plan::outcome(plan) == nvfp4_prequantized_steps(linear, quantized_input, output),
    {
        self.launch_nvfp4_prequantized(linear, quantized_input, output)
    }

    /// Quantizes one vector, and multiplies it by four-bit weights.
    pub fn matvec_nvfp4_reference_device_with_scratch(
        &self,
        linear: &DeviceNvfp4Linear,
        quantized_input: &DeviceBuffer<F32>,
        output: &DeviceBuffer<F32>,
    ) -> (plan: Plan)
        ensures
            plan@ == Plan::spec_then(
                seq![
                    StepView::QuantizeInput {
                        input: Operand::Input,
                        output: Operand::QuantizedInput,
                    },
                ],
                nvfp4_prequantized_steps(linear, quantized_input, output),
            ),
    {
        Plan::of(
            Step::QuantizeInput { input: Operand::Input, output: Operand::QuantizedInput },
        ).then_outcome(self.matvec_nvfp4_prequantized_device(linear, quantized_input, output))
    }

    /// Uploads one vector of `input_len` values, multiplies it by four-bit weights, and
    /// downloads the product.
    pub fn matvec_nvfp4_reference_host(
        &self,
        linear: &DeviceNvfp4Linear,
        input_len: usize,
    ) -> (plan: Result<Plan, AegisError>)
        ensures
            input_len != linear.cols ==> plan == Err::<Plan, _>(
                AegisError::invalid_with(
                    "nvfp4 linear shape mismatch for {}: expected input={}, got input={}",
                    Values::Three(
                        Value::Name(linear.name),
                        Value::num(linear.cols as int),
                        Value::num(input_len as int),
                    ),
                ),
            ),
            input_len == linear.cols ==> exists|input: DeviceBuffer<F32>, output: DeviceBuffer<F32>|
                input.len() == linear.cols && output.len() == linear.rows && Plan::outcome(plan)
                    == Ok::<_, AegisError>(
                    seq![input_upload(input_len)] + #[trigger] nvfp4_reference_steps(
                        linear,
                        &input,
                        &output,
                    )->Ok_0 + seq![output_download(linear.rows)],
                ),
    {
        if input_len != linear.cols {
            return Err(
                invalid_plan(
                    "nvfp4 linear shape mismatch for {}: expected input={}, got input={}",
                    Values::Three(
                        Value::Name(linear.name.clone()),
                        number(linear.cols),
                        number(input_len),
                    ),
                ),
            );
        }
        let input: DeviceBuffer<F32> = DeviceBuffer::with_len(input_len);
        let output: DeviceBuffer<F32> = DeviceBuffer::with_len(linear.rows);
        let product = self.matvec_nvfp4_reference_device(linear, &input, &output)?;
        assert(nvfp4_reference_steps(linear, &input, &output) == Ok::<_, AegisError>(product@));
        let plan = upload_input(input_len).followed_by(product).followed_by(
            Plan::of(download_output(linear.rows)),
        );
        Ok(plan)
    }

    /// Uploads one vector of `input_len` values, multiplies it by a BF16 matrix, and
    /// downloads the product.
    pub fn matvec_bf16_reference_host(
        &self,
        matrix: &DeviceBf16Matrix,
        input_len: usize,
    ) -> (plan: Result<Plan, AegisError>)
        ensures
            input_len < matrix.cols ==> plan == Err::<Plan, _>(
                AegisError::invalid_with(
                    "bf16 matrix shape mismatch for {}: expected input={}, got input={}",
                    Values::Three(
                        Value::Name(matrix.name),
                        Value::num(matrix.cols as int),
                        Value::num(input_len as int),
                    ),
                ),
            ),
            input_len >= matrix.cols ==> exists|
                input: DeviceBuffer<F32>,
                output: DeviceBuffer<F32>,
            |
                input.len() == input_len && output.len() == matrix.rows && Plan::outcome(plan)
                    == Ok::<_, AegisError>(
                    seq![input_upload(input_len)] + #[trigger] matvec_bf16_reference_steps(
                        matrix,
                        &input,
                        &output,
                    )->Ok_0 + seq![output_download(matrix.rows)],
                ),
    {
        if input_len < matrix.cols {
            return Err(
                invalid_plan(
                    "bf16 matrix shape mismatch for {}: expected input={}, got input={}",
                    Values::Three(
                        Value::Name(matrix.name.clone()),
                        number(matrix.cols),
                        number(input_len),
                    ),
                ),
            );
        }
        let input: DeviceBuffer<F32> = DeviceBuffer::with_len(input_len);
        let output: DeviceBuffer<F32> = DeviceBuffer::with_len(matrix.rows);
        let product = self.matvec_bf16_reference_device(matrix, &input, &output)?;
        assert(matvec_bf16_reference_steps(matrix, &input, &output) == Ok::<_, AegisError>(
            product@,
        ));
        let plan = upload_input(input_len).followed_by(product).followed_by(
            Plan::of(download_output(matrix.rows)),
        );
        Ok(plan)
    }

    /// Multiplies one vector by a BF16 matrix, where the matrix is.
    pub fn matvec_bf16_reference_device(
        &self,
        matrix: &DeviceBf16Matrix,
        input: &DeviceBuffer<F32>,
        output: &DeviceBuffer<F32>,
    ) -> (plan: Result<Plan, AegisError>)
        ensures
            Plan::outcome(plan) == matvec_bf16_reference_steps(matrix, input, output),
    {
        if matrix.is_host_resident() {
            return self.matvec_bf16_host_resident_device(matrix, input, output);
        }
        self.launch_bf16_matvec_reference(matrix, input, output)
    }

    /// Packs one vector, and multiplies it by repacked weights. `packed_bytes` is what
    /// the vector takes in packed form, `vector_bytes` what one of the layer's width
    /// takes.
    pub fn matvec_mxfp4_native_device(
        &self,
        linear: &DeviceNvfp4Linear,
        packed_bytes: Result<usize, AegisError>,
        vector_bytes: Result<usize, AegisError>,
        output: &DeviceBuffer<F32>,
    ) -> (plan: Result<Plan, AegisError>)
        ensures
            packed_bytes is Err ==> plan == Err::<Plan, _>(packed_bytes->Err_0),
            packed_bytes is Ok ==> exists|packed: DeviceBuffer<u8>|
                packed.len() == packed_bytes->Ok_0 && Plan::outcome(plan) == Ok::<_, AegisError>(
                    Plan::spec_then(
                        seq![
                            StepView::PackInput {
                                input: Operand::Input,
                                packed_bytes: packed_bytes->Ok_0,
                                output: Operand::InputMxfp4,
                            },
                        ],
                        #[trigger] native_matvec_steps(linear, vector_bytes, &packed, output),
                    ),
                ),
    {
        let bytes: usize = packed_bytes?;
        let packed: DeviceBuffer<u8> = DeviceBuffer::with_len(bytes);
        let product = self.matvec_mxfp4_native_prepacked_device(
            linear,
            vector_bytes,
            &packed,
            output,
        );
        assert(Plan::outcome(product) == native_matvec_steps(linear, vector_bytes, &packed, output));
        let plan = Plan::of(
            Step::PackInput {
                input: Operand::Input,
                packed_bytes: bytes,
                output: Operand::InputMxfp4,
            },
        ).then_outcome(product);
        Ok(plan)
    }

    /// Multiplies `batch` packed vectors by repacked weights: tiles of sixteen vectors
    /// for long batches, groups of eight for short ones.
    pub fn matvec_mxfp4_native_prepacked_batched_device(
        &self,
        linear: &DeviceNvfp4Linear,
        vector_bytes: Result<usize, AegisError>,
        input_mxfp4: &DeviceBuffer<u8>,
        batch: usize,
        output: &DeviceBuffer<F32>,
    ) -> (plan: Result<Plan, AegisError>)
        ensures
            Plan::outcome(plan) == native_batched_steps(
                linear,
                vector_bytes,
                input_mxfp4,
                batch,
                output,
                Operand::NativeWeights,
                Scalar::OutputScale,
                Operand::Output,
            ),
    {
        self.native_batched_into(
            linear,
            vector_bytes,
            input_mxfp4,
            batch,
            output,
            Operand::NativeWeights,
            Scalar::OutputScale,
            Operand::Output,
        )
    }

    /// [`Self::matvec_mxfp4_native_prepacked_batched_device`] on the tokens of a prompt.
    pub fn matmul_mxfp4_native_prepacked_prefill_device(
        &self,
        linear: &DeviceNvfp4Linear,
        vector_bytes: Result<usize, AegisError>,
        input_mxfp4: &DeviceBuffer<u8>,
        tokens: usize,
        output: &DeviceBuffer<F32>,
    ) -> (plan: Result<Plan, AegisError>)
        ensures
            Plan::outcome(plan) == native_batched_steps(
                linear,
                vector_bytes,
                input_mxfp4,
                tokens,
                output,
                Operand::NativeWeights,
                Scalar::OutputScale,
                Operand::Output,
            ),
    {
        self.matvec_mxfp4_native_prepacked_batched_device(
            linear,
            vector_bytes,
            input_mxfp4,
            tokens,
            output,
        )
    }

    /// Computes queries, keys and values of `batch` packed vectors: one product after
    /// the other for a single vector, in one launch otherwise. `vector_bytes` is what a
    /// vector takes in packed form, for the width of each layer.
    pub fn matmul_mxfp4_native_qkv_prefill_device(
        &self,
        q_proj: &DeviceNvfp4Linear,
        k_proj: &DeviceNvfp4Linear,
        v_proj: &DeviceNvfp4Linear,
        vector_bytes: (
            Result<usize, AegisError>,
            Result<usize, AegisError>,
            Result<usize, AegisError>,
        ),
        input_mxfp4: &DeviceBuffer<u8>,
        batch: usize,
        q_output: &DeviceBuffer<F32>,
        k_output: &DeviceBuffer<F32>,
        v_output: &DeviceBuffer<F32>,
    ) -> (plan: Result<Plan, AegisError>)
        ensures
            Plan::outcome(plan) == qkv_prefill_steps(
                q_proj,
                k_proj,
                v_proj,
                vector_bytes,
                input_mxfp4,
                batch,
                q_output,
                k_output,
                v_output,
            ),
    {
        if batch == 1 {
            let q = self.native_batched_into(
                q_proj,
                vector_bytes.0,
                input_mxfp4,
                batch,
                q_output,
                Operand::QNative,
                Scalar::QOutputScale,
                Operand::QOutput,
            )?;
            let v = self.native_batched_into(
                v_proj,
                vector_bytes.2,
                input_mxfp4,
                batch,
                v_output,
                Operand::VNative,
                Scalar::VOutputScale,
                Operand::VOutput,
            );
            let rest = match self.native_batched_into(
                k_proj,
                vector_bytes.1,
                input_mxfp4,
                batch,
                k_output,
                Operand::KNative,
                Scalar::KOutputScale,
                Operand::KOutput,
            ) {
                Ok(k) => Ok(k.then_outcome(v)),
                Err(error) => Err(error),
            };
            return Ok(q.then_outcome(rest));
        }
        self.grouped_qkv(
            q_proj,
            k_proj,
            v_proj,
            vector_bytes.0,
            input_mxfp4,
            batch,
            q_output,
            k_output,
            v_output,
        )
    }

    /// Computes gate and up projections of `batch` packed vectors: one product after the
    /// other for a single vector, in one launch otherwise. `vector_bytes` is what a
    /// vector takes in packed form, for the width of each layer.
    pub fn matmul_mxfp4_native_gate_up_prefill_device(
        &self,
        gate_proj: &DeviceNvfp4Linear,
        up_proj: &DeviceNvfp4Linear,
        vector_bytes: (Result<usize, AegisError>, Result<usize, AegisError>),
        input_mxfp4: &DeviceBuffer<u8>,
        batch: usize,
        gate_output: &DeviceBuffer<F32>,
        up_output: &DeviceBuffer<F32>,
    ) -> (plan: Result<Plan, AegisError>)
        ensures
            Plan::outcome(plan) == gate_up_prefill_steps(
                gate_proj,
                up_proj,
                vector_bytes,
                input_mxfp4,
                batch,
                gate_output,
                up_output,
            ),
    {
        if batch == 1 {
            let gate = self.native_batched_into(
                gate_proj,
                vector_bytes.0,
                input_mxfp4,
                batch,
                gate_output,
                Operand::GateNative,
                Scalar::GateOutputScale,
                Operand::GateOutput,
            )?;
            let up = self.native_batched_into(
                up_proj,
                vector_bytes.1,
                input_mxfp4,
                batch,
                up_output,
                Operand::UpNative,
                Scalar::UpOutputScale,
                Operand::UpOutput,
            );
            return Ok(gate.then_outcome(up));
        }
        self.grouped_gate_up(
            gate_proj,
            up_proj,
            vector_bytes.0,
            input_mxfp4,
            batch,
            gate_output,
            up_output,
        )
    }

    /// Whether a layer is computed with the native tensor-core kernels.
    pub fn native_mxfp4_inference_enabled_for(&self, linear: &DeviceNvfp4Linear) -> (yes: bool)
        ensures
            yes == (linear.kernel_family == KernelFamily::CudaNativeFp4TensorCores
                && linear.native_mxfp4 is Some && self.config.native_mxfp4_inference),
    {
        linear.kernel_family == KernelFamily::CudaNativeFp4TensorCores
            && linear.native_mxfp4.is_some() && self.config.native_mxfp4_inference
    }

    /// Stages packed weights, and multiplies one quantized vector by them.
    pub fn matvec_nvfp4_staged_prequantized_device(
        &self,
        linear: &DeviceNvfp4Linear,
    ) -> (plan: Result<Plan, AegisError>)
        ensures
            Plan::outcome(plan) =~~= staged_steps(
                linear,
                "staged matvec called on non-host-resident linear `{}`",
                staged_prequantized_steps(linear.rows, linear.cols),
            ),
    {
        if linear.host_weights.is_none() {
            return Err(
                invalid_plan(
                    "staged matvec called on non-host-resident linear `{}`",
                    Values::One(Value::Name(linear.name.clone())),
                ),
            );
        }
        let stage = Plan::of(
            Step::StageWeights {
                packed_bytes: linear.packed_bytes,
                scale_bytes: linear.scale_bytes,
            },
        );
        Ok(
            stage.followed_by(
                mark(self.launch_nvfp4_prequantized_views(linear.rows, linear.cols)),
            ),
        )
    }

    /// Stages packed weights, and multiplies `batch` quantized vectors by them.
    pub fn matvec_nvfp4_staged_prequantized_batched_device(
        &self,
        linear: &DeviceNvfp4Linear,
        batch: usize,
        wmma_disabled: bool,
    ) -> (plan: Result<Plan, AegisError>)
        requires
            batch + 15 <= usize::MAX,
        ensures
            Plan::outcome(plan) =~~= staged_steps(
                linear,
                "staged batched matvec called on non-host-resident linear `{}`",
                staged_prequantized_batched_steps(linear.rows, linear.cols, batch, wmma_disabled),
            ),
    {
        if linear.host_weights.is_none() {
            return Err(
                invalid_plan(
                    "staged batched matvec called on non-host-resident linear `{}`",
                    Values::One(Value::Name(linear.name.clone())),
                ),
            );
        }
        let stage = Plan::of(
            Step::StageWeights {
                packed_bytes: linear.packed_bytes,
                scale_bytes: linear.scale_bytes,
            },
        );
        Ok(
            stage.followed_by(
                mark(
                    self.launch_nvfp4_prequantized_batched_views(
                        linear.rows,
                        linear.cols,
                        batch,
                        wmma_disabled,
                    ),
                ),
            ),
        )
    }

    /// Stages repacked weights, and multiplies `batch` packed vectors by them.
    fn staged_native(
        &self,
        linear: &DeviceNvfp4Linear,
        refusal: &'static str,
        no_data: &'static str,
        batch: usize,
    ) -> (plan: Result<Plan, AegisError>)
        ensures
            Plan::outcome(plan) =~~= staged_native_steps(linear, refusal, no_data, batch),
    {
        let weights = match &linear.host_weights {
            Some(weights) => weights,
            None => {
                return Err(
                    invalid_plan(refusal, Values::One(Value::Name(linear.name.clone()))),
                );
            },
        };
        let native = match &weights.native_mxfp4 {
            Some(native) => native,
            None => {
                return Err(
                    invalid_plan(no_data, Values::One(Value::Name(linear.name.clone()))),
                );
            },
        };
        let stage = Plan::of(
            Step::StageWeights {
                packed_bytes: linear.packed_bytes,
                scale_bytes: linear.scale_bytes,
            },
        ).followed_by(Plan::of(Step::StageNative { native_bytes: native.data.len() }));
        assert(stage@ =~= seq![
            StepView::StageWeights {
                packed_bytes: linear.packed_bytes,
                scale_bytes: linear.scale_bytes,
            },
            StepView::StageNative { native_bytes: native.data.len() },
        ]);
        let plan = stage.followed_by(
            mark(
                self.launch_native_mxfp4_batched_views(
                    linear.rows,
                    linear.cols,
                    native.blocks_per_row,
                    batch,
                ),
            ),
        );
        Ok(plan)
    }

    /// Stages repacked weights, and multiplies one packed vector by them.
    pub fn matvec_native_mxfp4_staged_device(
        &self,
        linear: &DeviceNvfp4Linear,
    ) -> (plan: Result<Plan, AegisError>)
        ensures
            Plan::outcome(plan) == staged_native_steps(
                linear,
                "staged native mxfp4 matvec on non-host-resident linear `{}`",
                "staged native mxfp4 matvec: no repacked data for `{}`; set native_mxfp4_repack=true",
                1,
            ),
    {
        self.staged_native(
            linear,
            "staged native mxfp4 matvec on non-host-resident linear `{}`",
            "staged native mxfp4 matvec: no repacked data for `{}`; set native_mxfp4_repack=true",
            1,
        )
    }

    /// Stages repacked weights, and multiplies `batch` packed vectors by them.
    pub fn matvec_native_mxfp4_staged_batched_device(
        &self,
        linear: &DeviceNvfp4Linear,
        batch: usize,
    ) -> (plan: Result<Plan, AegisError>)
        ensures
            Plan::outcome(plan) == staged_native_steps(
                linear,
                "staged native mxfp4 batched matvec on non-host-resident linear `{}`",
                "staged native mxfp4 batched matvec: no repacked data for `{}`; set native_mxfp4_repack=true",
                batch,
            ),
    {
        self.staged_native(
            linear,
            "staged native mxfp4 batched matvec on non-host-resident linear `{}`",
            "staged native mxfp4 batched matvec: no repacked data for `{}`; set native_mxfp4_repack=true",
            batch,
        )
    }
}

/// The bits of the single-precision number that a BF16 number widens to: the same bits,
/// followed by zeros.
pub open spec fn widened(bits: u16) -> u32 {
    (bits as u32) << 16
}

/// The bits of the single-precision number that a BF16 number widens to.
pub fn widen_bf16(bits: u16) -> (wide: u32)
    ensures
        wide == widened(bits),
{
    (bits as u32) << 16
}

/// Widening keeps every bit of a BF16 number.
pub proof fn widening_is_lossless(bits: u16)
    ensures
        (widened(bits) >> 16) as u16 == bits,
        widened(bits) & 0xffff == 0,
{
    let wide = widened(bits);
    assert((((bits as u32) << 16) >> 16) as u16 == bits) by (bit_vector);
    assert(((bits as u32) << 16) & 0xffff == 0) by (bit_vector);
}

/// The position of the first row number that is not a row, or the number of row numbers.
pub open spec fn first_stray(indices: Seq<u32>, rows: int) -> nat
    decreases indices.len(),
{
    if indices.len() == 0 || indices[0] >= rows {
        0
    } else {
        1 + first_stray(indices.drop_first(), rows)
    }
}

/// The named rows of a matrix, widened, one after the other.
pub open spec fn gathered(values: Seq<u16>, cols: int, indices: Seq<u32>) -> Seq<u32>
    decreases indices.len(),
{
    if indices.len() == 0 {
        Seq::empty()
    } else {
        gathered(values, cols, indices.drop_last()) + Seq::new(
            cols as nat,
            |c: int| widened(values[indices.last() * cols + c]),
        )
    }
}

proof fn lemma_first_stray(indices: Seq<u32>, rows: int)
    ensures
        first_stray(indices, rows) <= indices.len(),
        forall|i: int| 0 <= i < first_stray(indices, rows) ==> indices[i] < rows,
        first_stray(indices, rows) < indices.len() ==> indices[first_stray(indices, rows) as int]
            >= rows,
    decreases indices.len(),
{
    if indices.len() > 0 && indices[0] < rows {
        let rest = indices.drop_first();
        lemma_first_stray(rest, rows);
        assert forall|i: int| 0 <= i < first_stray(indices, rows) implies indices[i] < rows by {
            if i > 0 {
                assert(rest[i - 1] == indices[i]);
            }
        }
    }
}

/// What is gathered at a place is the widened value of that column in the row that was
/// named there.
pub proof fn gathered_at(values: Seq<u16>, cols: int, indices: Seq<u32>, i: int, c: int)
    requires
        0 <= i < indices.len(),
        0 <= c < cols,
    ensures
        gathered(values, cols, indices).len() == indices.len() * cols,
        gathered(values, cols, indices)[i * cols + c] == widened(values[indices[i] * cols + c]),
    decreases indices.len(),
{
    let before = indices.drop_last();
    lemma_gathered_len(values, cols, indices);
    lemma_gathered_len(values, cols, before);
    lemma_row_range(i, indices.len() as int, cols);
    if i < before.len() {
        gathered_at(values, cols, before, i, c);
        lemma_row_range(i, before.len() as int, cols);
    }
}

proof fn lemma_gathered_len(values: Seq<u16>, cols: int, indices: Seq<u32>)
    requires
        0 <= cols,
    ensures
        gathered(values, cols, indices).len() == indices.len() * cols,
    decreases indices.len(),
{
    if indices.len() > 0 {
        lemma_gathered_len(values, cols, indices.drop_last());
        assert((indices.len() - 1) * cols + cols == indices.len() * cols) by (nonlinear_arith);
    } else {
        assert(0 * cols == 0);
    }
}

/// Gathers rows of a BF16 matrix in host memory as the bits of single-precision numbers.
/// The first row number that is out of bounds is reported.
pub fn gather_bf16_rows(
    values: &[u16],
    rows: usize,
    cols: usize,
    indices: &[u32],
) -> (bits: Result<Vec<u32>, AegisError>)
    requires
        rows * cols <= values.len(),
    ensures
        match bits {
            Ok(bits) => first_stray(indices@, rows as int) == indices.len() && bits@ == gathered(
                values@,
                cols as int,
                indices@,
            ),
            Err(error) => first_stray(indices@, rows as int) < indices.len() && error
                == AegisError::invalid_with(
                "bf16 row index out of bounds: idx={} rows={}",
                Values::Two(
                    Value::num(indices[first_stray(indices@, rows as int) as int] as int),
                    Value::num(rows as int),
                ),
            ),
        },
{
    let mut bits: Vec<u32> = Vec::new();
    let mut i: usize = 0;
    proof {
        lemma_first_stray(indices@, rows as int);
    }
    while i < indices.len()
        invariant
            rows * cols <= values.len(),
            i <= indices.len(),
            i <= first_stray(indices@, rows as int) <= indices.len(),
            first_stray(indices@, rows as int) < indices.len() ==> indices[first_stray(
                indices@,
                rows as int,
            ) as int] >= rows,
            forall|j: int| 0 <= j < first_stray(indices@, rows as int) ==> indices[j] < rows,
            bits@ == gathered(values@, cols as int, indices@.take(i as int)),
        decreases indices.len() - i,
    {
        let row: u32 = indices[i];
        if row as u64 >= rows as u64 {
            return Err(
                invalid_plan(
                    "bf16 row index out of bounds: idx={} rows={}",
                    Values::Two(Value::Number(row as u64), number(rows)),
                ),
            );
        }
        proof {
            lemma_row_range(row as int, rows as int, cols as int);
        }
        let base: usize = row as usize * cols;
        let ghost before = bits@;
        let mut c: usize = 0;
        while c < cols
            invariant
                rows * cols <= values.len(),
                base == row * cols,
                base + cols <= rows * cols,
                c <= cols,
                bits@ == before + Seq::new(c as nat, |k: int| widened(values@[row * cols + k])),
            decreases cols - c,
        {
            bits.push(widen_bf16(values[base + c]));
            c += 1;
            assert(bits@ =~= before + Seq::new(
                c as nat,
                |k: int| widened(values@[row * cols + k]),
            ));
        }
        proof {
            let taken = indices@.take(i + 1);
            assert(taken.drop_last() =~= indices@.take(i as int));
            assert(taken.last() == row);
            assert(bits@ =~= gathered(values@, cols as int, taken));
        }
        i += 1;
    }
    assert(indices@.take(i as int) =~= indices@);
    Ok(bits)
}

} // verus!
