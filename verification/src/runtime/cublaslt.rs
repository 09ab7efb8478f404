//! BF16 matrix products through cuBLASLt.
use crate::error::{invalid_plan, number, AegisError, Message, Value, Values};
use crate::launch::{GemmCall, GemmShape, Operand, Plan, Region, Step, StepView};
use crate::runtime::linear;
use crate::runtime::CudaRuntime;
use crate::types::{DeviceBf16Matrix, DeviceBuffer, StandaloneFp8Linear, F32};
use vstd::prelude::*;

verus! {

/// The shape of `output = input * weights^T` on row-major matrices, as column-major
/// matrices have it: the weights are transposed and come first.
pub open spec fn row_major_shape(rows: usize, cols: usize, batch: usize) -> GemmShape {
    GemmShape {
        transa: true,
        transb: false,
        m: rows as u64,
        n: batch as u64,
        k: cols as u64,
        lda: cols as i64,
        ldb: cols as i64,
        ldc: rows as i64,
    }
}

/// Converts the input to BF16, multiplies it by the weights, and converts the product
/// back.
pub open spec fn product_steps(
    rows: usize,
    cols: usize,
    batch: usize,
    weights: Operand,
    weight_len: usize,
    in_len: usize,
    out_len: usize,
    failure: &'static str,
    name: String,
) -> Seq<StepView> {
    seq![
        StepView::ConvertToBf16 {
            input: Operand::Input,
            len: in_len,
            output: Operand::InputBf16,
        },
        StepView::Gemm(
            GemmCall {
                shape: row_major_shape(rows, cols, batch),
                weights: Region { operand: weights, start: 0, end: weight_len },
                input: Region { operand: Operand::InputBf16, start: 0, end: in_len },
                output: Region { operand: Operand::OutputBf16, start: 0, end: out_len },
                failure: Message {
                    text: failure,
                    values: Values::Four(
                        Value::Name(name),
                        Value::num(rows as int),
                        Value::num(batch as int),
                        Value::num(cols as int),
                    ),
                },
            },
        ),
        StepView::ConvertFromBf16 {
            input: Operand::OutputBf16,
            len: out_len,
            output: Operand::Output,
        },
    ]
}

fn product(
    rows: usize,
    cols: usize,
    batch: usize,
    weights: Operand,
    weight_len: usize,
    in_len: usize,
    out_len: usize,
    failure: &'static str,
    name: String,
) -> (plan: Plan)
    ensures
        plan@ == product_steps(
            rows,
            cols,
            batch,
            weights,
            weight_len,
            in_len,
            out_len,
            failure,
            name,
        ),
{
    let steps = vec![
        Step::ConvertToBf16 { input: Operand::Input, len: in_len, output: Operand::InputBf16 },
        Step::Gemm(
            GemmCall {
                shape: GemmShape {
                    transa: true,
                    transb: false,
                    m: rows as u64,
                    n: batch as u64,
                    k: cols as u64,
                    lda: cols as i64,
                    ldb: cols as i64,
                    ldc: rows as i64,
                },
                weights: Region { operand: weights, start: 0, end: weight_len },
                input: Region { operand: Operand::InputBf16, start: 0, end: in_len },
                output: Region { operand: Operand::OutputBf16, start: 0, end: out_len },
                failure: Message {
                    text: failure,
                    values: Values::Four(
                        Value::Name(name),
                        number(rows),
                        number(batch),
                        number(cols),
                    ),
                },
            },
        ),
        Step::ConvertFromBf16 {
            input: Operand::OutputBf16,
            len: out_len,
            output: Operand::Output,
        },
    ];
    let plan = Plan { steps };
    assert(plan@ =~= product_steps(
        rows,
        cols,
        batch,
        weights,
        weight_len,
        in_len,
        out_len,
        failure,
        name,
    ));
    plan
}

/// The steps of [`CudaRuntime::matmul_bf16_cublaslt_device`].
pub open spec fn bf16_cublaslt_steps(
    weight: &DeviceBf16Matrix,
    input: &DeviceBuffer<F32>,
    batch: usize,
    input_bf16: &DeviceBuffer<u16>,
    output_bf16: &DeviceBuffer<u16>,
    output: &DeviceBuffer<F32>,
) -> Result<Seq<StepView>, AegisError> {
    let in_len = batch * weight.cols;
    let out_len = batch * weight.rows;
    if weight.is_host_resident() {
        Err(AegisError::invalid_with(
                "cuBLASLt BF16 GEMM requires VRAM-resident weight matrix `{}`; host-resident weights must use the CPU rayon path",
                Values::One(Value::Name(weight.name)),
            ))
    } else if in_len > usize::MAX {
        Err(AegisError::invalid("cublaslt bf16 input len overflow"))
    } else if out_len > usize::MAX {
        Err(AegisError::invalid("cublaslt bf16 output len overflow"))
    } else if input.len() < in_len {
        Err(AegisError::invalid_with(
                "cuBLASLt BF16 input shape: input={} need batch*cols={}*{}={}",
                Values::Four(
                    Value::num(input.len() as int),
                    Value::num(batch as int),
                    Value::num(weight.cols as int),
                    Value::num(in_len as int),
                ),
            ))
    } else if input_bf16.len() < in_len || output_bf16.len() < out_len {
        Err(AegisError::invalid_with(
                "cuBLASLt BF16 scratch too small: input_bf16={} need {}, output_bf16={} need {}",
                Values::Four(
                    Value::num(input_bf16.len() as int),
                    Value::num(in_len as int),
                    Value::num(output_bf16.len() as int),
                    Value::num(out_len as int),
                ),
            ))
    } else if output.len() < out_len {
        Err(AegisError::invalid_with(
                "cuBLASLt BF16 output shape: output={} need batch*rows={}*{}={}",
                Values::Four(
                    Value::num(output.len() as int),
                    Value::num(batch as int),
                    Value::num(weight.rows as int),
                    Value::num(out_len as int),
                ),
            ))
    } else {
        Ok(
            product_steps(
                weight.rows,
                weight.cols,
                batch,
                Operand::MatrixValues,
                weight.values.len(),
                in_len as usize,
                out_len as usize,
                "cuBLASLt BF16 matmul failed for `{}` (m={} n={} k={}): {}",
                weight.name,
            ),
        )
    }
}

/// The steps of [`CudaRuntime::matmul_fp8_via_bf16_cublaslt_device`].
pub open spec fn fp8_cublaslt_steps(
    weight: &StandaloneFp8Linear,
    weight_dequant_scratch: &DeviceBuffer<u16>,
    input: &DeviceBuffer<F32>,
    batch: usize,
    input_bf16: &DeviceBuffer<u16>,
    output_bf16: &DeviceBuffer<u16>,
    output: &DeviceBuffer<F32>,
) -> Result<Seq<StepView>, AegisError> {
    let weight_elems = weight.rows * weight.cols;
    let in_len = batch * weight.cols;
    let out_len = batch * weight.rows;
    let expand = linear::dequant_fp8_steps(weight, weight_dequant_scratch)->Ok_0;
    if weight_elems > usize::MAX {
        Err(AegisError::invalid("fp8 dequant weight elem overflow"))
    } else if weight_dequant_scratch.len() < weight_elems {
        Err(AegisError::invalid_with(
                "fp8 cublaslt scratch too small for `{}`: have {} need {}",
                Values::Three(
                    Value::Name(weight.name),
                    Value::num(weight_dequant_scratch.len() as int),
                    Value::num(weight_elems as int),
                ),
            ))
    } else if in_len > usize::MAX {
        Err(AegisError::invalid("fp8 cublaslt input len overflow"))
    } else if out_len > usize::MAX {
        Err(AegisError::invalid("fp8 cublaslt output len overflow"))
    } else if input.len() < in_len || input_bf16.len() < in_len || output_bf16.len() < out_len || output.len() < out_len {
        Err(AegisError::invalid_with(
                "fp8 cublaslt shape mismatch for `{}`: input={}/{} input_bf16={}/{} output_bf16={}/{} output={}/{}",
                Values::Nine(
                    Value::Name(weight.name),
                    Value::num(input.len() as int),
                    Value::num(in_len as int),
                    Value::num(input_bf16.len() as int),
                    Value::num(in_len as int),
                    Value::num(output_bf16.len() as int),
                    Value::num(out_len as int),
                    Value::num(output.len() as int),
                    Value::num(out_len as int),
                ),
            ))
    } else if linear::dequant_fp8_steps(weight, weight_dequant_scratch) is Err {
        Err(linear::dequant_fp8_steps(weight, weight_dequant_scratch)->Err_0)
    } else {
        Ok(
            expand + product_steps(
                weight.rows,
                weight.cols,
                batch,
                Operand::Bf16,
                weight_elems as usize,
                in_len as usize,
                out_len as usize,
                "fp8-dequant cuBLASLt BF16 matmul failed for `{}` (m={} n={} k={}): {}",
                weight.name,
            ),
        )
    }
}

impl CudaRuntime {
    /// Whether a matrix can be multiplied through cuBLASLt: it is in device memory.
    pub fn cublaslt_bf16_enabled_for(&self, matrix: &DeviceBf16Matrix) -> (yes: bool)
        ensures
            yes == !matrix.is_host_resident(),
    {
        !matrix.is_host_resident()
    }

    /// Multiplies `batch` vectors by a BF16 matrix in device memory: converts them to BF16,
    /// multiplies, and converts the product back.
    pub fn matmul_bf16_cublaslt_device(
        &self,
        weight: &DeviceBf16Matrix,
        input: &DeviceBuffer<F32>,
        batch: usize,
        input_bf16: &DeviceBuffer<u16>,
        output_bf16: &DeviceBuffer<u16>,
        output: &DeviceBuffer<F32>,
    ) -> (plan: Result<Plan, AegisError>)
        ensures
            Plan::outcome(plan) =~~= bf16_cublaslt_steps(
                weight,
                input,
                batch,
                input_bf16,
                output_bf16,
                output,
            ),
    {
        if weight.is_host_resident() {
            return Err(invalid_plan(
                "cuBLASLt BF16 GEMM requires VRAM-resident weight matrix `{}`; host-resident weights must use the CPU rayon path",
                Values::One(Value::Name(weight.name.clone())),
            ));
        }
        if batch.checked_mul(weight.cols).is_none() {
            return Err(invalid_plan("cublaslt bf16 input len overflow", Values::Zero));
        }
        let in_len: usize = batch * weight.cols;
        if batch.checked_mul(weight.rows).is_none() {
            return Err(invalid_plan("cublaslt bf16 output len overflow", Values::Zero));
        }
        let out_len: usize = batch * weight.rows;
        if input.len() < in_len {
            return Err(invalid_plan(
                "cuBLASLt BF16 input shape: input={} need batch*cols={}*{}={}",
                Values::Four(
                    number(input.len()),
                    number(batch),
                    number(weight.cols),
                    number(in_len),
                ),
            ));
        }
        if input_bf16.len() < in_len || output_bf16.len() < out_len {
            return Err(invalid_plan(
                "cuBLASLt BF16 scratch too small: input_bf16={} need {}, output_bf16={} need {}",
                Values::Four(
                    number(input_bf16.len()),
                    number(in_len),
                    number(output_bf16.len()),
                    number(out_len),
                ),
            ));
        }
        if output.len() < out_len {
            return Err(invalid_plan(
                "cuBLASLt BF16 output shape: output={} need batch*rows={}*{}={}",
                Values::Four(
                    number(output.len()),
                    number(batch),
                    number(weight.rows),
                    number(out_len),
                ),
            ));
        }
        Ok(
            product(
                weight.rows,
                weight.cols,
                batch,
                Operand::MatrixValues,
                weight.values.len(),
                in_len,
                out_len,
                "cuBLASLt BF16 matmul failed for `{}` (m={} n={} k={}): {}",
                weight.name.clone(),
            ),
        )
    }

    /// Multiplies `batch` vectors by an FP8 matrix, expanded to BF16 first.
    pub fn matmul_fp8_via_bf16_cublaslt_device(
        &self,
        weight: &StandaloneFp8Linear,
        weight_dequant_scratch: &DeviceBuffer<u16>,
        input: &DeviceBuffer<F32>,
        batch: usize,
        input_bf16: &DeviceBuffer<u16>,
        output_bf16: &DeviceBuffer<u16>,
        output: &DeviceBuffer<F32>,
    ) -> (plan: Result<Plan, AegisError>)
        ensures
            Plan::outcome(plan) =~~= fp8_cublaslt_steps(
                weight,
                weight_dequant_scratch,
                input,
                batch,
                input_bf16,
                output_bf16,
                output,
            ),
    {
        if weight.rows.checked_mul(weight.cols).is_none() {
            return Err(invalid_plan("fp8 dequant weight elem overflow", Values::Zero));
        }
        let weight_elems: usize = weight.rows * weight.cols;
        if weight_dequant_scratch.len() < weight_elems {
            return Err(invalid_plan(
                "fp8 cublaslt scratch too small for `{}`: have {} need {}",
                Values::Three(
                    Value::Name(weight.name.clone()),
                    number(weight_dequant_scratch.len()),
                    number(weight_elems),
                ),
            ));
        }
        if batch.checked_mul(weight.cols).is_none() {
            return Err(invalid_plan("fp8 cublaslt input len overflow", Values::Zero));
        }
        let in_len: usize = batch * weight.cols;
        if batch.checked_mul(weight.rows).is_none() {
            return Err(invalid_plan("fp8 cublaslt output len overflow", Values::Zero));
        }
        let out_len: usize = batch * weight.rows;
        if input.len() < in_len || input_bf16.len() < in_len || output_bf16.len() < out_len || output.len() < out_len {
            return Err(invalid_plan(
                "fp8 cublaslt shape mismatch for `{}`: input={}/{} input_bf16={}/{} output_bf16={}/{} output={}/{}",
                Values::Nine(
                    Value::Name(weight.name.clone()),
                    number(input.len()),
                    number(in_len),
                    number(input_bf16.len()),
                    number(in_len),
                    number(output_bf16.len()),
                    number(out_len),
                    number(output.len()),
                    number(out_len),
                ),
            ));
        }
        let expand: Plan = self.dequant_fp8_to_bf16_device(weight, weight_dequant_scratch)?;
        Ok(
            expand.followed_by(
                product(
                    weight.rows,
                    weight.cols,
                    batch,
                    Operand::Bf16,
                    weight_elems,
                    in_len,
                    out_len,
                    "fp8-dequant cuBLASLt BF16 matmul failed for `{}` (m={} n={} k={}): {}",
                    weight.name.clone(),
                ),
            ),
        )
    }
}

} // verus!
