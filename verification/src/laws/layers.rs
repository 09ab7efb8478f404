//! What products with the weights of a layer compute: every row of weights meets every
//! vector, with the scales that belong to them, and every number lies within its buffer.
use crate::error::AegisError;
use crate::functions::Kernel;
use crate::kernels::{self, MatrixProduct};
use crate::launch::{Arg, LaunchView, Operand, Scalar, StepView};
use crate::runtime;
use crate::runtime::linear;
use crate::types::{
    DeviceBf16Matrix, DeviceBuffer, DeviceNvfp4Linear, StandaloneFp8Linear, F32,
};
use vstd::prelude::*;

verus! {

/// The launch computes this product, with blocks for every row and every vector.
pub open spec fn multiplies(launch: LaunchView, product: MatrixProduct) -> bool {
    let tile = kernels::product_tile(launch.kernel);
    &&& kernels::matrix_product(launch) == product
    &&& launch.args.len() == kernels::product_arity(launch.kernel)
    &&& kernels::tiled(launch.config.grid_dim.0 as int, tile.0, product.rows)
    &&& kernels::tiled(launch.config.grid_dim.1 as int, tile.1, product.batch)
    &&& launch.config.grid_dim.2 == 1
    &&& launch.config.block_dim == (kernels::product_threads(launch.kernel) as u32, 1u32, 1u32)
    &&& launch.config.shared_mem_bytes == kernels::product_shared(launch.kernel, product.cols)
}

/// The plan is the launch of one product.
pub open spec fn one_product(steps: Seq<StepView>, product: MatrixProduct) -> bool {
    &&& steps.len() == 1
    &&& steps[0] matches StepView::Launch(launch)
    &&& multiplies(launch, product)
}

/// The product with the weights of an FP8 layer.
pub open spec fn fp8_product(linear: StandaloneFp8Linear, batch: int) -> MatrixProduct {
    MatrixProduct {
        weights: Arg::Buffer(Operand::Fp8Data),
        weight_scales: Arg::Buffer(Operand::Fp8RowScales),
        input: Arg::Buffer(Operand::Input),
        rows: linear.rows as int,
        cols: linear.cols as int,
        batch,
        blocks_per_row: -1,
        input_scale: Arg::Null,
        output_scale: Arg::Null,
        output: Arg::Buffer(Operand::Output),
    }
}

/// Products with FP8 weights take the whole layer, one vector or many.
pub proof fn fp8_layers_multiply(
    linear: &StandaloneFp8Linear,
    input: &DeviceBuffer<F32>,
    batch: usize,
    output: &DeviceBuffer<F32>,
)
    ensures
        linear::matvec_fp8_steps(linear, input, output) matches Ok(steps) ==> {
            &&& one_product(steps, fp8_product(*linear, 1))
            &&& steps[0]->Launch_0.kernel is Fp8Matvec
            &&& linear.cols <= input.len() && linear.rows <= output.len()
        },
        linear::matvec_fp8_steps(linear, input, output) is Ok <==> linear.cols <= input.len()
            && linear.rows <= output.len() && linear.rows <= u32::MAX && linear.cols <= u32::MAX,
        linear::matmul_fp8_steps(linear, input, batch, output) matches Ok(steps) ==> {
            &&& one_product(steps, fp8_product(*linear, batch as int))
            &&& steps[0]->Launch_0.kernel is Fp8MatmulBatched
            &&& batch * linear.cols <= input.len() && batch * linear.rows <= output.len()
        },
        linear::matmul_fp8_steps(linear, input, batch, output) is Ok <==> batch * linear.cols
            <= input.len() && batch * linear.rows <= output.len() && linear.rows <= u32::MAX
            && linear.cols <= u32::MAX && batch <= u32::MAX,
{
    lemma_product_tiles(linear.rows as int, batch as int);
    lemma_product_tiles(linear.rows as int, 1);
}

/// Weights are quantized row by row, and expanded number by number, with the scales of their
/// rows; all of them, within their buffers.
pub proof fn fp8_weights_convert_whole(
    linear: &StandaloneFp8Linear,
    bf16: &DeviceBuffer<u16>,
    rows: usize,
    cols: usize,
    fp8_out: &DeviceBuffer<u8>,
    row_scales_out: &DeviceBuffer<F32>,
)
    ensures
        linear::quantize_fp8_steps(bf16, rows, cols, fp8_out, row_scales_out) matches Ok(steps)
            ==> {
            &&& steps.len() == 1
            &&& steps[0] matches StepView::Launch(launch)
            &&& launch.kernel is Fp8QuantizeBf16PerRow
            &&& launch.args.len() == 5
            &&& launch.args[0] == Arg::Buffer(Operand::Bf16)
            &&& launch.args[1] == Arg::Buffer(Operand::Fp8Out)
            &&& launch.args[2] == Arg::Buffer(Operand::RowScalesOut)
            &&& kernels::number(launch.args[3]) == rows
            &&& kernels::number(launch.args[4]) == cols
            &&& rows * cols <= bf16.len() && rows * cols <= fp8_out.len()
            &&& rows <= row_scales_out.len()
            &&& launch.config.grid_dim == (rows as u32, 1u32, 1u32)
            &&& launch.config.block_dim == (256u32, 1u32, 1u32)
            &&& launch.config.shared_mem_bytes == 4 * 256
        },
        linear::dequant_fp8_steps(linear, bf16) matches Ok(steps) ==> {
            &&& steps.len() == 1
            &&& steps[0] matches StepView::Launch(launch)
            &&& launch.kernel is Fp8DequantToBf16
            &&& launch.args.len() == 5
            &&& launch.args[0] == Arg::Buffer(Operand::Fp8Data)
            &&& launch.args[1] == Arg::Buffer(Operand::Fp8RowScales)
            &&& launch.args[2] == Arg::Buffer(Operand::Bf16)
            &&& kernels::number(launch.args[3]) == linear.rows
            &&& kernels::number(launch.args[4]) == linear.cols
            &&& linear.rows * linear.cols <= bf16.len()
            &&& launch.config.grid_dim.0 == linear.rows
            &&& kernels::tiled(launch.config.grid_dim.1 as int, 256, linear.cols as int)
            &&& launch.config.grid_dim.2 == 1
            &&& launch.config.block_dim == (256u32, 1u32, 1u32)
            &&& launch.config.shared_mem_bytes == 0
        },
{
    super::prefill::lemma_tiled(linear.cols as int, 256);
    runtime::lemma_blocks(linear.cols as int, 256);
}

/// The product with a BF16 matrix.
pub open spec fn bf16_product(matrix: DeviceBf16Matrix, batch: int) -> MatrixProduct {
    MatrixProduct {
        weights: Arg::Buffer(Operand::MatrixValues),
        weight_scales: Arg::Null,
        input: Arg::Buffer(Operand::Input),
        rows: matrix.rows as int,
        cols: matrix.cols as int,
        batch,
        blocks_per_row: -1,
        input_scale: Arg::Null,
        output_scale: Arg::Null,
        output: Arg::Buffer(Operand::Output),
    }
}

/// Products with BF16 matrices: those in device memory are multiplied there, those in host
/// memory by the processor, row by row; many vectors are multiplied on the device only.
pub proof fn bf16_matrices_multiply(
    matrix: &DeviceBf16Matrix,
    input: &DeviceBuffer<F32>,
    batch: usize,
    output: &DeviceBuffer<F32>,
)
    requires
        matrix.rows <= u32::MAX,
        matrix.cols <= u32::MAX,
    ensures
        linear::matvec_bf16_reference_steps(matrix, input, output) matches Ok(steps) ==> {
            &&& matrix.cols <= input.len() && matrix.rows <= output.len()
            &&& matrix.host_values is None ==> one_product(steps, bf16_product(*matrix, 1))
                && steps[0]->Launch_0.kernel is Bf16Matvec
            &&& matrix.host_values is Some ==> steps.len() == 1 && (steps[0]
                matches StepView::HostMatvec { rows, cols, stage: _ } && rows == matrix.rows && cols
                == matrix.cols)
        },
        linear::matvec_bf16_reference_steps(matrix, input, output) is Ok <==> matrix.cols
            <= input.len() && matrix.rows <= output.len(),
        linear::matmul_bf16_steps(matrix, input, batch, output) matches Ok(steps) ==> {
            &&& matrix.host_values is None
            &&& one_product(steps, bf16_product(*matrix, batch as int))
            &&& steps[0]->Launch_0.kernel is Bf16MatmulReferenceBatched
            &&& batch * matrix.cols <= input.len() && batch * matrix.rows <= output.len()
        },
        linear::matmul_bf16_steps(matrix, input, batch, output) is Ok <==> matrix.host_values is None
            && batch * matrix.cols <= input.len() && batch * matrix.rows <= output.len() && batch
            <= u32::MAX,
{
    lemma_product_tiles(matrix.rows as int, batch as int);
    lemma_product_tiles(matrix.rows as int, 1);
}

/// A row of a matrix is read from its place, row after row of `cols` numbers; rows by their
/// indices are one output row for each index.
pub proof fn rows_are_read_from_their_place(
    matrix: &DeviceBf16Matrix,
    row: usize,
    indices: &DeviceBuffer<u32>,
    batch: usize,
    row_output: &DeviceBuffer<F32>,
    output: &DeviceBuffer<F32>,
)
    requires
        matrix.wf(),
        matrix.rows <= u32::MAX,
        matrix.cols <= u32::MAX,
    ensures
        linear::bf16_row_steps(matrix, row, row_output) is Ok <==> row < matrix.rows
            && row_output.len() == matrix.cols,
        linear::bf16_row_steps(matrix, row, row_output) matches Ok(steps) ==> {
            &&& steps.len() == 1
            &&& matrix.host_values matches Some(host) ==> (steps[0] matches StepView::UploadWidened {
                from,
                to,
                map: _,
                stage: _,
            } && from.operand == Operand::HostMatrix && from.start == row * matrix.cols
                && from.end == (row + 1) * matrix.cols && from.end <= host.values && to.operand
                == Operand::Output && to.start == 0 && to.end == matrix.cols)
            &&& matrix.host_values is None ==> (steps[0] matches StepView::Launch(launch) && {
                &&& launch.kernel is Bf16Row
                &&& launch.args.len() == 4
                &&& launch.args[0] == Arg::Buffer(Operand::MatrixValues)
                &&& kernels::number(launch.args[1]) == row
                &&& kernels::number(launch.args[2]) == matrix.cols
                &&& launch.args[3] == Arg::Buffer(Operand::Output)
                &&& kernels::tiled(launch.config.grid_dim.0 as int, 256, matrix.cols as int)
                &&& launch.config.grid_dim.1 == 1 && launch.config.grid_dim.2 == 1
                &&& launch.config.block_dim == (256u32, 1u32, 1u32)
                &&& launch.config.shared_mem_bytes == 0
            })
        },
        linear::bf16_rows_steps(matrix, indices, batch, output) matches Ok(steps) ==> {
            &&& steps.len() == 1
            &&& batch <= indices.len()
            &&& batch * matrix.cols <= output.len()
            &&& matrix.host_values is Some ==> (steps[0] matches StepView::GatherHostRows {
                rows,
                cols,
                batch: count,
                output_len,
                stage: _,
            } && rows == matrix.rows && cols == matrix.cols && count == batch && output_len == batch
                * matrix.cols)
            &&& matrix.host_values is None ==> (steps[0] matches StepView::Launch(launch) && {
                &&& launch.kernel is Bf16Rows
                &&& launch.args.len() == 6
                &&& launch.args[0] == Arg::Buffer(Operand::MatrixValues)
                &&& launch.args[1] == Arg::Buffer(Operand::RowIndices)
                &&& kernels::number(launch.args[2]) == batch
                &&& kernels::number(launch.args[3]) == matrix.rows
                &&& kernels::number(launch.args[4]) == matrix.cols
                &&& launch.args[5] == Arg::Buffer(Operand::Output)
                &&& kernels::tiled(launch.config.grid_dim.0 as int, 256, matrix.cols as int)
                &&& launch.config.grid_dim.1 == batch && launch.config.grid_dim.2 == 1
                &&& launch.config.block_dim == (256u32, 1u32, 1u32)
                &&& launch.config.shared_mem_bytes == 0
            })
        },
{
    super::prefill::lemma_tiled(matrix.cols as int, 256);
    runtime::lemma_blocks(matrix.cols as int, 256);
    let (rows, cols) = (matrix.rows as int, matrix.cols as int);
    assert((row + 1) * cols == row * cols + cols && 0 <= row * cols) by (nonlinear_arith)
        requires
            0 <= row,
            0 <= cols,
    ;
    if row < rows {
        assert((row + 1) * cols <= rows * cols) by (nonlinear_arith)
            requires
                row < rows,
                0 <= cols,
        ;
    }
    assert(0 <= batch * cols) by (nonlinear_arith)
        requires
            0 <= cols,
    ;
}

/// The product with four-bit weights, on the device or staged.
pub open spec fn nvfp4_product(
    linear: DeviceNvfp4Linear,
    staged: bool,
    input: Operand,
    quantized: bool,
    batch: int,
) -> MatrixProduct {
    MatrixProduct {
        weights: Arg::Buffer(
            if staged {
                Operand::StagedPacked
            } else {
                Operand::Packed
            },
        ),
        weight_scales: Arg::Buffer(
            if staged {
                Operand::StagedScales
            } else {
                Operand::Scales
            },
        ),
        input: Arg::Buffer(input),
        rows: linear.rows as int,
        cols: linear.cols as int,
        batch,
        blocks_per_row: -1,
        input_scale: if quantized {
            Arg::Null
        } else {
            Arg::Scalar(Scalar::InputScale)
        },
        output_scale: Arg::Scalar(Scalar::OutputScale),
        output: Arg::Buffer(Operand::Output),
    }
}

/// Which kernel multiplies `batch` quantized vectors: tensor cores for at least 32 of them
/// where rows and columns are whole tiles and they are not switched off, shared weights for
/// more than one, and one block each otherwise.
pub open spec fn prequantized_kernel(rows: int, cols: int, batch: int, off: bool) -> Kernel {
    if batch >= 32 && rows % 16 == 0 && cols % 16 == 0 && !off {
        Kernel::Nvfp4PrequantBatchedGemmWmmaBf16
    } else if batch >= 2 {
        Kernel::Nvfp4PrequantBatchedGemm
    } else {
        Kernel::Nvfp4PrequantBatched
    }
}

proof fn lemma_product_tiles(rows: int, batch: int)
    requires
        0 <= rows,
        0 <= batch,
    ensures
        rows % 16 == 0 ==> kernels::tiled(rows / 16, 16, rows),
        kernels::tiled((batch + 15) / 16, 16, batch),
        kernels::tiled((batch + 7) / 8, 8, batch),
        kernels::tiled(runtime::blocks(rows, 16), 16, rows),
        kernels::tiled(runtime::blocks(rows, 32), 32, rows),
        kernels::tiled(runtime::blocks(rows, 64), 64, rows),
        kernels::tiled(runtime::blocks(batch, 8), 8, batch),
        kernels::tiled(runtime::blocks(batch, 16), 16, batch),
        0 <= runtime::blocks(rows, 16) <= rows,
        0 <= runtime::blocks(rows, 32) <= rows,
        0 <= runtime::blocks(rows, 64) <= rows,
        0 <= runtime::blocks(batch, 8) <= batch,
        0 <= runtime::blocks(batch, 16) <= batch,
        kernels::tiled(rows, 1, rows),
        kernels::tiled(batch, 1, batch),
{
    super::prefill::lemma_tiled(rows, 16);
    super::prefill::lemma_tiled(rows, 32);
    super::prefill::lemma_tiled(rows, 64);
    super::prefill::lemma_tiled(batch, 8);
    super::prefill::lemma_tiled(batch, 16);
    runtime::lemma_blocks(rows, 16);
    runtime::lemma_blocks(rows, 32);
    runtime::lemma_blocks(rows, 64);
    runtime::lemma_blocks(batch, 8);
    runtime::lemma_blocks(batch, 16);
}

/// Products with four-bit weights in device memory: one vector, quantized or not, and many.
pub proof fn nvfp4_layers_multiply(
    linear: &DeviceNvfp4Linear,
    input: &DeviceBuffer<F32>,
    batch: usize,
    output: &DeviceBuffer<F32>,
    wmma_disabled: bool,
)
    requires
        linear.rows <= u32::MAX,
        linear.cols <= u32::MAX,
        batch <= u32::MAX,
    ensures
        linear::nvfp4_reference_steps(linear, input, output) matches Ok(steps) ==> {
            &&& one_product(steps, nvfp4_product(*linear, false, Operand::Input, false, 1))
            &&& steps[0]->Launch_0.kernel is Nvfp4Reference
            &&& linear.cols == input.len() && linear.rows == output.len()
        },
        linear::nvfp4_prequantized_steps(linear, input, output) matches Ok(steps) ==> {
            &&& one_product(
                steps,
                nvfp4_product(*linear, false, Operand::QuantizedInput, true, 1),
            )
            &&& steps[0]->Launch_0.kernel is Nvfp4Prequant
            &&& linear.cols == input.len() && linear.rows == output.len()
        },
        linear::nvfp4_reference_batched_steps(linear, input, batch, output) matches Ok(steps) ==> {
            &&& one_product(
                steps,
                nvfp4_product(*linear, false, Operand::Input, false, batch as int),
            )
            &&& steps[0]->Launch_0.kernel is Nvfp4ReferenceBatched
            &&& batch * linear.cols <= input.len() && batch * linear.rows <= output.len()
        },
        linear::nvfp4_prequantized_batched_steps(
            linear,
            input,
            batch,
            output,
            wmma_disabled,
        ) matches Ok(steps) ==> {
            &&& one_product(
                steps,
                nvfp4_product(*linear, false, Operand::Input, true, batch as int),
            )
            &&& steps[0]->Launch_0.kernel == prequantized_kernel(
                linear.rows as int,
                linear.cols as int,
                batch as int,
                wmma_disabled,
            )
            &&& batch * linear.cols <= input.len() && batch * linear.rows <= output.len()
        },
        linear::nvfp4_reference_steps(linear, input, output) is Ok <==> linear.cols == input.len()
            && linear.rows == output.len(),
        linear::nvfp4_prequantized_steps(linear, input, output) is Ok <==> linear.cols
            == input.len() && linear.rows == output.len(),
        linear::nvfp4_reference_batched_steps(linear, input, batch, output) is Ok <==> batch
            * linear.cols <= input.len() && batch * linear.rows <= output.len(),
        linear::nvfp4_prequantized_batched_steps(
            linear,
            input,
            batch,
            output,
            wmma_disabled,
        ) is Ok <==> batch * linear.cols <= input.len() && batch * linear.rows <= output.len(),
{
    lemma_product_tiles(linear.rows as int, batch as int);
    lemma_product_tiles(linear.rows as int, 1);
}

/// Products with staged four-bit weights: the weights are staged before the launch, all of
/// them, and the staging is marked as in use after it.
pub proof fn staged_layers_multiply(
    linear: &DeviceNvfp4Linear,
    refusal: &'static str,
    batch: usize,
    wmma_disabled: bool,
)
    requires
        linear.rows <= u32::MAX,
        linear.cols <= u32::MAX,
        batch <= u32::MAX,
    ensures
        linear::staged_steps(
            linear,
            refusal,
            linear::staged_reference_steps(linear.rows, linear.cols),
        ) matches Ok(steps) ==> staged_product(
            steps,
            *linear,
            Kernel::Nvfp4Reference,
            nvfp4_product(*linear, true, Operand::Input, false, 1),
        ),
        linear::staged_steps(
            linear,
            refusal,
            linear::staged_prequantized_steps(linear.rows, linear.cols),
        ) matches Ok(steps) ==> staged_product(
            steps,
            *linear,
            Kernel::Nvfp4Prequant,
            nvfp4_product(*linear, true, Operand::QuantizedInput, true, 1),
        ),
        linear::staged_steps(
            linear,
            refusal,
            linear::staged_prequantized_batched_steps(
                linear.rows,
                linear.cols,
                batch,
                wmma_disabled,
            ),
        ) matches Ok(steps) ==> staged_product(
            steps,
            *linear,
            prequantized_kernel(
                linear.rows as int,
                linear.cols as int,
                batch as int,
                wmma_disabled,
            ),
            nvfp4_product(*linear, true, Operand::QuantizedInput, true, batch as int),
        ),
        forall|launch: Result<Seq<StepView>, AegisError>| #[trigger]
            linear::staged_steps(linear, refusal, launch) is Ok <==> linear.host_weights is Some,
{
    lemma_product_tiles(linear.rows as int, batch as int);
    lemma_product_tiles(linear.rows as int, 1);
}

/// Staging of the weights, the launch of the product, and the mark.
pub open spec fn staged_product(
    steps: Seq<StepView>,
    linear: DeviceNvfp4Linear,
    kernel: Kernel,
    product: MatrixProduct,
) -> bool {
    &&& steps.len() == 3
    &&& steps[0] matches StepView::StageWeights { packed_bytes, scale_bytes }
    &&& packed_bytes == linear.packed_bytes && scale_bytes == linear.scale_bytes
    &&& steps[1] matches StepView::Launch(launch)
    &&& launch.kernel == kernel
    &&& multiplies(launch, product)
    &&& steps[2] is MarkLaunched
}

/// The product with weights that were repacked for the native kernels.
pub open spec fn native_product(
    rows: int,
    cols: int,
    blocks_per_row: int,
    batch: int,
    weights: Operand,
    scale: Scalar,
    output: Operand,
) -> MatrixProduct {
    MatrixProduct {
        weights: Arg::Buffer(weights),
        weight_scales: Arg::Null,
        input: Arg::Buffer(Operand::InputMxfp4),
        rows,
        cols,
        batch,
        blocks_per_row,
        input_scale: Arg::Null,
        output_scale: Arg::Scalar(scale),
        output: Arg::Buffer(output),
    }
}

/// Which native kernel multiplies `batch` vectors: the wider tile from 64 rows on, both tiles
/// from sixteen vectors on.
pub open spec fn native_kernel(rows: int, batch: int) -> Kernel {
    if batch >= 16 {
        if rows >= 64 {
            Kernel::Mxfp4MatmulTileM16n64
        } else {
            Kernel::Mxfp4MatmulTileM16n32
        }
    } else if batch >= 2 {
        Kernel::Mxfp4MatmulN8
    } else {
        Kernel::Mxfp4Matvec
    }
}

/// One vector by native weights: as many warps to a block as the columns have work for.
pub proof fn native_layers_multiply_one(
    linear: &DeviceNvfp4Linear,
    vector_bytes: Result<usize, AegisError>,
    input_mxfp4: &DeviceBuffer<u8>,
    output: &DeviceBuffer<F32>,
)
    requires
        linear.rows <= u32::MAX,
        linear.cols <= u32::MAX,
        linear.native_mxfp4 matches Some(native) ==> native.blocks_per_row <= u32::MAX,
    ensures
        linear::native_matvec_steps(linear, vector_bytes, input_mxfp4, output) matches Ok(steps)
            ==> {
            &&& linear.native_mxfp4 matches Some(native)
            &&& one_product(
                steps,
                native_product(
                    linear.rows as int,
                    linear.cols as int,
                    native.blocks_per_row as int,
                    1,
                    Operand::NativeWeights,
                    Scalar::OutputScale,
                    Operand::Output,
                ),
            )
            &&& steps[0]->Launch_0.kernel == (if linear.cols as int % 1024 == 0 {
                Kernel::Mxfp4Matvec16warp
            } else if linear.cols as int % 256 == 0 {
                Kernel::Mxfp4Matvec4warp
            } else {
                Kernel::Mxfp4Matvec
            })
            &&& linear.cols as int % 64 == 0
            &&& vector_bytes matches Ok(bytes) && bytes == input_mxfp4.len()
            &&& linear.rows == output.len()
        },
{
    lemma_product_tiles(linear.rows as int, 1);
}

/// What a batch by native weights comes to.
pub open spec fn native_batch(
    steps: Seq<StepView>,
    linear: DeviceNvfp4Linear,
    vector_bytes: Result<usize, AegisError>,
    input_bytes: int,
    batch: int,
    output: int,
    weights: Operand,
    scale: Scalar,
    target: Operand,
) -> bool {
    &&& linear.native_mxfp4 matches Some(native)
    &&& one_product(
        steps,
        native_product(
            linear.rows as int,
            linear.cols as int,
            native.blocks_per_row as int,
            batch,
            weights,
            scale,
            target,
        ),
    )
    &&& steps[0]->Launch_0.kernel == native_kernel(linear.rows as int, batch)
    &&& linear.cols as int % 64 == 0
    &&& vector_bytes matches Ok(bytes) && batch * bytes <= input_bytes
    &&& batch * linear.rows <= output
}

/// Many vectors by native weights.
pub proof fn native_layers_multiply(
    linear: &DeviceNvfp4Linear,
    vector_bytes: Result<usize, AegisError>,
    input_mxfp4: &DeviceBuffer<u8>,
    batch: usize,
    output: &DeviceBuffer<F32>,
    weights: Operand,
    scale: Scalar,
    target: Operand,
)
    ensures
        linear::native_batched_steps(
            linear,
            vector_bytes,
            input_mxfp4,
            batch,
            output,
            weights,
            scale,
            target,
        ) matches Ok(steps) ==> native_batch(
            steps,
            *linear,
            vector_bytes,
            input_mxfp4.len() as int,
            batch as int,
            output.len() as int,
            weights,
            scale,
            target,
        ),
{
    lemma_product_tiles(linear.rows as int, batch as int);
}

/// Many vectors by native weights that are staged, after both forms of them are.
pub proof fn staged_native_layers_multiply(
    linear: &DeviceNvfp4Linear,
    refusal: &'static str,
    no_data: &'static str,
    batch: usize,
)
    ensures
        linear::staged_native_steps(linear, refusal, no_data, batch) matches Ok(steps) ==> {
            &&& linear.host_weights matches Some(host)
            &&& host.native_mxfp4 matches Some(native)
            &&& steps.len() == 4
            &&& steps[0] matches StepView::StageWeights { packed_bytes, scale_bytes }
            &&& packed_bytes == linear.packed_bytes && scale_bytes == linear.scale_bytes
            &&& steps[1] matches StepView::StageNative { native_bytes }
            &&& native_bytes == native.data.len()
            &&& steps[3] is Refuse ==> steps[2] is MarkLaunched
            &&& !(steps[3] is Refuse) ==> {
                &&& steps[2] matches StepView::Launch(launch)
                &&& launch.kernel == native_kernel(linear.rows as int, batch as int)
                &&& multiplies(
                    launch,
                    native_product(
                        linear.rows as int,
                        linear.cols as int,
                        native.blocks_per_row as int,
                        batch as int,
                        Operand::StagedNative,
                        Scalar::OutputScale,
                        Operand::Output,
                    ),
                )
                &&& steps[3] is MarkLaunched
            }
        },
        linear::staged_native_steps(linear, refusal, no_data, batch) is Ok <==> (linear.host_weights
            matches Some(host) && host.native_mxfp4 is Some),
{
    lemma_product_tiles(linear.rows as int, batch as int);
}

/// Vectors come from the host and go back to it whole, from their first element on.
pub proof fn vectors_come_and_go_whole(len: usize)
    ensures
        linear::input_upload(len) matches StepView::Copy { engine: _, from, to, stage: _ }
            && from.operand == Operand::Host && to.operand == Operand::Input && from.start == 0
            && to.start == 0 && from.end == len && to.end == len,
        linear::output_download(len) matches StepView::Copy { engine: _, from, to, stage: _ }
            && from.operand == Operand::Output && to.operand == Operand::Downloaded && from.start
            == 0 && to.start == 0 && from.end == len && to.end == len,
{
}

} // verus!
