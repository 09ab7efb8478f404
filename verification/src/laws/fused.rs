//! What fused products compute: projections that share their input each keep their own
//! weights, scales and outputs.
use crate::error::AegisError;
use crate::functions::Kernel;
use crate::kernels;
use crate::launch::{Arg, LaunchView, Operand, Scalar, StepView};
use crate::laws::layers::{native_batch, native_layers_multiply, native_product};
use crate::runtime;
use crate::runtime::{blackwell, linear};
use crate::types::{DeviceBuffer, DeviceNvfp4Linear, F32};
use vstd::prelude::*;

verus! {

/// Fused queries, keys and values are split up: every vector's rows of each go to that output,
/// with the scale of that projection, and all lie within their buffers.
pub proof fn fused_rows_are_split(
    qkv: &DeviceBuffer<F32>,
    batch: usize,
    q_rows: usize,
    kv_rows: usize,
    q_output: &DeviceBuffer<F32>,
    k_output: &DeviceBuffer<F32>,
    v_output: &DeviceBuffer<F32>,
    vector: int,
    part: int,
    row: int,
)
    requires
        0 <= vector < batch,
        0 <= part < 3,
        0 <= row < (if part == 0 {
            q_rows
        } else {
            kv_rows
        }),
    ensures
        linear::split_qkv_steps(
            qkv,
            batch,
            q_rows,
            kv_rows,
            q_output,
            k_output,
            v_output,
        ) matches Ok(steps) ==> {
            &&& steps.len() == 1
            &&& steps[0] matches StepView::Launch(launch)
            &&& launch.kernel is SplitQkvScaled
            &&& launch.args.len() == 10
            &&& launch.args[0] == Arg::Buffer(Operand::Qkv)
            &&& kernels::number(launch.args[1]) == batch
            &&& kernels::number(launch.args[2]) == q_rows
            &&& kernels::number(launch.args[3]) == kv_rows
            &&& launch.args[4 + part] == Arg::Scalar(
                if part == 0 {
                    Scalar::QOutputScale
                } else if part == 1 {
                    Scalar::KOutputScale
                } else {
                    Scalar::VOutputScale
                },
            )
            &&& launch.args[7 + part] == Arg::Buffer(
                if part == 0 {
                    Operand::QOutput
                } else if part == 1 {
                    Operand::KOutput
                } else {
                    Operand::VOutput
                },
            )
            &&& 0 <= kernels::fused_row(
                kernels::number(launch.args[2]),
                kernels::number(launch.args[3]),
                vector,
                part,
                row,
            ) < qkv.len()
            &&& part == 0 ==> 0 <= vector * q_rows + row < q_output.len()
            &&& part == 1 ==> 0 <= vector * kv_rows + row < k_output.len()
            &&& part == 2 ==> 0 <= vector * kv_rows + row < v_output.len()
            // A block takes further numbers in strides where there are more than blocks.
            &&& 1 <= launch.config.grid_dim.0 <= 65535
            &&& launch.config.grid_dim.0 == 65535 || kernels::tiled(
                launch.config.grid_dim.0 as int,
                256,
                batch * (q_rows + 2 * kv_rows),
            )
            &&& launch.config.grid_dim.1 == 1 && launch.config.grid_dim.2 == 1
            &&& launch.config.block_dim == (256u32, 1u32, 1u32)
            &&& launch.config.shared_mem_bytes == 0
        },
{
    let total = batch * (q_rows + 2 * kv_rows);
    let width = q_rows + 2 * kv_rows;
    assert(q_rows + kv_rows + kv_rows == width);
    lemma_within(vector, batch as int, width, kernels::fused_row(
        q_rows as int,
        kv_rows as int,
        0,
        part,
        row,
    ));
    if part == 0 {
        lemma_within(vector, batch as int, q_rows as int, row);
    } else {
        lemma_within(vector, batch as int, kv_rows as int, row);
    }
    assert(0 * width == 0);
    super::prefill::lemma_tiled(total, 256);
    runtime::lemma_blocks(total, 256);
}

/// A place within one row of `width` lies within `count` such rows.
proof fn lemma_within(vector: int, count: int, width: int, at: int)
    requires
        0 <= vector < count,
        0 <= at < width,
    ensures
        0 <= vector * width + at < count * width,
{
    assert(0 <= vector * width + at < count * width) by (nonlinear_arith)
        requires
            0 <= vector < count,
            0 <= at < width,
    ;
}

/// Rows that the blocks along the first axis serve of a projection.
pub open spec fn serves_rows(launch: LaunchView, wide: bool, most: int, batch: int, parts: int) -> bool {
    let tile: int = if wide {
        64
    } else {
        32
    };
    &&& kernels::tiled(launch.config.grid_dim.0 as int, tile, most)
    &&& kernels::tiled(launch.config.grid_dim.1 as int, 16, batch)
    &&& launch.config.grid_dim.2 == parts
    &&& launch.config.block_dim == (
        if wide {
            256u32
        } else {
            128u32
        },
        1u32,
        1u32,
    )
    &&& launch.config.shared_mem_bytes == 0
}

/// Queries, keys and values in one launch: each projection has its own weights, rows, scale
/// and output, and they have input, columns and batch in common.
pub proof fn queries_keys_and_values_multiply(
    q_proj: &DeviceNvfp4Linear,
    k_proj: &DeviceNvfp4Linear,
    v_proj: &DeviceNvfp4Linear,
    vector_bytes: Result<usize, AegisError>,
    input_mxfp4: &DeviceBuffer<u8>,
    batch: usize,
    q_output: &DeviceBuffer<F32>,
    k_output: &DeviceBuffer<F32>,
    v_output: &DeviceBuffer<F32>,
)
    ensures
        linear::grouped_qkv_steps(
            q_proj,
            k_proj,
            v_proj,
            vector_bytes,
            input_mxfp4,
            batch,
            q_output,
            k_output,
            v_output,
        ) matches Ok(steps) ==> {
            &&& q_proj.native_mxfp4 matches Some(q)
            &&& k_proj.native_mxfp4 matches Some(k)
            &&& v_proj.native_mxfp4 matches Some(v)
            &&& steps.len() == 1
            &&& steps[0] matches StepView::Launch(launch)
            &&& {
                let most: int = if q_proj.rows >= k_proj.rows {
                    q_proj.rows as int
                } else {
                    k_proj.rows as int
                };
                &&& launch.kernel == (if most >= 64 {
                    Kernel::Mxfp4MatmulQkvTileM16n64
                } else {
                    Kernel::Mxfp4MatmulQkvTileM16n32
                })
                &&& launch.args.len() == 17
                &&& kernels::qkv_product(launch, 0) == native_product(
                    q_proj.rows as int,
                    q_proj.cols as int,
                    q.blocks_per_row as int,
                    batch as int,
                    Operand::QNative,
                    Scalar::QOutputScale,
                    Operand::QOutput,
                )
                &&& kernels::qkv_product(launch, 1) == native_product(
                    k_proj.rows as int,
                    k_proj.cols as int,
                    k.blocks_per_row as int,
                    batch as int,
                    Operand::KNative,
                    Scalar::KOutputScale,
                    Operand::KOutput,
                )
                &&& kernels::qkv_product(launch, 2) == native_product(
                    v_proj.rows as int,
                    v_proj.cols as int,
                    v.blocks_per_row as int,
                    batch as int,
                    Operand::VNative,
                    Scalar::VOutputScale,
                    Operand::VOutput,
                )
                &&& serves_rows(launch, most >= 64, most, batch as int, 3)
                &&& vector_bytes matches Ok(bytes) && batch * bytes <= input_mxfp4.len()
                &&& batch * q_proj.rows <= q_output.len()
                &&& batch * k_proj.rows <= k_output.len()
                &&& batch * v_proj.rows <= v_output.len()
                &&& q_proj.cols as int % 64 == 0
            }
        },
{
    let most: int = if q_proj.rows >= k_proj.rows {
        q_proj.rows as int
    } else {
        k_proj.rows as int
    };
    lemma_fused_tiles(most, batch as int);
}

proof fn lemma_fused_tiles(most: int, batch: int)
    requires
        0 <= most,
        0 <= batch,
    ensures
        kernels::tiled(runtime::blocks(most, 32), 32, most),
        kernels::tiled(runtime::blocks(most, 64), 64, most),
        kernels::tiled(runtime::blocks(batch, 16), 16, batch),
        0 <= runtime::blocks(most, 32) <= most,
        0 <= runtime::blocks(most, 64) <= most,
        0 <= runtime::blocks(batch, 16) <= batch,
{
    super::prefill::lemma_tiled(most, 32);
    super::prefill::lemma_tiled(most, 64);
    super::prefill::lemma_tiled(batch, 16);
    runtime::lemma_blocks(most, 32);
    runtime::lemma_blocks(most, 64);
    runtime::lemma_blocks(batch, 16);
}

/// Gates and ups in one launch, each with its own weights, rows, scale and output.
pub proof fn gates_and_ups_multiply(
    gate_proj: &DeviceNvfp4Linear,
    up_proj: &DeviceNvfp4Linear,
    vector_bytes: Result<usize, AegisError>,
    input_mxfp4: &DeviceBuffer<u8>,
    batch: usize,
    gate_output: &DeviceBuffer<F32>,
    up_output: &DeviceBuffer<F32>,
)
    ensures
        linear::grouped_gate_up_steps(
            gate_proj,
            up_proj,
            vector_bytes,
            input_mxfp4,
            batch,
            gate_output,
            up_output,
        ) matches Ok(steps) ==> {
            &&& gate_proj.native_mxfp4 matches Some(gate)
            &&& up_proj.native_mxfp4 matches Some(up)
            &&& steps.len() == 1
            &&& steps[0] matches StepView::Launch(launch)
            &&& {
                let most: int = if gate_proj.rows >= up_proj.rows {
                    gate_proj.rows as int
                } else {
                    up_proj.rows as int
                };
                &&& launch.kernel == (if most >= 64 {
                    Kernel::Mxfp4MatmulGateUpTileM16n64
                } else {
                    Kernel::Mxfp4MatmulGateUpTileM16n32
                })
                &&& launch.args.len() == 13
                &&& kernels::gate_up_product(launch, 0) == native_product(
                    gate_proj.rows as int,
                    gate_proj.cols as int,
                    gate.blocks_per_row as int,
                    batch as int,
                    Operand::GateNative,
                    Scalar::GateOutputScale,
                    Operand::GateOutput,
                )
                &&& kernels::gate_up_product(launch, 1) == native_product(
                    up_proj.rows as int,
                    up_proj.cols as int,
                    up.blocks_per_row as int,
                    batch as int,
                    Operand::UpNative,
                    Scalar::UpOutputScale,
                    Operand::UpOutput,
                )
                &&& serves_rows(launch, most >= 64, most, batch as int, 2)
                &&& vector_bytes matches Ok(bytes) && batch * bytes <= input_mxfp4.len()
                &&& batch * gate_proj.rows <= gate_output.len()
                &&& batch * up_proj.rows <= up_output.len()
                &&& gate_proj.cols as int % 64 == 0
            }
        },
{
    let most: int = if gate_proj.rows >= up_proj.rows {
        gate_proj.rows as int
    } else {
        up_proj.rows as int
    };
    lemma_fused_tiles(most, batch as int);
}

/// One vector's projections are multiplied one after the other, with the same weights, scales
/// and outputs as those of many are at once.
pub proof fn single_projections_multiply(
    q_proj: &DeviceNvfp4Linear,
    k_proj: &DeviceNvfp4Linear,
    v_proj: &DeviceNvfp4Linear,
    bytes: (Result<usize, AegisError>, Result<usize, AegisError>, Result<usize, AegisError>),
    input_mxfp4: &DeviceBuffer<u8>,
    batch: usize,
    q_output: &DeviceBuffer<F32>,
    k_output: &DeviceBuffer<F32>,
    v_output: &DeviceBuffer<F32>,
)
    ensures
        batch != 1 ==> linear::qkv_prefill_steps(
            q_proj,
            k_proj,
            v_proj,
            bytes,
            input_mxfp4,
            batch,
            q_output,
            k_output,
            v_output,
        ) == linear::grouped_qkv_steps(
            q_proj,
            k_proj,
            v_proj,
            bytes.0,
            input_mxfp4,
            batch,
            q_output,
            k_output,
            v_output,
        ),
        batch == 1 ==> (linear::qkv_prefill_steps(
            q_proj,
            k_proj,
            v_proj,
            bytes,
            input_mxfp4,
            batch,
            q_output,
            k_output,
            v_output,
        ) matches Ok(steps) ==> {
            &&& 2 <= steps.len() <= 3
            &&& native_batch(
                steps.take(1),
                *q_proj,
                bytes.0,
                input_mxfp4.len() as int,
                1,
                q_output.len() as int,
                Operand::QNative,
                Scalar::QOutputScale,
                Operand::QOutput,
            )
            &&& steps[1] is Refuse && steps.len() == 2 || native_batch(
                steps.subrange(1, 2),
                *k_proj,
                bytes.1,
                input_mxfp4.len() as int,
                1,
                k_output.len() as int,
                Operand::KNative,
                Scalar::KOutputScale,
                Operand::KOutput,
            )
            &&& steps.len() == 3 ==> steps[2] is Refuse || native_batch(
                steps.subrange(2, 3),
                *v_proj,
                bytes.2,
                input_mxfp4.len() as int,
                1,
                v_output.len() as int,
                Operand::VNative,
                Scalar::VOutputScale,
                Operand::VOutput,
            )
            &&& steps.len() == 2 ==> steps[1] is Refuse
        }),
{
    if batch == 1 {
        let q = linear::native_batched_steps(
            q_proj,
            bytes.0,
            input_mxfp4,
            batch,
            q_output,
            Operand::QNative,
            Scalar::QOutputScale,
            Operand::QOutput,
        );
        let k = linear::native_batched_steps(
            k_proj,
            bytes.1,
            input_mxfp4,
            batch,
            k_output,
            Operand::KNative,
            Scalar::KOutputScale,
            Operand::KOutput,
        );
        let v = linear::native_batched_steps(
            v_proj,
            bytes.2,
            input_mxfp4,
            batch,
            v_output,
            Operand::VNative,
            Scalar::VOutputScale,
            Operand::VOutput,
        );
        native_layers_multiply(
            q_proj,
            bytes.0,
            input_mxfp4,
            batch,
            q_output,
            Operand::QNative,
            Scalar::QOutputScale,
            Operand::QOutput,
        );
        native_layers_multiply(
            k_proj,
            bytes.1,
            input_mxfp4,
            batch,
            k_output,
            Operand::KNative,
            Scalar::KOutputScale,
            Operand::KOutput,
        );
        native_layers_multiply(
            v_proj,
            bytes.2,
            input_mxfp4,
            batch,
            v_output,
            Operand::VNative,
            Scalar::VOutputScale,
            Operand::VOutput,
        );
        let steps = linear::qkv_prefill_steps(
            q_proj,
            k_proj,
            v_proj,
            bytes,
            input_mxfp4,
            batch,
            q_output,
            k_output,
            v_output,
        )->Ok_0;
        if q is Ok {
            assert(steps.take(1) =~= q->Ok_0);
            if k is Ok {
                assert(steps.subrange(1, 2) =~= k->Ok_0);
                if v is Ok {
                    assert(steps.subrange(2, 3) =~= v->Ok_0);
                }
            }
        }
    }
}

/// The same of one vector's gate and up.
pub proof fn single_gate_and_up_multiply(
    gate_proj: &DeviceNvfp4Linear,
    up_proj: &DeviceNvfp4Linear,
    bytes: (Result<usize, AegisError>, Result<usize, AegisError>),
    input_mxfp4: &DeviceBuffer<u8>,
    batch: usize,
    gate_output: &DeviceBuffer<F32>,
    up_output: &DeviceBuffer<F32>,
)
    ensures
        batch != 1 ==> linear::gate_up_prefill_steps(
            gate_proj,
            up_proj,
            bytes,
            input_mxfp4,
            batch,
            gate_output,
            up_output,
        ) == linear::grouped_gate_up_steps(
            gate_proj,
            up_proj,
            bytes.0,
            input_mxfp4,
            batch,
            gate_output,
            up_output,
        ),
        batch == 1 ==> (linear::gate_up_prefill_steps(
            gate_proj,
            up_proj,
            bytes,
            input_mxfp4,
            batch,
            gate_output,
            up_output,
        ) matches Ok(steps) ==> {
            &&& steps.len() == 2
            &&& native_batch(
                steps.take(1),
                *gate_proj,
                bytes.0,
                input_mxfp4.len() as int,
                1,
                gate_output.len() as int,
                Operand::GateNative,
                Scalar::GateOutputScale,
                Operand::GateOutput,
            )
            &&& steps[1] is Refuse || native_batch(
                steps.skip(1),
                *up_proj,
                bytes.1,
                input_mxfp4.len() as int,
                1,
                up_output.len() as int,
                Operand::UpNative,
                Scalar::UpOutputScale,
                Operand::UpOutput,
            )
        }),
{
    if batch == 1 {
        let gate = linear::native_batched_steps(
            gate_proj,
            bytes.0,
            input_mxfp4,
            batch,
            gate_output,
            Operand::GateNative,
            Scalar::GateOutputScale,
            Operand::GateOutput,
        );
        let up = linear::native_batched_steps(
            up_proj,
            bytes.1,
            input_mxfp4,
            batch,
            up_output,
            Operand::UpNative,
            Scalar::UpOutputScale,
            Operand::UpOutput,
        );
        native_layers_multiply(
            gate_proj,
            bytes.0,
            input_mxfp4,
            batch,
            gate_output,
            Operand::GateNative,
            Scalar::GateOutputScale,
            Operand::GateOutput,
        );
        native_layers_multiply(
            up_proj,
            bytes.1,
            input_mxfp4,
            batch,
            up_output,
            Operand::UpNative,
            Scalar::UpOutputScale,
            Operand::UpOutput,
        );
        let steps = linear::gate_up_prefill_steps(
            gate_proj,
            up_proj,
            bytes,
            input_mxfp4,
            batch,
            gate_output,
            up_output,
        )->Ok_0;
        if gate is Ok {
            assert(steps.take(1) =~= gate->Ok_0);
            if up is Ok {
                assert(steps.skip(1) =~= up->Ok_0);
            }
        }
    }
}

/// Products of many experts at once: a block for every tile of rows and of tokens of every
/// expert, in tiles of 32 where the rows allow it and an expert has tokens for half a tile.
pub proof fn experts_multiply(
    rows: usize,
    cols: usize,
    max_tokens_per_expert: usize,
    num_active_experts: usize,
    t32_disabled: bool,
)
    requires
        max_tokens_per_expert <= u32::MAX,
    ensures
        linear::nvfp4_grouped_steps(
            rows,
            cols,
            max_tokens_per_expert,
            num_active_experts,
            t32_disabled,
        ) matches Ok(steps) ==> {
            &&& steps.len() == 0 <==> num_active_experts == 0 || max_tokens_per_expert == 0
            &&& steps.len() > 0 ==> {
                &&& steps.len() == 1
                &&& steps[0] matches StepView::Launch(launch)
                &&& {
                    let wide = launch.kernel is Nvfp4GroupedPrequantGemmWmmaBf16T32;
                    let tile: int = if wide {
                        32
                    } else {
                        16
                    };
                    &&& wide || launch.kernel is Nvfp4GroupedPrequantGemmWmmaBf16
                    &&& wide <==> !t32_disabled && rows as int % 32 == 0 && max_tokens_per_expert
                        >= 16
                    &&& launch.args.len() == 10
                    &&& launch.args[0] == Arg::Buffer(Operand::PackedBase)
                    &&& launch.args[1] == Arg::Buffer(Operand::ScalesBase)
                    &&& launch.args[2] == Arg::Buffer(Operand::PackedOffsets)
                    &&& launch.args[3] == Arg::Buffer(Operand::ScalesOffsets)
                    &&& launch.args[4] == Arg::Buffer(Operand::OutputScales)
                    &&& launch.args[5] == Arg::Buffer(Operand::ExpertTokenOffsets)
                    &&& launch.args[6] == Arg::Buffer(Operand::PermutedInput)
                    &&& kernels::number(launch.args[7]) == rows
                    &&& kernels::number(launch.args[8]) == cols
                    &&& launch.args[9] == Arg::Buffer(Operand::PermutedOutput)
                    &&& launch.config.grid_dim.0 * tile == rows
                    &&& kernels::tiled(
                        launch.config.grid_dim.1 as int,
                        tile,
                        max_tokens_per_expert as int,
                    )
                    &&& launch.config.grid_dim.2 == num_active_experts
                    &&& launch.config.block_dim == (
                        if wide {
                            128u32
                        } else {
                            32u32
                        },
                        1u32,
                        1u32,
                    )
                    &&& launch.config.shared_mem_bytes == 0
                    &&& cols as int % 16 == 0
                }
            }
        },
        linear::nvfp4_grouped_steps(
            rows,
            cols,
            max_tokens_per_expert,
            num_active_experts,
            t32_disabled,
        ) is Ok <==> num_active_experts == 0 || max_tokens_per_expert == 0 || (rows as int % 16 == 0
            && cols as int % 16 == 0 && rows <= u32::MAX && cols <= u32::MAX && num_active_experts
            <= u32::MAX),
{
}

/// A probe of the four-bit tensor cores multiplies one vector by the whole layer, one block
/// for each row, and waits for it.
pub proof fn probes_multiply(
    linear: &DeviceNvfp4Linear,
    input: &DeviceBuffer<F32>,
    output: &DeviceBuffer<F32>,
)
    requires
        linear.rows <= u32::MAX,
        linear.cols <= u32::MAX,
    ensures
        blackwell::probe_steps(linear, input, output) is Ok <==> input.len() == linear.cols
            && output.len() == linear.rows,
        blackwell::probe_steps(linear, input, output) matches Ok(steps) ==> {
            &&& steps.len() == 2
            &&& steps[0] matches StepView::Launch(launch)
            &&& launch.kernel is BlackwellFp4
            &&& launch.args.len() == 8
            &&& launch.args[0] == Arg::Buffer(Operand::Packed)
            &&& launch.args[1] == Arg::Buffer(Operand::Scales)
            &&& launch.args[2] == Arg::Buffer(Operand::Input)
            &&& kernels::number(launch.args[3]) == output.len()
            &&& kernels::number(launch.args[4]) == input.len()
            &&& launch.args[5] == Arg::Scalar(Scalar::InputScale)
            &&& launch.args[6] == Arg::Scalar(Scalar::OutputScale)
            &&& launch.args[7] == Arg::Buffer(Operand::Output)
            &&& launch.config.grid_dim == (linear.rows as u32, 1u32, 1u32)
            &&& launch.config.block_dim == (32u32, 1u32, 1u32)
            &&& launch.config.shared_mem_bytes == 0
            &&& steps[1] is Synchronize
        },
{
}

} // verus!
