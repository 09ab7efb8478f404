//! Probes of the four-bit tensor cores.
use crate::compile::{GpuArchitecture, GpuInfo};
use crate::error::{invalid_plan, number, AegisError, Value, Values};
use crate::functions::Kernel;
use crate::launch::{Arg, LaunchConfig, Operand, Plan, Scalar, Step, StepView};
use crate::runtime::linear;
use crate::runtime::CudaRuntime;
use crate::types::{DeviceBuffer, DeviceNvfp4Linear, F32};
use vstd::prelude::*;

verus! {

/// The steps of [`CudaRuntime::launch_blackwell_nvfp4_probe`].
pub open spec fn probe_steps(
    linear: &DeviceNvfp4Linear,
    input: &DeviceBuffer<F32>,
    output: &DeviceBuffer<F32>,
) -> Result<Seq<StepView>, AegisError> {
    if input.len() != linear.cols || output.len() != linear.rows {
        Err(AegisError::invalid_with(
                "nvfp4 linear shape mismatch for {}: expected input={} output={}, got input={} output={}",
                Values::Five(
                    Value::Name(linear.name),
                    Value::num(linear.cols as int),
                    Value::num(linear.rows as int),
                    Value::num(input.len() as int),
                    Value::num(output.len() as int),
                ),
            ))
    } else {
        Ok(
            seq![
                StepView::launching(
                    Kernel::BlackwellFp4,
                    "launch blackwell nvfp4 linear",
                    LaunchConfig::of(linear.rows as int, 1, 1, 32, 0),
                    seq![
                        Arg::Buffer(Operand::Packed),
                        Arg::Buffer(Operand::Scales),
                        Arg::Buffer(Operand::Input),
                        Arg::word(linear.rows as int),
                        Arg::word(linear.cols as int),
                        Arg::Scalar(Scalar::InputScale),
                        Arg::Scalar(Scalar::OutputScale),
                        Arg::Buffer(Operand::Output),
                    ],
                ),
                StepView::Synchronize { stage: "synchronize blackwell nvfp4 linear" },
            ],
        )
    }
}

impl CudaRuntime {
    /// [`Self::matvec_mxfp4_native_device`].
    pub fn launch_blackwell_nvfp4_linear(
        &self,
        linear: &DeviceNvfp4Linear,
        packed_bytes: Result<usize, AegisError>,
        vector_bytes: Result<usize, AegisError>,
        output: &DeviceBuffer<F32>,
    ) -> (plan: Result<Plan, AegisError>)
        ensures
            packed_bytes is Err ==> plan == Err::<Plan, _>(packed_bytes->Err_0),
            packed_bytes is Ok ==> exists|packed: DeviceBuffer<u8>|
                packed.len() == packed_bytes->Ok_0 && Plan::outcome(plan) == Ok::<_, AegisError>(
                    Plan::spec_then(
                        seq![
                            StepView::PackInput {
                                input: Operand::Input,
                                packed_bytes: packed_bytes->Ok_0,
                                output: Operand::InputMxfp4,
                            },
                        ],
                        #[trigger] linear::native_matvec_steps(
                            linear,
                            vector_bytes,
                            &packed,
                            output,
                        ),
                    ),
                ),
    {
        self.matvec_mxfp4_native_device(linear, packed_bytes, vector_bytes, output)
    }

    /// [`Self::launch_blackwell_nvfp4_probe`] on buffers of the layer's own size.
    pub fn probe_blackwell_nvfp4_linear_abi(
        &self,
        linear: &DeviceNvfp4Linear,
    ) -> (plan: Result<Plan, AegisError>)
        ensures
            exists|input: DeviceBuffer<F32>, output: DeviceBuffer<F32>|
                input.len() == linear.cols && output.len() == linear.rows && Plan::outcome(plan)
                    == #[trigger] probe_steps(linear, &input, &output),
            plan is Ok,
    {
        let input: DeviceBuffer<F32> = DeviceBuffer::with_len(linear.cols);
        let output: DeviceBuffer<F32> = DeviceBuffer::with_len(linear.rows);
        let plan = self.launch_blackwell_nvfp4_probe(linear, &input, &output);
        assert(Plan::outcome(plan) == probe_steps(linear, &input, &output));
        plan
    }

    /// Whether a GPU multiplies four-bit weights natively.
    pub fn supports_native_nvfp4(gpu: &GpuInfo) -> (yes: bool)
        ensures
            yes == (gpu.architecture == GpuArchitecture::Blackwell),
    {
        gpu.architecture == GpuArchitecture::Blackwell
    }

    /// Multiplies one vector by four-bit weights with the probe kernel, and waits: one block
    /// per row.
    pub fn launch_blackwell_nvfp4_probe(
        &self,
        linear: &DeviceNvfp4Linear,
        input: &DeviceBuffer<F32>,
        output: &DeviceBuffer<F32>,
    ) -> (plan: Result<Plan, AegisError>)
        ensures
            Plan::outcome(plan) =~~= probe_steps(linear, input, output),
    {
        if input.len() != linear.cols || output.len() != linear.rows {
            return Err(invalid_plan(
                "nvfp4 linear shape mismatch for {}: expected input={} output={}, got input={} output={}",
                Values::Five(
                    Value::Name(linear.name.clone()),
                    number(linear.cols),
                    number(linear.rows),
                    number(input.len()),
                    number(output.len()),
                ),
            ));
        }
        let rows: u32 = linear.rows as u32;
        let cols: u32 = linear.cols as u32;
        let launch = Plan::launch(
                Kernel::BlackwellFp4,
                "launch blackwell nvfp4 linear",
                LaunchConfig {
                    grid_dim: (rows, 1, 1),
                    block_dim: (32, 1, 1),
                    shared_mem_bytes: 0,
                },
                vec![
                    Arg::Buffer(Operand::Packed),
                    Arg::Buffer(Operand::Scales),
                    Arg::Buffer(Operand::Input),
                    Arg::U32(rows),
                    Arg::U32(cols),
                    Arg::Scalar(Scalar::InputScale),
                    Arg::Scalar(Scalar::OutputScale),
                    Arg::Buffer(Operand::Output),
                ],
            );
        let plan = launch.followed_by(
            Plan::of(Step::Synchronize { stage: "synchronize blackwell nvfp4 linear" }),
        );
        assert(plan@ =~= probe_steps(linear, input, output)->Ok_0);
        Ok(plan)
    }
}

} // verus!
