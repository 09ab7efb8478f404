//! Matrices of BF16 and FP8 numbers.
use crate::error::{invalid_plan, number, AegisError, Value, Values};
use crate::host_arena::PinnedArena;
use crate::launch::{Engine, Operand, Plan, Region, Step, StepView};
use crate::loader::fp8_blocks::{
    self, block_sides, block_size, dequant_fp8_block, dequant_fp8_block_into_bf16,
};
use crate::loader::numeric::{self, dense_vector_bits};
use crate::loader::nvfp4;
use crate::loader::tensors::{TensorDType, TensorInfo};
use crate::loader::CudaWeightLoader;
use crate::runtime::linear;
use crate::text::{self, trim_end};
use crate::types::{
    DeviceBf16Matrix, DeviceBuffer, HostBf16Weights, StandaloneFp8Linear, TensorResidencyPlan, F32,
};
use vstd::prelude::*;

verus! {

/// The product of extents.
pub open spec fn product(extents: Seq<usize>) -> int
    decreases extents.len(),
{
    if extents.len() == 0 {
        1
    } else {
        product(extents.drop_last()) * extents.last()
    }
}

/// The rows of a tensor that is taken as a matrix: all extents but the last.
pub open spec fn leading_rows(shape: Seq<usize>) -> int {
    product(shape.drop_last())
}

/// The product of the first extents stays a length all the way.
pub open spec fn rows_fit(shape: Seq<usize>) -> bool {
    forall|n: int| 0 <= n < shape.len() ==> product(#[trigger] shape.take(n)) <= usize::MAX
}

/// The error speaks of the tensor's type and shape.
pub open spec fn is_shape_error(error: AegisError, text: &'static str, tensor: TensorInfo) -> bool {
    &&& error matches AegisError::InvalidPlan(message)
    &&& message.text == text
    &&& message.values matches Values::Three(name, dtype, shape)
    &&& name == Value::Name(tensor.name)
    &&& dtype == Value::Label(tensor.dtype.label())
    &&& shape matches Value::Shape(extents)
    &&& extents@ == tensor.shape@
}

fn shape_error(text: &'static str, tensor: &TensorInfo) -> (error: AegisError)
    ensures
        is_shape_error(error, text, *tensor),
{
    let mut extents: Vec<usize> = Vec::new();
    let mut i: usize = 0;
    while i < tensor.shape.len()
        invariant
            i <= tensor.shape@.len(),
            extents@ == tensor.shape@.take(i as int),
        decreases tensor.shape@.len() - i,
    {
        extents.push(tensor.shape[i]);
        i += 1;
        assert(extents@ =~= tensor.shape@.take(i as int));
    }
    assert(tensor.shape@.take(i as int) =~= tensor.shape@);
    invalid_plan(
        text,
        Values::Three(
            Value::Name(tensor.name.clone()),
            Value::Label(tensor.dtype.show()),
            Value::Shape(extents),
        ),
    )
}

fn rows_of(shape: &Vec<usize>) -> (rows: usize)
    requires
        shape@.len() > 0,
        rows_fit(shape@),
    ensures
        rows == leading_rows(shape@),
{
    let mut rows: usize = 1;
    let mut i: usize = 0;
    while i < shape.len() - 1
        invariant
            0 < shape@.len(),
            i <= shape@.len() - 1,
            rows_fit(shape@),
            rows == product(shape@.take(i as int)),
        decreases shape@.len() - i,
    {
        assert(shape@.take(i + 1).drop_last() =~= shape@.take(i as int));
        assert(product(shape@.take(i + 1)) <= usize::MAX);
        rows = rows * shape[i];
        i += 1;
    }
    assert(shape@.take(i as int) =~= shape@.drop_last());
    rows
}

/// The matrix has these extents, in this place.
pub open spec fn is_matrix(
    matrix: DeviceBf16Matrix,
    name: Seq<char>,
    rows: int,
    cols: int,
    residency: TensorResidencyPlan,
) -> bool {
    &&& matrix.name@ == name
    &&& matrix.rows == rows
    &&& matrix.cols == cols
    &&& matrix.residency == residency
}

/// The error for a matrix that should stay in host memory, where there is no arena.
pub open spec fn no_arena(text: &'static str, name: String) -> AegisError {
    AegisError::invalid_with(text, Values::One(Value::Name(name)))
}

/// A matrix of `bytes` bytes gets the next range of the arena, if there is one and it has
/// room.
pub open spec fn placed_matrix(
    before: Option<PinnedArena>,
    after: Option<PinnedArena>,
    bytes: int,
    missing: AegisError,
    refusal: Option<AegisError>,
) -> bool {
    match before {
        None => refusal == Some(missing) && after is None,
        Some(arena) => if arena.spec_used() + bytes > arena.spec_capacity() {
            &&& refusal == Some(nvfp4::full_arena(arena, bytes))
            &&& after matches Some(kept)
            &&& kept.spec_used() == arena.spec_used()
            &&& kept.spec_capacity() == arena.spec_capacity()
            &&& kept.handed() == arena.handed()
        } else {
            &&& refusal is None
            &&& after matches Some(grown)
            &&& nvfp4::handed_out(arena, grown, bytes)
        },
    }
}

impl CudaWeightLoader<'_> {
    /// Reserves `bytes` bytes of the arena.
    fn place(&mut self, bytes: usize, missing: &'static str, name: &String) -> (placed: Result<
        usize,
        AegisError,
    >)
        requires
            old(self).wf(),
        ensures
            final(self).wf(),
            final(self).runtime == old(self).runtime,
            final(self).shards == old(self).shards,
            placed_matrix(
                old(self).arena,
                final(self).arena,
                bytes as int,
                no_arena(missing, *name),
                match placed {
                    Ok(_) => None,
                    Err(error) => Some(error),
                },
            ),
            placed matches Ok(offset) ==> old(self).arena matches Some(arena) && offset
                == arena.spec_used(),
    {
        let mut taken: Option<PinnedArena> = None;
        core::mem::swap(&mut taken, &mut self.arena);
        match taken {
            Some(arena) => {
                let mut arena = arena;
                let placed = arena.reserve(bytes);
                self.arena = Some(arena);
                placed
            },
            None => Err(invalid_plan(missing, Values::One(Value::Name(name.clone())))),
        }
    }

    /// Loads a BF16 tensor as a matrix: its last extent makes the columns, all others the
    /// rows. `fill` is what reading its bytes came to, `device` what making its buffer in
    /// device memory came to.
    pub fn load_bf16_matrix_with_store(
        &mut self,
        tensor: &TensorInfo,
        residency: TensorResidencyPlan,
        fill: Result<(), AegisError>,
        device: Result<(), AegisError>,
    ) -> (matrix: Result<DeviceBf16Matrix, AegisError>)
        requires
            old(self).wf(),
            tensor.shape@.len() >= 2 ==> rows_fit(tensor.shape@),
        ensures
            final(self).wf(),
            final(self).runtime == old(self).runtime,
            if tensor.dtype != TensorDType::BF16 || tensor.shape@.len() < 2 {
                &&& matrix matches Err(error)
                &&& is_shape_error(
                    error,
                    "`{}` must be a BF16 matrix (>= 2-D; got dtype={} shape={})",
                    *tensor,
                )
                &&& final(self).arena == old(self).arena
            } else if nvfp4::stays_in_host(residency) {
                &&& placed_matrix(
                    old(self).arena,
                    final(self).arena,
                    tensor.data_len_bytes as int,
                    no_arena(
                        "host-resident BF16 `{}` requires loader built with weight_loader_with_arena(...)",
                        tensor.name,
                    ),
                    match matrix {
                        Err(error) => if old(self).arena matches Some(arena)
                            && arena.spec_used() + tensor.data_len_bytes <= arena.spec_capacity() {
                            None
                        } else {
                            Some(error)
                        },
                        Ok(_) => None,
                    },
                )
                &&& (old(self).arena matches Some(arena) && arena.spec_used()
                    + tensor.data_len_bytes <= arena.spec_capacity()) ==> if fill is Err {
                    matrix == Err::<DeviceBf16Matrix, _>(fill->Err_0)
                } else if device is Err {
                    matrix == Err::<DeviceBf16Matrix, _>(device->Err_0)
                } else {
                    &&& matrix matches Ok(matrix)
                    &&& is_matrix(
                        matrix,
                        tensor.name@,
                        leading_rows(tensor.shape@),
                        tensor.shape@.last() as int,
                        residency,
                    )
                    &&& matrix.values.len() == 1
                    &&& matrix.host_values == Some(
                        HostBf16Weights {
                            offset: old(self).arena->Some_0.spec_used(),
                            values: tensor.data_len_bytes / 2,
                        },
                    )
                }
            } else {
                &&& final(self).arena == old(self).arena
                &&& if tensor.data_len_bytes % 2 != 0 {
                    matrix == Err::<DeviceBf16Matrix, _>(
                        AegisError::invalid_with(
                            "BF16 tensor `{}` has odd byte length {}",
                            Values::Two(
                                Value::Name(tensor.name),
                                Value::num(tensor.data_len_bytes as int),
                            ),
                        ),
                    )
                } else if fill is Err {
                    matrix == Err::<DeviceBf16Matrix, _>(fill->Err_0)
                } else if device is Err {
                    matrix == Err::<DeviceBf16Matrix, _>(device->Err_0)
                } else {
                    &&& matrix matches Ok(matrix)
                    &&& is_matrix(
                        matrix,
                        tensor.name@,
                        leading_rows(tensor.shape@),
                        tensor.shape@.last() as int,
                        residency,
                    )
                    &&& matrix.values.len() == tensor.data_len_bytes / 2
                    &&& matrix.host_values is None
                }
            },
    {
        if tensor.dtype != TensorDType::BF16 || tensor.shape.len() < 2 {
            return Err(
                shape_error("`{}` must be a BF16 matrix (>= 2-D; got dtype={} shape={})", tensor),
            );
        }
        let rows: usize = rows_of(&tensor.shape);
        let cols: usize = tensor.shape[tensor.shape.len() - 1];
        let host = match residency {
            TensorResidencyPlan::StagedHostToDevice { device: _ } => true,
            _ => false,
        };
        if host {
            let offset: usize = self.place(
                tensor.data_len_bytes,
                "host-resident BF16 `{}` requires loader built with weight_loader_with_arena(...)",
                &tensor.name,
            )?;
            fill?;
            device?;
            return Ok(
                DeviceBf16Matrix {
                    name: tensor.name.clone(),
                    rows,
                    cols,
                    residency,
                    values: DeviceBuffer::with_len(1),
                    host_values: Some(
                        HostBf16Weights { offset, values: tensor.data_len_bytes / 2 },
                    ),
                },
            );
        }
        if tensor.data_len_bytes % 2 != 0 {
            return Err(
                invalid_plan(
                    "BF16 tensor `{}` has odd byte length {}",
                    Values::Two(Value::Name(tensor.name.clone()), number(tensor.data_len_bytes)),
                ),
            );
        }
        fill?;
        device?;
        Ok(
            DeviceBf16Matrix {
                name: tensor.name.clone(),
                rows,
                cols,
                residency,
                values: DeviceBuffer::with_len(tensor.data_len_bytes / 2),
                host_values: None,
            },
        )
    }

    /// Whether a BF16 tensor can be loaded as a matrix of the given extents.
    pub fn check_explicit_dims(tensor: &TensorInfo, rows: usize, cols: usize) -> (answer: Result<
        (),
        AegisError,
    >)
        requires
            rows * cols <= usize::MAX,
        ensures
            answer == if tensor.dtype != TensorDType::BF16 {
                Err(
                    AegisError::invalid_with(
                        "`{}` must be BF16 for explicit-dims load (got {})",
                        Values::Two(Value::Name(tensor.name), Value::Label(tensor.dtype.label())),
                    ),
                )
            } else if rows * cols != tensor.num_elements {
                Err(
                    AegisError::invalid_with(
                        "`{}`: explicit rows*cols={} != num_elements={}",
                        Values::Three(
                            Value::Name(tensor.name),
                            Value::num(rows * cols),
                            Value::num(tensor.num_elements as int),
                        ),
                    ),
                )
            } else {
                Ok(())
            },
    {
        if tensor.dtype != TensorDType::BF16 {
            return Err(
                invalid_plan(
                    "`{}` must be BF16 for explicit-dims load (got {})",
                    Values::Two(
                        Value::Name(tensor.name.clone()),
                        Value::Label(tensor.dtype.show()),
                    ),
                ),
            );
        }
        if rows * cols != tensor.num_elements {
            return Err(
                invalid_plan(
                    "`{}`: explicit rows*cols={} != num_elements={}",
                    Values::Three(
                        Value::Name(tensor.name.clone()),
                        number(rows * cols),
                        number(tensor.num_elements),
                    ),
                ),
            );
        }
        Ok(())
    }

    /// Loads a BF16 tensor as a matrix of the given extents; `bytes` is what reading it came
    /// to, `device` what the upload came to.
    pub fn load_bf16_matrix_explicit_dims(
        &self,
        tensor: &TensorInfo,
        rows: usize,
        cols: usize,
        bytes: Result<&[u8], AegisError>,
        device: Result<(), AegisError>,
    ) -> (loaded: Result<(DeviceBf16Matrix, Vec<u16>), AegisError>)
        requires
            rows * cols <= usize::MAX,
        ensures
            if tensor.dtype != TensorDType::BF16 {
                loaded == Err::<(DeviceBf16Matrix, Vec<u16>), _>(
                    AegisError::invalid_with(
                        "`{}` must be BF16 for explicit-dims load (got {})",
                        Values::Two(Value::Name(tensor.name), Value::Label(tensor.dtype.label())),
                    ),
                )
            } else if rows * cols != tensor.num_elements {
                loaded == Err::<(DeviceBf16Matrix, Vec<u16>), _>(
                    AegisError::invalid_with(
                        "`{}`: explicit rows*cols={} != num_elements={}",
                        Values::Three(
                            Value::Name(tensor.name),
                            Value::num(rows * cols),
                            Value::num(tensor.num_elements as int),
                        ),
                    ),
                )
            } else if bytes is Err {
                loaded == Err::<(DeviceBf16Matrix, Vec<u16>), _>(bytes->Err_0)
            } else {
                let values = numeric::halves((bytes->Ok_0)@);
                match uploaded(
                    tensor.name,
                    rows,
                    cols,
                    values.len() as int,
                    device,
                ) {
                    Some(error) => loaded == Err::<(DeviceBf16Matrix, Vec<u16>), _>(error),
                    None => {
                        &&& loaded matches Ok((matrix, halves))
                        &&& halves@ == values
                        &&& is_matrix(
                            matrix,
                            tensor.name@,
                            rows as int,
                            cols as int,
                            TensorResidencyPlan::VramResident {
                                device: self.runtime.device_index,
                            },
                        )
                        &&& matrix.values.len() == rows * cols
                        &&& matrix.host_values is None
                    },
                }
            },
    {
        Self::check_explicit_dims(tensor, rows, cols)?;
        let values = numeric::bf16_values(bytes?);
        let matrix = self.bf16_matrix_from_host_u16(
            &tensor.name,
            rows,
            cols,
            values.len(),
            device,
        )?;
        Ok((matrix, values))
    }

    /// Makes a matrix in device memory of `values_len` numbers in host memory; `device` is
    /// what the upload came to.
    pub fn bf16_matrix_from_host_u16(
        &self,
        name: &String,
        rows: usize,
        cols: usize,
        values_len: usize,
        device: Result<(), AegisError>,
    ) -> (matrix: Result<DeviceBf16Matrix, AegisError>)
        requires
            rows * cols <= usize::MAX,
        ensures
            match uploaded(*name, rows, cols, values_len as int, device) {
                Some(error) => matrix == Err::<DeviceBf16Matrix, _>(error),
                None => {
                    &&& matrix matches Ok(matrix)
                    &&& is_matrix(
                        matrix,
                        name@,
                        rows as int,
                        cols as int,
                        TensorResidencyPlan::VramResident { device: self.runtime.device_index },
                    )
                    &&& matrix.values.len() == rows * cols
                    &&& matrix.host_values is None
                },
            },
    {
        if values_len != rows * cols {
            return Err(
                invalid_plan(
                    "bf16_matrix_from_host_u16(`{}`): values.len()={} != rows*cols={}",
                    Values::Three(
                        Value::Name(name.clone()),
                        number(values_len),
                        number(rows * cols),
                    ),
                ),
            );
        }
        device?;
        let index: usize = self.device_index();
        Ok(
            DeviceBf16Matrix {
                name: name.clone(),
                rows,
                cols,
                residency: TensorResidencyPlan::VramResident { device: index },
                values: DeviceBuffer::with_len(values_len),
                host_values: None,
            },
        )
    }
}

/// The refusal of an upload, if there is one.
pub open spec fn uploaded(
    name: String,
    rows: usize,
    cols: usize,
    values_len: int,
    device: Result<(), AegisError>,
) -> Option<AegisError> {
    if values_len != rows * cols {
        Some(
            AegisError::invalid_with(
                "bf16_matrix_from_host_u16(`{}`): values.len()={} != rows*cols={}",
                Values::Three(
                    Value::Name(name),
                    Value::num(values_len),
                    Value::num(rows * cols),
                ),
            ),
        )
    } else {
        match device {
            Ok(_) => None,
            Err(error) => Some(error),
        }
    }
}

/// A fused matrix, what is left of the two it was made of, and the copies that make it.
#[derive(Debug)]
pub struct FusedGateUp {
    pub fused: DeviceBf16Matrix,
    pub gate: DeviceBf16Matrix,
    pub up: DeviceBf16Matrix,
    pub plan: Plan,
}

/// The refusal of fusing two matrices, if there is one.
pub open spec fn fusion_refusal(gate: DeviceBf16Matrix, up: DeviceBf16Matrix) -> Option<AegisError> {
    let per_matrix = gate.rows * gate.cols;
    if gate.is_host_resident() || up.is_host_resident() {
        Some(
            AegisError::invalid_with(
                "fuse_bf16_gate_up requires VRAM-resident inputs; got gate.host_resident={} up.host_resident={}",
                Values::Two(
                    Value::Flag(gate.is_host_resident()),
                    Value::Flag(up.is_host_resident()),
                ),
            ),
        )
    } else if gate.rows != up.rows || gate.cols != up.cols {
        Some(
            AegisError::invalid_with(
                "fuse_bf16_gate_up shape mismatch: gate=({}, {}) up=({}, {})",
                Values::Four(
                    Value::num(gate.rows as int),
                    Value::num(gate.cols as int),
                    Value::num(up.rows as int),
                    Value::num(up.cols as int),
                ),
            ),
        )
    } else if per_matrix > usize::MAX {
        Some(AegisError::invalid("fuse gate/up elem count overflow"))
    } else if per_matrix * 2 > usize::MAX {
        Some(AegisError::invalid("fuse gate/up doubled count overflow"))
    } else if gate.values.len() < per_matrix || up.values.len() < per_matrix {
        Some(
            AegisError::invalid_with(
                "fuse_bf16_gate_up: input values too small: gate={} up={} need {}",
                Values::Three(
                    Value::num(gate.values.len() as int),
                    Value::num(up.values.len() as int),
                    Value::num(per_matrix),
                ),
            ),
        )
    } else {
        None
    }
}

/// The copies that stack one matrix on the other.
pub open spec fn stacking(per_matrix: usize) -> Seq<StepView> {
    seq![
        StepView::Copy {
            engine: Engine::Compute,
            from: Region { operand: Operand::GateValues, start: 0, end: per_matrix },
            to: Region { operand: Operand::Fused, start: 0, end: per_matrix },
            stage: "d2d fused gate copy",
        },
        StepView::Copy {
            engine: Engine::Compute,
            from: Region { operand: Operand::UpValues, start: 0, end: per_matrix },
            to: Region {
                operand: Operand::Fused,
                start: per_matrix,
                end: (per_matrix * 2) as usize,
            },
            stage: "d2d fused up copy",
        },
        StepView::Synchronize { stage: "synchronize cuda stream" },
    ]
}

/// The matrix without its values: one element stands for them.
pub open spec fn is_stub(stub: DeviceBf16Matrix, matrix: DeviceBf16Matrix) -> bool {
    &&& stub.name == matrix.name
    &&& stub.rows == matrix.rows
    &&& stub.cols == matrix.cols
    &&& stub.residency == matrix.residency
    &&& stub.host_values is None
    &&& stub.values.len() == 1
}

impl CudaWeightLoader<'_> {
    /// Stacks two matrices of the same extents in device memory, the first on top. What is
    /// left of the two keeps their name and extents.
    pub fn fuse_bf16_gate_up(
        &self,
        gate: DeviceBf16Matrix,
        up: DeviceBf16Matrix,
    ) -> (fusion: Result<FusedGateUp, AegisError>)
        requires
            gate.rows * 2 <= usize::MAX,
        ensures
            match fusion_refusal(gate, up) {
                Some(error) => fusion == Err::<FusedGateUp, _>(error),
                None => {
                    &&& fusion matches Ok(fusion)
                    &&& is_matrix(
                        fusion.fused,
                        text::trimmed_end(gate.name@, ".weight"@) + "|fused|"@ + text::trimmed_end(
                            up.name@,
                            ".weight"@,
                        ),
                        2 * gate.rows,
                        gate.cols as int,
                        gate.residency,
                    )
                    &&& fusion.fused.values.len() == gate.rows * gate.cols * 2
                    &&& fusion.fused.host_values is None
                    &&& is_stub(fusion.gate, gate)
                    &&& is_stub(fusion.up, up)
                    &&& fusion.plan@ == stacking((gate.rows * gate.cols) as usize)
                },
            },
    {
        if gate.is_host_resident() || up.is_host_resident() {
            return Err(
                invalid_plan(
                    "fuse_bf16_gate_up requires VRAM-resident inputs; got gate.host_resident={} up.host_resident={}",
                    Values::Two(
                        Value::Flag(gate.is_host_resident()),
                        Value::Flag(up.is_host_resident()),
                    ),
                ),
            );
        }
        if gate.rows != up.rows || gate.cols != up.cols {
            return Err(
                invalid_plan(
                    "fuse_bf16_gate_up shape mismatch: gate=({}, {}) up=({}, {})",
                    Values::Four(
                        number(gate.rows),
                        number(gate.cols),
                        number(up.rows),
                        number(up.cols),
                    ),
                ),
            );
        }
        let per_matrix: usize = match gate.rows.checked_mul(gate.cols) {
            Some(per_matrix) => per_matrix,
            None => {
                return Err(invalid_plan("fuse gate/up elem count overflow", Values::Zero));
            },
        };
        let fused_len: usize = match per_matrix.checked_mul(2) {
            Some(fused_len) => fused_len,
            None => {
                return Err(invalid_plan("fuse gate/up doubled count overflow", Values::Zero));
            },
        };
        if gate.values.len() < per_matrix || up.values.len() < per_matrix {
            return Err(
                invalid_plan(
                    "fuse_bf16_gate_up: input values too small: gate={} up={} need {}",
                    Values::Three(
                        number(gate.values.len()),
                        number(up.values.len()),
                        number(per_matrix),
                    ),
                ),
            );
        }
        let steps = vec![
            Step::Copy {
                engine: Engine::Compute,
                from: Region { operand: Operand::GateValues, start: 0, end: per_matrix },
                to: Region { operand: Operand::Fused, start: 0, end: per_matrix },
                stage: "d2d fused gate copy",
            },
            Step::Copy {
                engine: Engine::Compute,
                from: Region { operand: Operand::UpValues, start: 0, end: per_matrix },
                to: Region { operand: Operand::Fused, start: per_matrix, end: fused_len },
                stage: "d2d fused up copy",
            },
            Step::Synchronize { stage: "synchronize cuda stream" },
        ];
        let plan = Plan { steps };
        assert(plan@ =~= stacking(per_matrix));
        proof {
            reveal_strlit(".weight");
        }
        let name = trim_end(gate.name.as_str(), ".weight").concat("|fused|").concat(
            trim_end(up.name.as_str(), ".weight").as_str(),
        );
        Ok(
            FusedGateUp {
                fused: DeviceBf16Matrix {
                    name,
                    rows: 2 * gate.rows,
                    cols: gate.cols,
                    residency: gate.residency,
                    values: DeviceBuffer::with_len(fused_len),
                    host_values: None,
                },
                gate: DeviceBf16Matrix {
                    name: gate.name,
                    rows: gate.rows,
                    cols: gate.cols,
                    residency: gate.residency,
                    values: DeviceBuffer::with_len(1),
                    host_values: None,
                },
                up: DeviceBf16Matrix {
                    name: up.name,
                    rows: up.rows,
                    cols: up.cols,
                    residency: up.residency,
                    values: DeviceBuffer::with_len(1),
                    host_values: None,
                },
                plan,
            },
        )
    }
}

/// The refusal of a matrix with one scale per block, for its shapes, if there is one.
pub open spec fn is_block_shape_refusal(
    weight: TensorInfo,
    scale: TensorInfo,
    error: AegisError,
) -> bool {
    if weight.dtype != TensorDType::F8E4M3 || weight.shape@.len() != 2 {
        is_shape_error(
            error,
            "`{}` must be a 2-D F8_E4M3 matrix (got dtype={} shape={})",
            weight,
        )
    } else {
        &&& error matches AegisError::InvalidPlan(message)
        &&& message.text == "`{}` FP8 block-scale must be 2-D (got {})"
        &&& message.values matches Values::Two(name, shape)
        &&& name == Value::Name(scale.name)
        &&& shape matches Value::Shape(extents)
        &&& extents@ == scale.shape@
    }
}

/// The tensors are a matrix of FP8 numbers and a table of scales.
pub open spec fn has_block_shape(weight: TensorInfo, scale: TensorInfo) -> bool {
    weight.dtype == TensorDType::F8E4M3 && weight.shape@.len() == 2 && scale.shape@.len() == 2
}

/// The BF16 numbers of a matrix that was restored, row by row: as bytes for the arena, the low
/// one of each first, or as numbers for device memory.
#[derive(Debug)]
pub enum RestoredValues {
    Bytes(Vec<u8>),
    Numbers(Vec<u16>),
}

/// A matrix of `bytes` bytes has a place: in device memory, or in what the arena has left.
pub open spec fn has_place(
    arena: Option<PinnedArena>,
    residency: TensorResidencyPlan,
    bytes: int,
) -> bool {
    nvfp4::stays_in_host(residency) ==> (arena matches Some(arena) && arena.spec_used() + bytes
        <= arena.spec_capacity())
}

/// The numbers of a matrix with one scale per block, where `scales` are the bytes of its BF16
/// scales.
pub open spec fn restored(
    weight: TensorInfo,
    scale: TensorInfo,
    fp8: Seq<u8>,
    scales: Seq<u8>,
) -> Seq<u16> {
    let rows = weight.shape@[0] as int;
    let cols = weight.shape@[1] as int;
    let s_rows = scale.shape@[0] as int;
    let s_cols = scale.shape@[1] as int;
    fp8_blocks::dequantized(
        fp8,
        numeric::vector_bits(TensorDType::BF16, scales),
        rows,
        cols,
        s_cols,
        fp8_blocks::table_sides(rows, cols, s_rows, s_cols),
    )
}

fn check_block_shape(weight: &TensorInfo, scale: &TensorInfo) -> (answer: Result<(), AegisError>)
    ensures
        answer is Ok <==> has_block_shape(*weight, *scale),
        answer matches Err(error) ==> is_block_shape_refusal(*weight, *scale, error),
{
    if weight.dtype != TensorDType::F8E4M3 || weight.shape.len() != 2 {
        return Err(
            shape_error("`{}` must be a 2-D F8_E4M3 matrix (got dtype={} shape={})", weight),
        );
    }
    if scale.shape.len() != 2 {
        let mut extents: Vec<usize> = Vec::new();
        let mut i: usize = 0;
        while i < scale.shape.len()
            invariant
                i <= scale.shape@.len(),
                extents@ == scale.shape@.take(i as int),
            decreases scale.shape@.len() - i,
        {
            extents.push(scale.shape[i]);
            i += 1;
            assert(extents@ =~= scale.shape@.take(i as int));
        }
        assert(scale.shape@.take(i as int) =~= scale.shape@);
        return Err(
            invalid_plan(
                "`{}` FP8 block-scale must be 2-D (got {})",
                Values::Two(Value::Name(scale.name.clone()), Value::Shape(extents)),
            ),
        );
    }
    Ok(())
}

impl CudaWeightLoader<'_> {
    /// Loads a matrix of FP8 numbers with one scale per block as BF16 numbers, and gives the
    /// numbers. `read` is what reading the bytes of the matrix and of its scales came to,
    /// `device` what making its buffer in device memory came to.
    pub fn load_fp8_block_as_bf16_matrix(
        &mut self,
        weight: &TensorInfo,
        scale: &TensorInfo,
        residency: TensorResidencyPlan,
        read: Result<(&[u8], &[u8]), AegisError>,
        device: Result<(), AegisError>,
    ) -> (loaded: Result<(DeviceBf16Matrix, RestoredValues), AegisError>)
        requires
            old(self).wf(),
            has_block_shape(*weight, *scale) ==> weight.shape@[0] * weight.shape@[1] * 2
                <= usize::MAX,
            has_block_shape(*weight, *scale) && read is Ok ==> {
                let elements = weight.shape@[0] * weight.shape@[1];
                &&& read->Ok_0.0@.len() == elements
                &&& read->Ok_0.1@.len() == scale.shape@[0] * scale.shape@[1] * 2
                &&& elements > 0 && has_place(old(self).arena, residency, elements * 2)
                    ==> scale.shape@[0] > 0 && scale.shape@[1] > 0
            },
        ensures
            final(self).wf(),
            final(self).runtime == old(self).runtime,
            if !has_block_shape(*weight, *scale) {
                &&& loaded matches Err(error)
                &&& is_block_shape_refusal(*weight, *scale, error)
                &&& final(self).arena == old(self).arena
            } else if read is Err {
                &&& loaded == Err::<(DeviceBf16Matrix, RestoredValues), _>(read->Err_0)
                &&& final(self).arena == old(self).arena
            } else {
                let rows = weight.shape@[0];
                let cols = weight.shape@[1];
                let numbers = restored(*weight, *scale, read->Ok_0.0@, read->Ok_0.1@);
                if nvfp4::stays_in_host(residency) {
                    &&& placed_matrix(
                        old(self).arena,
                        final(self).arena,
                        rows * cols * 2,
                        no_arena(
                            "host-resident FP8 `{}` requires loader built with weight_loader_with_arena(...)",
                            weight.name,
                        ),
                        match loaded {
                            Err(error) => if old(self).arena matches Some(arena)
                                && arena.spec_used() + rows * cols * 2 <= arena.spec_capacity() {
                                None
                            } else {
                                Some(error)
                            },
                            Ok(_) => None,
                        },
                    )
                    &&& (old(self).arena matches Some(arena) && arena.spec_used() + rows * cols * 2
                        <= arena.spec_capacity()) ==> if device is Err {
                        loaded == Err::<(DeviceBf16Matrix, RestoredValues), _>(device->Err_0)
                    } else {
                        &&& loaded matches Ok((matrix, values))
                        &&& is_matrix(matrix, weight.name@, rows as int, cols as int, residency)
                        &&& matrix.values.len() == 1
                        &&& matrix.host_values == Some(
                            HostBf16Weights {
                                offset: old(self).arena->Some_0.spec_used(),
                                values: (rows * cols) as usize,
                            },
                        )
                        &&& values matches RestoredValues::Bytes(bytes)
                        &&& bytes@ == fp8_blocks::le_bytes(numbers)
                    }
                } else {
                    &&& final(self).arena == old(self).arena
                    &&& if device is Err {
                        loaded == Err::<(DeviceBf16Matrix, RestoredValues), _>(device->Err_0)
                    } else {
                        &&& loaded matches Ok((matrix, values))
                        &&& is_matrix(matrix, weight.name@, rows as int, cols as int, residency)
                        &&& matrix.values.len() == rows * cols
                        &&& matrix.host_values is None
                        &&& values matches RestoredValues::Numbers(values)
                        &&& values@ == numbers
                    }
                }
            },
    {
        check_block_shape(weight, scale)?;
        let (fp8, table) = read?;
        let rows: usize = weight.shape[0];
        let cols: usize = weight.shape[1];
        let s_rows: usize = scale.shape[0];
        let s_cols: usize = scale.shape[1];
        proof {
            assert(rows * cols <= rows * cols * 2) by (nonlinear_arith)
                requires
                    0 <= rows * cols,
            ;
        }
        let elements: usize = rows * cols;
        let (blk_r, blk_c): (usize, usize) = block_sides(rows, cols, s_rows, s_cols);
        let scales: Vec<u32> = dense_vector_bits(&scale.name, TensorDType::BF16, table)?;
        assert(scales@.len() == s_rows * s_cols);
        proof {
            if elements > 0 && s_rows > 0 && s_cols > 0 {
                assert(rows > 0 && cols > 0) by (nonlinear_arith)
                    requires
                        rows * cols > 0,
                        rows >= 0,
                        cols >= 0,
                ;
                fp8_blocks::scale_is_in_table(
                    rows - 1,
                    cols - 1,
                    rows as int,
                    cols as int,
                    s_rows as int,
                    s_cols as int,
                );
            }
        }
        let host = match residency {
            TensorResidencyPlan::StagedHostToDevice { device: _ } => true,
            _ => false,
        };
        if host {
            let offset: usize = self.place(
                elements * 2,
                "host-resident FP8 `{}` requires loader built with weight_loader_with_arena(...)",
                &weight.name,
            )?;
            device?;
            let mut bytes: Vec<u8> = vec![0u8; elements * 2];
            if elements > 0 {
                proof {
                    fp8_blocks::lemma_all_rows(rows as int, cols as int);
                }
                dequant_fp8_block_into_bf16(
                    bytes.as_mut_slice(),
                    fp8,
                    scales.as_slice(),
                    rows,
                    cols,
                    s_cols,
                    blk_r,
                    blk_c,
                );
            }
            assert(bytes@ =~= fp8_blocks::le_bytes(restored(*weight, *scale, fp8@, table@)));
            return Ok(
                (
                    DeviceBf16Matrix {
                        name: weight.name.clone(),
                        rows,
                        cols,
                        residency,
                        values: DeviceBuffer::with_len(1),
                        host_values: Some(HostBf16Weights { offset, values: elements }),
                    },
                    RestoredValues::Bytes(bytes),
                ),
            );
        }
        device?;
        proof {
            assert(rows > 0 && cols > 0 ==> rows * cols > 0) by (nonlinear_arith);
        }
        let values: Vec<u16> = dequant_fp8_block(
            fp8,
            scales.as_slice(),
            rows,
            cols,
            s_cols,
            blk_r,
            blk_c,
        );
        Ok(
            (
                DeviceBf16Matrix {
                    name: weight.name.clone(),
                    rows,
                    cols,
                    residency,
                    values: DeviceBuffer::with_len(elements),
                    host_values: None,
                },
                RestoredValues::Numbers(values),
            ),
        )
    }

    /// Loads a BF16 matrix and quantizes it to FP8 with one scale per row. `values_len` is
    /// what reading it came to: the number of its values; `device` is what making the
    /// buffers in device memory came to. The plan quantizes.
    pub fn load_bf16_as_fp8_linear(
        &self,
        tensor: &TensorInfo,
        values_len: Result<usize, AegisError>,
        device: Result<(), AegisError>,
    ) -> (loaded: Result<(StandaloneFp8Linear, Plan), AegisError>)
        ensures
            if tensor.dtype != TensorDType::BF16 || tensor.shape@.len() != 2 {
                loaded == Err::<(StandaloneFp8Linear, Plan), _>(
                    AegisError::invalid_with(
                        "`{}` must be a 2D BF16 matrix to be quantized to FP8",
                        Values::One(Value::Name(tensor.name)),
                    ),
                )
            } else {
                let rows = tensor.shape@[0];
                let cols = tensor.shape@[1];
                let total = rows * cols;
                if total > usize::MAX {
                    loaded == Err::<(StandaloneFp8Linear, Plan), _>(
                        AegisError::invalid_with(
                            "`{}` BF16→FP8 element count overflow: rows={} cols={}",
                            Values::Three(
                                Value::Name(tensor.name),
                                Value::num(rows as int),
                                Value::num(cols as int),
                            ),
                        ),
                    )
                } else if values_len is Err {
                    loaded == Err::<(StandaloneFp8Linear, Plan), _>(values_len->Err_0)
                } else if values_len->Ok_0 != total {
                    loaded == Err::<(StandaloneFp8Linear, Plan), _>(
                        AegisError::invalid_with(
                            "`{}` BF16→FP8: bf16 source size mismatch: got {} u16, expected {}",
                            Values::Three(
                                Value::Name(tensor.name),
                                Value::num(values_len->Ok_0 as int),
                                Value::num(total),
                            ),
                        ),
                    )
                } else if device is Err {
                    loaded == Err::<(StandaloneFp8Linear, Plan), _>(device->Err_0)
                } else {
                    exists|bf16: DeviceBuffer<u16>, fp8: DeviceBuffer<u8>, scales: DeviceBuffer<F32>|
                        {
                            let quantize = #[trigger] linear::quantize_fp8_steps(
                                &bf16,
                                rows,
                                cols,
                                &fp8,
                                &scales,
                            );
                            &&& bf16.len() == total && fp8.len() == total && scales.len() == rows
                            &&& match loaded {
                                Err(error) => quantize == Err::<Seq<StepView>, _>(error),
                                Ok((linear, plan)) => {
                                    &&& quantize == Ok::<_, AegisError>(plan@)
                                    &&& is_fp8(linear, tensor.name@, rows, cols, total)
                                    &&& linear.row_scales.len() == rows
                                    &&& linear.block_scales is None
                                    &&& linear.block_size == 0 && linear.scale_cols == 0
                                },
                            }
                        }
                }
            },
    {
        if tensor.dtype != TensorDType::BF16 || tensor.shape.len() != 2 {
            return Err(
                invalid_plan(
                    "`{}` must be a 2D BF16 matrix to be quantized to FP8",
                    Values::One(Value::Name(tensor.name.clone())),
                ),
            );
        }
        let rows: usize = tensor.shape[0];
        let cols: usize = tensor.shape[1];
        let total: usize = match rows.checked_mul(cols) {
            Some(total) => total,
            None => {
                return Err(
                    invalid_plan(
                        "`{}` BF16→FP8 element count overflow: rows={} cols={}",
                        Values::Three(
                            Value::Name(tensor.name.clone()),
                            number(rows),
                            number(cols),
                        ),
                    ),
                );
            },
        };
        let len: usize = values_len?;
        if len != total {
            return Err(
                invalid_plan(
                    "`{}` BF16→FP8: bf16 source size mismatch: got {} u16, expected {}",
                    Values::Three(Value::Name(tensor.name.clone()), number(len), number(total)),
                ),
            );
        }
        device?;
        let bf16: DeviceBuffer<u16> = DeviceBuffer::with_len(total);
        let fp8: DeviceBuffer<u8> = DeviceBuffer::with_len(total);
        let scales: DeviceBuffer<F32> = DeviceBuffer::with_len(rows);
        let quantize = self.runtime.quantize_bf16_to_fp8_per_row_device(
            &bf16,
            rows,
            cols,
            &fp8,
            &scales,
        );
        assert(Plan::outcome(quantize) == linear::quantize_fp8_steps(
            &bf16,
            rows,
            cols,
            &fp8,
            &scales,
        ));
        let plan = quantize?;
        Ok(
            (
                StandaloneFp8Linear {
                    name: tensor.name.clone(),
                    rows,
                    cols,
                    bytes: total,
                    data: fp8,
                    row_scales: scales,
                    block_scales: None,
                    block_size: 0,
                    scale_cols: 0,
                },
                plan,
            ),
        )
    }

    /// Loads a matrix of FP8 numbers with one scale per square block. `bytes_len` and
    /// `scales_len` are what reading it came to: the number of its bytes and of its scales;
    /// `device` is what making the buffers in device memory came to.
    pub fn load_fp8_block_linear(
        &self,
        weight: &TensorInfo,
        scale: &TensorInfo,
        bytes_len: Result<usize, AegisError>,
        scales_len: Result<usize, AegisError>,
        device: Result<(), AegisError>,
    ) -> (linear: Result<StandaloneFp8Linear, AegisError>)
        ensures
            if !has_block_shape(*weight, *scale) {
                &&& linear matches Err(error)
                &&& is_block_shape_refusal(*weight, *scale, error)
            } else {
                let rows = weight.shape@[0];
                let cols = weight.shape@[1];
                let total = rows * cols;
                let (side, width) = fp8_blocks::even_sides(
                    rows as int,
                    cols as int,
                    scale.shape@[0] as int,
                    scale.shape@[1] as int,
                );
                if total > usize::MAX {
                    linear == Err::<StandaloneFp8Linear, _>(
                        AegisError::invalid_with(
                            "`{}` FP8 element-count overflow",
                            Values::One(Value::Name(weight.name)),
                        ),
                    )
                } else if side != width {
                    linear == Err::<StandaloneFp8Linear, _>(
                        AegisError::invalid_with(
                            "`{}` FP8 block scale expects square blocks, got {}x{}",
                            Values::Three(
                                Value::Name(weight.name),
                                Value::num(side),
                                Value::num(width),
                            ),
                        ),
                    )
                } else if bytes_len is Err {
                    linear == Err::<StandaloneFp8Linear, _>(bytes_len->Err_0)
                } else if bytes_len->Ok_0 < total {
                    linear == Err::<StandaloneFp8Linear, _>(
                        AegisError::invalid_with(
                            "`{}` FP8 weight short read: {} < {}",
                            Values::Three(
                                Value::Name(weight.name),
                                Value::num(bytes_len->Ok_0 as int),
                                Value::num(total),
                            ),
                        ),
                    )
                } else if scales_len is Err {
                    linear == Err::<StandaloneFp8Linear, _>(scales_len->Err_0)
                } else if device is Err {
                    linear == Err::<StandaloneFp8Linear, _>(device->Err_0)
                } else {
                    &&& linear matches Ok(linear)
                    &&& is_fp8(linear, weight.name@, rows, cols, total)
                    &&& linear.row_scales.len() == 1
                    &&& linear.block_scales matches Some(scales)
                    &&& scales.len() == scales_len->Ok_0
                    &&& linear.block_size == (side as usize) as u32
                    &&& linear.scale_cols == scale.shape@[1] as u32
                }
            },
    {
        check_block_shape(weight, scale)?;
        let rows: usize = weight.shape[0];
        let cols: usize = weight.shape[1];
        let total: usize = match rows.checked_mul(cols) {
            Some(total) => total,
            None => {
                return Err(
                    invalid_plan(
                        "`{}` FP8 element-count overflow",
                        Values::One(Value::Name(weight.name.clone())),
                    ),
                );
            },
        };
        let (side, width): (usize, usize) = block_size(
            rows,
            cols,
            scale.shape[0],
            scale.shape[1],
        );
        if side != width {
            return Err(
                invalid_plan(
                    "`{}` FP8 block scale expects square blocks, got {}x{}",
                    Values::Three(Value::Name(weight.name.clone()), number(side), number(width)),
                ),
            );
        }
        let bytes: usize = bytes_len?;
        if bytes < total {
            return Err(
                invalid_plan(
                    "`{}` FP8 weight short read: {} < {}",
                    Values::Three(Value::Name(weight.name.clone()), number(bytes), number(total)),
                ),
            );
        }
        let scales: usize = scales_len?;
        device?;
        Ok(
            StandaloneFp8Linear {
                name: weight.name.clone(),
                rows,
                cols,
                bytes: total,
                data: DeviceBuffer::with_len(total),
                row_scales: DeviceBuffer::with_len(1),
                block_scales: Some(DeviceBuffer::with_len(scales)),
                block_size: side as u32,
                scale_cols: scale.shape[1] as u32,
            },
        )
    }

    /// Whether a tensor can be loaded as a dense vector: it is not empty.
    pub fn check_dense_vector(tensor: &TensorInfo) -> (answer: Result<(), AegisError>)
        ensures
            answer == if tensor.num_elements == 0 {
                Err(
                    AegisError::invalid_with(
                        "`{}` is empty (cannot load as a dense vector)",
                        Values::One(Value::Name(tensor.name)),
                    ),
                )
            } else {
                Ok(())
            },
    {
        if tensor.num_elements == 0 {
            return Err(
                invalid_plan(
                    "`{}` is empty (cannot load as a dense vector)",
                    Values::One(Value::Name(tensor.name.clone())),
                ),
            );
        }
        Ok(())
    }

    /// Loads a dense vector of BF16 or single-precision numbers as the bits of
    /// single-precision numbers; `bytes` is what reading it came to.
    pub fn load_dense_vector_with_store(
        &self,
        tensor: &TensorInfo,
        bytes: Result<&[u8], AegisError>,
    ) -> (values: Result<Vec<u32>, AegisError>)
        ensures
            if tensor.num_elements == 0 {
                values == Err::<Vec<u32>, _>(
                    AegisError::invalid_with(
                        "`{}` is empty (cannot load as a dense vector)",
                        Values::One(Value::Name(tensor.name)),
                    ),
                )
            } else if bytes is Err {
                values == Err::<Vec<u32>, _>(bytes->Err_0)
            } else if tensor.dtype == TensorDType::BF16 || tensor.dtype == TensorDType::F32 {
                values matches Ok(values) && values@ == numeric::vector_bits(
                    tensor.dtype,
                    (bytes->Ok_0)@,
                )
            } else {
                values == Err::<Vec<u32>, _>(
                    AegisError::invalid_with(
                        "`{}` must be BF16 or F32 vector, got {}",
                        Values::Two(Value::Name(tensor.name), Value::Label(tensor.dtype.label())),
                    ),
                )
            },
    {
        Self::check_dense_vector(tensor)?;
        let bytes = bytes?;
        numeric::dense_vector_bits(&tensor.name, tensor.dtype, bytes)
    }
}

/// The layer has these extents, a byte for each number.
pub open spec fn is_fp8(
    linear: StandaloneFp8Linear,
    name: Seq<char>,
    rows: usize,
    cols: usize,
    total: int,
) -> bool {
    &&& linear.name@ == name
    &&& linear.rows == rows
    &&& linear.cols == cols
    &&& linear.bytes == total
    &&& linear.data.len() == total
}

} // verus!
