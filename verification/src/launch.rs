//! What is handed to the device: kernel launches with their geometry and their
//! arguments, in the order in which they are issued.
use crate::error::{AegisError, Message, Value, Values};
use crate::functions::Kernel;
use vstd::prelude::*;

verus! {

/// A device buffer, or a value that only the device reads, that takes part in a
/// launch. The caller binds each to the memory it stands for.
#[derive(Clone, Copy, Debug, PartialEq, Eq, Structural, Hash)]
pub enum Operand {
    KeyCache,
    ValueCache,
    KeyChunk,
    ValueChunk,
    Query,
    QueryHalf,
    SeqLen,
    SplitAcc,
    SplitM,
    SplitL,
    SlotMapping,
    CuQ,
    CuK,
    ContextLens,
    BlockTables,
    Output,
    Positions,
    Key,
    Value,
    /// The position of a single token, in device memory.
    Position,
    /// Device memory that stands in for a host-resident cache.
    Staging,
    /// Page-locked host memory.
    Host,
    /// Host memory that a download filled.
    Downloaded,
    /// Device memory that a copy reads.
    Source,
    /// Device memory that a copy fills.
    Destination,
    Input,
    QuantizedInput,
    InputMxfp4,
    /// Four-bit weights and their scales.
    Packed,
    Scales,
    /// The same, where they were staged.
    StagedPacked,
    StagedScales,
    StagedNative,
    /// Weights repacked for the native tensor-core kernels.
    NativeWeights,
    QNative,
    KNative,
    VNative,
    GateNative,
    UpNative,
    /// Values of a BF16 matrix in device memory, and in host memory.
    MatrixValues,
    HostMatrix,
    RowIndices,
    Fp8Data,
    Fp8RowScales,
    Fp8Out,
    RowScalesOut,
    Bf16,
    /// Queries, keys and values as one projection computes them.
    Qkv,
    QOutput,
    KOutput,
    VOutput,
    GateOutput,
    UpOutput,
    /// What a grouped product over experts reads and writes.
    PackedBase,
    ScalesBase,
    PackedOffsets,
    ScalesOffsets,
    OutputScales,
    ExpertTokenOffsets,
    PermutedInput,
    PermutedOutput,
    /// Expert numbers and routing weights, slot by slot.
    PackedTopk,
    /// Where each expert's weights and scales are, for every projection.
    GatePackedPtrs,
    UpPackedPtrs,
    DownPackedPtrs,
    GateScalePtrs,
    UpScalePtrs,
    DownScalePtrs,
    GateInScale,
    UpInScale,
    DownInScale,
    GateOutScale,
    UpOutScale,
    DownOutScale,
    /// What was gathered of them, slot by slot.
    BulkPacked,
    BulkScales,
    SlotInScale,
    SlotOutScale,
    ExpertOutput,
    /// The allocation of the expert cache.
    ExpertCache,
    /// Matrices in device memory that are stacked, and the result.
    GateValues,
    UpValues,
    Fused,
    /// Inputs and outputs in BF16.
    InputBf16,
    OutputBf16,
    /// Activations and weights that are laid out for CUTLASS, with their scales.
    ActivationPayload,
    ActivationScales,
    CutlassPayload,
    CutlassScales,
    SecondPayload,
    SecondScales,
    FirstOutput,
    SecondOutput,
    Workspace,
    /// What a grouped CUTLASS product takes: offsets of the groups, pointers into each
    /// group's matrices, and the blobs that describe them.
    TokenOffsets,
    PayloadOffsets,
    ScaleOffsets,
    SourceOffsets,
    DestinationOffsets,
    ProblemShapes,
    APointers,
    BPointers,
    SfaPointers,
    SfbPointers,
    DPointers,
    StrideA,
    StrideB,
    StrideD,
    LayoutSfa,
    LayoutSfb,
    AlphaPointers,
}

/// A real number that the device reads; only the caller knows its value.
#[derive(Clone, Copy, Debug, PartialEq, Eq, Structural, Hash)]
pub enum Scalar {
    RopeTheta,
    RopeFactor,
    RopeLowFreqFactor,
    RopeHighFreqFactor,
    RopeOriginalMaxPositions,
    RopePartialDim,
    InputScale,
    OutputScale,
    QOutputScale,
    KOutputScale,
    VOutputScale,
    GateOutputScale,
    UpOutputScale,
    FirstOutputScale,
    SecondOutputScale,
}

/// What carries out a copy.
#[derive(Clone, Copy, Debug, PartialEq, Eq, Structural)]
pub enum Engine {
    /// The compute stream.
    Compute,
    /// The transfer stream.
    Transfer,
    /// The processor.
    Processor,
}

/// The elements `start..end` of an operand.
#[derive(Clone, Copy, Debug, PartialEq, Eq, Structural)]
pub struct Region {
    pub operand: Operand,
    pub start: usize,
    pub end: usize,
}

/// One argument of a kernel launch.
#[derive(Clone, Copy, Debug, PartialEq, Eq, Structural)]
pub enum Arg {
    /// The memory bound to an operand.
    Buffer(Operand),
    /// A part of the memory bound to an operand.
    View(Region),
    /// The memory bound to an operand, from an element on.
    Tail(Operand, usize),
    /// No memory.
    Null,
    /// A 32-bit signed value.
    I32(i32),
    /// A length in bytes.
    Size(usize),
    /// A 32-bit unsigned value.
    U32(u32),
    /// A real number that the caller supplies.
    Scalar(Scalar),
}

/// Geometry of a kernel launch.
#[derive(Clone, Copy, Debug, PartialEq, Eq)]
pub struct LaunchConfig {
    pub grid_dim: (u32, u32, u32),
    pub block_dim: (u32, u32, u32),
    pub shared_mem_bytes: u32,
}

/// A kernel launch.
#[derive(Debug)]
pub struct Launch {
    pub kernel: Kernel,
    /// How the launch is called when the device refuses it.
    pub stage: &'static str,
    pub config: LaunchConfig,
    pub args: Vec<Arg>,
}

/// Functions of the CUTLASS bridge.
#[derive(Clone, Copy, Debug, PartialEq, Eq, Structural)]
pub enum BridgeEntry {
    QuantizeF32,
    SwigluQuantizeF32,
    GemmF32,
    Gemm2F32,
    MoeGroupedQuantizeInput,
    MoeGroupedSwizzleWeightScales,
    MoeGroupedRun,
}

/// A call of the CUTLASS bridge.
#[derive(Debug)]
pub struct BridgeCall {
    pub entry: BridgeEntry,
    pub args: Vec<Arg>,
    /// What is reported where the bridge fails; the last hole takes its own report.
    pub failure: Message,
}

/// Shape of a matrix product `D = op(A) * op(B)` on column-major matrices.
#[derive(Clone, Copy, Debug, PartialEq, Eq, Structural)]
pub struct GemmShape {
    pub transa: bool,
    pub transb: bool,
    pub m: u64,
    pub n: u64,
    pub k: u64,
    pub lda: i64,
    pub ldb: i64,
    pub ldc: i64,
}

/// A BF16 matrix product.
#[derive(Debug)]
pub struct GemmCall {
    pub shape: GemmShape,
    pub weights: Region,
    pub input: Region,
    pub output: Region,
    /// What is reported where the product fails; the last hole takes the cause.
    pub failure: Message,
}

/// One step of a plan.
#[derive(Debug)]
pub enum Step {
    Launch(Launch),
    /// Raise the dynamic shared-memory limit of a kernel.
    RaiseSharedLimit { kernel: Kernel, bytes: i32, stage: &'static str },
    /// Convert `len` values of `input` to half precision in `output`.
    ConvertToHalf { input: Operand, len: usize, output: Operand },
    /// Copy the elements of a region, in order, to one of the same length.
    Copy { engine: Engine, from: Region, to: Region, stage: &'static str },
    /// Make page-locked host memory accessible to the processor.
    MapHost { stage: &'static str },
    /// Widen BF16 values in page-locked host memory, which is mapped first, to
    /// single precision and upload them.
    UploadWidened { from: Region, to: Region, map: &'static str, stage: &'static str },
    /// Multiply a BF16 matrix in host memory by the input on the processor and
    /// upload the result.
    HostMatvec { rows: usize, cols: usize, stage: &'static str },
    /// Download `batch` row numbers, gather those rows of a BF16 matrix of `rows` rows
    /// and `cols` columns in host memory and upload the `output_len` values.
    GatherHostRows {
        rows: usize,
        cols: usize,
        batch: usize,
        output_len: usize,
        stage: &'static str,
    },
    /// Bring packed weights and their scales from host memory into staging.
    StageWeights { packed_bytes: usize, scale_bytes: usize },
    /// Bring repacked weights into the staging that was prepared last.
    StageNative { native_bytes: usize },
    /// Note that the kernel that reads the staging was issued. This is done even
    /// where the device refused the launch before it.
    MarkLaunched,
    /// Quantize the input to four bits.
    QuantizeInput { input: Operand, output: Operand },
    /// Allocate `packed_bytes` for the input in packed form and pack it.
    PackInput { input: Operand, packed_bytes: usize, output: Operand },
    /// Convert `len` values of `input` to BF16 in `output`.
    ConvertToBf16 { input: Operand, len: usize, output: Operand },
    /// Convert `len` BF16 values of `input` to single precision in `output`.
    ConvertFromBf16 { input: Operand, len: usize, output: Operand },
    /// Multiply two BF16 matrices.
    Gemm(GemmCall),
    /// Call the CUTLASS bridge.
    Bridge(BridgeCall),
    /// Wait until everything that was issued is done.
    Synchronize { stage: &'static str },
    /// Stop here and report the error: what follows was refused, while the
    /// steps before were already due.
    Refuse(AegisError),
}

/// Steps that are issued one after the other.
#[derive(Debug)]
pub struct Plan {
    pub steps: Vec<Step>,
}

/// A launch as contracts speak of it.
#[verifier::ext_equal]
pub struct LaunchView {
    pub kernel: Kernel,
    pub stage: &'static str,
    pub config: LaunchConfig,
    pub args: Seq<Arg>,
}

/// A bridge call as contracts speak of it.
#[verifier::ext_equal]
pub struct BridgeView {
    pub entry: BridgeEntry,
    pub args: Seq<Arg>,
    pub failure: Message,
}

/// A step as contracts speak of it.
#[verifier::ext_equal]
pub enum StepView {
    Launch(LaunchView),
    RaiseSharedLimit { kernel: Kernel, bytes: i32, stage: &'static str },
    ConvertToHalf { input: Operand, len: usize, output: Operand },
    Copy { engine: Engine, from: Region, to: Region, stage: &'static str },
    MapHost { stage: &'static str },
    UploadWidened { from: Region, to: Region, map: &'static str, stage: &'static str },
    HostMatvec { rows: usize, cols: usize, stage: &'static str },
    GatherHostRows {
        rows: usize,
        cols: usize,
        batch: usize,
        output_len: usize,
        stage: &'static str,
    },
    StageWeights { packed_bytes: usize, scale_bytes: usize },
    StageNative { native_bytes: usize },
    MarkLaunched,
    QuantizeInput { input: Operand, output: Operand },
    PackInput { input: Operand, packed_bytes: usize, output: Operand },
    ConvertToBf16 { input: Operand, len: usize, output: Operand },
    ConvertFromBf16 { input: Operand, len: usize, output: Operand },
    Gemm(GemmCall),
    Bridge(BridgeView),
    Synchronize { stage: &'static str },
    Refuse(AegisError),
}

impl View for BridgeCall {
    type V = BridgeView;

    open spec fn view(&self) -> BridgeView {
        BridgeView { entry: self.entry, args: self.args@, failure: self.failure }
    }
}

impl View for Launch {
    type V = LaunchView;

    open spec fn view(&self) -> LaunchView {
        LaunchView { kernel: self.kernel, stage: self.stage, config: self.config, args: self.args@ }
    }
}

impl View for Step {
    type V = StepView;

    open spec fn view(&self) -> StepView {
        match self {
            Step::Launch(launch) => StepView::Launch(launch@),
            Step::RaiseSharedLimit { kernel, bytes, stage } =>
                StepView::RaiseSharedLimit { kernel: *kernel, bytes: *bytes, stage: *stage },
            Step::ConvertToHalf { input, len, output } =>
                StepView::ConvertToHalf { input: *input, len: *len, output: *output },
            Step::Copy { engine, from, to, stage } =>
                StepView::Copy { engine: *engine, from: *from, to: *to, stage: *stage },
            Step::MapHost { stage } => StepView::MapHost { stage: *stage },
            Step::UploadWidened { from, to, map, stage } =>
                StepView::UploadWidened { from: *from, to: *to, map: *map, stage: *stage },
            Step::HostMatvec { rows, cols, stage } =>
                StepView::HostMatvec { rows: *rows, cols: *cols, stage: *stage },
            Step::GatherHostRows { rows, cols, batch, output_len, stage } =>
                StepView::GatherHostRows {
                    rows: *rows,
                    cols: *cols,
                    batch: *batch,
                    output_len: *output_len,
                    stage: *stage,
                },
            Step::StageWeights { packed_bytes, scale_bytes } =>
                StepView::StageWeights { packed_bytes: *packed_bytes, scale_bytes: *scale_bytes },
            Step::StageNative { native_bytes } =>
                StepView::StageNative { native_bytes: *native_bytes },
            Step::MarkLaunched => StepView::MarkLaunched,
            Step::QuantizeInput { input, output } =>
                StepView::QuantizeInput { input: *input, output: *output },
            Step::PackInput { input, packed_bytes, output } => StepView::PackInput {
                input: *input,
                packed_bytes: *packed_bytes,
                output: *output,
            },
            Step::ConvertToBf16 { input, len, output } =>
                StepView::ConvertToBf16 { input: *input, len: *len, output: *output },
            Step::ConvertFromBf16 { input, len, output } =>
                StepView::ConvertFromBf16 { input: *input, len: *len, output: *output },
            Step::Gemm(call) => StepView::Gemm(*call),
            Step::Bridge(call) => StepView::Bridge(call@),
            Step::Synchronize { stage } => StepView::Synchronize { stage: *stage },
            Step::Refuse(error) => StepView::Refuse(*error),
        }
    }
}

impl View for Plan {
    type V = Seq<StepView>;

    open spec fn view(&self) -> Seq<StepView> {
        Seq::new(self.steps@.len(), |i: int| self.steps@[i]@)
    }
}

impl Plan {
    /// The outcome of a planning call, with the plan as a sequence of steps.
    pub open spec fn outcome(result: Result<Plan, AegisError>) -> Result<Seq<StepView>, AegisError> {
        match result {
            Ok(plan) => Ok(plan@),
            Err(error) => Err(error),
        }
    }

    /// The steps `first`, and after them what `rest` came to.
    pub open spec fn spec_then(
        first: Seq<StepView>,
        rest: Result<Seq<StepView>, AegisError>,
    ) -> Seq<StepView> {
        match rest {
            Ok(steps) => first + steps,
            Err(error) => first.push(StepView::Refuse(error)),
        }
    }
}

impl LaunchConfig {
    /// The configuration with a one-dimensional block.
    pub open spec fn of(grid_x: int, grid_y: int, grid_z: int, block: int, shared: int) -> LaunchConfig {
        LaunchConfig {
            grid_dim: (grid_x as u32, grid_y as u32, grid_z as u32),
            block_dim: (block as u32, 1, 1),
            shared_mem_bytes: shared as u32,
        }
    }
}

impl StepView {
    /// A step that launches a kernel.
    pub open spec fn launching(
        kernel: Kernel,
        stage: &'static str,
        config: LaunchConfig,
        args: Seq<Arg>,
    ) -> StepView {
        StepView::Launch(LaunchView { kernel, stage, config, args })
    }
}

impl StepView {
    /// A step that calls the CUTLASS bridge.
    pub open spec fn bridging(
        entry: BridgeEntry,
        args: Seq<Arg>,
        text: &'static str,
        values: Values,
    ) -> StepView {
        StepView::Bridge(BridgeView { entry, args, failure: Message { text, values } })
    }
}

impl Message {
    /// The message with one more value, for its last hole.
    pub open spec fn spec_completed(self, detail: String) -> Message {
        Message {
            text: self.text,
            values: match self.values {
                Values::Zero => Values::One(Value::Name(detail)),
                Values::One(a) => Values::Two(a, Value::Name(detail)),
                Values::Two(a, b) => Values::Three(a, b, Value::Name(detail)),
                Values::Three(a, b, c) => Values::Four(a, b, c, Value::Name(detail)),
                Values::Four(a, b, c, d) => Values::Five(a, b, c, d, Value::Name(detail)),
                values => values,
            },
        }
    }

    /// Fills the last hole of a message that has at most four values so far.
    pub fn completed(self, detail: String) -> (message: Message)
        ensures
            message == self.spec_completed(detail),
    {
        let values = match self.values {
            Values::Zero => Values::One(Value::Name(detail)),
            Values::One(a) => Values::Two(a, Value::Name(detail)),
            Values::Two(a, b) => Values::Three(a, b, Value::Name(detail)),
            Values::Three(a, b, c) => Values::Four(a, b, c, Value::Name(detail)),
            Values::Four(a, b, c, d) => Values::Five(a, b, c, d, Value::Name(detail)),
            values => values,
        };
        Message { text: self.text, values }
    }
}

impl Arg {
    /// The argument that passes a part of a buffer.
    pub open spec fn view(operand: Operand, start: int, end: int) -> Arg {
        Arg::View(Region { operand, start: start as usize, end: end as usize })
    }

    /// The argument that passes `value` as a 32-bit signed number.
    pub open spec fn signed(value: int) -> Arg {
        Arg::I32(value as i32)
    }

    /// The argument that passes `value` as a 32-bit unsigned number.
    pub open spec fn word(value: int) -> Arg {
        Arg::U32(value as u32)
    }
}

impl Launch {
    /// The launch of `kernel` with the given geometry and arguments.
    pub fn new(kernel: Kernel, stage: &'static str, config: LaunchConfig, args: Vec<Arg>) -> (launch: Self)
        ensures
            launch@ == (LaunchView { kernel, stage, config, args: args@ }),
    {
        Launch { kernel, stage, config, args }
    }
}

impl Plan {
    /// The plan without steps.
    pub fn empty() -> (plan: Self)
        ensures
            plan@ == Seq::<StepView>::empty(),
    {
        let plan = Plan { steps: Vec::new() };
        assert(plan@ =~= Seq::<StepView>::empty());
        plan
    }

    /// The plan of a single step.
    pub fn of(step: Step) -> (plan: Self)
        ensures
            plan@ == seq![step@],
    {
        let plan = Plan { steps: vec![step] };
        assert(plan@ =~= seq![step@]);
        plan
    }

    /// The plan of a single launch.
    pub fn launch(kernel: Kernel, stage: &'static str, config: LaunchConfig, args: Vec<Arg>) -> (plan: Self)
        ensures
            plan@ == seq![StepView::launching(kernel, stage, config, args@)],
    {
        Plan::of(Step::Launch(Launch { kernel, stage, config, args }))
    }

    /// The plan of a single call of the CUTLASS bridge.
    pub fn bridge(
        entry: BridgeEntry,
        args: Vec<Arg>,
        text: &'static str,
        values: Values,
    ) -> (plan: Self)
        ensures
            plan@ == seq![StepView::bridging(entry, args@, text, values)],
    {
        Plan::of(Step::Bridge(BridgeCall { entry, args, failure: Message { text, values } }))
    }

    /// The plan of two launches, one after the other.
    pub fn launch_both(first: Launch, second: Launch) -> (plan: Self)
        ensures
            plan@ == seq![StepView::Launch(first@), StepView::Launch(second@)],
    {
        let plan = Plan { steps: vec![Step::Launch(first), Step::Launch(second)] };
        assert(plan@ =~= seq![StepView::Launch(first@), StepView::Launch(second@)]);
        plan
    }

    /// Whether staging counts as read by a kernel although the step at `failed` was refused:
    /// the step after it notes so.
    pub fn notes_launch_after(&self, failed: usize) -> (yes: bool)
        ensures
            yes == (failed + 1 < self@.len() && self@[failed + 1] == StepView::MarkLaunched),
    {
        if failed < self.steps.len() && failed + 1 < self.steps.len() {
            match self.steps[failed + 1] {
                Step::MarkLaunched => true,
                _ => false,
            }
        } else {
            false
        }
    }

    /// This plan, and after it what `rest` came to: its steps, or the refusal.
    pub fn then_outcome(self, rest: Result<Plan, AegisError>) -> (plan: Self)
        ensures
            plan@ == Plan::spec_then(self@, Plan::outcome(rest)),
    {
        match rest {
            Ok(plan) => self.followed_by(plan),
            Err(error) => {
                let plan = self.followed_by(Plan::of(Step::Refuse(error)));
                assert(plan@ =~= self@.push(StepView::Refuse(error)));
                plan
            },
        }
    }

    /// This plan followed by another one.
    pub fn followed_by(self, other: Plan) -> (plan: Self)
        ensures
            plan@ == self@ + other@,
    {
        let mut steps = self.steps;
        let mut rest = other.steps;
        steps.append(&mut rest);
        let plan = Plan { steps };
        assert(plan@ =~= self@ + other@);
        plan
    }
}

} // verus!
