//! The problem on which the grouped CUTLASS product is tried out: its data, and where each
//! group's share of it is.
use crate::cutlass_bridge::BridgeBuild;
use crate::error::{number, unsupported_plan, AegisError, Value, Values};
use crate::launch::{Arg, BridgeEntry, Operand, Plan, Step, StepView};
use crate::loader::numeric;
use crate::runtime::rng::{self, Rng};
use crate::runtime::{self, div_ceil, CudaRuntime};
use vstd::prelude::*;

verus! {

/// The seed of the data.
pub const SMOKE_SEED: u32 = 0xC0FF_EEEE;

/// A grouped product: group `g` multiplies `rows[g]` vectors of `k` values by `n` rows of
/// weights.
#[derive(Debug)]
pub struct GroupedProblem {
    pub rows: Vec<usize>,
    pub n: usize,
    pub k: usize,
}

/// Vectors of the first `g` groups.
pub open spec fn rows_before(rows: Seq<usize>, g: int) -> int
    decreases g,
{
    if g <= 0 {
        0
    } else {
        rows_before(rows, g - 1) + rows[g - 1]
    }
}

/// A number of rows, rounded up to tiles of 128.
pub open spec fn padded(rows: int) -> int {
    runtime::blocks(rows, 128) * 128
}

/// Rows of the first `g` groups, each rounded up to tiles of 128.
pub open spec fn padded_before(rows: Seq<usize>, g: int) -> int
    decreases g,
{
    if g <= 0 {
        0
    } else {
        padded_before(rows, g - 1) + padded(rows[g - 1] as int)
    }
}

/// The largest number of vectors of the first `g` groups.
pub open spec fn most_rows(rows: Seq<usize>, g: int) -> int
    decreases g,
{
    if g <= 0 {
        0
    } else if rows[g - 1] > most_rows(rows, g - 1) {
        rows[g - 1] as int
    } else {
        most_rows(rows, g - 1)
    }
}

impl GroupedProblem {
    /// The sizes of everything that the problem takes fit their types.
    pub open spec fn wf(&self) -> bool {
        let groups = self.rows@.len() as int;
        &&& rows_before(self.rows@, groups) <= i32::MAX
        &&& padded_before(self.rows@, groups) <= i32::MAX
        &&& groups <= u16::MAX
        &&& self.n <= u16::MAX
        &&& self.k <= u16::MAX
    }

    /// Scales per row: one for sixteen values, rounded up to four.
    pub open spec fn scale_cols(&self) -> int {
        runtime::blocks(self.k as int / 16, 4) * 4
    }

    /// Bytes of one group's weights: half a byte each.
    pub open spec fn weight_bytes(&self) -> int {
        self.n * self.k / 2
    }

    /// Bytes of one group's weight scales, as they are given.
    pub open spec fn weight_scale_bytes(&self) -> int {
        self.n * (self.k as int / 16)
    }

    /// Bytes of one group's weight scales, in whole tiles.
    pub open spec fn sfb_bytes(&self) -> int {
        padded(self.n as int) * self.scale_cols()
    }
}

/// The problem that is tried out.
pub fn smoke_problem() -> (problem: GroupedProblem)
    ensures
        problem.rows@ == seq![128usize, 256, 512, 1024],
        problem.n == 128,
        problem.k == 128,
        problem.wf(),
{
    let rows: Vec<usize> = vec![128, 256, 512, 1024];
    proof {
        reveal_with_fuel(rows_before, 5);
        reveal_with_fuel(padded_before, 5);
        assert(rows@ =~= seq![128usize, 256, 512, 1024]);
    }
    GroupedProblem { rows, n: 128, k: 128 }
}

/// Where each group's share is, in the buffers that hold all of them.
#[derive(Debug)]
pub struct GroupedLayout {
    /// The first vector of each group, and the end of the last.
    pub token_offsets: Vec<u32>,
    /// The first byte of each group's activations and of their scales.
    pub payload_offsets: Vec<u64>,
    pub sfa_offsets: Vec<u64>,
    pub payload_total: u64,
    pub sfa_total: u64,
    /// The first byte of each group's weight scales, as given and in tiles.
    pub scale_offsets: Vec<u64>,
    pub sfb_offsets: Vec<u64>,
    pub sfb_total: u64,
    /// The rows of the largest group, in whole tiles.
    pub max_padded_rows: u64,
}

/// The layout is that of the problem: groups follow each other without a gap.
pub open spec fn is_layout(layout: GroupedLayout, problem: GroupedProblem) -> bool {
    let rows = problem.rows@;
    let groups = rows.len() as int;
    let half = problem.k as int / 2;
    &&& layout.token_offsets@ == Seq::new(
        (groups + 1) as nat,
        |g: int| rows_before(rows, g) as u32,
    )
    &&& layout.payload_offsets@ == Seq::new(
        groups as nat,
        |g: int| (rows_before(rows, g) * half) as u64,
    )
    &&& layout.payload_total == rows_before(rows, groups) * half
    &&& layout.sfa_offsets@ == Seq::new(
        groups as nat,
        |g: int| (padded_before(rows, g) * problem.scale_cols()) as u64,
    )
    &&& layout.sfa_total == padded_before(rows, groups) * problem.scale_cols()
    &&& layout.scale_offsets@ == Seq::new(
        groups as nat,
        |g: int| (g * problem.weight_scale_bytes()) as u64,
    )
    &&& layout.sfb_offsets@ == Seq::new(groups as nat, |g: int| (g * problem.sfb_bytes()) as u64)
    &&& layout.sfb_total == groups * problem.sfb_bytes()
    &&& layout.max_padded_rows == padded(most_rows(rows, groups))
}

proof fn lemma_rows_grow(rows: Seq<usize>, g: int, h: int)
    requires
        0 <= g <= h <= rows.len(),
    ensures
        0 <= rows_before(rows, g) <= rows_before(rows, h),
        0 <= padded_before(rows, g) <= padded_before(rows, h),
        0 <= most_rows(rows, g) <= rows_before(rows, g),
        rows_before(rows, g) <= padded_before(rows, g),
    decreases h,
{
    if h > 0 {
        runtime::lemma_blocks(rows[h - 1] as int, 128);
        if g < h {
            lemma_rows_grow(rows, g, h - 1);
        } else {
            lemma_rows_grow(rows, g - 1, h - 1);
        }
    }
}

proof fn lemma_product_bound(a: int, b: int, limit: int, other: int)
    requires
        0 <= a <= limit,
        0 <= b <= other,
    ensures
        0 <= a * b <= limit * other,
{
    assert(0 <= a * b <= limit * other) by (nonlinear_arith)
        requires
            0 <= a <= limit,
            0 <= b <= other,
    ;
}

/// Where each group's share is.
pub fn grouped_layout(problem: &GroupedProblem) -> (layout: GroupedLayout)
    requires
        problem.wf(),
    ensures
        is_layout(layout, *problem),
{
    let groups: usize = problem.rows.len();
    let half: u64 = problem.k as u64 / 2;
    let scale_cols: u64 = div_ceil(problem.k / 16, 4) as u64 * 4;
    let ghost rows = problem.rows@;
    proof {
        runtime::lemma_blocks(problem.k as int / 16, 4);
        runtime::lemma_blocks(problem.n as int, 128);
        lemma_product_bound(problem.n as int, problem.k as int / 16, 65535, 65535);
        lemma_product_bound(padded(problem.n as int), problem.scale_cols(), 65662, 65538);
    }
    let weight_scales: u64 = problem.n as u64 * (problem.k as u64 / 16);
    let sfb: u64 = div_ceil(problem.n, 128) as u64 * 128 * scale_cols;
    let mut token_offsets: Vec<u32> = Vec::new();
    let mut payload_offsets: Vec<u64> = Vec::new();
    let mut sfa_offsets: Vec<u64> = Vec::new();
    let mut scale_offsets: Vec<u64> = Vec::new();
    let mut sfb_offsets: Vec<u64> = Vec::new();
    let mut tokens: u64 = 0;
    let mut tiles: u64 = 0;
    let mut largest: usize = 0;
    let mut g: usize = 0;
    while g < groups
        invariant
            problem.wf(),
            rows == problem.rows@,
            groups == rows.len(),
            half == problem.k as int / 2,
            scale_cols == problem.scale_cols(),
            weight_scales == problem.weight_scale_bytes(),
            sfb == problem.sfb_bytes(),
            half <= 65535,
            scale_cols <= 65538,
            weight_scales <= 4294836225,
            sfb <= 4303356156,
            g <= groups,
            tokens == rows_before(rows, g as int),
            tiles == padded_before(rows, g as int),
            largest == most_rows(rows, g as int),
            token_offsets@ == Seq::new(g as nat, |i: int| rows_before(rows, i) as u32),
            payload_offsets@ == Seq::new(
                g as nat,
                |i: int| (rows_before(rows, i) * half) as u64,
            ),
            sfa_offsets@ == Seq::new(
                g as nat,
                |i: int| (padded_before(rows, i) * problem.scale_cols()) as u64,
            ),
            scale_offsets@ == Seq::new(
                g as nat,
                |i: int| (i * problem.weight_scale_bytes()) as u64,
            ),
            sfb_offsets@ == Seq::new(g as nat, |i: int| (i * problem.sfb_bytes()) as u64),
        decreases groups - g,
    {
        proof {
            lemma_rows_grow(rows, g as int, groups as int);
            lemma_rows_grow(rows, g + 1, groups as int);
            runtime::lemma_blocks(rows[g as int] as int, 128);
            lemma_product_bound(tokens as int, half as int, u32::MAX as int, 65535);
            lemma_product_bound(tiles as int, scale_cols as int, u32::MAX as int, 65538);
            lemma_product_bound(g as int, weight_scales as int, 65535, 4294836225);
            lemma_product_bound(g as int, sfb as int, 65535, 4303356156);
        }
        token_offsets.push(tokens as u32);
        payload_offsets.push(tokens * half);
        sfa_offsets.push(tiles * scale_cols);
        scale_offsets.push(g as u64 * weight_scales);
        sfb_offsets.push(g as u64 * sfb);
        tokens = tokens + problem.rows[g] as u64;
        tiles = tiles + div_ceil(problem.rows[g], 128) as u64 * 128;
        if problem.rows[g] > largest {
            largest = problem.rows[g];
        }
        g = g + 1;
        proof {
            assert(token_offsets@ =~= Seq::new(g as nat, |i: int| rows_before(rows, i) as u32));
            assert(payload_offsets@ =~= Seq::new(
                g as nat,
                |i: int| (rows_before(rows, i) * half) as u64,
            ));
            assert(sfa_offsets@ =~= Seq::new(
                g as nat,
                |i: int| (padded_before(rows, i) * problem.scale_cols()) as u64,
            ));
            assert(scale_offsets@ =~= Seq::new(
                g as nat,
                |i: int| (i * problem.weight_scale_bytes()) as u64,
            ));
            assert(sfb_offsets@ =~= Seq::new(g as nat, |i: int| (i * problem.sfb_bytes()) as u64));
        }
    }
    proof {
        lemma_rows_grow(rows, groups as int, groups as int);
        lemma_product_bound(tokens as int, half as int, u32::MAX as int, 65535);
        lemma_product_bound(tiles as int, scale_cols as int, u32::MAX as int, 65538);
        lemma_product_bound(groups as int, sfb as int, 65535, 4303356156);
        runtime::lemma_blocks(largest as int, 128);
    }
    token_offsets.push(tokens as u32);
    assert(token_offsets@ =~= Seq::new(
        (groups + 1) as nat,
        |i: int| rows_before(rows, i) as u32,
    ));
    GroupedLayout {
        token_offsets,
        payload_offsets,
        sfa_offsets,
        payload_total: tokens * half,
        sfa_total: tiles * scale_cols,
        scale_offsets,
        sfb_offsets,
        sfb_total: groups as u64 * sfb,
        max_padded_rows: div_ceil(largest, 128) as u64 * 128,
    }
}

/// Each group's share ends where the next one begins, and the last ends where the buffers
/// end.
pub proof fn groups_tile_the_buffers(problem: GroupedProblem, g: int)
    requires
        problem.wf(),
        0 <= g < problem.rows@.len(),
    ensures
        rows_before(problem.rows@, g + 1) * (problem.k as int / 2) == rows_before(problem.rows@, g)
            * (problem.k as int / 2) + problem.rows@[g] * (problem.k as int / 2),
        padded_before(problem.rows@, g + 1) * problem.scale_cols() == padded_before(
            problem.rows@,
            g,
        ) * problem.scale_cols() + padded(problem.rows@[g] as int) * problem.scale_cols(),
{
    let half = problem.k as int / 2;
    let cols = problem.scale_cols();
    let a = rows_before(problem.rows@, g);
    let b = padded_before(problem.rows@, g);
    let m = problem.rows@[g] as int;
    let p = padded(m);
    assert((a + m) * half == a * half + m * half) by (nonlinear_arith);
    assert((b + p) * cols == b * cols + p * cols) by (nonlinear_arith);
}

/// What comes of holding the bridge's answer for a group's scale bytes against the layout.
pub open spec fn scale_bytes_answer(
    problem: GroupedProblem,
    g: int,
    helper: (usize, usize),
) -> Result<(), AegisError> {
    let sfa = padded(problem.rows@[g] as int) * problem.scale_cols();
    if sfa != helper.0 {
        Err(
            AegisError::unsupported_with(
                "expert {} SFA bytes mismatch: helper={} manual={} (m={} k={})",
                Values::Five(
                    Value::num(g),
                    Value::num(helper.0 as int),
                    Value::num(sfa),
                    Value::num(problem.rows@[g] as int),
                    Value::num(problem.k as int),
                ),
            ),
        )
    } else if problem.sfb_bytes() != helper.1 {
        Err(
            AegisError::unsupported_with(
                "expert {} SFB bytes mismatch: helper={} manual={} (n={} k={})",
                Values::Five(
                    Value::num(g),
                    Value::num(helper.1 as int),
                    Value::num(problem.sfb_bytes()),
                    Value::num(problem.n as int),
                    Value::num(problem.k as int),
                ),
            ),
        )
    } else {
        Ok(())
    }
}

/// Holds what the bridge says of a group's scale bytes against the layout.
pub fn check_scale_bytes(
    problem: &GroupedProblem,
    g: usize,
    helper: (usize, usize),
) -> (answer: Result<(), AegisError>)
    requires
        problem.wf(),
        g < problem.rows@.len(),
    ensures
        answer == scale_bytes_answer(*problem, g as int, helper),
{
    let m: usize = problem.rows[g];
    proof {
        lemma_rows_grow(problem.rows@, g + 1, problem.rows@.len() as int);
        lemma_rows_grow(problem.rows@, g as int, g + 1);
        runtime::lemma_blocks(problem.k as int / 16, 4);
        runtime::lemma_blocks(problem.n as int, 128);
        runtime::lemma_blocks(m as int, 128);
        lemma_product_bound(padded(problem.n as int), problem.scale_cols(), 65662, 65538);
        lemma_product_bound(padded(m as int), problem.scale_cols(), u32::MAX as int, 65538);
    }
    let scale_cols: u64 = div_ceil(problem.k / 16, 4) as u64 * 4;
    let sfa: u64 = div_ceil(m, 128) as u64 * 128 * scale_cols;
    let sfb: u64 = div_ceil(problem.n, 128) as u64 * 128 * scale_cols;
    if sfa != helper.0 as u64 {
        return Err(
            unsupported_plan(
                "expert {} SFA bytes mismatch: helper={} manual={} (m={} k={})",
                Values::Five(
                    number(g),
                    number(helper.0),
                    Value::Number(sfa),
                    number(m),
                    number(problem.k),
                ),
            ),
        );
    }
    if sfb != helper.1 as u64 {
        return Err(
            unsupported_plan(
                "expert {} SFB bytes mismatch: helper={} manual={} (n={} k={})",
                Values::Five(
                    number(g),
                    number(helper.1),
                    Value::Number(sfb),
                    number(problem.n),
                    number(problem.k),
                ),
            ),
        );
    }
    Ok(())
}

/// What is wrong with the bridge's answers for the groups from `g` on; the first fault
/// counts.
pub open spec fn scale_fault(
    problem: GroupedProblem,
    replies: Seq<Result<(usize, usize), String>>,
    g: int,
) -> Option<AegisError>
    decreases replies.len() - g,
{
    if g < 0 || g >= replies.len() {
        None
    } else {
        match replies[g] {
            Err(detail) => Some(
                AegisError::unsupported_with(
                    "sfa_sfb_bytes(m={},n={},k={}): {}",
                    Values::Four(
                        Value::num(problem.rows@[g] as int),
                        Value::num(problem.n as int),
                        Value::num(problem.k as int),
                        Value::Name(detail),
                    ),
                ),
            ),
            Ok(helper) => match scale_bytes_answer(problem, g, helper) {
                Err(error) => Some(error),
                Ok(()) => scale_fault(problem, replies, g + 1),
            },
        }
    }
}

/// What brings the operands of a grouped product into place: the weight scales into tiles,
/// the activations to four bits with scales of their own.
pub open spec fn prepare_steps(
    problem: GroupedProblem,
    replies: Seq<Result<(usize, usize), String>>,
) -> Result<Seq<StepView>, AegisError> {
    let groups = problem.rows@.len() as int;
    match scale_fault(problem, replies, 0) {
        Some(error) => Err(error),
        None => Ok(
            seq![
                StepView::bridging(
                    BridgeEntry::MoeGroupedSwizzleWeightScales,
                    seq![
                        Arg::Buffer(Operand::Source),
                        Arg::signed(problem.n as int),
                        Arg::signed(problem.k as int / 16),
                        Arg::signed(groups),
                        Arg::Buffer(Operand::SourceOffsets),
                        Arg::Buffer(Operand::DestinationOffsets),
                        Arg::Buffer(Operand::Destination),
                    ],
                    "swizzle_weight_scales: {}",
                    Values::Zero,
                ),
                StepView::bridging(
                    BridgeEntry::MoeGroupedQuantizeInput,
                    seq![
                        Arg::Buffer(Operand::Input),
                        Arg::signed(problem.k as int),
                        Arg::signed(groups),
                        Arg::Buffer(Operand::TokenOffsets),
                        Arg::Buffer(Operand::PayloadOffsets),
                        Arg::Buffer(Operand::ScaleOffsets),
                        Arg::signed(padded(most_rows(problem.rows@, groups))),
                        Arg::Buffer(Operand::ActivationPayload),
                        Arg::Buffer(Operand::ActivationScales),
                    ],
                    "quantize_input_grouped: {}",
                    Values::Zero,
                ),
                StepView::Synchronize { stage: "synchronize cuda stream" },
            ],
        ),
    }
}

proof fn lemma_most_rows(rows: Seq<usize>, g: int)
    requires
        0 <= g <= rows.len(),
    ensures
        0 <= padded(most_rows(rows, g)) <= padded_before(rows, g),
    decreases g,
{
    runtime::lemma_blocks(0, 128);
    if g > 0 {
        lemma_most_rows(rows, g - 1);
        lemma_rows_grow(rows, g - 1, g);
        runtime::lemma_blocks(rows[g - 1] as int, 128);
    }
}

/// Plans what brings the operands of a grouped product into place, once the bridge has said
/// for every group how many bytes its scales take.
pub fn prepare_smoke(
    problem: &GroupedProblem,
    layout: &GroupedLayout,
    replies: &Vec<Result<(usize, usize), String>>,
) -> (plan: Result<Plan, AegisError>)
    requires
        problem.wf(),
        is_layout(*layout, *problem),
        replies@.len() == problem.rows@.len(),
    ensures
        Plan::outcome(plan) =~~= prepare_steps(*problem, replies@),
{
    let groups: usize = problem.rows.len();
    let mut g: usize = 0;
    while g < groups
        invariant
            g <= groups,
            problem.wf(),
            groups == problem.rows@.len(),
            replies@.len() == groups,
            scale_fault(*problem, replies@, 0) == scale_fault(*problem, replies@, g as int),
        decreases groups - g,
    {
        match &replies[g] {
            Err(detail) => {
                return Err(
                    unsupported_plan(
                        "sfa_sfb_bytes(m={},n={},k={}): {}",
                        Values::Four(
                            number(problem.rows[g]),
                            number(problem.n),
                            number(problem.k),
                            Value::Name(detail.clone()),
                        ),
                    ),
                );
            },
            Ok(helper) => {
                check_scale_bytes(problem, g, *helper)?;
            },
        }
        g = g + 1;
    }
    proof {
        lemma_most_rows(problem.rows@, groups as int);
        lemma_rows_grow(problem.rows@, groups as int, groups as int);
    }
    let swizzle = Plan::bridge(
        BridgeEntry::MoeGroupedSwizzleWeightScales,
        vec![
            Arg::Buffer(Operand::Source),
            Arg::I32(problem.n as i32),
            Arg::I32((problem.k / 16) as i32),
            Arg::I32(groups as i32),
            Arg::Buffer(Operand::SourceOffsets),
            Arg::Buffer(Operand::DestinationOffsets),
            Arg::Buffer(Operand::Destination),
        ],
        "swizzle_weight_scales: {}",
        Values::Zero,
    );
    let quantize = Plan::bridge(
        BridgeEntry::MoeGroupedQuantizeInput,
        vec![
            Arg::Buffer(Operand::Input),
            Arg::I32(problem.k as i32),
            Arg::I32(groups as i32),
            Arg::Buffer(Operand::TokenOffsets),
            Arg::Buffer(Operand::PayloadOffsets),
            Arg::Buffer(Operand::ScaleOffsets),
            Arg::I32(layout.max_padded_rows as i32),
            Arg::Buffer(Operand::ActivationPayload),
            Arg::Buffer(Operand::ActivationScales),
        ],
        "quantize_input_grouped: {}",
        Values::Zero,
    );
    let plan = swizzle.followed_by(quantize).followed_by(
        Plan::of(Step::Synchronize { stage: "synchronize cuda stream" }),
    );
    assert(plan@ =~~= prepare_steps(*problem, replies@)->Ok_0);
    Ok(plan)
}

/// The four bytes of a number, the low one first.
pub open spec fn le_bytes(value: u32) -> Seq<u8> {
    seq![
        (value as int % 0x100) as u8,
        (value as int / 0x100 % 0x100) as u8,
        (value as int / 0x1_0000 % 0x100) as u8,
        (value as int / 0x100_0000) as u8,
    ]
}

fn push_le(bytes: &mut Vec<u8>, value: u32)
    ensures
        final(bytes)@ == old(bytes)@ + le_bytes(value),
{
    bytes.push((value % 0x100) as u8);
    bytes.push((value / 0x100 % 0x100) as u8);
    bytes.push((value / 0x1_0000 % 0x100) as u8);
    bytes.push((value / 0x100_0000) as u8);
    assert(bytes@ =~= old(bytes)@ + le_bytes(value));
}

/// One group's problem size as it stands in a slot of `slot_bytes` bytes: three numbers,
/// and zeros after them.
pub fn problem_shape_slot(m: u32, n: u32, k: u32, slot_bytes: usize) -> (slot: Result<
    Vec<u8>,
    AegisError,
>)
    ensures
        match slot {
            Ok(slot) => slot_bytes >= 12 && slot@ == le_bytes(m) + le_bytes(n) + le_bytes(k)
                + Seq::new((slot_bytes - 12) as nat, |i: int| 0u8),
            Err(error) => slot_bytes < 12 && error == AegisError::unsupported_with(
                "problem_shape slot too small: {} bytes (need ≥ 12)",
                Values::One(Value::num(slot_bytes as int)),
            ),
        },
{
    if slot_bytes < 12 {
        return Err(
            unsupported_plan(
                "problem_shape slot too small: {} bytes (need ≥ 12)",
                Values::One(number(slot_bytes)),
            ),
        );
    }
    let mut slot: Vec<u8> = Vec::new();
    push_le(&mut slot, m);
    push_le(&mut slot, n);
    push_le(&mut slot, k);
    let ghost head = le_bytes(m) + le_bytes(n) + le_bytes(k);
    assert(slot@ =~= head);
    let mut i: usize = 12;
    while i < slot_bytes
        invariant
            12 <= i <= slot_bytes,
            slot@ == head + Seq::new((i - 12) as nat, |j: int| 0u8),
        decreases slot_bytes - i,
    {
        slot.push(0);
        i += 1;
        assert(slot@ =~= head + Seq::new((i - 12) as nat, |j: int| 0u8));
    }
    Ok(slot)
}

/// The slots of the first `g` groups, one after another.
pub open spec fn shape_slots(problem: GroupedProblem, slot_bytes: int, g: int) -> Seq<u8>
    decreases g,
{
    if g <= 0 {
        Seq::empty()
    } else {
        shape_slots(problem, slot_bytes, g - 1) + le_bytes(problem.rows@[g - 1] as u32) + le_bytes(
            problem.n as u32,
        ) + le_bytes(problem.k as u32) + Seq::new((slot_bytes - 12) as nat, |i: int| 0u8)
    }
}

/// The problem sizes of all groups, each in a slot of `slot_bytes` bytes.
pub fn problem_shapes(problem: &GroupedProblem, slot_bytes: usize) -> (blob: Result<
    Vec<u8>,
    AegisError,
>)
    requires
        problem.wf(),
        problem.rows@.len() > 0,
    ensures
        match blob {
            Ok(bytes) => slot_bytes >= 12 && bytes@ == shape_slots(
                *problem,
                slot_bytes as int,
                problem.rows@.len() as int,
            ),
            Err(error) => slot_bytes < 12 && error == AegisError::unsupported_with(
                "problem_shape slot too small: {} bytes (need ≥ 12)",
                Values::One(Value::num(slot_bytes as int)),
            ),
        },
{
    let groups: usize = problem.rows.len();
    let mut blob: Vec<u8> = Vec::new();
    let mut g: usize = 0;
    while g < groups
        invariant
            g <= groups,
            problem.wf(),
            groups == problem.rows@.len(),
            g > 0 ==> slot_bytes >= 12,
            blob@ == shape_slots(*problem, slot_bytes as int, g as int),
        decreases groups - g,
    {
        proof {
            lemma_rows_grow(problem.rows@, g as int, g + 1);
            lemma_rows_grow(problem.rows@, g + 1, groups as int);
        }
        let ghost before = blob@;
        let mut slot = problem_shape_slot(
            problem.rows[g] as u32,
            problem.n as u32,
            problem.k as u32,
            slot_bytes,
        )?;
        let ghost added = slot@;
        blob.append(&mut slot);
        g = g + 1;
        assert(blob@ =~= before + added);
        assert(blob@ =~= shape_slots(*problem, slot_bytes as int, g as int));
    }
    Ok(blob)
}

/// Where the buffers of a grouped product start.
#[derive(Clone, Copy, Debug)]
pub struct GroupBases {
    pub payload: u64,
    pub weights: u64,
    pub sfa: u64,
    pub sfb: u64,
    pub output: u64,
    pub alphas: u64,
}

/// Where one group's share of each buffer starts.
#[derive(Clone, Copy, Debug, PartialEq, Eq, Structural)]
pub struct GroupPointers {
    pub a: u64,
    pub b: u64,
    pub sfa: u64,
    pub sfb: u64,
    pub d: u64,
    pub alpha: u64,
}

/// Where a group's share of each buffer starts. The output has four bytes for each number.
pub open spec fn pointers_of(problem: GroupedProblem, bases: GroupBases, g: int) -> GroupPointers {
    let rows = problem.rows@;
    GroupPointers {
        a: (bases.payload + rows_before(rows, g) * (problem.k as int / 2)) as u64,
        b: (bases.weights + g * problem.weight_bytes()) as u64,
        sfa: (bases.sfa + padded_before(rows, g) * problem.scale_cols()) as u64,
        sfb: (bases.sfb + g * problem.sfb_bytes()) as u64,
        d: (bases.output + rows_before(rows, g) * problem.n * 4) as u64,
        alpha: (bases.alphas + g * 4) as u64,
    }
}

/// The ends of the buffers are addresses.
pub open spec fn bases_fit(problem: GroupedProblem, bases: GroupBases) -> bool {
    let limit: int = 0x1_0000_0000_0000;
    &&& bases.payload < limit
    &&& bases.weights < limit
    &&& bases.sfa < limit
    &&& bases.sfb < limit
    &&& bases.output < limit
    &&& bases.alphas < limit
}

/// Where a group's share of each buffer starts.
pub fn group_pointers(
    problem: &GroupedProblem,
    layout: &GroupedLayout,
    bases: GroupBases,
    g: usize,
) -> (pointers: GroupPointers)
    requires
        problem.wf(),
        is_layout(*layout, *problem),
        bases_fit(*problem, bases),
        g < problem.rows@.len(),
    ensures
        pointers == pointers_of(*problem, bases, g as int),
{
    let ghost rows = problem.rows@;
    proof {
        let groups = rows.len() as int;
        lemma_rows_grow(rows, g as int, groups);
        runtime::lemma_blocks(problem.k as int / 16, 4);
        runtime::lemma_blocks(problem.n as int, 128);
        lemma_product_bound(problem.n as int, problem.k as int, 65535, 65535);
        lemma_product_bound(padded(problem.n as int), problem.scale_cols(), 65662, 65538);
        let tokens = rows_before(rows, g as int);
        lemma_product_bound(tokens, problem.k as int / 2, u32::MAX as int, 65535);
        lemma_product_bound(
            padded_before(rows, g as int),
            problem.scale_cols(),
            u32::MAX as int,
            65538,
        );
        lemma_product_bound(g as int, problem.weight_bytes(), 65535, 4294836225);
        lemma_product_bound(g as int, problem.sfb_bytes(), 65535, 4303356156);
        lemma_product_bound(tokens, problem.n as int, u32::MAX as int, 65535);
        assert(layout.token_offsets@[g as int] == tokens);
        assert(layout.payload_offsets@[g as int] == tokens * (problem.k as int / 2));
        assert(layout.sfa_offsets@[g as int] == padded_before(rows, g as int)
            * problem.scale_cols());
        assert(layout.sfb_offsets@[g as int] == g * problem.sfb_bytes());
    }
    let weights: u64 = problem.n as u64 * problem.k as u64 / 2;
    GroupPointers {
        a: bases.payload + layout.payload_offsets[g],
        b: bases.weights + g as u64 * weights,
        sfa: bases.sfa + layout.sfa_offsets[g],
        sfb: bases.sfb + layout.sfb_offsets[g],
        d: bases.output + layout.token_offsets[g] as u64 * problem.n as u64 * 4,
        alpha: bases.alphas + g as u64 * 4,
    }
}

/// Where every group's share of each buffer starts.
#[derive(Debug)]
pub struct PointerTables {
    pub a: Vec<u64>,
    pub b: Vec<u64>,
    pub sfa: Vec<u64>,
    pub sfb: Vec<u64>,
    pub d: Vec<u64>,
    pub alpha: Vec<u64>,
}

impl PointerTables {
    /// The tables hold the pointers of the first `groups` groups.
    pub open spec fn hold(&self, problem: GroupedProblem, bases: GroupBases, groups: int) -> bool {
        &&& self.a@ == Seq::new(groups as nat, |g: int| pointers_of(problem, bases, g).a)
        &&& self.b@ == Seq::new(groups as nat, |g: int| pointers_of(problem, bases, g).b)
        &&& self.sfa@ == Seq::new(groups as nat, |g: int| pointers_of(problem, bases, g).sfa)
        &&& self.sfb@ == Seq::new(groups as nat, |g: int| pointers_of(problem, bases, g).sfb)
        &&& self.d@ == Seq::new(groups as nat, |g: int| pointers_of(problem, bases, g).d)
        &&& self.alpha@ == Seq::new(groups as nat, |g: int| pointers_of(problem, bases, g).alpha)
    }
}

/// Where every group's share of each buffer starts.
pub fn pointer_tables(
    problem: &GroupedProblem,
    layout: &GroupedLayout,
    bases: GroupBases,
) -> (tables: PointerTables)
    requires
        problem.wf(),
        is_layout(*layout, *problem),
        bases_fit(*problem, bases),
    ensures
        tables.hold(*problem, bases, problem.rows@.len() as int),
{
    let groups: usize = problem.rows.len();
    let mut tables = PointerTables {
        a: Vec::new(),
        b: Vec::new(),
        sfa: Vec::new(),
        sfb: Vec::new(),
        d: Vec::new(),
        alpha: Vec::new(),
    };
    proof {
        assert(tables.a@ =~= Seq::new(0, |g: int| pointers_of(*problem, bases, g).a));
        assert(tables.b@ =~= Seq::new(0, |g: int| pointers_of(*problem, bases, g).b));
        assert(tables.sfa@ =~= Seq::new(0, |g: int| pointers_of(*problem, bases, g).sfa));
        assert(tables.sfb@ =~= Seq::new(0, |g: int| pointers_of(*problem, bases, g).sfb));
        assert(tables.d@ =~= Seq::new(0, |g: int| pointers_of(*problem, bases, g).d));
        assert(tables.alpha@ =~= Seq::new(0, |g: int| pointers_of(*problem, bases, g).alpha));
    }
    let mut g: usize = 0;
    while g < groups
        invariant
            g <= groups,
            groups == problem.rows@.len(),
            problem.wf(),
            is_layout(*layout, *problem),
            bases_fit(*problem, bases),
            tables.hold(*problem, bases, g as int),
        decreases groups - g,
    {
        let pointers = group_pointers(problem, layout, bases, g);
        tables.a.push(pointers.a);
        tables.b.push(pointers.b);
        tables.sfa.push(pointers.sfa);
        tables.sfb.push(pointers.sfb);
        tables.d.push(pointers.d);
        tables.alpha.push(pointers.alpha);
        g = g + 1;
        assert(tables.a@ =~= Seq::new(g as nat, |i: int| pointers_of(*problem, bases, i).a));
        assert(tables.b@ =~= Seq::new(g as nat, |i: int| pointers_of(*problem, bases, i).b));
        assert(tables.sfa@ =~= Seq::new(g as nat, |i: int| pointers_of(*problem, bases, i).sfa));
        assert(tables.sfb@ =~= Seq::new(g as nat, |i: int| pointers_of(*problem, bases, i).sfb));
        assert(tables.d@ =~= Seq::new(g as nat, |i: int| pointers_of(*problem, bases, i).d));
        assert(tables.alpha@ =~= Seq::new(
            g as nat,
            |i: int| pointers_of(*problem, bases, i).alpha,
        ));
    }
    tables
}

/// What multiplies the matrices of all groups, with nothing else in flight.
pub open spec fn run_steps(groups: int, workspace_bytes: usize) -> Seq<StepView> {
    seq![
        StepView::Synchronize { stage: "synchronize cuda stream" },
        StepView::bridging(
            BridgeEntry::MoeGroupedRun,
            seq![
                Arg::signed(groups),
                Arg::Buffer(Operand::ProblemShapes),
                Arg::Null,
                Arg::Buffer(Operand::APointers),
                Arg::Buffer(Operand::BPointers),
                Arg::Buffer(Operand::SfaPointers),
                Arg::Buffer(Operand::SfbPointers),
                Arg::Buffer(Operand::DPointers),
                Arg::Buffer(Operand::StrideA),
                Arg::Buffer(Operand::StrideB),
                Arg::Buffer(Operand::StrideD),
                Arg::Buffer(Operand::LayoutSfa),
                Arg::Buffer(Operand::LayoutSfb),
                Arg::Buffer(Operand::AlphaPointers),
                Arg::Buffer(Operand::Workspace),
                Arg::Size(workspace_bytes),
            ],
            "moe_grouped_run: {}",
            Values::Zero,
        ),
        StepView::Synchronize { stage: "synchronize cuda stream" },
    ]
}

/// Plans the product of all groups in a workspace of the size that the bridge asked for.
pub fn run_smoke(problem: &GroupedProblem, workspace_bytes: usize) -> (plan: Plan)
    requires
        problem.wf(),
    ensures
        plan@ =~~= run_steps(problem.rows@.len() as int, workspace_bytes),
{
    let run = Plan::bridge(
        BridgeEntry::MoeGroupedRun,
        vec![
            Arg::I32(problem.rows.len() as i32),
            Arg::Buffer(Operand::ProblemShapes),
            Arg::Null,
            Arg::Buffer(Operand::APointers),
            Arg::Buffer(Operand::BPointers),
            Arg::Buffer(Operand::SfaPointers),
            Arg::Buffer(Operand::SfbPointers),
            Arg::Buffer(Operand::DPointers),
            Arg::Buffer(Operand::StrideA),
            Arg::Buffer(Operand::StrideB),
            Arg::Buffer(Operand::StrideD),
            Arg::Buffer(Operand::LayoutSfa),
            Arg::Buffer(Operand::LayoutSfb),
            Arg::Buffer(Operand::AlphaPointers),
            Arg::Buffer(Operand::Workspace),
            Arg::Size(workspace_bytes),
        ],
        "moe_grouped_run: {}",
        Values::Zero,
    );
    Plan::of(Step::Synchronize { stage: "synchronize cuda stream" }).followed_by(run).followed_by(
        Plan::of(Step::Synchronize { stage: "synchronize cuda stream" }),
    )
}

/// Data for a grouped product.
#[derive(Debug)]
pub struct SmokeInputs {
    /// Activations, each a numerator over 2^24 of a number below one.
    pub activations: Vec<u32>,
    /// Weights, two to a byte, and their scales.
    pub weights: Vec<u8>,
    pub scales: Vec<u8>,
}

/// The byte of two nibbles that are drawn after `before` numbers.
pub open spec fn weight_byte(seed: u32, before: int) -> u8 {
    rng::nibble_of(rng::drawn(seed, (before + 1) as nat)) | (rng::nibble_of(
        rng::drawn(seed, (before + 2) as nat),
    ) << 4)
}

/// The data that a seed gives: activations first, then weights, then scales.
pub open spec fn is_drawn(inputs: SmokeInputs, seed: u32, activations: int, weights: int, scales: int) -> bool {
    &&& inputs.activations@ == Seq::new(
        activations as nat,
        |i: int| rng::drawn(seed, (i + 1) as nat) >> 8,
    )
    &&& inputs.weights@ == Seq::new(
        weights as nat,
        |i: int| weight_byte(seed, activations + 2 * i),
    )
    &&& inputs.scales@ == Seq::new(
        scales as nat,
        |i: int|
            rng::scale_of(rng::drawn(seed, (activations + 2 * weights + i + 1) as nat)),
    )
}

/// Draws data for a grouped product.
pub fn draw_inputs(seed: u32, activations: usize, weights: usize, scales: usize) -> (inputs: SmokeInputs)
    ensures
        is_drawn(inputs, seed, activations as int, weights as int, scales as int),
{
    let mut source = Rng(seed);
    let mut drawn_activations: Vec<u32> = Vec::new();
    let mut i: usize = 0;
    while i < activations
        invariant
            i <= activations,
            source.0 == rng::drawn(seed, i as nat),
            drawn_activations@ == Seq::new(
                i as nat,
                |j: int| rng::drawn(seed, (j + 1) as nat) >> 8,
            ),
        decreases activations - i,
    {
        drawn_activations.push(source.next_unit());
        i += 1;
        assert(drawn_activations@ =~= Seq::new(
            i as nat,
            |j: int| rng::drawn(seed, (j + 1) as nat) >> 8,
        ));
    }
    let mut drawn_weights: Vec<u8> = Vec::new();
    let mut i: usize = 0;
    while i < weights
        invariant
            i <= weights,
            source.0 == rng::drawn(seed, (activations + 2 * i) as nat),
            drawn_weights@ == Seq::new(
                i as nat,
                |j: int| weight_byte(seed, activations + 2 * j),
            ),
        decreases weights - i,
    {
        let low: u8 = source.next_nibble();
        assert(source.0 == rng::drawn(seed, (activations + 2 * i + 1) as nat));
        let high: u8 = source.next_nibble();
        assert(source.0 == rng::drawn(seed, (activations + 2 * i + 2) as nat));
        drawn_weights.push(low | (high << 4));
        i += 1;
        assert(drawn_weights@ =~= Seq::new(
            i as nat,
            |j: int| weight_byte(seed, activations + 2 * j),
        ));
    }
    let mut drawn_scales: Vec<u8> = Vec::new();
    let mut i: usize = 0;
    while i < scales
        invariant
            i <= scales,
            source.0 == rng::drawn(seed, (activations + 2 * weights + i) as nat),
            drawn_scales@ == Seq::new(
                i as nat,
                |j: int|
                    rng::scale_of(rng::drawn(seed, (activations + 2 * weights + j + 1) as nat)),
            ),
        decreases scales - i,
    {
        drawn_scales.push(source.next_ue4m3_scale());
        i += 1;
        assert(source.0 == rng::drawn(seed, (activations + 2 * weights + i) as nat));
        assert(drawn_scales@ =~= Seq::new(
            i as nat,
            |j: int|
                rng::scale_of(rng::drawn(seed, (activations + 2 * weights + j + 1) as nat)),
        ));
    }
    SmokeInputs { activations: drawn_activations, weights: drawn_weights, scales: drawn_scales }
}

/// Twice the number that four bits stand for: a sign and a magnitude.
pub open spec fn e2m1_halves(nibble: u8) -> int {
    let code = nibble as int % 8;
    let magnitude: int = if code < 4 {
        code
    } else if code == 4 {
        4
    } else if code == 5 {
        6
    } else if code == 6 {
        8
    } else {
        12
    };
    if nibble as int % 16 >= 8 {
        -magnitude
    } else {
        magnitude
    }
}

/// Twice the number that four bits stand for; bits above them do not count.
pub fn decode_e2m1_halves(nibble: u8) -> (halves: i8)
    ensures
        halves == e2m1_halves(nibble),
{
    let code: u8 = nibble % 8;
    let magnitude: i8 = if code < 4 {
        code as i8
    } else if code == 4 {
        4
    } else if code == 5 {
        6
    } else if code == 6 {
        8
    } else {
        12
    };
    if nibble % 16 >= 8 {
        -magnitude
    } else {
        magnitude
    }
}

/// The scale that a byte stands for, in units of 2^-10; the sign does not count, and the
/// pattern of no number stands for zero.
pub open spec fn ue4m3_units(byte: u8) -> int {
    let low = byte as int % 128;
    let exponent = low / 8;
    let mantissa = low % 8;
    if low == 127 {
        0
    } else if exponent == 0 {
        2 * mantissa
    } else {
        (8 + mantissa) * vstd::arithmetic::power2::pow2(exponent as nat)
    }
}

/// A scale is the E4M3 number of its byte without the sign.
pub proof fn scales_are_e4m3(byte: u8)
    requires
        byte % 128 != 127,
    ensures
        ue4m3_units(byte) == 2 * numeric::e4m3_units(byte),
{
    let exponent = (byte as int % 128) / 8;
    let mantissa = byte as int % 8;
    if exponent > 0 {
        vstd::arithmetic::power2::lemma_pow2_unfold(exponent as nat);
        let half = vstd::arithmetic::power2::pow2((exponent - 1) as nat) as int;
        assert((8 + mantissa) * (2 * half) == 2 * ((8 + mantissa) * half)) by (nonlinear_arith);
    }
}

/// The scale that a byte stands for, in units of 2^-10.
pub fn decode_ue4m3_units(byte: u8) -> (units: u32)
    ensures
        units == ue4m3_units(byte),
{
    let low: u32 = byte as u32 % 128;
    let exponent: u32 = low / 8;
    let mantissa: u32 = low % 8;
    if low == 127 {
        return 0;
    }
    if exponent == 0 {
        return 2 * mantissa;
    }
    let mut power: u32 = 1;
    let mut e: u32 = 0;
    proof {
        vstd::arithmetic::power2::lemma2_to64();
    }
    while e < exponent
        invariant
            e <= exponent <= 15,
            power == vstd::arithmetic::power2::pow2(e as nat),
            power <= 32768,
        decreases exponent - e,
    {
        proof {
            vstd::arithmetic::power2::lemma_pow2_unfold((e + 1) as nat);
            vstd::arithmetic::power2::lemma2_to64();
            if e + 1 < 15 {
                vstd::arithmetic::power2::lemma_pow2_strictly_increases((e + 1) as nat, 15);
            }
        }
        power = power * 2;
        e += 1;
    }
    proof {
        assert((8 + mantissa) * power <= 16 * 32768) by (nonlinear_arith)
            requires
                mantissa < 8,
                power <= 32768,
        ;
    }
    (8 + mantissa) * power
}

impl CudaRuntime {
    /// Whether the grouped product can be tried out: it has to be built in.
    pub fn cutlass_nvfp4_moe_grouped_smoke(&self, build: &BridgeBuild) -> (answer: Result<
        GroupedProblem,
        AegisError,
    >)
        ensures
            match answer {
                Ok(problem) => build.moe_grouped && problem.wf() && problem.rows@ == seq![
                    128usize,
                    256,
                    512,
                    1024,
                ] && problem.n == 128 && problem.k == 128,
                Err(error) => !build.moe_grouped && error == AegisError::unsupported(
                    "CUTLASS NVFP4 grouped bridge is not compiled into this build; rebuild with AEGIS_CUTLASS_NVFP4_GROUPED_BUILD=1",
                ),
            },
    {
        if !CudaRuntime::cutlass_nvfp4_moe_grouped_built(build) {
            return Err(
                unsupported_plan(
                    "CUTLASS NVFP4 grouped bridge is not compiled into this build; rebuild with AEGIS_CUTLASS_NVFP4_GROUPED_BUILD=1",
                    Values::Zero,
                ),
            );
        }
        Ok(smoke_problem())
    }
}

} // verus!
