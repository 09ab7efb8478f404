//! Layers that are not loaded as a whole from one pair of tensors: prefetched ones, parts of
//! larger ones, groups, and placeholders.
use crate::config::CudaRuntimeConfig;
use crate::error::{invalid_plan, number, AegisError, Value, Values};
use crate::loader::nvfp4::{self, scale_or_one, CutlassSizes, Nvfp4LinearSpec, ONE_BITS};
use crate::loader::tensors::ModelArtifact;
use crate::loader::CudaWeightLoader;
use crate::types::{
    DeviceBuffer, DeviceCutlassNvfp4Linear, DeviceNvfp4Linear, HostResidentWeights,
    HostWeightBytes, KernelFamily, LinearResidentLayout, TensorResidencyPlan,
};
use vstd::prelude::*;

verus! {

/// What the parts of finishing a prefetched layer that are done elsewhere came to.
#[derive(Debug)]
pub struct PrefetchedReplies {
    pub kernel_family: Result<KernelFamily, AegisError>,
    pub output_scale: Result<Option<u32>, AegisError>,
    pub input_scale: Result<Option<u32>, AegisError>,
    pub spec: Result<Nvfp4LinearSpec, AegisError>,
    /// Making the placeholders in device memory.
    pub device: Result<(), AegisError>,
}

/// The first refusal of finishing a prefetched layer, if there is one.
pub open spec fn prefetched_refusal(
    artifact: &ModelArtifact,
    prefix: &String,
    replies: PrefetchedReplies,
) -> Option<AegisError> {
    if replies.kernel_family is Err {
        Some(replies.kernel_family->Err_0)
    } else if artifact.spec_weight(prefix) is Err {
        Some(artifact.spec_weight(prefix)->Err_0)
    } else if artifact.spec_weight_scale(prefix) is Err {
        Some(artifact.spec_weight_scale(prefix)->Err_0)
    } else if replies.output_scale is Err {
        Some(replies.output_scale->Err_0)
    } else if replies.input_scale is Err {
        Some(replies.input_scale->Err_0)
    } else if replies.spec is Err {
        Some(replies.spec->Err_0)
    } else if replies.device is Err {
        Some(replies.device->Err_0)
    } else {
        None
    }
}

/// How many elements share a scale, and how many of those blocks are packed together.
#[derive(Clone, Copy, Debug, PartialEq, Eq, Structural)]
pub struct Nvfp4Blocks {
    pub block: usize,
    pub sub_block: usize,
}

/// Bytes per row of a part of a layer: of its weights, and of its scales.
pub open spec fn slice_row_bytes(prefix: &String, cols: usize, blocks: Nvfp4Blocks) -> Result<
    (usize, usize),
    AegisError,
> {
    if cols == 0 || cols % blocks.block != 0 {
        Err(
            AegisError::invalid_with(
                "NVFP4 sliced `{}` eff_logical_cols={} must be non-zero and divisible by {}",
                Values::Three(
                    Value::Name(*prefix),
                    Value::num(cols as int),
                    Value::num(blocks.block as int),
                ),
            ),
        )
    } else {
        Ok((
            (cols as int / 2) as usize,
            ((cols as int / blocks.block as int) * (blocks.block as int
                / blocks.sub_block as int)) as usize,
        ))
    }
}

/// What the parts of loading a part of a layer that are done elsewhere came to.
#[derive(Debug)]
pub struct SlicedReplies {
    pub kernel_family: Result<KernelFamily, AegisError>,
    pub output_scale: Result<Option<u32>, AegisError>,
    pub input_scale: Result<Option<u32>, AegisError>,
    /// Reading the part of the weights, and of the scales: the bytes of each.
    pub packed: Result<usize, AegisError>,
    pub scales: Result<usize, AegisError>,
    /// Placing the bytes.
    pub place: Result<(), AegisError>,
}

/// The first refusal of loading a part of a layer, if there is one.
pub open spec fn sliced_refusal(
    artifact: &ModelArtifact,
    prefix: &String,
    cols: usize,
    blocks: Nvfp4Blocks,
    replies: SlicedReplies,
) -> Option<AegisError> {
    if replies.kernel_family is Err {
        Some(replies.kernel_family->Err_0)
    } else if artifact.spec_weight(prefix) is Err {
        Some(artifact.spec_weight(prefix)->Err_0)
    } else if artifact.spec_weight_scale(prefix) is Err {
        Some(artifact.spec_weight_scale(prefix)->Err_0)
    } else if replies.output_scale is Err {
        Some(replies.output_scale->Err_0)
    } else if replies.input_scale is Err {
        Some(replies.input_scale->Err_0)
    } else if slice_row_bytes(prefix, cols, blocks) is Err {
        Some(slice_row_bytes(prefix, cols, blocks)->Err_0)
    } else if replies.packed is Err {
        Some(replies.packed->Err_0)
    } else if replies.scales is Err {
        Some(replies.scales->Err_0)
    } else if replies.place is Err {
        Some(replies.place->Err_0)
    } else {
        None
    }
}

/// A layer's bytes in host memory, as they were read, and its scales of the whole tensor as
/// bits of single precision.
#[derive(Debug)]
pub struct Nvfp4LinearHostParts {
    pub spec: Nvfp4LinearSpec,
    pub input_scale: u32,
    pub output_scale: u32,
    pub packed: Vec<u8>,
    pub scales: Vec<u8>,
}

/// What the parts of reading a layer into host memory that are done elsewhere came to.
#[derive(Debug)]
pub struct HostPartsReplies {
    pub output_scale: Result<Option<u32>, AegisError>,
    pub input_scale: Result<Option<u32>, AegisError>,
    pub spec: Result<Nvfp4LinearSpec, AegisError>,
    /// Reading weights and scales.
    pub packed: Result<Vec<u8>, AegisError>,
    pub scales: Result<Vec<u8>, AegisError>,
}

/// The first refusal of reading a layer into host memory, if there is one.
pub open spec fn host_parts_refusal(
    artifact: &ModelArtifact,
    prefix: &String,
    replies: HostPartsReplies,
) -> Option<AegisError> {
    if artifact.spec_weight(prefix) is Err {
        Some(artifact.spec_weight(prefix)->Err_0)
    } else if artifact.spec_weight_scale(prefix) is Err {
        Some(artifact.spec_weight_scale(prefix)->Err_0)
    } else if replies.output_scale is Err {
        Some(replies.output_scale->Err_0)
    } else if replies.input_scale is Err {
        Some(replies.input_scale->Err_0)
    } else if replies.spec is Err {
        Some(replies.spec->Err_0)
    } else if replies.packed is Err {
        Some(replies.packed->Err_0)
    } else if replies.scales is Err {
        Some(replies.scales->Err_0)
    } else {
        None
    }
}

/// Reads a layer into host memory.
pub fn load_nvfp4_linear_host_parts(
    artifact: &ModelArtifact,
    prefix: &String,
    replies: HostPartsReplies,
) -> (parts: Result<Nvfp4LinearHostParts, AegisError>)
    ensures
        match host_parts_refusal(artifact, prefix, replies) {
            Some(error) => parts == Err::<Nvfp4LinearHostParts, _>(error),
            None => parts == Ok::<_, AegisError>(
                Nvfp4LinearHostParts {
                    spec: replies.spec->Ok_0,
                    input_scale: nvfp4::scale_bits(replies.input_scale->Ok_0),
                    output_scale: nvfp4::scale_bits(replies.output_scale->Ok_0),
                    packed: replies.packed->Ok_0,
                    scales: replies.scales->Ok_0,
                },
            ),
        },
{
    artifact.weight(prefix)?;
    artifact.weight_scale(prefix)?;
    let output_scale: u32 = scale_or_one(replies.output_scale?);
    let input_scale: u32 = scale_or_one(replies.input_scale?);
    Ok(
        Nvfp4LinearHostParts {
            spec: replies.spec?,
            input_scale,
            output_scale,
            packed: replies.packed?,
            scales: replies.scales?,
        },
    )
}

/// Joins what three layers hold: the first, the second, the third.
pub fn join_group(q: &[u8], k: &[u8], v: &[u8]) -> (joined: Vec<u8>)
    ensures
        joined@ == q@ + k@ + v@,
{
    let mut joined: Vec<u8> = Vec::new();
    joined.extend_from_slice(q);
    joined.extend_from_slice(k);
    joined.extend_from_slice(v);
    assert(joined@ =~= q@ + k@ + v@);
    joined
}

/// What was joined comes apart again: each layer's bytes are where the lengths before it end.
pub proof fn group_comes_apart(q: Seq<u8>, k: Seq<u8>, v: Seq<u8>)
    ensures
        (q + k + v).len() == q.len() + k.len() + v.len(),
        (q + k + v).subrange(0, q.len() as int) == q,
        (q + k + v).subrange(q.len() as int, (q.len() + k.len()) as int) == k,
        (q + k + v).subrange((q.len() + k.len()) as int, (q.len() + k.len() + v.len()) as int) == v,
{
    assert((q + k + v).subrange(0, q.len() as int) =~= q);
    assert((q + k + v).subrange(q.len() as int, (q.len() + k.len()) as int) =~= k);
    assert((q + k + v).subrange(
        (q.len() + k.len()) as int,
        (q.len() + k.len() + v.len()) as int,
    ) =~= v);
}

/// A group of three layers, and what its buffers in device memory are filled with.
#[derive(Debug)]
pub struct QkvGroup {
    pub linear: DeviceNvfp4Linear,
    pub packed: Vec<u8>,
    pub scales: Vec<u8>,
}

/// What the parts of loading a group that are done elsewhere came to.
#[derive(Debug)]
pub struct GroupReplies {
    pub kernel_family: Result<KernelFamily, AegisError>,
    /// Reading each of the layers.
    pub q: Result<Nvfp4LinearHostParts, AegisError>,
    pub k: Result<Nvfp4LinearHostParts, AegisError>,
    pub v: Result<Nvfp4LinearHostParts, AegisError>,
    /// Whether the input scales are the same, and how they read.
    pub scales_agree: bool,
    pub shown_scales: (String, String, String),
    /// Repacking the bytes of the layers, joined by [`join_group`], as what
    /// [`qkv_group_spec`] says.
    pub repacked: Result<CutlassSizes, AegisError>,
    /// Making the buffers in device memory.
    pub device: Result<(), AegisError>,
}

/// Whether a group is made at all: only for CUTLASS.
pub open spec fn makes_group(config: CudaRuntimeConfig, family: KernelFamily) -> bool {
    config.cutlass_nvfp4_repack && (family == KernelFamily::CudaCutlassFp4TensorCores || family
        == KernelFamily::CudaNativeFp4TensorCores)
}

/// The refusal of a group that is too large, if it is.
pub open spec fn group_overflow(
    q: Nvfp4LinearSpec,
    k: Nvfp4LinearSpec,
    v: Nvfp4LinearSpec,
) -> Option<AegisError> {
    if q.rows + k.rows + v.rows > usize::MAX {
        Some(AegisError::invalid("CUTLASS QKV group rows overflow"))
    } else if q.packed_bytes + k.packed_bytes + v.packed_bytes > usize::MAX {
        Some(AegisError::invalid("CUTLASS QKV group packed bytes overflow"))
    } else if q.scale_bytes + k.scale_bytes + v.scale_bytes > usize::MAX {
        Some(AegisError::invalid("CUTLASS QKV group scale bytes overflow"))
    } else {
        None
    }
}

/// The first refusal of loading a group, if there is one.
pub open spec fn group_refusal(replies: GroupReplies) -> Option<AegisError> {
    let q = replies.q->Ok_0;
    let k = replies.k->Ok_0;
    let v = replies.v->Ok_0;
    if replies.q is Err {
        Some(replies.q->Err_0)
    } else if replies.k is Err {
        Some(replies.k->Err_0)
    } else if replies.v is Err {
        Some(replies.v->Err_0)
    } else if q.spec.cols != k.spec.cols || q.spec.cols != v.spec.cols {
        Some(
            AegisError::invalid_with(
                "CUTLASS QKV group shape mismatch: q={}x{} k={}x{} v={}x{}",
                Values::Six(
                    Value::num(q.spec.rows as int),
                    Value::num(q.spec.cols as int),
                    Value::num(k.spec.rows as int),
                    Value::num(k.spec.cols as int),
                    Value::num(v.spec.rows as int),
                    Value::num(v.spec.cols as int),
                ),
            ),
        )
    } else if !replies.scales_agree {
        Some(
            AegisError::invalid_with(
                "CUTLASS QKV group requires equal input scales: q={} k={} v={}",
                Values::Three(
                    Value::Name(replies.shown_scales.0),
                    Value::Name(replies.shown_scales.1),
                    Value::Name(replies.shown_scales.2),
                ),
            ),
        )
    } else if group_overflow(q.spec, k.spec, v.spec) is Some {
        group_overflow(q.spec, k.spec, v.spec)
    } else if replies.repacked is Err {
        Some(replies.repacked->Err_0)
    } else if replies.device is Err {
        Some(replies.device->Err_0)
    } else {
        None
    }
}

/// The group of three layers: their rows one after the other. Its product is not scaled.
pub open spec fn is_group(
    group: QkvGroup,
    prefixes: (Seq<char>, Seq<char>, Seq<char>),
    residency: TensorResidencyPlan,
    layout: LinearResidentLayout,
    replies: GroupReplies,
) -> bool {
    let q = replies.q->Ok_0;
    let k = replies.k->Ok_0;
    let v = replies.v->Ok_0;
    let linear = group.linear;
    &&& linear.name@ == prefixes.0 + seq!['+'] + prefixes.1 + seq!['+'] + prefixes.2
    &&& linear.rows == q.spec.rows + k.spec.rows + v.spec.rows
    &&& linear.cols == q.spec.cols
    &&& linear.packed_bytes == q.spec.packed_bytes + k.spec.packed_bytes + v.spec.packed_bytes
    &&& linear.scale_bytes == q.spec.scale_bytes + k.spec.scale_bytes + v.spec.scale_bytes
    &&& linear.kernel_family == replies.kernel_family->Ok_0
    &&& linear.resident_layout == layout
    &&& linear.residency == residency
    &&& linear.input_scale == q.input_scale
    &&& linear.output_scale == ONE_BITS
    &&& group.packed@ == q.packed@ + k.packed@ + v.packed@
    &&& group.scales@ == q.scales@ + k.scales@ + v.scales@
    &&& linear.packed.len() == group.packed@.len()
    &&& linear.scales.len() == group.scales@.len()
    &&& linear.native_mxfp4 is None
    &&& linear.host_weights is None
    &&& linear.cutlass_nvfp4 matches Some(resident)
    &&& nvfp4::is_resident(resident, replies.repacked->Ok_0)
}

/// The sum of three lengths, if it is one.
fn sum_of(a: usize, b: usize, c: usize, overflow: &'static str) -> (sum: Result<usize, AegisError>)
    ensures
        match sum {
            Ok(sum) => sum == a + b + c,
            Err(error) => a + b + c > usize::MAX && error == AegisError::invalid(overflow),
        },
{
    match a.checked_add(b) {
        Some(ab) => match ab.checked_add(c) {
            Some(sum) => Ok(sum),
            None => Err(invalid_plan(overflow, Values::Zero)),
        },
        None => Err(invalid_plan(overflow, Values::Zero)),
    }
}

/// What a group of three layers is: the rows of the first, of the second, of the third.
pub fn qkv_group_spec(
    q_prefix: &str,
    k_prefix: &str,
    v_prefix: &str,
    q: &Nvfp4LinearSpec,
    k: &Nvfp4LinearSpec,
    v: &Nvfp4LinearSpec,
) -> (spec: Result<Nvfp4LinearSpec, AegisError>)
    ensures
        match group_overflow(*q, *k, *v) {
            Some(error) => spec == Err::<Nvfp4LinearSpec, _>(error),
            None => {
                &&& spec matches Ok(spec)
                &&& spec.name@ == q_prefix@ + seq!['+'] + k_prefix@ + seq!['+'] + v_prefix@
                &&& spec.rows == q.rows + k.rows + v.rows
                &&& spec.cols == q.cols
                &&& spec.packed_bytes == q.packed_bytes + k.packed_bytes + v.packed_bytes
                &&& spec.scale_bytes == q.scale_bytes + k.scale_bytes + v.scale_bytes
            },
        },
{
    let rows: usize = sum_of(q.rows, k.rows, v.rows, "CUTLASS QKV group rows overflow")?;
    let packed_bytes: usize = sum_of(
        q.packed_bytes,
        k.packed_bytes,
        v.packed_bytes,
        "CUTLASS QKV group packed bytes overflow",
    )?;
    let scale_bytes: usize = sum_of(
        q.scale_bytes,
        k.scale_bytes,
        v.scale_bytes,
        "CUTLASS QKV group scale bytes overflow",
    )?;
    proof {
        reveal_strlit("+");
    }
    let name = q_prefix.to_owned().concat("+").concat(k_prefix).concat("+").concat(v_prefix);
    assert(name@ =~= q_prefix@ + seq!['+'] + k_prefix@ + seq!['+'] + v_prefix@);
    Ok(Nvfp4LinearSpec { name, rows, cols: q.cols, packed_bytes, scale_bytes })
}

impl CudaWeightLoader<'_> {
    /// Finishes a layer whose weights are in the arena already.
    pub fn finalize_host_nvfp4_with_prefetched(
        &self,
        artifact: &ModelArtifact,
        prefix: &String,
        residency: TensorResidencyPlan,
        packed_bytes: HostWeightBytes,
        scales_bytes: HostWeightBytes,
        replies: PrefetchedReplies,
    ) -> (linear: Result<DeviceNvfp4Linear, AegisError>)
        ensures
            match prefetched_refusal(artifact, prefix, replies) {
                Some(error) => linear == Err::<DeviceNvfp4Linear, _>(error),
                None => {
                    &&& linear matches Ok(linear)
                    &&& nvfp4::is_layer(
                        linear,
                        replies.spec->Ok_0,
                        replies.kernel_family->Ok_0,
                        LinearResidentLayout::PackedSource,
                        residency,
                    )
                    &&& nvfp4::has_scales(linear, replies.input_scale, replies.output_scale)
                    &&& nvfp4::has_buffers(linear, 1, 1)
                    &&& linear.native_mxfp4 is None
                    &&& linear.cutlass_nvfp4 is None
                    &&& linear.host_weights == Some(
                        HostResidentWeights {
                            packed: packed_bytes,
                            scales: scales_bytes,
                            native_mxfp4: None,
                        },
                    )
                },
            },
    {
        let kernel_family: KernelFamily = replies.kernel_family?;
        artifact.weight(prefix)?;
        artifact.weight_scale(prefix)?;
        let output_scale: u32 = scale_or_one(replies.output_scale?);
        let input_scale: u32 = scale_or_one(replies.input_scale?);
        let spec: Nvfp4LinearSpec = replies.spec?;
        replies.device?;
        Ok(
            DeviceNvfp4Linear {
                name: spec.name,
                rows: spec.rows,
                cols: spec.cols,
                packed_bytes: spec.packed_bytes,
                scale_bytes: spec.scale_bytes,
                input_scale,
                output_scale,
                kernel_family,
                resident_layout: LinearResidentLayout::PackedSource,
                residency,
                packed: DeviceBuffer::with_len(1),
                scales: DeviceBuffer::with_len(1),
                native_mxfp4: None,
                cutlass_nvfp4: None,
                host_weights: Some(
                    HostResidentWeights {
                        packed: packed_bytes,
                        scales: scales_bytes,
                        native_mxfp4: None,
                    },
                ),
            },
        )
    }

    /// Bytes per row of a part of a layer: of its weights, and of its scales.
    pub fn sliced_row_bytes(
        prefix: &String,
        eff_logical_cols: usize,
        blocks: Nvfp4Blocks,
    ) -> (bytes: Result<(usize, usize), AegisError>)
        requires
            blocks.block > 0,
            blocks.sub_block > 0,
            (eff_logical_cols as int / blocks.block as int) * (blocks.block as int
                / blocks.sub_block as int) <= usize::MAX,
        ensures
            bytes == slice_row_bytes(prefix, eff_logical_cols, blocks),
    {
        if eff_logical_cols == 0 || eff_logical_cols % blocks.block != 0 {
            return Err(
                invalid_plan(
                    "NVFP4 sliced `{}` eff_logical_cols={} must be non-zero and divisible by {}",
                    Values::Three(
                        Value::Name(prefix.clone()),
                        number(eff_logical_cols),
                        number(blocks.block),
                    ),
                ),
            );
        }
        let scale_cols: usize = (eff_logical_cols / blocks.block) * (blocks.block
            / blocks.sub_block);
        Ok((eff_logical_cols / 2, scale_cols))
    }

    /// Loads the leading rows and columns of a layer, laid out as they are read.
    pub fn load_nvfp4_linear_sliced_with_layout(
        &self,
        artifact: &ModelArtifact,
        prefix: &String,
        residency: TensorResidencyPlan,
        eff_rows: usize,
        eff_logical_cols: usize,
        blocks: Nvfp4Blocks,
        replies: SlicedReplies,
    ) -> (linear: Result<DeviceNvfp4Linear, AegisError>)
        requires
            blocks.block > 0,
            blocks.sub_block > 0,
            (eff_logical_cols as int / blocks.block as int) * (blocks.block as int
                / blocks.sub_block as int) <= usize::MAX,
        ensures
            match sliced_refusal(artifact, prefix, eff_logical_cols, blocks, replies) {
                Some(error) => linear == Err::<DeviceNvfp4Linear, _>(error),
                None => {
                    let packed = replies.packed->Ok_0;
                    let scales = replies.scales->Ok_0;
                    &&& linear matches Ok(linear)
                    &&& linear.name@ == prefix@
                    &&& linear.rows == eff_rows
                    &&& linear.cols == eff_logical_cols
                    &&& linear.packed_bytes == packed
                    &&& linear.scale_bytes == scales
                    &&& nvfp4::has_scales(linear, replies.input_scale, replies.output_scale)
                    &&& linear.kernel_family == replies.kernel_family->Ok_0
                    &&& linear.resident_layout == LinearResidentLayout::PackedSource
                    &&& linear.residency == residency
                    &&& linear.native_mxfp4 is None
                    &&& linear.cutlass_nvfp4 is None
                    &&& if nvfp4::stays_in_host(residency) {
                        &&& nvfp4::has_buffers(linear, 1, 1)
                        &&& linear.host_weights == Some(
                            HostResidentWeights {
                                packed: HostWeightBytes::Pinned { len: packed },
                                scales: HostWeightBytes::Pinned { len: scales },
                                native_mxfp4: None,
                            },
                        )
                    } else {
                        &&& nvfp4::has_buffers(linear, packed, scales)
                        &&& linear.host_weights is None
                    }
                },
            },
    {
        let kernel_family: KernelFamily = replies.kernel_family?;
        artifact.weight(prefix)?;
        artifact.weight_scale(prefix)?;
        let output_scale: u32 = scale_or_one(replies.output_scale?);
        let input_scale: u32 = scale_or_one(replies.input_scale?);
        Self::sliced_row_bytes(prefix, eff_logical_cols, blocks)?;
        let packed_bytes: usize = replies.packed?;
        let scale_bytes: usize = replies.scales?;
        replies.place?;
        let host = match residency {
            TensorResidencyPlan::StagedHostToDevice { device: _ } => true,
            _ => false,
        };
        Ok(
            DeviceNvfp4Linear {
                name: prefix.clone(),
                rows: eff_rows,
                cols: eff_logical_cols,
                packed_bytes,
                scale_bytes,
                input_scale,
                output_scale,
                kernel_family,
                resident_layout: LinearResidentLayout::PackedSource,
                residency,
                packed: DeviceBuffer::with_len(if host { 1 } else { packed_bytes }),
                scales: DeviceBuffer::with_len(if host { 1 } else { scale_bytes }),
                native_mxfp4: None,
                cutlass_nvfp4: None,
                host_weights: if host {
                    Some(
                        HostResidentWeights {
                            packed: HostWeightBytes::Pinned { len: packed_bytes },
                            scales: HostWeightBytes::Pinned { len: scale_bytes },
                            native_mxfp4: None,
                        },
                    )
                } else {
                    None
                },
            },
        )
    }

    /// Whether a group of projections is made; where it is not, nothing is read.
    pub fn makes_qkv_group(&self, kernel_family: KernelFamily) -> (yes: bool)
        ensures
            yes == makes_group(self.runtime.config, kernel_family),
    {
        self.runtime.config().cutlass_nvfp4_repack && (kernel_family
            == KernelFamily::CudaCutlassFp4TensorCores || kernel_family
            == KernelFamily::CudaNativeFp4TensorCores)
    }

    /// Loads the projections for queries, keys and values as one layer, their rows one after
    /// the other. The group's product is not scaled: the split that follows applies the
    /// scale of each.
    pub fn load_cutlass_qkv_group_with_layout(
        &self,
        q_prefix: &str,
        k_prefix: &str,
        v_prefix: &str,
        residency: TensorResidencyPlan,
        resident_layout: LinearResidentLayout,
        replies: GroupReplies,
    ) -> (group: Result<Option<QkvGroup>, AegisError>)
        ensures
            !self.runtime.config.cutlass_nvfp4_repack ==> group == Ok::<_, AegisError>(
                None::<QkvGroup>,
            ),
            self.runtime.config.cutlass_nvfp4_repack ==> match replies.kernel_family {
                Err(error) => group == Err::<Option<QkvGroup>, _>(error),
                Ok(family) => if !makes_group(self.runtime.config, family) {
                    group == Ok::<_, AegisError>(None::<QkvGroup>)
                } else {
                    match group_refusal(replies) {
                        Some(error) => group == Err::<Option<QkvGroup>, _>(error),
                        None => {
                            &&& group matches Ok(Some(group))
                            &&& is_group(
                                group,
                                (q_prefix@, k_prefix@, v_prefix@),
                                residency,
                                resident_layout,
                                replies,
                            )
                        },
                    }
                },
            },
    {
        if !self.runtime.config().cutlass_nvfp4_repack {
            return Ok(None);
        }
        let kernel_family: KernelFamily = replies.kernel_family?;
        if !self.makes_qkv_group(kernel_family) {
            return Ok(None);
        }
        let q: Nvfp4LinearHostParts = replies.q?;
        let k: Nvfp4LinearHostParts = replies.k?;
        let v: Nvfp4LinearHostParts = replies.v?;
        if q.spec.cols != k.spec.cols || q.spec.cols != v.spec.cols {
            return Err(
                invalid_plan(
                    "CUTLASS QKV group shape mismatch: q={}x{} k={}x{} v={}x{}",
                    Values::Six(
                        number(q.spec.rows),
                        number(q.spec.cols),
                        number(k.spec.rows),
                        number(k.spec.cols),
                        number(v.spec.rows),
                        number(v.spec.cols),
                    ),
                ),
            );
        }
        if !replies.scales_agree {
            let (q_scale, k_scale, v_scale) = replies.shown_scales;
            return Err(
                invalid_plan(
                    "CUTLASS QKV group requires equal input scales: q={} k={} v={}",
                    Values::Three(
                        Value::Name(q_scale),
                        Value::Name(k_scale),
                        Value::Name(v_scale),
                    ),
                ),
            );
        }
        let spec: Nvfp4LinearSpec = qkv_group_spec(
            q_prefix,
            k_prefix,
            v_prefix,
            &q.spec,
            &k.spec,
            &v.spec,
        )?;
        let sizes: CutlassSizes = replies.repacked?;
        replies.device?;
        let packed: Vec<u8> = join_group(
            q.packed.as_slice(),
            k.packed.as_slice(),
            v.packed.as_slice(),
        );
        let scales: Vec<u8> = join_group(
            q.scales.as_slice(),
            k.scales.as_slice(),
            v.scales.as_slice(),
        );
        let linear = DeviceNvfp4Linear {
            name: spec.name,
            rows: spec.rows,
            cols: spec.cols,
            packed_bytes: spec.packed_bytes,
            scale_bytes: spec.scale_bytes,
            input_scale: q.input_scale,
            output_scale: ONE_BITS,
            kernel_family,
            resident_layout,
            residency,
            packed: DeviceBuffer::with_len(packed.len()),
            scales: DeviceBuffer::with_len(scales.len()),
            native_mxfp4: None,
            cutlass_nvfp4: Some(
                DeviceCutlassNvfp4Linear {
                    layout: sizes.layout,
                    payload_e2m1: DeviceBuffer::with_len(sizes.payload_bytes),
                    scales_ue4m3: DeviceBuffer::with_len(sizes.scale_bytes),
                },
            ),
            host_weights: None,
        };
        Ok(Some(QkvGroup { linear, packed, scales }))
    }

    /// A layer of one row and one column that stands where a layer is never computed;
    /// `device` is what making its buffers came to.
    pub fn alloc_dummy_nvfp4_linear(
        &self,
        name: &str,
        device: Result<(), AegisError>,
    ) -> (linear: Result<DeviceNvfp4Linear, AegisError>)
        ensures
            match device {
                Err(error) => linear == Err::<DeviceNvfp4Linear, _>(error),
                Ok(_) => {
                    &&& linear matches Ok(linear)
                    &&& linear.name@ == name@
                    &&& linear.rows == 1 && linear.cols == 1
                    &&& linear.packed_bytes == 1 && linear.scale_bytes == 1
                    &&& linear.input_scale == ONE_BITS && linear.output_scale == ONE_BITS
                    &&& linear.kernel_family == KernelFamily::CpuScalar
                    &&& linear.resident_layout == LinearResidentLayout::PackedSource
                    &&& linear.residency == (TensorResidencyPlan::VramResident {
                        device: self.runtime.device_index,
                    })
                    &&& nvfp4::has_buffers(linear, 1, 1)
                    &&& linear.native_mxfp4 is None
                    &&& linear.cutlass_nvfp4 is None
                    &&& linear.host_weights is None
                },
            },
    {
        device?;
        let index: usize = self.device_index();
        Ok(
            DeviceNvfp4Linear {
                name: name.to_owned(),
                rows: 1,
                cols: 1,
                packed_bytes: 1,
                scale_bytes: 1,
                input_scale: ONE_BITS,
                output_scale: ONE_BITS,
                kernel_family: KernelFamily::CpuScalar,
                resident_layout: LinearResidentLayout::PackedSource,
                residency: TensorResidencyPlan::VramResident { device: index },
                packed: DeviceBuffer::with_len(1),
                scales: DeviceBuffer::with_len(1),
                native_mxfp4: None,
                cutlass_nvfp4: None,
                host_weights: None,
            },
        )
    }
}

} // verus!
