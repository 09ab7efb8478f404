//! Where weights come to lie: in the memory that their placement names, and in the forms that
//! their kernels take.
use crate::config::CudaRuntimeConfig;
use crate::error::AegisError;
use crate::host_arena::PinnedArena;
use crate::loader::bf16;
use crate::loader::layers::{self, GroupReplies, QkvGroup};
use crate::loader::nvfp4::{self, Nvfp4Replies};
use crate::loader::region::{
    self, bad_name, first_prefix, is_linear_weight, loaded_region, placed_residency,
    region_prefixes, ComputePlacement, GraphRegion, GraphTensor, RegionPlacement, StoragePlacement,
};
use crate::loader::tensors::ModelArtifact;
use crate::loader::CudaWeightLoader;
use crate::text;
use crate::types::{
    DeviceBf16Matrix, DeviceNvfp4Linear, HostWeightBytes, KernelFamily, LinearResidentLayout,
    StandaloneFp8Linear, TensorResidencyPlan,
};
use vstd::prelude::*;

verus! {

/// Weights live where their placement stores them: on the device if it stores them there, and
/// in host memory, staged for each use, if it keeps them in memory or in the file.
pub proof fn weights_live_where_they_are_stored(
    device: usize,
    region: &GraphRegion,
    placement: &RegionPlacement,
)
    ensures
        placed_residency(device, region, placement) matches Ok(residency) ==> {
            &&& residency is VramResident <==> placement.store is Vram
            &&& residency is StagedHostToDevice <==> placement.store is Ram || placement.store
                is Mmap
            &&& residency matches TensorResidencyPlan::VramResident { device: at } ==> at == device
                && placement.store == (StoragePlacement::Vram { device })
            &&& residency matches TensorResidencyPlan::StagedHostToDevice { device: to } ==> to
                == device
        },
{
}

/// A region is taken exactly if the placement is its own, it is computed on this device, and
/// device memory that it is stored in is this device's.
pub proof fn own_regions_are_taken(
    device: usize,
    region: &GraphRegion,
    placement: &RegionPlacement,
)
    ensures
        placed_residency(device, region, placement) is Ok <==> {
            &&& placement.region_id@ == region.id@
            &&& placement.compute == (ComputePlacement::Cuda { device })
            &&& placement.store matches StoragePlacement::Vram { device: at } ==> at == device
        },
{
}

/// Every layer of a region that was loaded is where the residency has it: its weights are in
/// host memory if they are staged, and nowhere but on the device if not.
pub proof fn loaded_layers_are_in_place(
    before: CudaWeightLoader<'_>,
    after: CudaWeightLoader<'_>,
    artifact: &ModelArtifact,
    region: &GraphRegion,
    residency: TensorResidencyPlan,
    layout: LinearResidentLayout,
    replies: Seq<Nvfp4Replies>,
    linears: Result<Vec<DeviceNvfp4Linear>, AegisError>,
)
    requires
        loaded_region(before, after, artifact, region, residency, layout, replies, linears),
    ensures
        linears matches Ok(linears) ==> {
            &&& linears@.len() == region_prefixes(region.tensors@).len()
            &&& forall|i: int|
                #![trigger linears@[i]]
                0 <= i < linears@.len() ==> {
                    let linear = linears@[i];
                    &&& linear.residency == residency
                    &&& linear.host_weights is Some <==> residency is StagedHostToDevice
                    &&& linear.host_weights is Some ==> linear.native_mxfp4 is None
                        && linear.cutlass_nvfp4 is None && linear.packed.len() == 1
                        && linear.scales.len() == 1
                }
        },
{
}

/// A region that was loaded where its placement has it: stored in host memory or in the file,
/// every layer has its weights in host memory; stored on the device, none has.
pub proof fn placed_layers_are_in_place(
    before: CudaWeightLoader<'_>,
    after: CudaWeightLoader<'_>,
    artifact: &ModelArtifact,
    region: &GraphRegion,
    placement: &RegionPlacement,
    layout: LinearResidentLayout,
    replies: Seq<Nvfp4Replies>,
    linears: Result<Vec<DeviceNvfp4Linear>, AegisError>,
)
    requires
        placed_residency(before.runtime.device_index, region, placement) matches Ok(residency)
            && loaded_region(before, after, artifact, region, residency, layout, replies, linears),
    ensures
        linears matches Ok(linears) ==> forall|i: int|
            0 <= i < linears@.len() ==> ((#[trigger] linears@[i]).host_weights is Some
                <==> placement.store is Ram || placement.store is Mmap),
        linears matches Ok(linears) ==> forall|i: int|
            0 <= i < linears@.len() ==> ((#[trigger] linears@[i]).host_weights is None
                <==> placement.store is Vram),
{
    let residency = placed_residency(before.runtime.device_index, region, placement)->Ok_0;
    loaded_layers_are_in_place(
        before,
        after,
        artifact,
        region,
        residency,
        layout,
        replies,
        linears,
    );
}

/// So is the first layer of a region, where that alone is loaded.
pub proof fn first_layer_is_in_place(
    before: CudaWeightLoader<'_>,
    after: CudaWeightLoader<'_>,
    artifact: &ModelArtifact,
    region: &GraphRegion,
    placement: &RegionPlacement,
    layout: LinearResidentLayout,
    replies: Nvfp4Replies,
    linear: Result<Option<DeviceNvfp4Linear>, AegisError>,
)
    requires
        region::loaded_first(
            before,
            after,
            artifact,
            region,
            placement,
            layout,
            replies,
            linear,
        ),
    ensures
        linear matches Ok(Some(linear)) ==> {
            &&& linear.host_weights is Some <==> placement.store is Ram || placement.store is Mmap
            &&& linear.host_weights is None <==> placement.store is Vram
            &&& placement.compute == (ComputePlacement::Cuda {
                device: before.runtime.device_index,
            })
        },
        linear matches Ok(None) ==> first_prefix(region.tensors@) is None,
        linear is Ok ==> placement.region_id@ == region.id@,
{
}

/// Weights in host memory lie in the arena one after the other, scales directly behind the
/// weights, from where the arena was used up to before.
pub proof fn staged_weights_lie_in_a_row(
    config: CudaRuntimeConfig,
    before: Option<PinnedArena>,
    after: Option<PinnedArena>,
    artifact: &ModelArtifact,
    prefix: &String,
    device: usize,
    layout: LinearResidentLayout,
    replies: Nvfp4Replies,
    linear: DeviceNvfp4Linear,
)
    requires
        nvfp4::loaded_layer(
            config,
            before,
            after,
            artifact,
            prefix,
            TensorResidencyPlan::StagedHostToDevice { device },
            layout,
            replies,
            Ok(linear),
        ),
        before matches Some(arena) && arena.spec_used() + (artifact.spec_weight(
            prefix,
        )->Ok_0).data_len_bytes <= usize::MAX,
    ensures
        linear.host_weights matches Some(weights) && {
            &&& weights.packed matches HostWeightBytes::Arena { offset, len }
            &&& weights.scales matches HostWeightBytes::Arena { offset: next, len: rest }
            &&& offset == (before->Some_0).spec_used()
            &&& next == offset + len
            &&& len == (artifact.spec_weight(prefix)->Ok_0).data_len_bytes
            &&& rest == (artifact.spec_weight_scale(prefix)->Ok_0).data_len_bytes
            &&& after matches Some(grown)
            &&& grown.spec_used() == next + rest
        },
        linear.rows == (replies.spec->Ok_0).rows,
        linear.cols == (replies.spec->Ok_0).cols,
{
}

/// Which forms a layer is loaded in: in host memory exactly if it is staged; repacked for the
/// native kernels exactly if it is for them, the setting says so and it has no sidecar for
/// CUTLASS; for CUTLASS only on the device; and its bytes are read wherever they go to the
/// device or are repacked.
pub proof fn forms_of_a_layer(
    config: CudaRuntimeConfig,
    prefix: Seq<char>,
    family: KernelFamily,
    residency: TensorResidencyPlan,
    layout: LinearResidentLayout,
)
    ensures
        ({
            let needs = nvfp4::needs(config, prefix, family, residency, layout);
            let native_family = family is CudaNativeFp4TensorCores;
            let sidecar = config.cutlass_nvfp4_repack && nvfp4::has_sidecar(prefix);
            &&& needs.host <==> residency is StagedHostToDevice
            &&& needs.native <==> native_family && config.native_mxfp4_repack && !sidecar
            &&& needs.cutlass <==> residency is VramResident && (layout is CudaR4fE2m1Ue4m3 || family
                is CudaCutlassFp4TensorCores || native_family && sidecar)
            &&& residency is VramResident ==> needs.source
            &&& needs.native ==> needs.source
            &&& family is CudaPackedFp4 && residency is StagedHostToDevice && !(layout
                is CudaR4fE2m1Ue4m3) ==> !needs.source
        }),
{
}

/// The layers of a region are named in the order of its tensors, and the first of them is the
/// one that stands alone.
pub proof fn first_layer_comes_first(tensors: Seq<GraphTensor>)
    ensures
        region_prefixes(tensors).len() > 0 ==> first_prefix(tensors) == Some(
            region_prefixes(tensors)[0],
        ),
        first_prefix(tensors) is Some ==> region_prefixes(tensors).len() > 0,
        region_prefixes(tensors).len() == 0 && bad_name(tensors) is None ==> forall|i: int|
            0 <= i < tensors.len() ==> !is_linear_weight(#[trigger] tensors[i]),
    decreases tensors.len(),
{
    if tensors.len() > 0 {
        let rest = tensors.drop_first();
        first_layer_comes_first(rest);
        if !is_linear_weight(tensors[0]) {
            if region_prefixes(tensors).len() == 0 && bad_name(tensors) is None {
                assert forall|i: int| 0 <= i < tensors.len() implies !is_linear_weight(
                    #[trigger] tensors[i],
                ) by {
                    if i > 0 {
                        assert(rest[i - 1] == tensors[i]);
                    }
                }
            }
        }
    }
}

/// Every layer of a region is named by a tensor that holds four-bit weights of a projection,
/// whose name is that of the layer with a suffix.
pub proof fn layers_are_named_by_their_weights(tensors: Seq<GraphTensor>, j: int) -> (i: int)
    requires
        0 <= j < region_prefixes(tensors).len(),
    ensures
        j <= i < tensors.len(),
        tensors[i].info.dtype is U8,
        !(tensors[i].role is Auxiliary),
        tensors[i].info.name@ == region_prefixes(tensors)[j] + ".weight"@,
    decreases tensors.len(),
{
    let rest = tensors.drop_first();
    if is_linear_weight(tensors[0]) {
        if j == 0 {
            0
        } else {
            1 + layers_are_named_by_their_weights(rest, j - 1)
        }
    } else {
        1 + layers_are_named_by_their_weights(rest, j)
    }
}

/// A layer that was loaded is the one that its tensors describe: rows, columns and sizes are
/// theirs, the scales of the whole tensor are those that were read for the input and for the
/// output, and one that is absent is one.
pub proof fn layers_are_as_described(
    config: CudaRuntimeConfig,
    before: Option<PinnedArena>,
    after: Option<PinnedArena>,
    artifact: &ModelArtifact,
    prefix: &String,
    residency: TensorResidencyPlan,
    layout: LinearResidentLayout,
    replies: Nvfp4Replies,
    linear: DeviceNvfp4Linear,
)
    requires
        nvfp4::loaded_layer(
            config,
            before,
            after,
            artifact,
            prefix,
            residency,
            layout,
            replies,
            Ok(linear),
        ),
    ensures
        replies.spec matches Ok(spec) && {
            &&& linear.name == spec.name
            &&& linear.rows == spec.rows
            &&& linear.cols == spec.cols
            &&& linear.packed_bytes == spec.packed_bytes
            &&& linear.scale_bytes == spec.scale_bytes
        },
        replies.kernel_family == Ok::<_, AegisError>(linear.kernel_family),
        linear.residency == residency,
        residency is VramResident ==> linear.resident_layout == layout,
        residency is StagedHostToDevice ==> linear.resident_layout is PackedSource,
        replies.input_scale matches Ok(read) && (read matches Some(bits) ==> linear.input_scale
            == bits) && (read is None ==> linear.input_scale == 0x3F80_0000),
        replies.output_scale matches Ok(read) && (read matches Some(bits) ==> linear.output_scale
            == bits) && (read is None ==> linear.output_scale == 0x3F80_0000),
        artifact.spec_weight(prefix) is Ok && artifact.spec_weight_scale(prefix) is Ok,
{
}

/// On the device, a layer has the bytes that were read, and each form that it was repacked to
/// with the sizes that repacking gave; native rows are whole blocks of 32.
pub proof fn device_layers_have_their_forms(
    config: CudaRuntimeConfig,
    before: Option<PinnedArena>,
    after: Option<PinnedArena>,
    artifact: &ModelArtifact,
    prefix: &String,
    device: usize,
    layout: LinearResidentLayout,
    replies: Nvfp4Replies,
    linear: DeviceNvfp4Linear,
)
    requires
        nvfp4::loaded_layer(
            config,
            before,
            after,
            artifact,
            prefix,
            TensorResidencyPlan::VramResident { device },
            layout,
            replies,
            Ok(linear),
        ),
    ensures
        after == before,
        replies.source matches Ok((packed, scales)) && linear.packed.len() == packed
            && linear.scales.len() == scales,
        linear.native_mxfp4 is Some <==> linear.kernel_family is CudaNativeFp4TensorCores
            && config.native_mxfp4_repack && !(config.cutlass_nvfp4_repack && nvfp4::has_sidecar(
            prefix@,
        )),
        linear.native_mxfp4 matches Some(native) ==> 32 * native.blocks_per_row == linear.cols
            && replies.native == Ok::<_, AegisError>(native.bytes) && native.data.len()
            == native.bytes,
        linear.cutlass_nvfp4 matches Some(resident) ==> (replies.cutlass matches Ok(sizes)
            && resident.layout == sizes.layout && resident.payload_e2m1.len()
            == sizes.payload_bytes && resident.scales_ue4m3.len() == sizes.scale_bytes),
        linear.cutlass_nvfp4 is Some <==> layout is CudaR4fE2m1Ue4m3 || linear.kernel_family
            is CudaCutlassFp4TensorCores || (linear.kernel_family is CudaNativeFp4TensorCores
            && config.cutlass_nvfp4_repack && nvfp4::has_sidecar(prefix@)),
{
}

/// The layers with a form for CUTLASS beside the native one are the output projection of
/// attention and the three of the feed-forward block.
pub proof fn sidecars_are_for_large_projections(layer: Seq<char>)
    ensures
        nvfp4::has_sidecar(layer + ".self_attn.o_proj"@),
        nvfp4::has_sidecar(layer + ".mlp.gate_proj"@),
        nvfp4::has_sidecar(layer + ".mlp.up_proj"@),
        nvfp4::has_sidecar(layer + ".mlp.down_proj"@),
        !nvfp4::has_sidecar(layer + ".self_attn.q_proj"@),
        !nvfp4::has_sidecar(layer + ".self_attn.k_proj"@),
        !nvfp4::has_sidecar(layer + ".self_attn.v_proj"@),
{
    super::loading::suffixes_come_off(layer, ".self_attn.o_proj"@);
    super::loading::suffixes_come_off(layer, ".mlp.gate_proj"@);
    super::loading::suffixes_come_off(layer, ".mlp.up_proj"@);
    super::loading::suffixes_come_off(layer, ".mlp.down_proj"@);
    reveal_strlit(".self_attn.o_proj");
    reveal_strlit(".self_attn.q_proj");
    reveal_strlit(".self_attn.k_proj");
    reveal_strlit(".self_attn.v_proj");
    reveal_strlit(".mlp.gate_proj");
    reveal_strlit(".mlp.up_proj");
    reveal_strlit(".mlp.down_proj");
    lemma_no_sidecar(layer + ".self_attn.q_proj"@, 'q');
    lemma_no_sidecar(layer + ".self_attn.k_proj"@, 'k');
    lemma_no_sidecar(layer + ".self_attn.v_proj"@, 'v');
}

/// The letter before `_proj` tells the projections apart.
proof fn lemma_no_sidecar(name: Seq<char>, letter: char)
    requires
        name.len() >= 6,
        name[name.len() - 6] == letter,
        letter != 'o' && letter != 'e' && letter != 'p' && letter != 'n',
    ensures
        !nvfp4::has_sidecar(name),
{
    reveal_strlit(".self_attn.o_proj");
    reveal_strlit(".mlp.gate_proj");
    reveal_strlit(".mlp.up_proj");
    reveal_strlit(".mlp.down_proj");
    lemma_letter(name, ".self_attn.o_proj"@, 'o');
    lemma_letter(name, ".mlp.gate_proj"@, 'e');
    lemma_letter(name, ".mlp.up_proj"@, 'p');
    lemma_letter(name, ".mlp.down_proj"@, 'n');
}

proof fn lemma_letter(name: Seq<char>, suffix: Seq<char>, letter: char)
    requires
        suffix.len() >= 6,
        suffix[suffix.len() - 6] == letter,
        name.len() >= 6,
        name[name.len() - 6] != letter,
    ensures
        !text::ends(name, suffix),
{
    if text::ends(name, suffix) {
        let tail = name.skip(name.len() - suffix.len());
        assert(tail[suffix.len() - 6] == name[name.len() - 6]);
    }
}

/// A group of queries, keys and values is the three layers on top of each other, in this
/// order: weights, scales and rows.
pub proof fn groups_stack_their_layers(
    group: QkvGroup,
    prefixes: (Seq<char>, Seq<char>, Seq<char>),
    residency: TensorResidencyPlan,
    layout: LinearResidentLayout,
    replies: GroupReplies,
)
    requires
        replies.q is Ok,
        replies.k is Ok,
        replies.v is Ok,
        replies.kernel_family is Ok,
        layers::is_group(group, prefixes, residency, layout, replies),
    ensures
        ({
            let (q, k, v) = (replies.q->Ok_0, replies.k->Ok_0, replies.v->Ok_0);
            let (a, b, c) = (q.packed@.len(), k.packed@.len(), v.packed@.len());
            let (x, y, z) = (q.scales@.len(), k.scales@.len(), v.scales@.len());
            &&& group.linear.rows == q.spec.rows + k.spec.rows + v.spec.rows
            &&& group.linear.cols == q.spec.cols
            &&& group.linear.packed_bytes == q.spec.packed_bytes + k.spec.packed_bytes
                + v.spec.packed_bytes
            &&& group.linear.scale_bytes == q.spec.scale_bytes + k.spec.scale_bytes
                + v.spec.scale_bytes
            &&& group.packed@.len() == a + b + c && group.scales@.len() == x + y + z
            &&& group.packed@.subrange(0, a as int) == q.packed@
            &&& group.packed@.subrange(a as int, (a + b) as int) == k.packed@
            &&& group.packed@.subrange((a + b) as int, (a + b + c) as int) == v.packed@
            &&& group.scales@.subrange(0, x as int) == q.scales@
            &&& group.scales@.subrange(x as int, (x + y) as int) == k.scales@
            &&& group.scales@.subrange((x + y) as int, (x + y + z) as int) == v.scales@
            &&& group.linear.input_scale == q.input_scale
            &&& group.linear.output_scale == 0x3F80_0000
            &&& group.linear.residency == residency && group.linear.resident_layout == layout
            &&& replies.kernel_family matches Ok(family) && group.linear.kernel_family == family
            &&& group.linear.packed.len() == a + b + c && group.linear.scales.len() == x + y + z
            &&& group.linear.cutlass_nvfp4 is Some
            &&& group.linear.native_mxfp4 is None && group.linear.host_weights is None
        }),
{
    let (q, k, v) = (replies.q->Ok_0, replies.k->Ok_0, replies.v->Ok_0);
    let (a, b, c) = (q.packed@.len(), k.packed@.len(), v.packed@.len());
    let (x, y, z) = (q.scales@.len(), k.scales@.len(), v.scales@.len());
    assert(group.packed@.subrange(0, a as int) =~= q.packed@);
    assert(group.packed@.subrange(a as int, (a + b) as int) =~= k.packed@);
    assert(group.packed@.subrange((a + b) as int, (a + b + c) as int) =~= v.packed@);
    assert(group.scales@.subrange(0, x as int) =~= q.scales@);
    assert(group.scales@.subrange(x as int, (x + y) as int) =~= k.scales@);
    assert(group.scales@.subrange((x + y) as int, (x + y + z) as int) =~= v.scales@);
}

/// A group is made for the kernels that take one, where CUTLASS is asked for; its layers have
/// their columns in common, and their input scales.
pub proof fn groups_have_columns_in_common(
    config: CudaRuntimeConfig,
    family: KernelFamily,
    replies: GroupReplies,
)
    ensures
        layers::makes_group(config, family) <==> config.cutlass_nvfp4_repack && !(family is CpuScalar)
            && !(family is CudaPackedFp4),
        layers::group_refusal(replies) is None ==> {
            &&& replies.q is Ok && replies.k is Ok && replies.v is Ok
            &&& replies.q->Ok_0.spec.cols == replies.k->Ok_0.spec.cols
            &&& replies.q->Ok_0.spec.cols == replies.v->Ok_0.spec.cols
            &&& replies.scales_agree
            &&& replies.repacked is Ok && replies.device is Ok
        },
{
}

/// A matrix that is placed into the arena takes the bytes that were asked for, and is refused
/// exactly where there is no arena or no room in it.
pub proof fn matrices_are_placed_where_there_is_room(
    before: Option<PinnedArena>,
    after: Option<PinnedArena>,
    bytes: int,
    missing: AegisError,
    refusal: Option<AegisError>,
)
    requires
        bf16::placed_matrix(before, after, bytes, missing, refusal),
    ensures
        refusal is None <==> (before matches Some(arena) && arena.spec_used() + bytes
            <= arena.spec_capacity()),
        refusal is None ==> (after matches Some(grown) && grown.spec_used()
            == before->Some_0.spec_used() + bytes && grown.spec_capacity()
            == before->Some_0.spec_capacity()),
        refusal is Some ==> (after is Some <==> before is Some) && (after matches Some(kept)
            ==> kept.spec_used() == before->Some_0.spec_used()),
{
}

/// A matrix or an FP8 layer that was made has the name, rows and columns that it was made
/// with, in this order; a stub stands for a matrix without its values.
pub proof fn matrices_are_as_described(
    matrix: DeviceBf16Matrix,
    stub: DeviceBf16Matrix,
    linear: StandaloneFp8Linear,
    name: Seq<char>,
    rows: usize,
    cols: usize,
    residency: TensorResidencyPlan,
    values_len: int,
    text: String,
    device: Result<(), AegisError>,
)
    ensures
        bf16::is_matrix(matrix, name, rows as int, cols as int, residency) ==> matrix.rows == rows
            && matrix.cols == cols && matrix.name@ == name && matrix.residency == residency,
        bf16::is_fp8(linear, name, rows, cols, rows * cols) ==> linear.rows == rows && linear.cols
            == cols && linear.name@ == name && linear.data.len() == rows * cols && linear.bytes
            == rows * cols,
        bf16::is_stub(stub, matrix) ==> stub.rows == matrix.rows && stub.cols == matrix.cols
            && stub.name == matrix.name && stub.values.len() == 1 && stub.host_values is None
            && stub.residency == matrix.residency,
        bf16::uploaded(text, rows, cols, values_len, device) is None <==> values_len == rows * cols
            && device is Ok,
        values_len == rows * cols ==> (device matches Err(error) ==> bf16::uploaded(
            text,
            rows,
            cols,
            values_len,
            device,
        ) == Some(error)),
{
}

} // verus!
