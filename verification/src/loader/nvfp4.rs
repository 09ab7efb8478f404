//! Linear layers with four-bit weights: which of their layouts are made, and where they go.
use crate::config::CudaRuntimeConfig;
use crate::error::{invalid_plan, number, AegisError, Value, Values};
use crate::host_arena::{self, PinnedArena};
use crate::loader::storage::place_packed_scales_contiguous;
use crate::loader::tensors::ModelArtifact;
use crate::loader::CudaWeightLoader;
use crate::text::{self, has_suffix};
use crate::types::{
    CutlassNvfp4Layout, DeviceBuffer, DeviceCutlassNvfp4Linear, DeviceMxfp4Linear,
    DeviceNvfp4Linear, HostResidentMxfp4, HostResidentWeights, HostWeightBytes, KernelFamily,
    LinearResidentLayout, TensorResidencyPlan,
};
use vstd::prelude::*;

verus! {

/// What a layer is, as its tensors have it.
#[derive(Debug)]
pub struct Nvfp4LinearSpec {
    pub name: String,
    pub rows: usize,
    pub cols: usize,
    pub packed_bytes: usize,
    pub scale_bytes: usize,
}

/// Sizes of the weights and scales of a layer that was laid out for CUTLASS.
#[derive(Clone, Copy, Debug)]
pub struct CutlassSizes {
    pub layout: CutlassNvfp4Layout,
    pub payload_bytes: usize,
    pub scale_bytes: usize,
}

/// Layers whose prompts go through CUTLASS although the layer is laid out for the native
/// kernels.
pub open spec fn has_sidecar(prefix: Seq<char>) -> bool {
    text::ends(prefix, ".self_attn.o_proj"@) || text::ends(prefix, ".mlp.gate_proj"@) || text::ends(
        prefix,
        ".mlp.up_proj"@,
    ) || text::ends(prefix, ".mlp.down_proj"@)
}

/// Whether a layer's prompts go through CUTLASS although it is laid out for the native
/// kernels.
pub fn native_layout_cutlass_prefill_sidecar(prefix: &str) -> (yes: bool)
    ensures
        yes == has_sidecar(prefix@),
{
    has_suffix(prefix, ".self_attn.o_proj") || has_suffix(prefix, ".mlp.gate_proj") || has_suffix(
        prefix,
        ".mlp.up_proj",
    ) || has_suffix(prefix, ".mlp.down_proj")
}

/// Whether a layer is repacked for the native kernels.
pub open spec fn repacks_native(
    config: CudaRuntimeConfig,
    prefix: Seq<char>,
    family: KernelFamily,
) -> bool {
    family == KernelFamily::CudaNativeFp4TensorCores && config.native_mxfp4_repack && !(
    config.cutlass_nvfp4_repack && has_sidecar(prefix))
}

/// Whether a layer is repacked for CUTLASS.
pub open spec fn repacks_cutlass(
    config: CudaRuntimeConfig,
    prefix: Seq<char>,
    family: KernelFamily,
    layout: LinearResidentLayout,
) -> bool {
    layout == LinearResidentLayout::CudaR4fE2m1Ue4m3 || family
        == KernelFamily::CudaCutlassFp4TensorCores || (family
        == KernelFamily::CudaNativeFp4TensorCores && config.cutlass_nvfp4_repack && has_sidecar(
        prefix,
    ))
}

/// A native layer has only one of the two repacked forms where both settings are on.
pub proof fn one_repacked_form(
    config: CudaRuntimeConfig,
    prefix: Seq<char>,
    layout: LinearResidentLayout,
)
    requires
        layout != LinearResidentLayout::CudaR4fE2m1Ue4m3,
        config.native_mxfp4_repack,
        config.cutlass_nvfp4_repack,
    ensures
        repacks_native(config, prefix, KernelFamily::CudaNativeFp4TensorCores) != repacks_cutlass(
            config,
            prefix,
            KernelFamily::CudaNativeFp4TensorCores,
            layout,
        ),
{
}

/// The bits of 1.0 in single precision.
pub const ONE_BITS: u32 = 0x3F80_0000;

/// The scale of a whole tensor; one that is absent counts as 1.0.
pub open spec fn scale_bits(read: Option<u32>) -> u32 {
    match read {
        Some(bits) => bits,
        None => ONE_BITS,
    }
}

/// The scale of a whole tensor; one that is absent counts as 1.0.
pub fn scale_or_one(read: Option<u32>) -> (bits: u32)
    ensures
        bits == scale_bits(read),
{
    match read {
        Some(bits) => bits,
        None => ONE_BITS,
    }
}

/// Whether weights stay in host memory.
pub open spec fn stays_in_host(residency: TensorResidencyPlan) -> bool {
    residency is StagedHostToDevice
}

/// What has to be done to load a layer.
#[derive(Clone, Copy, Debug, PartialEq, Eq, Structural)]
pub struct Nvfp4Needs {
    /// Its bytes are read as they are.
    pub source: bool,
    /// It is repacked for the native kernels.
    pub native: bool,
    /// It is repacked for CUTLASS.
    pub cutlass: bool,
    /// It is placed into the arena.
    pub host: bool,
}

/// What has to be done to load a layer.
pub open spec fn needs(
    config: CudaRuntimeConfig,
    prefix: Seq<char>,
    family: KernelFamily,
    residency: TensorResidencyPlan,
    layout: LinearResidentLayout,
) -> Nvfp4Needs {
    let host = stays_in_host(residency);
    let native = repacks_native(config, prefix, family);
    let cutlass = repacks_cutlass(config, prefix, family, layout);
    Nvfp4Needs { source: !host || native || cutlass, native, cutlass: !host && cutlass, host }
}

/// What the parts of loading a layer that are done elsewhere came to. Of a part that
/// [`Nvfp4Needs`] does not ask for, any answer will do.
#[derive(Debug)]
pub struct Nvfp4Replies {
    /// Which kernels the layer is for.
    pub kernel_family: Result<KernelFamily, AegisError>,
    /// Reading the scales of the whole tensor, as bits of single precision. A scale may be
    /// absent.
    pub output_scale: Result<Option<u32>, AegisError>,
    pub input_scale: Result<Option<u32>, AegisError>,
    /// What the tensors say of the layer.
    pub spec: Result<Nvfp4LinearSpec, AegisError>,
    /// Reading weights and scales: the bytes of each.
    pub source: Result<(usize, usize), AegisError>,
    /// Repacking for the native kernels, and placing the result: its bytes.
    pub native: Result<usize, AegisError>,
    /// Repacking for CUTLASS, and placing the result.
    pub cutlass: Result<CutlassSizes, AegisError>,
    /// Reading weights and scales into the arena.
    pub fill: Result<(), AegisError>,
    /// Making the buffers in device memory.
    pub device: Result<(), AegisError>,
}

/// The first refusal before weights are placed, if there is one.
pub open spec fn early_refusal(
    config: CudaRuntimeConfig,
    artifact: &ModelArtifact,
    prefix: &String,
    residency: TensorResidencyPlan,
    layout: LinearResidentLayout,
    replies: Nvfp4Replies,
) -> Option<AegisError> {
    let needs = needs(config, prefix@, replies.kernel_family->Ok_0, residency, layout);
    let spec = replies.spec->Ok_0;
    if replies.kernel_family is Err {
        Some(replies.kernel_family->Err_0)
    } else if artifact.spec_weight(prefix) is Err {
        Some(artifact.spec_weight(prefix)->Err_0)
    } else if artifact.spec_weight_scale(prefix) is Err {
        Some(artifact.spec_weight_scale(prefix)->Err_0)
    } else if replies.output_scale is Err {
        Some(replies.output_scale->Err_0)
    } else if replies.input_scale is Err {
        Some(replies.input_scale->Err_0)
    } else if replies.spec is Err {
        Some(replies.spec->Err_0)
    } else if needs.source && replies.source is Err {
        Some(replies.source->Err_0)
    } else if needs.native && spec.cols % 64 != 0 {
        Some(
            AegisError::invalid_with(
                "native MXFP4 tensor-core layout for `{}` requires cols divisible by 64, got {}",
                Values::Two(Value::Name(spec.name), Value::num(spec.cols as int)),
            ),
        )
    } else if needs.native && replies.native is Err {
        Some(replies.native->Err_0)
    } else if needs.cutlass && replies.cutlass is Err {
        Some(replies.cutlass->Err_0)
    } else {
        None
    }
}

/// The layer is what `spec` says, for these kernels and in this place.
pub open spec fn is_layer(
    linear: DeviceNvfp4Linear,
    spec: Nvfp4LinearSpec,
    family: KernelFamily,
    layout: LinearResidentLayout,
    residency: TensorResidencyPlan,
) -> bool {
    &&& linear.name == spec.name
    &&& linear.rows == spec.rows
    &&& linear.cols == spec.cols
    &&& linear.packed_bytes == spec.packed_bytes
    &&& linear.scale_bytes == spec.scale_bytes
    &&& linear.kernel_family == family
    &&& linear.resident_layout == layout
    &&& linear.residency == residency
}

/// The layer's scales of the whole tensor are those that were read, or 1.0.
pub open spec fn has_scales(
    linear: DeviceNvfp4Linear,
    input: Result<Option<u32>, AegisError>,
    output: Result<Option<u32>, AegisError>,
) -> bool {
    linear.input_scale == scale_bits(input->Ok_0) && linear.output_scale == scale_bits(output->Ok_0)
}

/// The layer's buffers in device memory hold `packed` and `scales` bytes.
pub open spec fn has_buffers(linear: DeviceNvfp4Linear, packed: usize, scales: usize) -> bool {
    linear.packed.len() == packed && linear.scales.len() == scales
}

/// The layer's weights are in device memory: as they were read, and in each form that they
/// were repacked to.
pub open spec fn is_in_device(
    linear: DeviceNvfp4Linear,
    needs: Nvfp4Needs,
    replies: Nvfp4Replies,
) -> bool {
    &&& has_buffers(linear, (replies.source->Ok_0).0, (replies.source->Ok_0).1)
    &&& linear.host_weights is None
    &&& linear.native_mxfp4 is Some <==> needs.native
    &&& linear.native_mxfp4 matches Some(native) ==> {
        &&& native.bytes == replies.native->Ok_0
        &&& native.data.len() == native.bytes
        &&& native.blocks_per_row == linear.cols / 32
    }
    &&& linear.cutlass_nvfp4 is Some <==> needs.cutlass
    &&& linear.cutlass_nvfp4 matches Some(resident) ==> is_resident(
        resident,
        replies.cutlass->Ok_0,
    )
}

/// What is in device memory has the sizes that repacking gave.
pub open spec fn is_resident(resident: DeviceCutlassNvfp4Linear, sizes: CutlassSizes) -> bool {
    &&& resident.layout == sizes.layout
    &&& resident.payload_e2m1.len() == sizes.payload_bytes
    &&& resident.scales_ue4m3.len() == sizes.scale_bytes
}

/// The layer's weights are in the arena from `offset` on, scales after weights, with
/// placeholders of one byte in device memory.
pub open spec fn is_in_arena(
    linear: DeviceNvfp4Linear,
    needs: Nvfp4Needs,
    replies: Nvfp4Replies,
    offset: usize,
    packed_bytes: usize,
    scale_bytes: usize,
) -> bool {
    &&& has_buffers(linear, 1, 1)
    &&& linear.native_mxfp4 is None
    &&& linear.cutlass_nvfp4 is None
    &&& linear.host_weights matches Some(weights)
    &&& weights.packed == (HostWeightBytes::Arena { offset, len: packed_bytes })
    &&& weights.scales == (HostWeightBytes::Arena {
        offset: (offset + packed_bytes) as usize,
        len: scale_bytes,
    })
    &&& weights.native_mxfp4 == if needs.native {
        Some(
            HostResidentMxfp4 {
                blocks_per_row: linear.cols / 32,
                data: HostWeightBytes::Pinned { len: replies.native->Ok_0 },
            },
        )
    } else {
        None
    }
}

/// The error for weights that should stay in host memory, where there is no arena.
pub open spec fn no_arena(name: String) -> AegisError {
    AegisError::invalid_with(
        "host-resident NVFP4 `{}` requires loader built with weight_loader_with_arena(...)",
        Values::One(Value::Name(name)),
    )
}

/// The error for an arena that is full.
pub open spec fn full_arena(arena: PinnedArena, bytes: int) -> AegisError {
    AegisError::invalid_with(
        "PinnedArena overflow: requested {} at offset {}, capacity {}",
        Values::Three(
            Value::num(bytes),
            Value::num(arena.spec_used() as int),
            Value::num(arena.spec_capacity() as int),
        ),
    )
}

/// The arena after `bytes` more were handed out.
pub open spec fn handed_out(before: PinnedArena, after: PinnedArena, bytes: int) -> bool {
    &&& after.spec_capacity() == before.spec_capacity()
    &&& after.spec_used() == before.spec_used() + bytes
    &&& after.handed() == before.handed().push(
        host_arena::ArenaRange { offset: before.spec_used(), len: bytes as usize },
    )
}

impl CudaWeightLoader<'_> {
    /// What has to be done to load a layer.
    pub fn nvfp4_needs(
        &self,
        prefix: &str,
        kernel_family: KernelFamily,
        residency: TensorResidencyPlan,
        resident_layout: LinearResidentLayout,
    ) -> (answer: Nvfp4Needs)
        ensures
            answer == needs(
                self.runtime.config,
                prefix@,
                kernel_family,
                residency,
                resident_layout,
            ),
    {
        let host = match residency {
            TensorResidencyPlan::StagedHostToDevice { device: _ } => true,
            _ => false,
        };
        let native = self.should_repack_native_mxfp4(prefix, kernel_family);
        let cutlass = self.should_repack_cutlass_nvfp4(prefix, kernel_family, resident_layout);
        Nvfp4Needs { source: !host || native || cutlass, native, cutlass: !host && cutlass, host }
    }

    /// Whether a layer is repacked for the native kernels.
    pub fn should_repack_native_mxfp4(
        &self,
        prefix: &str,
        kernel_family: KernelFamily,
    ) -> (yes: bool)
        ensures
            yes == repacks_native(self.runtime.config, prefix@, kernel_family),
    {
        let config = self.runtime.config();
        kernel_family == KernelFamily::CudaNativeFp4TensorCores && config.native_mxfp4_repack && !(
        config.cutlass_nvfp4_repack && native_layout_cutlass_prefill_sidecar(prefix))
    }

    /// Whether a layer is repacked for CUTLASS.
    pub fn should_repack_cutlass_nvfp4(
        &self,
        prefix: &str,
        kernel_family: KernelFamily,
        resident_layout: LinearResidentLayout,
    ) -> (yes: bool)
        ensures
            yes == repacks_cutlass(self.runtime.config, prefix@, kernel_family, resident_layout),
    {
        resident_layout == LinearResidentLayout::CudaR4fE2m1Ue4m3 || kernel_family
            == KernelFamily::CudaCutlassFp4TensorCores || (kernel_family
            == KernelFamily::CudaNativeFp4TensorCores
            && self.runtime.config().cutlass_nvfp4_repack && native_layout_cutlass_prefill_sidecar(
            prefix,
        ))
    }

    /// Loads a layer in the given layout. Where it stays in host memory, weights and scales
    /// get one range of the arena; the layer is then laid out as it was read.
    pub fn load_nvfp4_linear_with_layout(
        &mut self,
        artifact: &ModelArtifact,
        prefix: &String,
        residency: TensorResidencyPlan,
        resident_layout: LinearResidentLayout,
        replies: Nvfp4Replies,
    ) -> (linear: Result<DeviceNvfp4Linear, AegisError>)
        requires
            old(self).wf(),
            artifact.spec_weight(prefix) matches Ok(weight) ==> artifact.spec_weight_scale(
                prefix,
            ) matches Ok(scales) ==> weight.data_len_bytes + scales.data_len_bytes <= usize::MAX,
        ensures
            final(self).wf(),
            final(self).runtime == old(self).runtime,
            final(self).shards == old(self).shards,
            loaded_layer(
                old(self).runtime.config,
                old(self).arena,
                final(self).arena,
                artifact,
                prefix,
                residency,
                resident_layout,
                replies,
                linear,
            ),
    {
        let kernel_family: KernelFamily = replies.kernel_family?;
        let weight = artifact.weight(prefix)?;
        let scales = artifact.weight_scale(prefix)?;
        let output_scale: u32 = scale_or_one(replies.output_scale?);
        let input_scale: u32 = scale_or_one(replies.input_scale?);
        let spec: Nvfp4LinearSpec = replies.spec?;
        let needs = self.nvfp4_needs(prefix.as_str(), kernel_family, residency, resident_layout);
        let mut source: (usize, usize) = (0, 0);
        if needs.source {
            source = replies.source?;
        }
        let mut native_bytes: usize = 0;
        if needs.native {
            if spec.cols % 64 != 0 {
                return Err(
                    invalid_plan(
                        "native MXFP4 tensor-core layout for `{}` requires cols divisible by 64, got {}",
                        Values::Two(Value::Name(spec.name), number(spec.cols)),
                    ),
                );
            }
            native_bytes = replies.native?;
        }
        let blocks_per_row: usize = spec.cols / 32;
        if needs.host {
            let host_native = if needs.native {
                Some(
                    HostResidentMxfp4 {
                        blocks_per_row,
                        data: HostWeightBytes::Pinned { len: native_bytes },
                    },
                )
            } else {
                None
            };
            let mut taken: Option<PinnedArena> = None;
            core::mem::swap(&mut taken, &mut self.arena);
            let mut arena = match taken {
                Some(arena) => arena,
                None => {
                    return Err(
                        invalid_plan(
                            "host-resident NVFP4 `{}` requires loader built with weight_loader_with_arena(...)",
                            Values::One(Value::Name(spec.name)),
                        ),
                    );
                },
            };
            let placed = place_packed_scales_contiguous(
                &mut arena,
                weight.data_len_bytes,
                scales.data_len_bytes,
            );
            self.arena = Some(arena);
            let (packed, scales) = placed?;
            replies.fill?;
            replies.device?;
            return Ok(
                DeviceNvfp4Linear {
                    name: spec.name,
                    rows: spec.rows,
                    cols: spec.cols,
                    packed_bytes: spec.packed_bytes,
                    scale_bytes: spec.scale_bytes,
                    input_scale,
                    output_scale,
                    kernel_family,
                    resident_layout: LinearResidentLayout::PackedSource,
                    residency,
                    packed: DeviceBuffer::with_len(1),
                    scales: DeviceBuffer::with_len(1),
                    native_mxfp4: None,
                    cutlass_nvfp4: None,
                    host_weights: Some(
                        HostResidentWeights { packed, scales, native_mxfp4: host_native },
                    ),
                },
            );
        }
        let native_mxfp4 = if needs.native {
            Some(
                DeviceMxfp4Linear {
                    bytes: native_bytes,
                    blocks_per_row,
                    data: DeviceBuffer::with_len(native_bytes),
                },
            )
        } else {
            None
        };
        let cutlass_nvfp4 = if needs.cutlass {
            let sizes: CutlassSizes = replies.cutlass?;
            Some(resident_of(sizes))
        } else {
            None
        };
        replies.device?;
        Ok(
            DeviceNvfp4Linear {
                name: spec.name,
                rows: spec.rows,
                cols: spec.cols,
                packed_bytes: spec.packed_bytes,
                scale_bytes: spec.scale_bytes,
                input_scale,
                output_scale,
                kernel_family,
                resident_layout,
                residency,
                packed: DeviceBuffer::with_len(source.0),
                scales: DeviceBuffer::with_len(source.1),
                native_mxfp4,
                cutlass_nvfp4,
                host_weights: None,
            },
        )
    }

    /// Loads a layer for the native kernels.
    pub fn load_nvfp4_linear_with_store(
        &mut self,
        artifact: &ModelArtifact,
        prefix: &String,
        residency: TensorResidencyPlan,
        replies: Nvfp4Replies,
    ) -> (linear: Result<DeviceNvfp4Linear, AegisError>)
        requires
            old(self).wf(),
            artifact.spec_weight(prefix) matches Ok(weight) ==> artifact.spec_weight_scale(
                prefix,
            ) matches Ok(scales) ==> weight.data_len_bytes + scales.data_len_bytes <= usize::MAX,
        ensures
            final(self).wf(),
            final(self).runtime == old(self).runtime,
            loaded_layer(
                old(self).runtime.config,
                old(self).arena,
                final(self).arena,
                artifact,
                prefix,
                residency,
                LinearResidentLayout::NativeTensorCore,
                replies,
                linear,
            ),
    {
        self.load_nvfp4_linear_with_layout(
            artifact,
            prefix,
            residency,
            LinearResidentLayout::NativeTensorCore,
            replies,
        )
    }

    /// Loads a layer for the native kernels into device memory.
    pub fn load_nvfp4_linear(
        &mut self,
        artifact: &ModelArtifact,
        prefix: &String,
        replies: Nvfp4Replies,
    ) -> (linear: Result<DeviceNvfp4Linear, AegisError>)
        requires
            old(self).wf(),
            artifact.spec_weight(prefix) matches Ok(weight) ==> artifact.spec_weight_scale(
                prefix,
            ) matches Ok(scales) ==> weight.data_len_bytes + scales.data_len_bytes <= usize::MAX,
        ensures
            final(self).wf(),
            final(self).runtime == old(self).runtime,
            loaded_layer(
                old(self).runtime.config,
                old(self).arena,
                final(self).arena,
                artifact,
                prefix,
                TensorResidencyPlan::VramResident { device: old(self).runtime.device_index },
                LinearResidentLayout::NativeTensorCore,
                replies,
                linear,
            ),
    {
        let device: usize = self.device_index();
        self.load_nvfp4_linear_with_store(
            artifact,
            prefix,
            TensorResidencyPlan::VramResident { device },
            replies,
        )
    }
}

fn resident_of(sizes: CutlassSizes) -> (resident: DeviceCutlassNvfp4Linear)
    ensures
        is_resident(resident, sizes),
{
    DeviceCutlassNvfp4Linear {
        layout: sizes.layout,
        payload_e2m1: DeviceBuffer::with_len(sizes.payload_bytes),
        scales_ue4m3: DeviceBuffer::with_len(sizes.scale_bytes),
    }
}

/// What loading a layer comes to, and what becomes of the arena.
pub open spec fn loaded_layer(
    config: CudaRuntimeConfig,
    before: Option<PinnedArena>,
    after: Option<PinnedArena>,
    artifact: &ModelArtifact,
    prefix: &String,
    residency: TensorResidencyPlan,
    layout: LinearResidentLayout,
    replies: Nvfp4Replies,
    linear: Result<DeviceNvfp4Linear, AegisError>,
) -> bool {
    let family = replies.kernel_family->Ok_0;
    let needs = needs(config, prefix@, family, residency, layout);
    let spec = replies.spec->Ok_0;
    let packed_bytes = (artifact.spec_weight(prefix)->Ok_0).data_len_bytes;
    let scale_bytes = (artifact.spec_weight_scale(prefix)->Ok_0).data_len_bytes;
    match early_refusal(config, artifact, prefix, residency, layout, replies) {
        Some(error) => linear == Err::<DeviceNvfp4Linear, _>(error) && after == before,
        None => if needs.host {
            match before {
                None => linear == Err::<DeviceNvfp4Linear, _>(no_arena(spec.name)) && after is None,
                Some(arena) => if arena.spec_used() + packed_bytes + scale_bytes
                    > arena.spec_capacity() {
                    &&& linear == Err::<DeviceNvfp4Linear, _>(
                        full_arena(arena, packed_bytes + scale_bytes),
                    )
                    &&& after matches Some(kept)
                    &&& kept.spec_used() == arena.spec_used()
                    &&& kept.spec_capacity() == arena.spec_capacity()
                    &&& kept.handed() == arena.handed()
                } else {
                    &&& after matches Some(grown)
                    &&& handed_out(arena, grown, packed_bytes + scale_bytes)
                    &&& if replies.fill is Err {
                        linear == Err::<DeviceNvfp4Linear, _>(replies.fill->Err_0)
                    } else if replies.device is Err {
                        linear == Err::<DeviceNvfp4Linear, _>(replies.device->Err_0)
                    } else {
                        &&& linear matches Ok(linear)
                        &&& is_layer(
                            linear,
                            spec,
                            family,
                            LinearResidentLayout::PackedSource,
                            residency,
                        )
                        &&& has_scales(linear, replies.input_scale, replies.output_scale)
                        &&& is_in_arena(
                            linear,
                            needs,
                            replies,
                            arena.spec_used(),
                            packed_bytes,
                            scale_bytes,
                        )
                    }
                },
            }
        } else {
            &&& after == before
            &&& if replies.device is Err {
                linear == Err::<DeviceNvfp4Linear, _>(replies.device->Err_0)
            } else {
                &&& linear matches Ok(linear)
                &&& is_layer(linear, spec, family, layout, residency)
                &&& has_scales(linear, replies.input_scale, replies.output_scale)
                &&& is_in_device(linear, needs, replies)
            }
        },
    }
}

} // verus!
