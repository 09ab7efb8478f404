//! Loading of whole regions of a model, where their placement allows it.
use crate::error::{invalid_plan, number, unsupported_plan, AegisError, Value, Values};
use crate::host_arena::PinnedArena;
use crate::loader::nvfp4::{self, Nvfp4Replies};
use crate::loader::tensors::{ModelArtifact, TensorDType, TensorInfo};
use crate::loader::CudaWeightLoader;
use crate::text::{self, same_text, strip_suffix};
use crate::types::{DeviceNvfp4Linear, LinearResidentLayout, TensorResidencyPlan};
use vstd::prelude::*;

verus! {

/// What a tensor is to its region.
#[derive(Clone, Copy, Debug, PartialEq, Eq, Structural)]
pub enum TensorRole {
    Query,
    Key,
    Value,
    Output,
    Gate,
    Up,
    Down,
    /// Anything else, such as a norm or a table.
    Auxiliary,
}

/// A tensor of a region.
#[derive(Debug)]
pub struct GraphTensor {
    pub role: TensorRole,
    pub info: TensorInfo,
}

/// A part of a model that is placed as a whole.
#[derive(Debug)]
pub struct GraphRegion {
    pub id: String,
    pub tensors: Vec<GraphTensor>,
}

/// Where a region's weights are kept.
#[derive(Clone, Copy, Debug, PartialEq, Eq, Structural)]
pub enum StoragePlacement {
    Vram { device: usize },
    Ram,
    Mmap,
}

/// Where a region is computed.
#[derive(Clone, Copy, Debug, PartialEq, Eq, Structural)]
pub enum ComputePlacement {
    Cuda { device: usize },
    Cpu,
    Wgpu { device: usize },
}

/// Where a region goes.
#[derive(Debug)]
pub struct RegionPlacement {
    pub region_id: String,
    pub store: StoragePlacement,
    pub compute: ComputePlacement,
}

/// The tensor holds the weights of a linear layer in four bits.
pub open spec fn is_linear_weight(tensor: GraphTensor) -> bool {
    tensor.role != TensorRole::Auxiliary && tensor.info.dtype == TensorDType::U8
}

/// Whether a tensor holds the weights of a linear layer in four bits.
pub fn is_nvfp4_linear_weight(tensor: &GraphTensor) -> (yes: bool)
    ensures
        yes == is_linear_weight(*tensor),
{
    let projects = match tensor.role {
        TensorRole::Query
        | TensorRole::Key
        | TensorRole::Value
        | TensorRole::Output
        | TensorRole::Gate
        | TensorRole::Up
        | TensorRole::Down => true,
        TensorRole::Auxiliary => false,
    };
    projects && tensor.info.dtype == TensorDType::U8
}

/// The layer that the first such tensor belongs to.
pub open spec fn first_prefix(tensors: Seq<GraphTensor>) -> Option<Seq<char>>
    decreases tensors.len(),
{
    if tensors.len() == 0 {
        None
    } else if is_linear_weight(tensors[0]) {
        text::stripped(tensors[0].info.name@, ".weight"@)
    } else {
        first_prefix(tensors.drop_first())
    }
}

/// The layer that the first tensor with four-bit weights belongs to.
pub fn first_nvfp4_linear_prefix(region: &GraphRegion) -> (prefix: Option<String>)
    ensures
        match prefix {
            Some(prefix) => first_prefix(region.tensors@) == Some(prefix@),
            None => first_prefix(region.tensors@) is None,
        },
{
    let mut i: usize = 0;
    assert(region.tensors@.skip(0) =~= region.tensors@);
    while i < region.tensors.len()
        invariant
            i <= region.tensors@.len(),
            first_prefix(region.tensors@.skip(i as int)) == first_prefix(region.tensors@),
        decreases region.tensors@.len() - i,
    {
        assert(region.tensors@.skip(i as int).drop_first() =~= region.tensors@.skip(i + 1));
        if is_nvfp4_linear_weight(&region.tensors[i]) {
            return strip_suffix(region.tensors[i].info.name.as_str(), ".weight");
        }
        i += 1;
    }
    None
}

/// The layers of a region, in order, up to the first tensor whose name is not that of a
/// layer's weights.
pub open spec fn region_prefixes(tensors: Seq<GraphTensor>) -> Seq<Seq<char>>
    decreases tensors.len(),
{
    if tensors.len() == 0 {
        Seq::empty()
    } else if !is_linear_weight(tensors[0]) {
        region_prefixes(tensors.drop_first())
    } else {
        match text::stripped(tensors[0].info.name@, ".weight"@) {
            Some(prefix) => seq![prefix] + region_prefixes(tensors.drop_first()),
            None => Seq::empty(),
        }
    }
}

/// The error for the first tensor whose name is not that of a layer's weights, if there is
/// one.
pub open spec fn bad_name(tensors: Seq<GraphTensor>) -> Option<AegisError>
    decreases tensors.len(),
{
    if tensors.len() == 0 {
        None
    } else if is_linear_weight(tensors[0]) && text::stripped(
        tensors[0].info.name@,
        ".weight"@,
    ) is None {
        Some(
            AegisError::invalid_with(
                "bad linear tensor name `{}`",
                Values::One(Value::Name(tensors[0].info.name)),
            ),
        )
    } else {
        bad_name(tensors.drop_first())
    }
}

/// The layers of a region, and the error that comes after them.
#[derive(Debug)]
pub struct RegionLinears {
    pub prefixes: Vec<String>,
    pub bad: Option<AegisError>,
}

/// The names that a list holds.
pub open spec fn texts(names: Seq<String>) -> Seq<Seq<char>> {
    Seq::new(names.len(), |i: int| names[i]@)
}

/// The layers of a region.
pub fn region_linears(region: &GraphRegion) -> (linears: RegionLinears)
    ensures
        texts(linears.prefixes@) == region_prefixes(region.tensors@),
        linears.bad == bad_name(region.tensors@),
{
    let mut prefixes: Vec<String> = Vec::new();
    let mut i: usize = 0;
    assert(region.tensors@.skip(0) =~= region.tensors@);
    assert(texts(prefixes@) + region_prefixes(region.tensors@) =~= region_prefixes(region.tensors@));
    while i < region.tensors.len()
        invariant
            i <= region.tensors@.len(),
            texts(prefixes@) + region_prefixes(region.tensors@.skip(i as int)) == region_prefixes(
                region.tensors@,
            ),
            bad_name(region.tensors@.skip(i as int)) == bad_name(region.tensors@),
        decreases region.tensors@.len() - i,
    {
        let ghost rest = region.tensors@.skip(i as int);
        assert(rest.drop_first() =~= region.tensors@.skip(i + 1));
        if is_nvfp4_linear_weight(&region.tensors[i]) {
            match strip_suffix(region.tensors[i].info.name.as_str(), ".weight") {
                Some(prefix) => {
                    let ghost before = texts(prefixes@);
                    let ghost name = prefix@;
                    prefixes.push(prefix);
                    assert(texts(prefixes@) =~= before.push(name));
                    assert(texts(prefixes@) + region_prefixes(rest.drop_first()) =~= before
                        + region_prefixes(rest));
                },
                None => {
                    assert(texts(prefixes@) + region_prefixes(rest) =~= texts(prefixes@));
                    return RegionLinears {
                        prefixes,
                        bad: Some(
                            invalid_plan(
                                "bad linear tensor name `{}`",
                                Values::One(Value::Name(region.tensors[i].info.name.clone())),
                            ),
                        ),
                    };
                },
            }
        }
        i += 1;
    }
    assert(texts(prefixes@) + region_prefixes(region.tensors@.skip(i as int)) =~= texts(prefixes@));
    RegionLinears { prefixes, bad: None }
}

/// Where a region's weights live on the device of index `device`, or why they cannot.
pub open spec fn residency_of(
    device: usize,
    region_id: String,
    store: StoragePlacement,
    compute: ComputePlacement,
) -> Result<TensorResidencyPlan, AegisError> {
    match compute {
        ComputePlacement::Cuda { device: compute_device } => match store {
            StoragePlacement::Vram { device: store_device } => if store_device == device
                && compute_device == device {
                Ok(TensorResidencyPlan::VramResident { device })
            } else {
                Err(
                    AegisError::unsupported_with(
                        "region `{}` has cross-device placement store=vram:{} compute=cuda:{}; cross-device loaders are not implemented yet",
                        Values::Three(
                            Value::Name(region_id),
                            Value::num(store_device as int),
                            Value::num(compute_device as int),
                        ),
                    ),
                )
            },
            _ => if compute_device == device {
                Ok(TensorResidencyPlan::StagedHostToDevice { device })
            } else {
                Err(
                    AegisError::unsupported_with(
                        "region `{}` is compute=cuda:{}, but this CUDA runtime is cuda:{}",
                        Values::Three(
                            Value::Name(region_id),
                            Value::num(compute_device as int),
                            Value::num(device as int),
                        ),
                    ),
                )
            },
        },
        ComputePlacement::Cpu => Err(
            AegisError::unsupported_with(
                "region `{}` is compute=cpu; CUDA resident loader refused to load it",
                Values::One(Value::Name(region_id)),
            ),
        ),
        ComputePlacement::Wgpu { device: wgpu } => Err(
            AegisError::unsupported_with(
                "region `{}` is compute=wgpu:{}; CUDA resident loader refused to load it",
                Values::Two(Value::Name(region_id), Value::num(wgpu as int)),
            ),
        ),
    }
}

/// Where a placed region's weights live, or why they cannot: the placement has to be that
/// of the region.
pub open spec fn placed_residency(
    device: usize,
    region: &GraphRegion,
    placement: &RegionPlacement,
) -> Result<TensorResidencyPlan, AegisError> {
    if placement.region_id@ != region.id@ {
        Err(mismatch(region, placement))
    } else {
        residency_of(device, region.id, placement.store, placement.compute)
    }
}

/// The error for a placement of another region.
pub open spec fn mismatch(region: &GraphRegion, placement: &RegionPlacement) -> AegisError {
    AegisError::invalid_with(
        "placement `{}` does not match graph region `{}`",
        Values::Two(Value::Name(placement.region_id), Value::Name(region.id)),
    )
}

/// Every layer's bytes are a length.
pub open spec fn layers_fit(artifact: &ModelArtifact) -> bool {
    forall|prefix: &String|
        #![trigger artifact.spec_weight(prefix)]
        #![trigger artifact.spec_weight_scale(prefix)]
        (artifact.spec_weight(prefix) is Ok && artifact.spec_weight_scale(prefix) is Ok) ==> (
        artifact.spec_weight(prefix)->Ok_0).data_len_bytes + (artifact.spec_weight_scale(
            prefix,
        )->Ok_0).data_len_bytes <= usize::MAX
}

/// The first layers of a region were loaded one after the other: `arenas` is the arena
/// before each, and after the last.
pub open spec fn loaded_in_turn(
    loader: CudaWeightLoader<'_>,
    arenas: Seq<Option<PinnedArena>>,
    artifact: &ModelArtifact,
    prefixes: Seq<String>,
    residency: TensorResidencyPlan,
    layout: LinearResidentLayout,
    replies: Seq<Nvfp4Replies>,
    linears: Seq<DeviceNvfp4Linear>,
) -> bool {
    &&& arenas.len() == linears.len() + 1
    &&& linears.len() <= prefixes.len()
    &&& arenas[0] == loader.arena
    &&& forall|i: int|
        0 <= i < linears.len() ==> nvfp4::loaded_layer(
            loader.runtime.config,
            arenas[i],
            arenas[i + 1],
            artifact,
            &prefixes[i],
            residency,
            layout,
            replies[i],
            Ok(#[trigger] linears[i]),
        )
}

impl CudaWeightLoader<'_> {
    /// Where a placed region's weights live, or why they cannot.
    pub fn placed_residency(
        &self,
        region: &GraphRegion,
        placement: &RegionPlacement,
    ) -> (residency: Result<TensorResidencyPlan, AegisError>)
        ensures
            residency == placed_residency(self.runtime.device_index, region, placement),
    {
        self.check_placement(region, placement)?;
        self.residency(region, placement)
    }

    fn check_placement(&self, region: &GraphRegion, placement: &RegionPlacement) -> (answer: Result<
        (),
        AegisError,
    >)
        ensures
            answer == if placement.region_id@ != region.id@ {
                Err(mismatch(region, placement))
            } else {
                Ok(())
            },
    {
        if !same_text(placement.region_id.as_str(), region.id.as_str()) {
            return Err(
                invalid_plan(
                    "placement `{}` does not match graph region `{}`",
                    Values::Two(
                        Value::Name(placement.region_id.clone()),
                        Value::Name(region.id.clone()),
                    ),
                ),
            );
        }
        Ok(())
    }

    fn residency(&self, region: &GraphRegion, placement: &RegionPlacement) -> (residency: Result<
        TensorResidencyPlan,
        AegisError,
    >)
        ensures
            residency == residency_of(
                self.runtime.device_index,
                region.id,
                placement.store,
                placement.compute,
            ),
    {
        let device: usize = self.device_index();
        match placement.compute {
            ComputePlacement::Cuda { device: compute_device } => match placement.store {
                StoragePlacement::Vram { device: store_device } => {
                    if store_device == device && compute_device == device {
                        Ok(TensorResidencyPlan::VramResident { device })
                    } else {
                        Err(
                            unsupported_plan(
                                "region `{}` has cross-device placement store=vram:{} compute=cuda:{}; cross-device loaders are not implemented yet",
                                Values::Three(
                                    Value::Name(region.id.clone()),
                                    number(store_device),
                                    number(compute_device),
                                ),
                            ),
                        )
                    }
                },
                StoragePlacement::Ram | StoragePlacement::Mmap => {
                    if compute_device == device {
                        Ok(TensorResidencyPlan::StagedHostToDevice { device })
                    } else {
                        Err(
                            unsupported_plan(
                                "region `{}` is compute=cuda:{}, but this CUDA runtime is cuda:{}",
                                Values::Three(
                                    Value::Name(region.id.clone()),
                                    number(compute_device),
                                    number(device),
                                ),
                            ),
                        )
                    }
                },
            },
            ComputePlacement::Cpu => Err(
                unsupported_plan(
                    "region `{}` is compute=cpu; CUDA resident loader refused to load it",
                    Values::One(Value::Name(region.id.clone())),
                ),
            ),
            ComputePlacement::Wgpu { device: wgpu } => Err(
                unsupported_plan(
                    "region `{}` is compute=wgpu:{}; CUDA resident loader refused to load it",
                    Values::Two(Value::Name(region.id.clone()), number(wgpu)),
                ),
            ),
        }
    }

    /// Loads the layers of a region, one after the other, up to the first that cannot be
    /// loaded. `replies` has an entry for each.
    pub fn load_region_nvfp4_linears_with_layout(
        &mut self,
        artifact: &ModelArtifact,
        region: &GraphRegion,
        residency: TensorResidencyPlan,
        resident_layout: LinearResidentLayout,
        replies: Vec<Nvfp4Replies>,
    ) -> (linears: Result<Vec<DeviceNvfp4Linear>, AegisError>)
        requires
            old(self).wf(),
            layers_fit(artifact),
            replies@.len() == region_prefixes(region.tensors@).len(),
        ensures
            final(self).wf(),
            final(self).runtime == old(self).runtime,
            loaded_region(
                *old(self),
                *final(self),
                artifact,
                region,
                residency,
                resident_layout,
                replies@,
                linears,
            ),
    {
        let names = region_linears(region);
        let ghost given = replies@;
        let ghost mut arenas: Seq<Option<PinnedArena>> = seq![self.arena];
        let mut rest = replies;
        let mut linears: Vec<DeviceNvfp4Linear> = Vec::new();
        let mut i: usize = 0;
        assert(texts(names.prefixes@).len() == names.prefixes@.len());
        assert(given.skip(0) =~= given);
        while i < names.prefixes.len()
            invariant
                self.wf(),
                layers_fit(artifact),
                self.runtime == old(self).runtime,
                i <= names.prefixes@.len(),
                given.len() == names.prefixes@.len(),
                rest@ == given.skip(i as int),
                given == replies@,
                linears@.len() == i,
                texts(names.prefixes@) == region_prefixes(region.tensors@),
                self.arena == arenas[i as int],
                loaded_in_turn(
                    *old(self),
                    arenas,
                    artifact,
                    names.prefixes@,
                    residency,
                    resident_layout,
                    given,
                    linears@,
                ),
            decreases names.prefixes@.len() - i,
        {
            let reply = rest.remove(0);
            assert(reply == given[i as int]);
            assert(rest@ =~= given.skip(i + 1));
            let loaded = self.load_nvfp4_linear_with_layout(
                artifact,
                &names.prefixes[i],
                residency,
                resident_layout,
                reply,
            );
            match loaded {
                Ok(linear) => {
                    let ghost before = linears@;
                    let ghost earlier = arenas;
                    linears.push(linear);
                    proof {
                        arenas = arenas.push(self.arena);
                        assert forall|k: int| 0 <= k < linears@.len() implies nvfp4::loaded_layer(
                            old(self).runtime.config,
                            arenas[k],
                            arenas[k + 1],
                            artifact,
                            &names.prefixes@[k],
                            residency,
                            resident_layout,
                            given[k],
                            Ok(#[trigger] linears@[k]),
                        ) by {
                            if k < before.len() {
                                assert(before[k] == linears@[k]);
                                assert(earlier[k] == arenas[k] && earlier[k + 1] == arenas[k + 1]);
                            }
                        }
                    }
                },
                Err(error) => {
                    assert(nvfp4::loaded_layer(
                        old(self).runtime.config,
                        arenas[linears@.len() as int],
                        self.arena,
                        artifact,
                        &names.prefixes@[linears@.len() as int],
                        residency,
                        resident_layout,
                        given[linears@.len() as int],
                        Err(error),
                    ));
                    assert(loaded_in_turn(
                        *old(self),
                        arenas,
                        artifact,
                        names.prefixes@,
                        residency,
                        resident_layout,
                        given,
                        linears@,
                    ));
                    return Err(error);
                },
            }
            i += 1;
        }
        assert(loaded_in_turn(
            *old(self),
            arenas,
            artifact,
            names.prefixes@,
            residency,
            resident_layout,
            given,
            linears@,
        ));
        match names.bad {
            Some(error) => Err(error),
            None => Ok(linears),
        }
    }

    /// Loads the layers of a region for the native kernels.
    pub fn load_region_nvfp4_linears_with_store(
        &mut self,
        artifact: &ModelArtifact,
        region: &GraphRegion,
        residency: TensorResidencyPlan,
        replies: Vec<Nvfp4Replies>,
    ) -> (linears: Result<Vec<DeviceNvfp4Linear>, AegisError>)
        requires
            old(self).wf(),
            layers_fit(artifact),
            replies@.len() == region_prefixes(region.tensors@).len(),
        ensures
            final(self).wf(),
            final(self).runtime == old(self).runtime,
            loaded_region(
                *old(self),
                *final(self),
                artifact,
                region,
                residency,
                LinearResidentLayout::NativeTensorCore,
                replies@,
                linears,
            ),
    {
        self.load_region_nvfp4_linears_with_layout(
            artifact,
            region,
            residency,
            LinearResidentLayout::NativeTensorCore,
            replies,
        )
    }

    /// Loads the layers of a region for the native kernels into device memory.
    pub fn load_region_nvfp4_linears(
        &mut self,
        artifact: &ModelArtifact,
        region: &GraphRegion,
        replies: Vec<Nvfp4Replies>,
    ) -> (linears: Result<Vec<DeviceNvfp4Linear>, AegisError>)
        requires
            old(self).wf(),
            layers_fit(artifact),
            replies@.len() == region_prefixes(region.tensors@).len(),
        ensures
            final(self).wf(),
            final(self).runtime == old(self).runtime,
            loaded_region(
                *old(self),
                *final(self),
                artifact,
                region,
                TensorResidencyPlan::VramResident { device: old(self).runtime.device_index },
                LinearResidentLayout::NativeTensorCore,
                replies@,
                linears,
            ),
    {
        let device: usize = self.device_index();
        self.load_region_nvfp4_linears_with_store(
            artifact,
            region,
            TensorResidencyPlan::VramResident { device },
            replies,
        )
    }

    /// Loads the layers of a region where its placement has them.
    pub fn load_placed_region_nvfp4_linears_with_layout(
        &mut self,
        artifact: &ModelArtifact,
        region: &GraphRegion,
        placement: &RegionPlacement,
        resident_layout: LinearResidentLayout,
        replies: Vec<Nvfp4Replies>,
    ) -> (linears: Result<Vec<DeviceNvfp4Linear>, AegisError>)
        requires
            old(self).wf(),
            layers_fit(artifact),
            replies@.len() == region_prefixes(region.tensors@).len(),
        ensures
            final(self).wf(),
            final(self).runtime == old(self).runtime,
            match placed_residency(old(self).runtime.device_index, region, placement) {
                Err(error) => linears == Err::<Vec<DeviceNvfp4Linear>, _>(error)
                    && final(self).arena == old(self).arena,
                Ok(residency) => loaded_region(
                    *old(self),
                    *final(self),
                    artifact,
                    region,
                    residency,
                    resident_layout,
                    replies@,
                    linears,
                ),
            },
    {
        let residency: TensorResidencyPlan = self.placed_residency(region, placement)?;
        self.load_region_nvfp4_linears_with_layout(
            artifact,
            region,
            residency,
            resident_layout,
            replies,
        )
    }

    /// Loads the layers of a region for the native kernels where its placement has them.
    pub fn load_placed_region_nvfp4_linears(
        &mut self,
        artifact: &ModelArtifact,
        region: &GraphRegion,
        placement: &RegionPlacement,
        replies: Vec<Nvfp4Replies>,
    ) -> (linears: Result<Vec<DeviceNvfp4Linear>, AegisError>)
        requires
            old(self).wf(),
            layers_fit(artifact),
            replies@.len() == region_prefixes(region.tensors@).len(),
        ensures
            final(self).wf(),
            final(self).runtime == old(self).runtime,
            match placed_residency(old(self).runtime.device_index, region, placement) {
                Err(error) => linears == Err::<Vec<DeviceNvfp4Linear>, _>(error)
                    && final(self).arena == old(self).arena,
                Ok(residency) => loaded_region(
                    *old(self),
                    *final(self),
                    artifact,
                    region,
                    residency,
                    LinearResidentLayout::NativeTensorCore,
                    replies@,
                    linears,
                ),
            },
    {
        self.load_placed_region_nvfp4_linears_with_layout(
            artifact,
            region,
            placement,
            LinearResidentLayout::NativeTensorCore,
            replies,
        )
    }

    /// Loads the first layer of a region where its placement has it, if the region has one.
    pub fn load_first_placed_region_nvfp4_linear_with_layout(
        &mut self,
        artifact: &ModelArtifact,
        region: &GraphRegion,
        placement: &RegionPlacement,
        resident_layout: LinearResidentLayout,
        replies: Nvfp4Replies,
    ) -> (linear: Result<Option<DeviceNvfp4Linear>, AegisError>)
        requires
            old(self).wf(),
            layers_fit(artifact),
        ensures
            final(self).wf(),
            final(self).runtime == old(self).runtime,
            loaded_first(
                *old(self),
                *final(self),
                artifact,
                region,
                placement,
                resident_layout,
                replies,
                linear,
            ),
    {
        self.check_placement(region, placement)?;
        let prefix = match first_nvfp4_linear_prefix(region) {
            Some(prefix) => prefix,
            None => {
                return Ok(None);
            },
        };
        let residency: TensorResidencyPlan = self.residency(region, placement)?;
        let loaded = self.load_nvfp4_linear_with_layout(
            artifact,
            &prefix,
            residency,
            resident_layout,
            replies,
        );
        assert(nvfp4::loaded_layer(
            old(self).runtime.config,
            old(self).arena,
            self.arena,
            artifact,
            &prefix,
            residency,
            resident_layout,
            replies,
            loaded,
        ));
        match loaded {
            Ok(linear) => Ok(Some(linear)),
            Err(error) => Err(error),
        }
    }

    /// Loads the first layer of a region for the native kernels where its placement has it.
    pub fn load_first_placed_region_nvfp4_linear(
        &mut self,
        artifact: &ModelArtifact,
        region: &GraphRegion,
        placement: &RegionPlacement,
        replies: Nvfp4Replies,
    ) -> (linear: Result<Option<DeviceNvfp4Linear>, AegisError>)
        requires
            old(self).wf(),
            layers_fit(artifact),
        ensures
            final(self).wf(),
            final(self).runtime == old(self).runtime,
            loaded_first(
                *old(self),
                *final(self),
                artifact,
                region,
                placement,
                LinearResidentLayout::NativeTensorCore,
                replies,
                linear,
            ),
    {
        self.load_first_placed_region_nvfp4_linear_with_layout(
            artifact,
            region,
            placement,
            LinearResidentLayout::NativeTensorCore,
            replies,
        )
    }
}

/// What loading a region comes to: every layer, or the error of the first that could not be
/// loaded, or that of a name that is none.
pub open spec fn loaded_region(
    before: CudaWeightLoader<'_>,
    after: CudaWeightLoader<'_>,
    artifact: &ModelArtifact,
    region: &GraphRegion,
    residency: TensorResidencyPlan,
    layout: LinearResidentLayout,
    replies: Seq<Nvfp4Replies>,
    linears: Result<Vec<DeviceNvfp4Linear>, AegisError>,
) -> bool {
    exists|
        prefixes: Seq<String>,
        arenas: Seq<Option<PinnedArena>>,
        loaded: Seq<DeviceNvfp4Linear>,
    |
        {
            let n = loaded.len() as int;
            &&& texts(prefixes) == region_prefixes(region.tensors@)
            &&& #[trigger] loaded_in_turn(
                before,
                arenas,
                artifact,
                prefixes,
                residency,
                layout,
                replies,
                loaded,
            )
            &&& match linears {
                Ok(linears) => {
                    &&& bad_name(region.tensors@) is None
                    &&& n == prefixes.len()
                    &&& linears@ == loaded
                    &&& after.arena == arenas[n]
                },
                Err(error) => if n == prefixes.len() {
                    bad_name(region.tensors@) == Some(error) && after.arena == arenas[n]
                } else {
                    nvfp4::loaded_layer(
                        before.runtime.config,
                        arenas[n],
                        after.arena,
                        artifact,
                        &prefixes[n],
                        residency,
                        layout,
                        replies[n],
                        Err(error),
                    )
                },
            }
        }
}

/// What loading the first layer of a region comes to.
pub open spec fn loaded_first(
    before: CudaWeightLoader<'_>,
    after: CudaWeightLoader<'_>,
    artifact: &ModelArtifact,
    region: &GraphRegion,
    placement: &RegionPlacement,
    layout: LinearResidentLayout,
    replies: Nvfp4Replies,
    linear: Result<Option<DeviceNvfp4Linear>, AegisError>,
) -> bool {
    let residency = residency_of(
        before.runtime.device_index,
        region.id,
        placement.store,
        placement.compute,
    );
    if placement.region_id@ != region.id@ {
        &&& linear == Err::<Option<DeviceNvfp4Linear>, _>(mismatch(region, placement))
        &&& after.arena == before.arena
    } else if first_prefix(region.tensors@) is None {
        &&& linear == Ok::<_, AegisError>(None::<DeviceNvfp4Linear>)
        &&& after.arena == before.arena
    } else if residency is Err {
        &&& linear == Err::<Option<DeviceNvfp4Linear>, _>(residency->Err_0)
        &&& after.arena == before.arena
    } else {
        exists|prefix: String, loaded: Result<DeviceNvfp4Linear, AegisError>|
            {
                &&& prefix@ == first_prefix(region.tensors@)->Some_0
                &&& #[trigger] nvfp4::loaded_layer(
                    before.runtime.config,
                    before.arena,
                    after.arena,
                    artifact,
                    &prefix,
                    residency->Ok_0,
                    layout,
                    replies,
                    loaded,
                )
                &&& linear == match loaded {
                    Ok(loaded) => Ok(Some(loaded)),
                    Err(error) => Err(error),
                }
            }
    }
}

} // verus!
