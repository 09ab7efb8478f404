//! What the planner knows of device memory and of the requests made on it.
use core::marker::PhantomData;
use vstd::prelude::*;

verus! {

/// Marks buffers whose elements are single-precision reals on the device.
#[derive(Clone, Copy, Debug)]
pub struct F32;

/// The extent of a device allocation of elements `T`.
#[derive(Debug)]
pub struct DeviceBuffer<T> {
    elements: usize,
    marker: PhantomData<T>,
}

impl<T> DeviceBuffer<T> {
    /// Number of elements of the allocation.
    pub closed spec fn spec_len(&self) -> usize {
        self.elements
    }

    /// Describes an allocation of `elements` elements.
    pub fn with_len(elements: usize) -> (buffer: Self)
        ensures
            buffer.len() == elements,
    {
        DeviceBuffer { elements, marker: PhantomData }
    }

    /// Number of elements of the allocation.
    #[verifier::when_used_as_spec(spec_len)]
    pub fn len(&self) -> (n: usize)
        ensures
            n == self.spec_len(),
    {
        self.elements
    }

    /// Whether the allocation holds no element.
    pub fn is_empty(&self) -> (empty: bool)
        ensures
            empty == (self.len() == 0),
    {
        self.elements == 0
    }
}

/// Evidence that the device metadata of a dense prefill is the identity: one
/// sequence, positions `start_position..start_position + batch`.
#[derive(Clone, Copy, Debug)]
pub struct DensePrefillMetadataProof {
    pub start_position: usize,
    pub batch: usize,
    pub context_len: usize,
}

/// Scratch of split-K attention: accumulators, running maxima, running sums.
pub struct CudaAttentionSplitScratch<'a> {
    pub acc: &'a DeviceBuffer<F32>,
    pub m: &'a DeviceBuffer<F32>,
    pub l: &'a DeviceBuffer<F32>,
}

/// A prefill attention request over a paged key/value cache.
pub struct CudaAttentionRequest<'a> {
    pub q: &'a DeviceBuffer<F32>,
    pub q_half: Option<&'a DeviceBuffer<u16>>,
    pub k_cache: &'a DeviceBuffer<u16>,
    pub v_cache: &'a DeviceBuffer<u16>,
    pub cu_q: &'a DeviceBuffer<u32>,
    pub cu_k: &'a DeviceBuffer<u32>,
    pub context_lens: &'a DeviceBuffer<u32>,
    pub slot_mapping: &'a DeviceBuffer<u32>,
    pub block_tables: &'a DeviceBuffer<u32>,
    pub split_scratch: Option<CudaAttentionSplitScratch<'a>>,
    pub output: &'a DeviceBuffer<F32>,
    pub num_sequences: usize,
    pub num_prefill_tokens: usize,
    pub num_decode_tokens: usize,
    pub max_q: usize,
    pub max_k: usize,
    pub block_table_stride: usize,
    pub head_dim: usize,
    pub num_q_heads: usize,
    pub num_kv_heads: usize,
    pub causal: bool,
}

/// The kernels that a linear layer's weights are laid out for.
#[derive(Clone, Copy, Debug, PartialEq, Eq, Structural)]
pub enum KernelFamily {
    /// No device kernel; stands in where a layer is never computed.
    CpuScalar,
    /// Kernels that read the packed weights as they are stored.
    CudaPackedFp4,
    CudaNativeFp4TensorCores,
    CudaCutlassFp4TensorCores,
}

/// How a linear layer's weights are kept.
#[derive(Clone, Copy, Debug, PartialEq, Eq, Structural)]
pub enum LinearResidentLayout {
    PackedSource,
    NativeTensorCore,
    CudaR4fE2m1Ue4m3,
}

/// Where a tensor lives while it is used.
#[derive(Clone, Copy, Debug, PartialEq, Eq, Structural)]
pub enum TensorResidencyPlan {
    VramResident { device: usize },
    StagedHostToDevice { device: usize },
}

/// Weight bytes in page-locked host memory.
#[derive(Clone, Copy, Debug, PartialEq, Eq, Structural)]
pub enum HostWeightBytes {
    /// An allocation of its own.
    Pinned { len: usize },
    /// A range of the loader's arena.
    Arena { offset: usize, len: usize },
}

impl HostWeightBytes {
    /// Number of bytes.
    pub open spec fn spec_len(&self) -> usize {
        match self {
            HostWeightBytes::Pinned { len } => *len,
            HostWeightBytes::Arena { offset: _, len } => *len,
        }
    }

    /// Number of bytes.
    #[verifier::when_used_as_spec(spec_len)]
    pub fn len(&self) -> (n: usize)
        ensures
            n == self.spec_len(),
    {
        match self {
            HostWeightBytes::Pinned { len } => *len,
            HostWeightBytes::Arena { offset: _, len } => *len,
        }
    }
}

/// Weights repacked for the native tensor-core kernels, in device memory.
#[derive(Debug)]
pub struct DeviceMxfp4Linear {
    pub bytes: usize,
    pub blocks_per_row: usize,
    pub data: DeviceBuffer<u8>,
}

/// Weights repacked for the native tensor-core kernels, in host memory.
#[derive(Clone, Copy, Debug)]
pub struct HostResidentMxfp4 {
    pub blocks_per_row: usize,
    pub data: HostWeightBytes,
}

/// Weights that stay in host memory and are staged for each use.
#[derive(Clone, Copy, Debug)]
pub struct HostResidentWeights {
    pub packed: HostWeightBytes,
    pub scales: HostWeightBytes,
    pub native_mxfp4: Option<HostResidentMxfp4>,
}

/// Shape of weights that are laid out for CUTLASS.
#[derive(Clone, Copy, Debug, PartialEq, Eq, Structural)]
pub struct CutlassNvfp4Layout {
    pub logical_n: usize,
    pub logical_k: usize,
    pub scale_rows: usize,
    pub scale_cols: usize,
}

/// Weights that are laid out for CUTLASS, in device memory.
#[derive(Debug)]
pub struct DeviceCutlassNvfp4Linear {
    pub layout: CutlassNvfp4Layout,
    pub payload_e2m1: DeviceBuffer<u8>,
    pub scales_ue4m3: DeviceBuffer<u8>,
}

/// A linear layer with four-bit weights, one scale per block of sixteen.
#[derive(Debug)]
pub struct DeviceNvfp4Linear {
    pub name: String,
    pub rows: usize,
    pub cols: usize,
    pub packed_bytes: usize,
    pub scale_bytes: usize,
    /// Scales of the whole tensor, as bits of single precision.
    pub input_scale: u32,
    pub output_scale: u32,
    pub kernel_family: KernelFamily,
    pub resident_layout: LinearResidentLayout,
    pub residency: TensorResidencyPlan,
    pub packed: DeviceBuffer<u8>,
    pub scales: DeviceBuffer<u8>,
    pub native_mxfp4: Option<DeviceMxfp4Linear>,
    pub cutlass_nvfp4: Option<DeviceCutlassNvfp4Linear>,
    pub host_weights: Option<HostResidentWeights>,
}

impl DeviceNvfp4Linear {
    /// The repacked weights in device memory have the size that is recorded.
    pub open spec fn wf(&self) -> bool {
        self.native_mxfp4 matches Some(native) ==> native.data.len() == native.bytes
    }

    /// Whether the weights are in host memory and repacked there for the native
    /// tensor-core kernels.
    pub fn is_host_resident_with_native_mxfp4(&self) -> (yes: bool)
        ensures
            yes == (self.host_weights matches Some(weights) && weights.native_mxfp4 is Some),
    {
        match &self.host_weights {
            Some(weights) => weights.native_mxfp4.is_some(),
            None => false,
        }
    }

    /// Bytes of the repacked weights in host memory, none where there are none.
    pub fn host_resident_native_mxfp4_bytes(&self) -> (bytes: usize)
        ensures
            bytes == match self.host_weights {
                Some(weights) => match weights.native_mxfp4 {
                    Some(native) => native.data.len(),
                    None => 0,
                },
                None => 0,
            },
    {
        match &self.host_weights {
            Some(weights) => match &weights.native_mxfp4 {
                Some(native) => native.data.len(),
                None => 0,
            },
            None => 0,
        }
    }

    /// Bytes of the repacked weights in device memory, none where there are none.
    pub fn native_mxfp4_bytes(&self) -> (bytes: usize)
        ensures
            bytes == match self.native_mxfp4 {
                Some(native) => native.bytes,
                None => 0,
            },
            self.wf() ==> bytes == match self.native_mxfp4 {
                Some(native) => native.data.len(),
                None => 0,
            },
    {
        match &self.native_mxfp4 {
            Some(native) => native.bytes,
            None => 0,
        }
    }

    /// Blocks per row of the repacked weights in device memory.
    pub open spec fn spec_native_mxfp4_blocks_per_row(&self) -> usize {
        match self.native_mxfp4 {
            Some(native) => native.blocks_per_row,
            None => 0,
        }
    }

    /// Blocks per row of the repacked weights in device memory.
    #[verifier::when_used_as_spec(spec_native_mxfp4_blocks_per_row)]
    pub fn native_mxfp4_blocks_per_row(&self) -> (blocks: usize)
        ensures
            blocks == self.spec_native_mxfp4_blocks_per_row(),
    {
        match &self.native_mxfp4 {
            Some(native) => native.blocks_per_row,
            None => 0,
        }
    }

    /// Bytes of the weights that are laid out for CUTLASS.
    pub fn cutlass_nvfp4_payload_bytes(&self) -> (bytes: usize)
        ensures
            bytes == match self.cutlass_nvfp4 {
                Some(resident) => resident.payload_e2m1.len(),
                None => 0,
            },
    {
        match &self.cutlass_nvfp4 {
            Some(resident) => resident.payload_e2m1.len(),
            None => 0,
        }
    }

    /// Bytes of the scales that are laid out for CUTLASS.
    pub fn cutlass_nvfp4_scale_bytes(&self) -> (bytes: usize)
        ensures
            bytes == match self.cutlass_nvfp4 {
                Some(resident) => resident.scales_ue4m3.len(),
                None => 0,
            },
    {
        match &self.cutlass_nvfp4 {
            Some(resident) => resident.scales_ue4m3.len(),
            None => 0,
        }
    }

    /// Shape of the scales that are laid out for CUTLASS.
    pub fn cutlass_nvfp4_scale_shape(&self) -> (shape: Option<(usize, usize)>)
        ensures
            shape == match self.cutlass_nvfp4 {
                Some(resident) => Some((resident.layout.scale_rows, resident.layout.scale_cols)),
                None => None,
            },
    {
        match &self.cutlass_nvfp4 {
            Some(resident) => Some((resident.layout.scale_rows, resident.layout.scale_cols)),
            None => None,
        }
    }
}

/// The BF16 values of a matrix that is kept in host memory: where in the loader's arena they
/// start, and how many there are.
#[derive(Clone, Copy, Debug, PartialEq, Eq, Structural)]
pub struct HostBf16Weights {
    pub offset: usize,
    pub values: usize,
}

/// A matrix of BF16 values, in device memory or staged from host memory.
#[derive(Debug)]
pub struct DeviceBf16Matrix {
    pub name: String,
    pub rows: usize,
    pub cols: usize,
    pub residency: TensorResidencyPlan,
    pub values: DeviceBuffer<u16>,
    /// The values in host memory, where the matrix is kept there.
    pub host_values: Option<HostBf16Weights>,
}

impl DeviceBf16Matrix {
    /// A matrix in host memory has all its values there.
    pub open spec fn wf(&self) -> bool {
        self.host_values matches Some(host) ==> self.rows * self.cols <= host.values
    }

    /// Whether the matrix is kept in host memory.
    pub open spec fn spec_is_host_resident(&self) -> bool {
        self.host_values is Some
    }

    /// Whether the matrix is kept in host memory.
    #[verifier::when_used_as_spec(spec_is_host_resident)]
    pub fn is_host_resident(&self) -> (yes: bool)
        ensures
            yes == self.spec_is_host_resident(),
    {
        self.host_values.is_some()
    }
}

/// A linear layer with FP8 weights and one scale per row, or per block where
/// block scales are there.
#[derive(Debug)]
pub struct StandaloneFp8Linear {
    pub name: String,
    pub rows: usize,
    pub cols: usize,
    pub bytes: usize,
    pub data: DeviceBuffer<u8>,
    pub row_scales: DeviceBuffer<F32>,
    pub block_scales: Option<DeviceBuffer<F32>>,
    pub block_size: u32,
    pub scale_cols: u32,
}

/// Sizes of one expert's weights and scales, for every projection.
#[derive(Clone, Copy, Debug)]
pub struct MoeDeviceTables {
    pub gate_packed_bytes: usize,
    pub gate_scale_bytes: usize,
    pub up_packed_bytes: usize,
    pub up_scale_bytes: usize,
    pub down_packed_bytes: usize,
    pub down_scale_bytes: usize,
}

impl MoeDeviceTables {
    /// Bytes of one expert's weights.
    pub open spec fn slot_packed_bytes(&self) -> int {
        self.gate_packed_bytes + self.up_packed_bytes + self.down_packed_bytes
    }

    /// Bytes of one expert's scales.
    pub open spec fn slot_scale_bytes(&self) -> int {
        self.gate_scale_bytes + self.up_scale_bytes + self.down_scale_bytes
    }
}

} // verus!
