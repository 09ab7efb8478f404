//! Settings that steer the runtime.
use vstd::prelude::*;

verus! {

/// Which prefill attention implementation is asked for.
#[derive(Clone, Copy, Debug, PartialEq, Eq, Structural)]
pub enum CudaPrefillAttentionKernel {
    Auto,
    Off,
    Reference,
    FlashAttention2,
    FlashAttention3,
    FlashAttention4,
    AegisVarlen,
    WarpFlash,
    Continuation,
}

/// A prefill attention implementation.
#[derive(Clone, Copy, Debug, PartialEq, Eq, Structural)]
pub enum CudaAttentionBackend {
    Reference,
    AegisVarlen,
    FlashAttention2,
    FlashAttention3,
    FlashAttention4,
}

impl CudaAttentionBackend {
    /// The name of the implementation in settings and messages.
    pub open spec fn spec_canonical_name(self) -> &'static str {
        match self {
            CudaAttentionBackend::Reference => "reference",
            CudaAttentionBackend::AegisVarlen => "aegis-varlen",
            CudaAttentionBackend::FlashAttention2 => "fa2",
            CudaAttentionBackend::FlashAttention3 => "fa3",
            CudaAttentionBackend::FlashAttention4 => "fa4",
        }
    }

    /// The name of the implementation in settings and messages.
    pub fn canonical_name(self) -> (name: &'static str)
        ensures
            name == self.spec_canonical_name(),
    {
        match self {
            CudaAttentionBackend::Reference => "reference",
            CudaAttentionBackend::AegisVarlen => "aegis-varlen",
            CudaAttentionBackend::FlashAttention2 => "fa2",
            CudaAttentionBackend::FlashAttention3 => "fa3",
            CudaAttentionBackend::FlashAttention4 => "fa4",
        }
    }
}

/// Settings of a runtime that its user chooses.
#[derive(Clone, Copy, Debug, PartialEq, Eq)]
pub struct CudaRuntimeConfig {
    pub prefill_attention: CudaPrefillAttentionKernel,
    pub native_mxfp4_repack: bool,
    pub native_mxfp4_inference: bool,
    pub cutlass_nvfp4_repack: bool,
}

/// Settings of prefill attention that are fixed for a device.
#[derive(Clone, Copy, Debug)]
pub struct PrefillTuning {
    /// The implementation that suits the device best.
    pub auto_target: CudaAttentionBackend,
    /// Context length from which paged attention pays off.
    pub varlen_min_context: usize,
    /// Tokens per split of dense split-K attention.
    pub dense_split_k_tokens: usize,
}

/// Switches that are read from the process environment.
#[derive(Clone, Copy, Debug)]
pub struct AttentionSwitches {
    pub disable_split_k: bool,
    pub experimental_split_k: bool,
    pub experimental_persistent: bool,
    pub legacy_wmma: bool,
    pub experimental_cluster: bool,
}

} // verus!
