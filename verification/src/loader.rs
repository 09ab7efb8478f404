//! Loading of weights: what is read, how it is laid out, and where it is placed.
//!
//! Reading files, repacking and copying to the device are done by the caller, who hands in
//! what each came to; the loader decides what is to be done and puts the results together.
use crate::host_arena::PinnedArena;
use crate::loader::storage::ShardCache;
use crate::runtime::CudaRuntime;
use vstd::prelude::*;

pub mod bf16;
pub mod fp8_blocks;
pub mod layers;
pub mod numeric;
pub mod nvfp4;
pub mod prefetch;
pub mod region;
pub mod storage;
pub mod tensors;

verus! {

/// Loads weights for the device of a runtime.
pub struct CudaWeightLoader<'a> {
    pub runtime: &'a CudaRuntime,
    /// Where weights that stay in host memory are placed.
    pub arena: Option<PinnedArena>,
    /// The file that is held in memory.
    pub shards: ShardCache,
}

impl CudaRuntime {
    /// A loader without an arena: no weights can stay in host memory.
    pub fn weight_loader(&self) -> (loader: CudaWeightLoader<'_>)
        ensures
            loader.wf(),
            loader.runtime == self,
            loader.arena is None,
            loader.shards.spec_held() is None,
    {
        CudaWeightLoader { runtime: self, arena: None, shards: ShardCache::new() }
    }

    /// A loader that places weights into `arena`.
    pub fn weight_loader_with_arena(&self, arena: PinnedArena) -> (loader: CudaWeightLoader<'_>)
        requires
            arena.wf(),
        ensures
            loader.wf(),
            loader.runtime == self,
            loader.arena == Some(arena),
            loader.shards.spec_held() is None,
    {
        CudaWeightLoader { runtime: self, arena: Some(arena), shards: ShardCache::new() }
    }
}

impl CudaWeightLoader<'_> {
    /// The arena is in order.
    pub open spec fn wf(&self) -> bool {
        self.arena matches Some(arena) ==> arena.wf()
    }

    /// The index of the device.
    pub fn device_index(&self) -> (index: usize)
        ensures
            index == self.runtime.device_index,
    {
        self.runtime.device_index()
    }

    /// The arena, if there is one.
    pub fn arena(&self) -> (arena: Option<&PinnedArena>)
        ensures
            match arena {
                Some(arena) => self.arena == Some(*arena),
                None => self.arena is None,
            },
    {
        match &self.arena {
            Some(arena) => Some(arena),
            None => None,
        }
    }
}

} // verus!
