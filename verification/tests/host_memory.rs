//! Host memory: the arena, page-locked buffers, shards and the expert cache.
use aegisllm_cuda::error::{AegisError, Message, Values};
use aegisllm_cuda::expert_cache::{
    pick_cache_capacity, try_cache_nvfp4_expert, CacheEntry, VramExpertCache,
};
use aegisllm_cuda::host_arena::PinnedArena;
use aegisllm_cuda::launch::{Operand, Step};
use aegisllm_cuda::owned_pinned::{round_to_pages, OwnedPinnedBuf, PinReply, PinRequest};
use aegisllm_cuda::registered_shards::{shard_span, RegisteredShards};
use aegisllm_cuda::types::{
    DeviceBuffer, DeviceNvfp4Linear, HostResidentWeights, HostWeightBytes, KernelFamily,
    LinearResidentLayout, TensorResidencyPlan,
};

fn failure() -> AegisError {
    AegisError::Unsupported(Message { text: "copy failed", values: Values::Zero })
}

#[test]
fn arena_hands_out_ranges_one_after_another() {
    let mut arena = PinnedArena::new(100, 4096).unwrap();
    assert_eq!(arena.capacity(), 4096);
    assert_eq!(arena.reserve(1000).unwrap(), 0);
    assert_eq!(arena.reserve(0).unwrap(), 1000);
    assert_eq!(arena.reserve(3000).unwrap(), 1000);
    assert_eq!(arena.used(), 4000);
    assert!(arena.in_bounds(1000, 3096));
    assert!(!arena.in_bounds(1000, 3097));
}

#[test]
fn arena_refusal_leaves_it_as_it_was() {
    let mut arena = PinnedArena::new(4096, 4096).unwrap();
    arena.reserve(4000).unwrap();
    assert_eq!(
        arena.reserve(97).unwrap_err().message(),
        "PinnedArena overflow: requested 97 at offset 4000, capacity 4096"
    );
    assert_eq!(arena.used(), 4000);
    assert_eq!(arena.reserve(96).unwrap(), 4000);
    assert!(arena.reserve(usize::MAX).is_err());
}

#[test]
fn arena_needs_capacity() {
    assert_eq!(
        PinnedArena::new(0, 0).err().unwrap().message(),
        "PinnedArena requires non-zero capacity"
    );
}

#[test]
fn pages_are_whole() {
    assert_eq!(round_to_pages(1, 4096), 4096);
    assert_eq!(round_to_pages(4096, 4096), 4096);
    assert_eq!(round_to_pages(4097, 4096), 8192);
    assert_eq!(round_to_pages(0, 4096), 0);
}

#[test]
fn pinned_buffer_is_locked_once() {
    assert_eq!(
        OwnedPinnedBuf::mapped_len(0, 4096).unwrap_err().message(),
        "OwnedPinnedBuf requires non-zero size"
    );
    assert_eq!(OwnedPinnedBuf::mapped_len(5000, 4096).unwrap(), 8192);
    let mut buffer = OwnedPinnedBuf::new_unpinned(5000, 4096, Ok(())).unwrap();
    assert_eq!(buffer.len(), 8192);
    assert_eq!(buffer.unregister_at(), None);
    assert_eq!(
        buffer.pin_request(5000, 100, 4096),
        PinRequest::Register { start: 4096, len: 4096 }
    );
    buffer
        .pin_range_with_flags(5000, 100, 4096, true, PinReply::Mapped(0xABC000))
        .unwrap();
    assert_eq!(buffer.device_ptr_base(), 0xABC000);
    assert_eq!(buffer.register_start(), 4096);
    assert_eq!(buffer.unregister_at(), Some(4096));
    assert_eq!(buffer.pin_request(0, 8192, 4096), PinRequest::Pinned);
}

#[test]
fn pinning_is_clamped_to_the_buffer() {
    let buffer = OwnedPinnedBuf::new_unpinned(5000, 4096, Ok(())).unwrap();
    assert_eq!(
        buffer.pin_request(0, 100_000, 4096),
        PinRequest::Register { start: 0, len: 8192 }
    );
    assert_eq!(buffer.pin_request(8192, 100, 4096), PinRequest::Empty);
    assert_eq!(buffer.pin_request(4096, 0, 4096), PinRequest::Empty);
}

#[test]
fn refused_pinning_is_reported() {
    let mut buffer = OwnedPinnedBuf::new_unpinned(4096, 4096, Ok(())).unwrap();
    let error = buffer
        .pin_range_with_flags(0, 4096, 4096, false, PinReply::Refused("NO_MEMORY".to_owned()))
        .unwrap_err();
    assert_eq!(
        error.message(),
        "OwnedPinnedBuf::pin_range(0, 4096, flags=0x1): cuMemHostRegister failed: NO_MEMORY"
    );
    let error = buffer
        .pin_range_with_flags(0, 4096, 4096, true, PinReply::Unmapped("BAD".to_owned()))
        .unwrap_err();
    assert_eq!(
        error.message(),
        "OwnedPinnedBuf::pin_range_devicemap(0, 4096): cuMemHostGetDevicePointer_v2 failed: BAD"
    );
    assert_eq!(buffer.unregister_at(), None);
    assert_eq!(buffer.device_ptr_base(), 0);
    assert_eq!(
        OwnedPinnedBuf::new_unpinned(1, 4096, Err("ENOMEM".to_owned())).unwrap_err().message(),
        "OwnedPinnedBuf: mmap(4096) failed: ENOMEM"
    );
}

#[test]
fn shards_that_are_missing_empty_or_refused_are_left_out() {
    assert_eq!(shard_span(None, 4096), None);
    assert_eq!(shard_span(Some(0), 4096), None);
    assert_eq!(shard_span(Some(1), 4096), Some(4096));
    let lens = vec![Some(10), None, Some(0), Some(5000), Some(4096)];
    let accepted = vec![true, true, true, false, true];
    let shards = RegisteredShards::register(&lens, 4096, &accepted);
    assert_eq!(shards.shards, vec![0, 4]);
    assert_eq!(shards.total_bytes, 8192);
    assert_eq!(shards.len(), 2);
    assert_eq!(RegisteredShards::empty().len(), 0);
}

#[test]
fn cache_gives_back_what_was_inserted() {
    let mut cache = VramExpertCache::new(100);
    assert_eq!(cache.buffer().len(), 100);
    let plan = cache.insert_plan(40, 10).unwrap();
    assert!(matches!(
        plan.steps[0],
        Step::Copy { to, stage: "vram cache htod packed", .. }
            if to.operand == Operand::ExpertCache && to.start == 0 && to.end == 40
    ));
    assert!(matches!(
        plan.steps[1],
        Step::Copy { to, stage: "vram cache htod scales", .. } if to.start == 40 && to.end == 50
    ));
    assert!(cache.try_insert("a", 40, 10, Ok(())).unwrap());
    assert!(cache.try_insert("b", 30, 20, Ok(())).unwrap());
    assert_eq!(
        cache.get("b"),
        Some(&CacheEntry { packed_offset: 50, packed_bytes: 30, scales_offset: 80, scales_bytes: 20 })
    );
    assert_eq!(cache.get("c"), None);
    assert_eq!((cache.used_bytes(), cache.capacity_bytes(), cache.entry_count()), (100, 100, 2));
}

#[test]
fn full_cache_declines_and_failed_copies_change_nothing() {
    let mut cache = VramExpertCache::new(10);
    assert!(!cache.try_insert("a", 8, 3, Ok(())).unwrap());
    assert!(cache.insert_plan(8, 3).is_none());
    assert!(cache.try_insert("a", 8, 2, Err(failure())).is_err());
    assert_eq!((cache.used_bytes(), cache.entry_count()), (0, 0));
    assert!(cache.try_insert("a", 4, 1, Ok(())).unwrap());
    assert!(cache.try_insert("a", 3, 1, Ok(())).unwrap());
    assert_eq!(cache.entry_count(), 1);
    assert_eq!(cache.used_bytes(), 9);
    assert_eq!(cache.get("a").unwrap().packed_offset, 5);
}

#[test]
fn cache_budget_keeps_a_margin() {
    assert_eq!(pick_cache_capacity(1000, 400).unwrap(), 600);
    assert_eq!(
        pick_cache_capacity(400, 400).unwrap_err().message(),
        "insufficient free VRAM for expert cache: free=400 margin=400"
    );
}

#[test]
fn only_host_resident_experts_are_cached() {
    let mut expert = DeviceNvfp4Linear {
        name: "experts.7.up".to_owned(),
        rows: 2,
        cols: 32,
        packed_bytes: 32,
        scale_bytes: 4,
        input_scale: 0x3F80_0000,
        output_scale: 0x3F80_0000,
        kernel_family: KernelFamily::CudaPackedFp4,
        resident_layout: LinearResidentLayout::PackedSource,
        residency: TensorResidencyPlan::StagedHostToDevice { device: 0 },
        packed: DeviceBuffer::with_len(1),
        scales: DeviceBuffer::with_len(1),
        native_mxfp4: None,
        cutlass_nvfp4: None,
        host_weights: None,
    };
    let mut cache = VramExpertCache::new(64);
    assert!(!try_cache_nvfp4_expert(&mut cache, &expert, Ok(())).unwrap());
    expert.host_weights = Some(HostResidentWeights {
        packed: HostWeightBytes::Arena { offset: 0, len: 32 },
        scales: HostWeightBytes::Arena { offset: 32, len: 4 },
        native_mxfp4: None,
    });
    assert!(try_cache_nvfp4_expert(&mut cache, &expert, Ok(())).unwrap());
    assert_eq!(cache.get("experts.7.up").unwrap().scales_offset, 32);
}
