//! Stores into the key/value cache, and copies of it between host and device.
use crate::error::{invalid_plan, number, AegisError, Value, Values};
use crate::functions::Kernel;
use crate::launch::{Arg, Engine, LaunchConfig, Operand, Plan, Region, Scalar, Step, StepView};
use crate::runtime::{self, ceil_div, CudaRuntime};
use crate::types::{DensePrefillMetadataProof, DeviceBuffer, F32};
use vstd::prelude::*;

verus! {

/// The error for an argument that does not fit 32 bits.
pub open spec fn wide(name: &'static str, value: int) -> AegisError {
    AegisError::invalid_with(
        "CUDA KV argument {} exceeds u32 range: {}",
        Values::Two(Value::Label(name), Value::num(value)),
    )
}

/// Narrows an argument to 32 bits.
pub fn u32_arg(name: &'static str, value: usize) -> (word: Result<u32, AegisError>)
    ensures
        match word {
            Ok(narrow) => narrow == value,
            Err(error) => value > u32::MAX && error == wide(name, value as int),
        },
{
    if value as u64 <= u32::MAX as u64 {
        Ok(value as u32)
    } else {
        Err(
            invalid_plan(
                "CUDA KV argument {} exceeds u32 range: {}",
                Values::Two(Value::Label(name), number(value)),
            ),
        )
    }
}

/// The error for a product that is no length.
pub open spec fn long_product(label: &'static str, lhs: int, rhs: int) -> AegisError {
    AegisError::invalid_with(
        "CUDA KV {} length overflow: {} * {}",
        Values::Three(Value::Label(label), Value::num(lhs), Value::num(rhs)),
    )
}

/// The product of two extents, if it is a length.
pub fn checked_len(label: &'static str, lhs: usize, rhs: usize) -> (len: Result<usize, AegisError>)
    ensures
        match len {
            Ok(len) => len == lhs * rhs,
            Err(error) => lhs * rhs > usize::MAX && error == long_product(label, lhs as int, rhs as int),
        },
{
    match lhs.checked_mul(rhs) {
        Some(len) => Ok(len),
        None => Err(
            invalid_plan(
                "CUDA KV {} length overflow: {} * {}",
                Values::Three(Value::Label(label), number(lhs), number(rhs)),
            ),
        ),
    }
}

/// The error for a sum that is no length.
pub open spec fn long_sum(label: &'static str, lhs: int, rhs: int) -> AegisError {
    AegisError::invalid_with(
        "CUDA KV {} length overflow: {} + {}",
        Values::Three(Value::Label(label), Value::num(lhs), Value::num(rhs)),
    )
}

/// The sum of two extents, if it is a length.
pub fn checked_sum(label: &'static str, lhs: usize, rhs: usize) -> (len: Result<usize, AegisError>)
    ensures
        match len {
            Ok(len) => len == lhs + rhs,
            Err(error) => lhs + rhs > usize::MAX && error == long_sum(label, lhs as int, rhs as int),
        },
{
    match lhs.checked_add(rhs) {
        Some(len) => Ok(len),
        None => Err(
            invalid_plan(
                "CUDA KV {} length overflow: {} + {}",
                Values::Three(Value::Label(label), number(lhs), number(rhs)),
            ),
        ),
    }
}

/// The steps of [`CudaRuntime::build_dense_prefill_metadata_device`].
pub open spec fn dense_metadata_steps(
    start_position: usize,
    batch: usize,
    positions: &DeviceBuffer<u32>,
    slot_mapping: &DeviceBuffer<u32>,
) -> Result<Seq<StepView>, AegisError> {
    let end = start_position + batch;
    if end > usize::MAX {
        Err(long_sum("dense metadata end", start_position as int, batch as int))
    } else if batch == 0 || positions.len() < batch || slot_mapping.len() < batch {
        Err(AegisError::invalid_with(
                "dense prefill metadata buffers too small: start={} batch={} positions={} slots={}",
                Values::Four(
                    Value::num(start_position as int),
                    Value::num(batch as int),
                    Value::num(positions.len() as int),
                    Value::num(slot_mapping.len() as int),
                ),
            ))
    } else if start_position > u32::MAX {
        Err(wide("start_position", start_position as int))
    } else if end > u32::MAX {
        Err(wide("end_position", end as int))
    } else if batch > u32::MAX {
        Err(wide("batch", batch as int))
    } else {
        Ok(
            seq![
                StepView::launching(
                    Kernel::BuildDensePrefillMetadata,
                    "launch dense prefill metadata builder",
                    LaunchConfig::of(runtime::blocks(batch as int, 256), 1, 1, 256, 0),
                    seq![
                        Arg::word(start_position as int),
                        Arg::word(batch as int),
                        Arg::Buffer(Operand::Positions),
                        Arg::Buffer(Operand::SlotMapping),
                    ],
                ),
            ],
        )
    }
}

/// The steps of [`CudaRuntime::store_kv_ptr_device`].
pub open spec fn store_ptr_steps(
    key_cache: &DeviceBuffer<u16>,
    value_cache: &DeviceBuffer<u16>,
    key: &DeviceBuffer<F32>,
    value: &DeviceBuffer<F32>,
    p_position: &DeviceBuffer<u32>,
    kv_width: usize,
    context_size: usize,
) -> Result<Seq<StepView>, AegisError> {
    let cache_len = context_size * kv_width;
    if cache_len > usize::MAX {
        Err(long_product("cache", context_size as int, kv_width as int))
    } else if key.len() < kv_width || value.len() < kv_width {
        Err(AegisError::invalid("kv_store_ptr vector shape mismatch"))
    } else if key_cache.len() != cache_len || value_cache.len() != cache_len {
        Err(AegisError::invalid_with(
                "kv_store_ptr cache shape mismatch: key_cache={} value_cache={} context={} width={}",
                Values::Four(
                    Value::num(key_cache.len() as int),
                    Value::num(value_cache.len() as int),
                    Value::num(context_size as int),
                    Value::num(kv_width as int),
                ),
            ))
    } else if kv_width > u32::MAX {
        Err(wide("kv_width", kv_width as int))
    } else {
        Ok(
            seq![
                StepView::launching(
                    Kernel::KvStorePtr,
                    "launch kv_store_ptr",
                    LaunchConfig::of(runtime::blocks(kv_width as int, 256), 1, 1, 256, 0),
                    seq![
                        Arg::Buffer(Operand::KeyCache),
                        Arg::Buffer(Operand::ValueCache),
                        Arg::Buffer(Operand::Key),
                        Arg::Buffer(Operand::Value),
                        Arg::Buffer(Operand::Position),
                        Arg::word(kv_width as int),
                    ],
                ),
            ],
        )
    }
}

/// The steps of [`CudaRuntime::store_kv_device`].
pub open spec fn store_steps(
    key_cache: &DeviceBuffer<u16>,
    value_cache: &DeviceBuffer<u16>,
    key: &DeviceBuffer<F32>,
    value: &DeviceBuffer<F32>,
    position: usize,
    kv_width: usize,
    context_size: usize,
) -> Result<Seq<StepView>, AegisError> {
    let cache_len = context_size * kv_width;
    if cache_len > usize::MAX {
        Err(long_product("cache", context_size as int, kv_width as int))
    } else if key.len() != kv_width || value.len() != kv_width {
        Err(AegisError::invalid("kv store vector shape mismatch"))
    } else if key_cache.len() != cache_len || value_cache.len() != cache_len || position >= context_size {
        Err(AegisError::invalid_with(
                "kv cache shape mismatch: key_cache={} value_cache={} position={} context={} width={}",
                Values::Five(
                    Value::num(key_cache.len() as int),
                    Value::num(value_cache.len() as int),
                    Value::num(position as int),
                    Value::num(context_size as int),
                    Value::num(kv_width as int),
                ),
            ))
    } else if position > u32::MAX {
        Err(wide("position", position as int))
    } else if kv_width > u32::MAX {
        Err(wide("kv_width", kv_width as int))
    } else {
        Ok(
            seq![
                StepView::launching(
                    Kernel::KvStore,
                    "launch kv store",
                    LaunchConfig::of(runtime::blocks(kv_width as int, 256), 1, 1, 256, 0),
                    seq![
                        Arg::Buffer(Operand::KeyCache),
                        Arg::Buffer(Operand::ValueCache),
                        Arg::Buffer(Operand::Key),
                        Arg::Buffer(Operand::Value),
                        Arg::word(position as int),
                        Arg::word(kv_width as int),
                    ],
                ),
            ],
        )
    }
}

/// The steps of [`CudaRuntime::store_kv_batched_device`].
pub open spec fn store_batched_steps(
    key_cache: &DeviceBuffer<u16>,
    value_cache: &DeviceBuffer<u16>,
    key: &DeviceBuffer<F32>,
    value: &DeviceBuffer<F32>,
    start_position: usize,
    batch: usize,
    kv_width: usize,
    context_size: usize,
) -> Result<Seq<StepView>, AegisError> {
    let vector_len = batch * kv_width;
    let cache_len = context_size * kv_width;
    let end_position = start_position + batch;
    if vector_len > usize::MAX {
        Err(long_product("batched key/value", batch as int, kv_width as int))
    } else if cache_len > usize::MAX {
        Err(long_product("batched cache", context_size as int, kv_width as int))
    } else if end_position > usize::MAX {
        Err(long_sum("batched end", start_position as int, batch as int))
    } else if key.len() < vector_len || value.len() < vector_len {
        Err(AegisError::invalid("batched kv store vector shape mismatch"))
    } else if key_cache.len() != cache_len || value_cache.len() != cache_len || end_position > context_size {
        Err(AegisError::invalid_with(
                "batched kv cache shape mismatch: key_cache={} value_cache={} start={} batch={} context={} width={}",
                Values::Six(
                    Value::num(key_cache.len() as int),
                    Value::num(value_cache.len() as int),
                    Value::num(start_position as int),
                    Value::num(batch as int),
                    Value::num(context_size as int),
                    Value::num(kv_width as int),
                ),
            ))
    } else if start_position > u32::MAX {
        Err(wide("start_position", start_position as int))
    } else if batch > u32::MAX {
        Err(wide("batch", batch as int))
    } else if kv_width > u32::MAX {
        Err(wide("kv_width", kv_width as int))
    } else {
        Ok(
            seq![
                StepView::launching(
                    Kernel::KvStoreBatched,
                    "launch batched kv store",
                    LaunchConfig::of(
                        runtime::blocks(kv_width as int, 256),
                        batch as int,
                        1,
                        256,
                        0,
                    ),
                    seq![
                        Arg::Buffer(Operand::KeyCache),
                        Arg::Buffer(Operand::ValueCache),
                        Arg::Buffer(Operand::Key),
                        Arg::Buffer(Operand::Value),
                        Arg::word(start_position as int),
                        Arg::word(batch as int),
                        Arg::word(kv_width as int),
                    ],
                ),
            ],
        )
    }
}

/// The steps of [`CudaRuntime::store_kv_slots_batched_device`].
pub open spec fn store_slots_steps(
    key_cache: &DeviceBuffer<u16>,
    value_cache: &DeviceBuffer<u16>,
    key: &DeviceBuffer<F32>,
    value: &DeviceBuffer<F32>,
    slot_mapping: &DeviceBuffer<u32>,
    batch: usize,
    kv_width: usize,
    context_size: usize,
    dense_metadata: DensePrefillMetadataProof,
) -> Result<Seq<StepView>, AegisError> {
    let vector_len = batch * kv_width;
    let cache_len = context_size * kv_width;
    if vector_len > usize::MAX {
        Err(long_product("slot-mapped key/value", batch as int, kv_width as int))
    } else if cache_len > usize::MAX {
        Err(long_product("slot-mapped cache", context_size as int, kv_width as int))
    } else if dense_metadata.batch != batch || dense_metadata.context_len > context_size {
        Err(AegisError::invalid_with(
                "slot-mapped kv store requires matching dense identity proof: batch={} context={} proof_batch={} proof_context={}",
                Values::Four(
                    Value::num(batch as int),
                    Value::num(context_size as int),
                    Value::num(dense_metadata.batch as int),
                    Value::num(dense_metadata.context_len as int),
                ),
            ))
    } else if key.len() < vector_len || value.len() < vector_len {
        Err(AegisError::invalid("slot-mapped kv store vector shape mismatch"))
    } else if slot_mapping.len() < batch || key_cache.len() != cache_len || value_cache.len() != cache_len {
        Err(AegisError::invalid_with(
                "slot-mapped kv cache shape mismatch: key_cache={} value_cache={} slots={} batch={} context={} width={}",
                Values::Six(
                    Value::num(key_cache.len() as int),
                    Value::num(value_cache.len() as int),
                    Value::num(slot_mapping.len() as int),
                    Value::num(batch as int),
                    Value::num(context_size as int),
                    Value::num(kv_width as int),
                ),
            ))
    } else if batch > u32::MAX {
        Err(wide("batch", batch as int))
    } else if kv_width > u32::MAX {
        Err(wide("kv_width", kv_width as int))
    } else if context_size > u32::MAX {
        Err(wide("context_size", context_size as int))
    } else {
        Ok(
            seq![
                StepView::launching(
                    Kernel::KvStoreSlotsBatched,
                    "launch slot-mapped batched kv store",
                    LaunchConfig::of(
                        runtime::blocks(kv_width as int, 256),
                        batch as int,
                        1,
                        256,
                        0,
                    ),
                    seq![
                        Arg::Buffer(Operand::KeyCache),
                        Arg::Buffer(Operand::ValueCache),
                        Arg::Buffer(Operand::Key),
                        Arg::Buffer(Operand::Value),
                        Arg::Buffer(Operand::SlotMapping),
                        Arg::word(batch as int),
                        Arg::word(kv_width as int),
                        Arg::word(context_size as int),
                    ],
                ),
            ],
        )
    }
}

/// The steps of [`CudaRuntime::store_kv_slots_batched_rope_key_device`].
pub open spec fn store_rope_steps(
    key_cache: &DeviceBuffer<u16>,
    value_cache: &DeviceBuffer<u16>,
    key: &DeviceBuffer<F32>,
    value: &DeviceBuffer<F32>,
    positions: &DeviceBuffer<u32>,
    slot_mapping: &DeviceBuffer<u32>,
    batch: usize,
    num_heads: usize,
    head_dim: usize,
    context_size: usize,
    dense_metadata: DensePrefillMetadataProof,
) -> Result<Seq<StepView>, AegisError> {
    let kv_width = num_heads * head_dim;
    let vector_len = batch * kv_width;
    let cache_len = context_size * kv_width;
    if num_heads == 0 || head_dim == 0 || head_dim % 2 != 0 {
        Err(AegisError::invalid_with(
                "slot-mapped roped kv store requires non-zero heads and even head_dim: heads={} head_dim={}",
                Values::Two(Value::num(num_heads as int), Value::num(head_dim as int)),
            ))
    } else if kv_width > usize::MAX {
        Err(long_product("slot-mapped roped kv width", num_heads as int, head_dim as int))
    } else if vector_len > usize::MAX {
        Err(long_product("slot-mapped roped key/value", batch as int, kv_width as int))
    } else if cache_len > usize::MAX {
        Err(long_product("slot-mapped roped cache", context_size as int, kv_width as int))
    } else if dense_metadata.batch != batch || dense_metadata.context_len > context_size {
        Err(AegisError::invalid_with(
                "slot-mapped roped kv store requires matching dense identity proof: batch={} context={} proof_batch={} proof_context={}",
                Values::Four(
                    Value::num(batch as int),
                    Value::num(context_size as int),
                    Value::num(dense_metadata.batch as int),
                    Value::num(dense_metadata.context_len as int),
                ),
            ))
    } else if key.len() < vector_len || value.len() < vector_len {
        Err(AegisError::invalid("slot-mapped roped kv store vector shape mismatch"))
    } else if positions.len() < batch || slot_mapping.len() < batch || key_cache.len() != cache_len || value_cache.len() != cache_len {
        Err(AegisError::invalid_with(
                "slot-mapped roped kv cache shape mismatch: key_cache={} value_cache={} key={} value={} positions={} slots={} batch={} context={} width={}",
                Values::Nine(
                    Value::num(key_cache.len() as int),
                    Value::num(value_cache.len() as int),
                    Value::num(key.len() as int),
                    Value::num(value.len() as int),
                    Value::num(positions.len() as int),
                    Value::num(slot_mapping.len() as int),
                    Value::num(batch as int),
                    Value::num(context_size as int),
                    Value::num(kv_width as int),
                ),
            ))
    } else if batch > u32::MAX {
        Err(wide("batch", batch as int))
    } else if num_heads > u32::MAX {
        Err(wide("num_heads", num_heads as int))
    } else if head_dim > u32::MAX {
        Err(wide("head_dim", head_dim as int))
    } else if kv_width > u32::MAX {
        Err(wide("kv_width", kv_width as int))
    } else if context_size > u32::MAX {
        Err(wide("context_size", context_size as int))
    } else {
        Ok(
            seq![
                StepView::launching(
                    Kernel::RopeKvStoreSlotsBatched,
                    "launch slot-mapped roped batched kv store",
                    LaunchConfig::of(
                        runtime::blocks(kv_width as int, 256),
                        batch as int,
                        1,
                        256,
                        0,
                    ),
                    seq![
                        Arg::Buffer(Operand::KeyCache),
                        Arg::Buffer(Operand::ValueCache),
                        Arg::Buffer(Operand::Key),
                        Arg::Buffer(Operand::Value),
                        Arg::Buffer(Operand::Positions),
                        Arg::Buffer(Operand::SlotMapping),
                        Arg::word(batch as int),
                        Arg::word(num_heads as int),
                        Arg::word(head_dim as int),
                        Arg::word(context_size as int),
                        Arg::Scalar(Scalar::RopeTheta),
                        Arg::Scalar(Scalar::RopeFactor),
                        Arg::Scalar(Scalar::RopeLowFreqFactor),
                        Arg::Scalar(Scalar::RopeHighFreqFactor),
                        Arg::Scalar(Scalar::RopeOriginalMaxPositions),
                        Arg::Scalar(Scalar::RopePartialDim),
                    ],
                ),
            ],
        )
    }
}

/// The steps of [`CudaRuntime::store_kv_fp8_ptr_device`].
pub open spec fn store_fp8_ptr_steps(
    key_cache: &DeviceBuffer<u8>,
    value_cache: &DeviceBuffer<u8>,
    key: &DeviceBuffer<F32>,
    value: &DeviceBuffer<F32>,
    p_position: &DeviceBuffer<u32>,
    kv_width: usize,
    context_size: usize,
) -> Result<Seq<StepView>, AegisError> {
    let cache_len = context_size * kv_width;
    if cache_len > usize::MAX {
        Err(long_product("fp8 cache", context_size as int, kv_width as int))
    } else if key.len() != kv_width || value.len() != kv_width {
        Err(AegisError::invalid("kv_store_fp8_ptr vector shape mismatch"))
    } else if key_cache.len() != cache_len || value_cache.len() != cache_len {
        Err(AegisError::invalid_with(
                "kv_store_fp8_ptr cache shape mismatch: key={} value={} context={} width={}",
                Values::Four(
                    Value::num(key_cache.len() as int),
                    Value::num(value_cache.len() as int),
                    Value::num(context_size as int),
                    Value::num(kv_width as int),
                ),
            ))
    } else if kv_width > u32::MAX {
        Err(wide("kv_width", kv_width as int))
    } else {
        Ok(
            seq![
                StepView::launching(
                    Kernel::KvStoreFp8Ptr,
                    "launch kv_store_fp8_ptr",
                    LaunchConfig::of(runtime::blocks(kv_width as int, 256), 1, 1, 256, 0),
                    seq![
                        Arg::Buffer(Operand::KeyCache),
                        Arg::Buffer(Operand::ValueCache),
                        Arg::Buffer(Operand::Key),
                        Arg::Buffer(Operand::Value),
                        Arg::Buffer(Operand::Position),
                        Arg::word(kv_width as int),
                    ],
                ),
            ],
        )
    }
}

/// The steps of [`CudaRuntime::store_kv_fp8_device`].
pub open spec fn store_fp8_steps(
    key_cache: &DeviceBuffer<u8>,
    value_cache: &DeviceBuffer<u8>,
    key: &DeviceBuffer<F32>,
    value: &DeviceBuffer<F32>,
    position: usize,
    kv_width: usize,
    context_size: usize,
) -> Result<Seq<StepView>, AegisError> {
    let cache_len = context_size * kv_width;
    if cache_len > usize::MAX {
        Err(long_product("fp8 cache", context_size as int, kv_width as int))
    } else if key.len() != kv_width || value.len() != kv_width {
        Err(AegisError::invalid("kv_store_fp8 vector shape mismatch"))
    } else if key_cache.len() != cache_len || value_cache.len() != cache_len || position >= context_size {
        Err(AegisError::invalid_with(
                "kv_store_fp8 cache shape mismatch: pos={} context={} width={}",
                Values::Three(
                    Value::num(position as int),
                    Value::num(context_size as int),
                    Value::num(kv_width as int),
                ),
            ))
    } else if position > u32::MAX {
        Err(wide("position", position as int))
    } else if kv_width > u32::MAX {
        Err(wide("kv_width", kv_width as int))
    } else {
        Ok(
            seq![
                StepView::launching(
                    Kernel::KvStoreFp8,
                    "launch kv_store_fp8",
                    LaunchConfig::of(runtime::blocks(kv_width as int, 256), 1, 1, 256, 0),
                    seq![
                        Arg::Buffer(Operand::KeyCache),
                        Arg::Buffer(Operand::ValueCache),
                        Arg::Buffer(Operand::Key),
                        Arg::Buffer(Operand::Value),
                        Arg::word(position as int),
                        Arg::word(kv_width as int),
                    ],
                ),
            ],
        )
    }
}

/// The steps of [`CudaRuntime::store_kv_fp8_batched_device`].
pub open spec fn store_fp8_batched_steps(
    key_cache: &DeviceBuffer<u8>,
    value_cache: &DeviceBuffer<u8>,
    key: &DeviceBuffer<F32>,
    value: &DeviceBuffer<F32>,
    start_position: usize,
    batch: usize,
    kv_width: usize,
    context_size: usize,
) -> Result<Seq<StepView>, AegisError> {
    let vector_len = batch * kv_width;
    let cache_len = context_size * kv_width;
    let end_position = start_position + batch;
    if vector_len > usize::MAX {
        Err(long_product("fp8 batched kv", batch as int, kv_width as int))
    } else if cache_len > usize::MAX {
        Err(long_product("fp8 batched cache", context_size as int, kv_width as int))
    } else if end_position > usize::MAX {
        Err(long_sum("fp8 batched end", start_position as int, batch as int))
    } else if key.len() < vector_len || value.len() < vector_len {
        Err(AegisError::invalid("kv_store_fp8_batched vector shape mismatch"))
    } else if key_cache.len() != cache_len || value_cache.len() != cache_len || end_position > context_size {
        Err(AegisError::invalid_with(
                "kv_store_fp8_batched cache mismatch: start={} batch={} context={} width={}",
                Values::Four(
                    Value::num(start_position as int),
                    Value::num(batch as int),
                    Value::num(context_size as int),
                    Value::num(kv_width as int),
                ),
            ))
    } else if start_position > u32::MAX {
        Err(wide("start_position", start_position as int))
    } else if batch > u32::MAX {
        Err(wide("batch", batch as int))
    } else if kv_width > u32::MAX {
        Err(wide("kv_width", kv_width as int))
    } else {
        Ok(
            seq![
                StepView::launching(
                    Kernel::KvStoreFp8Batched,
                    "launch kv_store_fp8_batched",
                    LaunchConfig::of(
                        runtime::blocks(kv_width as int, 256),
                        batch as int,
                        1,
                        256,
                        0,
                    ),
                    seq![
                        Arg::Buffer(Operand::KeyCache),
                        Arg::Buffer(Operand::ValueCache),
                        Arg::Buffer(Operand::Key),
                        Arg::Buffer(Operand::Value),
                        Arg::word(start_position as int),
                        Arg::word(batch as int),
                        Arg::word(kv_width as int),
                    ],
                ),
            ],
        )
    }
}

/// The steps of [`CudaRuntime::store_kv_fp8_slots_batched_device`].
pub open spec fn store_fp8_slots_steps(
    key_cache: &DeviceBuffer<u8>,
    value_cache: &DeviceBuffer<u8>,
    key: &DeviceBuffer<F32>,
    value: &DeviceBuffer<F32>,
    slot_mapping: &DeviceBuffer<u32>,
    batch: usize,
    kv_width: usize,
    context_size: usize,
    dense_metadata: DensePrefillMetadataProof,
) -> Result<Seq<StepView>, AegisError> {
    let vector_len = batch * kv_width;
    let cache_len = context_size * kv_width;
    if vector_len > usize::MAX {
        Err(long_product("fp8 slot kv", batch as int, kv_width as int))
    } else if cache_len > usize::MAX {
        Err(long_product("fp8 slot cache", context_size as int, kv_width as int))
    } else if dense_metadata.batch != batch || dense_metadata.context_len > context_size {
        Err(AegisError::invalid_with(
                "kv_store_fp8_slots: proof mismatch batch={} ctx={} proof_batch={} proof_ctx={}",
                Values::Four(
                    Value::num(batch as int),
                    Value::num(context_size as int),
                    Value::num(dense_metadata.batch as int),
                    Value::num(dense_metadata.context_len as int),
                ),
            ))
    } else if key.len() < vector_len || value.len() < vector_len {
        Err(AegisError::invalid("kv_store_fp8_slots vector shape mismatch"))
    } else if slot_mapping.len() < batch || key_cache.len() != cache_len || value_cache.len() != cache_len {
        Err(AegisError::invalid_with(
                "kv_store_fp8_slots cache mismatch: batch={} context={} width={}",
                Values::Three(
                    Value::num(batch as int),
                    Value::num(context_size as int),
                    Value::num(kv_width as int),
                ),
            ))
    } else if batch > u32::MAX {
        Err(wide("batch", batch as int))
    } else if kv_width > u32::MAX {
        Err(wide("kv_width", kv_width as int))
    } else if context_size > u32::MAX {
        Err(wide("context_size", context_size as int))
    } else {
        Ok(
            seq![
                StepView::launching(
                    Kernel::KvStoreFp8SlotsBatched,
                    "launch kv_store_fp8_slots_batched",
                    LaunchConfig::of(
                        runtime::blocks(kv_width as int, 256),
                        batch as int,
                        1,
                        256,
                        0,
                    ),
                    seq![
                        Arg::Buffer(Operand::KeyCache),
                        Arg::Buffer(Operand::ValueCache),
                        Arg::Buffer(Operand::Key),
                        Arg::Buffer(Operand::Value),
                        Arg::Buffer(Operand::SlotMapping),
                        Arg::word(batch as int),
                        Arg::word(kv_width as int),
                        Arg::word(context_size as int),
                    ],
                ),
            ],
        )
    }
}

/// The steps of [`CudaRuntime::store_kv_fp8_slots_batched_rope_key_device`].
pub open spec fn store_fp8_rope_steps(
    key_cache: &DeviceBuffer<u8>,
    value_cache: &DeviceBuffer<u8>,
    key: &DeviceBuffer<F32>,
    value: &DeviceBuffer<F32>,
    positions: &DeviceBuffer<u32>,
    slot_mapping: &DeviceBuffer<u32>,
    batch: usize,
    num_heads: usize,
    head_dim: usize,
    context_size: usize,
    dense_metadata: DensePrefillMetadataProof,
) -> Result<Seq<StepView>, AegisError> {
    let kv_width = num_heads * head_dim;
    let vector_len = batch * kv_width;
    let cache_len = context_size * kv_width;
    if num_heads == 0 || head_dim == 0 || head_dim % 2 != 0 || head_dim > 256 {
        Err(AegisError::invalid_with(
                "fp8 roped kv: invalid heads={} head_dim={}",
                Values::Two(Value::num(num_heads as int), Value::num(head_dim as int)),
            ))
    } else if kv_width > usize::MAX {
        Err(long_product("fp8 roped kv width", num_heads as int, head_dim as int))
    } else if vector_len > usize::MAX {
        Err(long_product("fp8 roped kv vectors", batch as int, kv_width as int))
    } else if cache_len > usize::MAX {
        Err(long_product("fp8 roped cache", context_size as int, kv_width as int))
    } else if dense_metadata.batch != batch || dense_metadata.context_len > context_size {
        Err(AegisError::invalid_with(
                "fp8 roped kv: proof mismatch batch={} ctx={}",
                Values::Two(Value::num(batch as int), Value::num(context_size as int)),
            ))
    } else if key.len() < vector_len || value.len() < vector_len {
        Err(AegisError::invalid("fp8 roped kv: vector shape mismatch"))
    } else if positions.len() < batch || slot_mapping.len() < batch || key_cache.len() != cache_len || value_cache.len() != cache_len {
        Err(AegisError::invalid_with(
                "fp8 roped kv: cache shape mismatch context={} width={}",
                Values::Two(Value::num(context_size as int), Value::num(kv_width as int)),
            ))
    } else if batch > u32::MAX {
        Err(wide("batch", batch as int))
    } else if num_heads > u32::MAX {
        Err(wide("num_heads", num_heads as int))
    } else if head_dim > u32::MAX {
        Err(wide("head_dim", head_dim as int))
    } else if kv_width > u32::MAX {
        Err(wide("kv_width", kv_width as int))
    } else if context_size > u32::MAX {
        Err(wide("context_size", context_size as int))
    } else {
        Ok(
            seq![
                StepView::launching(
                    Kernel::RopeKvStoreFp8SlotsBatched,
                    "launch rope_kv_store_fp8_slots_batched",
                    LaunchConfig::of(
                        runtime::blocks(kv_width as int, 256),
                        batch as int,
                        1,
                        256,
                        0,
                    ),
                    seq![
                        Arg::Buffer(Operand::KeyCache),
                        Arg::Buffer(Operand::ValueCache),
                        Arg::Buffer(Operand::Key),
                        Arg::Buffer(Operand::Value),
                        Arg::Buffer(Operand::Positions),
                        Arg::Buffer(Operand::SlotMapping),
                        Arg::word(batch as int),
                        Arg::word(num_heads as int),
                        Arg::word(head_dim as int),
                        Arg::word(context_size as int),
                        Arg::Scalar(Scalar::RopeTheta),
                        Arg::Scalar(Scalar::RopeFactor),
                        Arg::Scalar(Scalar::RopeLowFreqFactor),
                        Arg::Scalar(Scalar::RopeHighFreqFactor),
                        Arg::Scalar(Scalar::RopeOriginalMaxPositions),
                        Arg::Scalar(Scalar::RopePartialDim),
                    ],
                ),
            ],
        )
    }
}

impl CudaRuntime {
    /// Fills the positions and the slots of a dense prefill: one thread per token.
    pub fn build_dense_prefill_metadata_device(
        &self,
        start_position: usize,
        batch: usize,
        positions: &DeviceBuffer<u32>,
        slot_mapping: &DeviceBuffer<u32>,
    ) -> (plan: Result<Plan, AegisError>)
        ensures
            Plan::outcome(plan) =~~= dense_metadata_steps(
                start_position,
                batch,
                positions,
                slot_mapping,
            ),
    {
        let end: usize = checked_sum("dense metadata end", start_position, batch)?;
        if batch == 0 || positions.len() < batch || slot_mapping.len() < batch {
            return Err(invalid_plan(
                "dense prefill metadata buffers too small: start={} batch={} positions={} slots={}",
                Values::Four(
                    number(start_position),
                    number(batch),
                    number(positions.len()),
                    number(slot_mapping.len()),
                ),
            ));
        }
        let start_word: u32 = u32_arg("start_position", start_position)?;
        let end_word: u32 = u32_arg("end_position", end)?;
        let batch_word: u32 = u32_arg("batch", batch)?;
        Ok(
            Plan::launch(
                Kernel::BuildDensePrefillMetadata,
                "launch dense prefill metadata builder",
                LaunchConfig {
                    grid_dim: (ceil_div(batch_word, 256), 1, 1),
                    block_dim: (256, 1, 1),
                    shared_mem_bytes: 0,
                },
                vec![
                    Arg::U32(start_word),
                    Arg::U32(batch_word),
                    Arg::Buffer(Operand::Positions),
                    Arg::Buffer(Operand::SlotMapping),
                ],
            ),
        )
    }

    /// Stores one key and one value at the position that is read from device memory, so
    /// that a captured graph can be replayed for every position. The vectors may be
    /// longer than one position: scratch is sized for the widest layer.
    pub fn store_kv_ptr_device(
        &self,
        key_cache: &DeviceBuffer<u16>,
        value_cache: &DeviceBuffer<u16>,
        key: &DeviceBuffer<F32>,
        value: &DeviceBuffer<F32>,
        p_position: &DeviceBuffer<u32>,
        kv_width: usize,
        context_size: usize,
    ) -> (plan: Result<Plan, AegisError>)
        ensures
            Plan::outcome(plan) =~~= store_ptr_steps(
                key_cache,
                value_cache,
                key,
                value,
                p_position,
                kv_width,
                context_size,
            ),
    {
        let cache_len: usize = checked_len("cache", context_size, kv_width)?;
        if key.len() < kv_width || value.len() < kv_width {
            return Err(invalid_plan("kv_store_ptr vector shape mismatch", Values::Zero));
        }
        if key_cache.len() != cache_len || value_cache.len() != cache_len {
            return Err(invalid_plan(
                "kv_store_ptr cache shape mismatch: key_cache={} value_cache={} context={} width={}",
                Values::Four(
                    number(key_cache.len()),
                    number(value_cache.len()),
                    number(context_size),
                    number(kv_width),
                ),
            ));
        }
        let width: u32 = u32_arg("kv_width", kv_width)?;
        Ok(
            Plan::launch(
                Kernel::KvStorePtr,
                "launch kv_store_ptr",
                LaunchConfig {
                    grid_dim: (ceil_div(width, 256), 1, 1),
                    block_dim: (256, 1, 1),
                    shared_mem_bytes: 0,
                },
                vec![
                    Arg::Buffer(Operand::KeyCache),
                    Arg::Buffer(Operand::ValueCache),
                    Arg::Buffer(Operand::Key),
                    Arg::Buffer(Operand::Value),
                    Arg::Buffer(Operand::Position),
                    Arg::U32(width),
                ],
            ),
        )
    }

    /// Stores one key and one value at `position`.
    pub fn store_kv_device(
        &self,
        key_cache: &DeviceBuffer<u16>,
        value_cache: &DeviceBuffer<u16>,
        key: &DeviceBuffer<F32>,
        value: &DeviceBuffer<F32>,
        position: usize,
        kv_width: usize,
        context_size: usize,
    ) -> (plan: Result<Plan, AegisError>)
        ensures
            Plan::outcome(plan) =~~= store_steps(
                key_cache,
                value_cache,
                key,
                value,
                position,
                kv_width,
                context_size,
            ),
    {
        let cache_len: usize = checked_len("cache", context_size, kv_width)?;
        if key.len() != kv_width || value.len() != kv_width {
            return Err(invalid_plan("kv store vector shape mismatch", Values::Zero));
        }
        if key_cache.len() != cache_len || value_cache.len() != cache_len || position >= context_size {
            return Err(invalid_plan(
                "kv cache shape mismatch: key_cache={} value_cache={} position={} context={} width={}",
                Values::Five(
                    number(key_cache.len()),
                    number(value_cache.len()),
                    number(position),
                    number(context_size),
                    number(kv_width),
                ),
            ));
        }
        let position_word: u32 = u32_arg("position", position)?;
        let width: u32 = u32_arg("kv_width", kv_width)?;
        Ok(
            Plan::launch(
                Kernel::KvStore,
                "launch kv store",
                LaunchConfig {
                    grid_dim: (ceil_div(width, 256), 1, 1),
                    block_dim: (256, 1, 1),
                    shared_mem_bytes: 0,
                },
                vec![
                    Arg::Buffer(Operand::KeyCache),
                    Arg::Buffer(Operand::ValueCache),
                    Arg::Buffer(Operand::Key),
                    Arg::Buffer(Operand::Value),
                    Arg::U32(position_word),
                    Arg::U32(width),
                ],
            ),
        )
    }

    /// Stores `batch` keys and values from `start_position` on.
    pub fn store_kv_batched_device(
        &self,
        key_cache: &DeviceBuffer<u16>,
        value_cache: &DeviceBuffer<u16>,
        key: &DeviceBuffer<F32>,
        value: &DeviceBuffer<F32>,
        start_position: usize,
        batch: usize,
        kv_width: usize,
        context_size: usize,
    ) -> (plan: Result<Plan, AegisError>)
        ensures
            Plan::outcome(plan) =~~= store_batched_steps(
                key_cache,
                value_cache,
                key,
                value,
                start_position,
                batch,
                kv_width,
                context_size,
            ),
    {
        let vector_len: usize = checked_len("batched key/value", batch, kv_width)?;
        let cache_len: usize = checked_len("batched cache", context_size, kv_width)?;
        let end_position: usize = checked_sum("batched end", start_position, batch)?;
        if key.len() < vector_len || value.len() < vector_len {
            return Err(invalid_plan("batched kv store vector shape mismatch", Values::Zero));
        }
        if key_cache.len() != cache_len || value_cache.len() != cache_len || end_position > context_size {
            return Err(invalid_plan(
                "batched kv cache shape mismatch: key_cache={} value_cache={} start={} batch={} context={} width={}",
                Values::Six(
                    number(key_cache.len()),
                    number(value_cache.len()),
                    number(start_position),
                    number(batch),
                    number(context_size),
                    number(kv_width),
                ),
            ));
        }
        let start_word: u32 = u32_arg("start_position", start_position)?;
        let batch_word: u32 = u32_arg("batch", batch)?;
        let width: u32 = u32_arg("kv_width", kv_width)?;
        Ok(
            Plan::launch(
                Kernel::KvStoreBatched,
                "launch batched kv store",
                LaunchConfig {
                    grid_dim: (ceil_div(width, 256), batch_word, 1),
                    block_dim: (256, 1, 1),
                    shared_mem_bytes: 0,
                },
                vec![
                    Arg::Buffer(Operand::KeyCache),
                    Arg::Buffer(Operand::ValueCache),
                    Arg::Buffer(Operand::Key),
                    Arg::Buffer(Operand::Value),
                    Arg::U32(start_word),
                    Arg::U32(batch_word),
                    Arg::U32(width),
                ],
            ),
        )
    }

    /// Stores `batch` keys and values, each at its slot.
    pub fn store_kv_slots_batched_device(
        &self,
        key_cache: &DeviceBuffer<u16>,
        value_cache: &DeviceBuffer<u16>,
        key: &DeviceBuffer<F32>,
        value: &DeviceBuffer<F32>,
        slot_mapping: &DeviceBuffer<u32>,
        batch: usize,
        kv_width: usize,
        context_size: usize,
        dense_metadata: DensePrefillMetadataProof,
    ) -> (plan: Result<Plan, AegisError>)
        ensures
            Plan::outcome(plan) =~~= store_slots_steps(
                key_cache,
                value_cache,
                key,
                value,
                slot_mapping,
                batch,
                kv_width,
                context_size,
                dense_metadata,
            ),
    {
        let vector_len: usize = checked_len("slot-mapped key/value", batch, kv_width)?;
        let cache_len: usize = checked_len("slot-mapped cache", context_size, kv_width)?;
        if dense_metadata.batch != batch || dense_metadata.context_len > context_size {
            return Err(invalid_plan(
                "slot-mapped kv store requires matching dense identity proof: batch={} context={} proof_batch={} proof_context={}",
                Values::Four(
                    number(batch),
                    number(context_size),
                    number(dense_metadata.batch),
                    number(dense_metadata.context_len),
                ),
            ));
        }
        if key.len() < vector_len || value.len() < vector_len {
            return Err(invalid_plan("slot-mapped kv store vector shape mismatch", Values::Zero));
        }
        if slot_mapping.len() < batch || key_cache.len() != cache_len || value_cache.len() != cache_len {
            return Err(invalid_plan(
                "slot-mapped kv cache shape mismatch: key_cache={} value_cache={} slots={} batch={} context={} width={}",
                Values::Six(
                    number(key_cache.len()),
                    number(value_cache.len()),
                    number(slot_mapping.len()),
                    number(batch),
                    number(context_size),
                    number(kv_width),
                ),
            ));
        }
        let batch_word: u32 = u32_arg("batch", batch)?;
        let width: u32 = u32_arg("kv_width", kv_width)?;
        let context: u32 = u32_arg("context_size", context_size)?;
        Ok(
            Plan::launch(
                Kernel::KvStoreSlotsBatched,
                "launch slot-mapped batched kv store",
                LaunchConfig {
                    grid_dim: (ceil_div(width, 256), batch_word, 1),
                    block_dim: (256, 1, 1),
                    shared_mem_bytes: 0,
                },
                vec![
                    Arg::Buffer(Operand::KeyCache),
                    Arg::Buffer(Operand::ValueCache),
                    Arg::Buffer(Operand::Key),
                    Arg::Buffer(Operand::Value),
                    Arg::Buffer(Operand::SlotMapping),
                    Arg::U32(batch_word),
                    Arg::U32(width),
                    Arg::U32(context),
                ],
            ),
        )
    }

    /// Rotates `batch` keys to their positions and stores them with their values, each
    /// at its slot. The rotation pairs the halves of a head, so heads are even.
    pub fn store_kv_slots_batched_rope_key_device(
        &self,
        key_cache: &DeviceBuffer<u16>,
        value_cache: &DeviceBuffer<u16>,
        key: &DeviceBuffer<F32>,
        value: &DeviceBuffer<F32>,
        positions: &DeviceBuffer<u32>,
        slot_mapping: &DeviceBuffer<u32>,
        batch: usize,
        num_heads: usize,
        head_dim: usize,
        context_size: usize,
        dense_metadata: DensePrefillMetadataProof,
    ) -> (plan: Result<Plan, AegisError>)
        ensures
            Plan::outcome(plan) =~~= store_rope_steps(
                key_cache,
                value_cache,
                key,
                value,
                positions,
                slot_mapping,
                batch,
                num_heads,
                head_dim,
                context_size,
                dense_metadata,
            ),
    {
        if num_heads == 0 || head_dim == 0 || head_dim % 2 != 0 {
            return Err(invalid_plan(
                "slot-mapped roped kv store requires non-zero heads and even head_dim: heads={} head_dim={}",
                Values::Two(number(num_heads), number(head_dim)),
            ));
        }
        let kv_width: usize = checked_len("slot-mapped roped kv width", num_heads, head_dim)?;
        let vector_len: usize = checked_len("slot-mapped roped key/value", batch, kv_width)?;
        let cache_len: usize = checked_len("slot-mapped roped cache", context_size, kv_width)?;
        if dense_metadata.batch != batch || dense_metadata.context_len > context_size {
            return Err(invalid_plan(
                "slot-mapped roped kv store requires matching dense identity proof: batch={} context={} proof_batch={} proof_context={}",
                Values::Four(
                    number(batch),
                    number(context_size),
                    number(dense_metadata.batch),
                    number(dense_metadata.context_len),
                ),
            ));
        }
        if key.len() < vector_len || value.len() < vector_len {
            return Err(invalid_plan(
                "slot-mapped roped kv store vector shape mismatch",
                Values::Zero,
            ));
        }
        if positions.len() < batch || slot_mapping.len() < batch || key_cache.len() != cache_len || value_cache.len() != cache_len {
            return Err(invalid_plan(
                "slot-mapped roped kv cache shape mismatch: key_cache={} value_cache={} key={} value={} positions={} slots={} batch={} context={} width={}",
                Values::Nine(
                    number(key_cache.len()),
                    number(value_cache.len()),
                    number(key.len()),
                    number(value.len()),
                    number(positions.len()),
                    number(slot_mapping.len()),
                    number(batch),
                    number(context_size),
                    number(kv_width),
                ),
            ));
        }
        let batch_word: u32 = u32_arg("batch", batch)?;
        let heads: u32 = u32_arg("num_heads", num_heads)?;
        let dim: u32 = u32_arg("head_dim", head_dim)?;
        let width: u32 = u32_arg("kv_width", kv_width)?;
        let context: u32 = u32_arg("context_size", context_size)?;
        Ok(
            Plan::launch(
                Kernel::RopeKvStoreSlotsBatched,
                "launch slot-mapped roped batched kv store",
                LaunchConfig {
                    grid_dim: (ceil_div(width, 256), batch_word, 1),
                    block_dim: (256, 1, 1),
                    shared_mem_bytes: 0,
                },
                vec![
                    Arg::Buffer(Operand::KeyCache),
                    Arg::Buffer(Operand::ValueCache),
                    Arg::Buffer(Operand::Key),
                    Arg::Buffer(Operand::Value),
                    Arg::Buffer(Operand::Positions),
                    Arg::Buffer(Operand::SlotMapping),
                    Arg::U32(batch_word),
                    Arg::U32(heads),
                    Arg::U32(dim),
                    Arg::U32(context),
                    Arg::Scalar(Scalar::RopeTheta),
                    Arg::Scalar(Scalar::RopeFactor),
                    Arg::Scalar(Scalar::RopeLowFreqFactor),
                    Arg::Scalar(Scalar::RopeHighFreqFactor),
                    Arg::Scalar(Scalar::RopeOriginalMaxPositions),
                    Arg::Scalar(Scalar::RopePartialDim),
                ],
            ),
        )
    }

    /// [`Self::store_kv_ptr_device`] over an FP8 cache, for vectors of exactly one
    /// position.
    pub fn store_kv_fp8_ptr_device(
        &self,
        key_cache: &DeviceBuffer<u8>,
        value_cache: &DeviceBuffer<u8>,
        key: &DeviceBuffer<F32>,
        value: &DeviceBuffer<F32>,
        p_position: &DeviceBuffer<u32>,
        kv_width: usize,
        context_size: usize,
    ) -> (plan: Result<Plan, AegisError>)
        ensures
            Plan::outcome(plan) =~~= store_fp8_ptr_steps(
                key_cache,
                value_cache,
                key,
                value,
                p_position,
                kv_width,
                context_size,
            ),
    {
        let cache_len: usize = checked_len("fp8 cache", context_size, kv_width)?;
        if key.len() != kv_width || value.len() != kv_width {
            return Err(invalid_plan("kv_store_fp8_ptr vector shape mismatch", Values::Zero));
        }
        if key_cache.len() != cache_len || value_cache.len() != cache_len {
            return Err(invalid_plan(
                "kv_store_fp8_ptr cache shape mismatch: key={} value={} context={} width={}",
                Values::Four(
                    number(key_cache.len()),
                    number(value_cache.len()),
                    number(context_size),
                    number(kv_width),
                ),
            ));
        }
        let width: u32 = u32_arg("kv_width", kv_width)?;
        Ok(
            Plan::launch(
                Kernel::KvStoreFp8Ptr,
                "launch kv_store_fp8_ptr",
                LaunchConfig {
                    grid_dim: (ceil_div(width, 256), 1, 1),
                    block_dim: (256, 1, 1),
                    shared_mem_bytes: 0,
                },
                vec![
                    Arg::Buffer(Operand::KeyCache),
                    Arg::Buffer(Operand::ValueCache),
                    Arg::Buffer(Operand::Key),
                    Arg::Buffer(Operand::Value),
                    Arg::Buffer(Operand::Position),
                    Arg::U32(width),
                ],
            ),
        )
    }

    /// [`Self::store_kv_device`] over an FP8 cache.
    pub fn store_kv_fp8_device(
        &self,
        key_cache: &DeviceBuffer<u8>,
        value_cache: &DeviceBuffer<u8>,
        key: &DeviceBuffer<F32>,
        value: &DeviceBuffer<F32>,
        position: usize,
        kv_width: usize,
        context_size: usize,
    ) -> (plan: Result<Plan, AegisError>)
        ensures
            Plan::outcome(plan) =~~= store_fp8_steps(
                key_cache,
                value_cache,
                key,
                value,
                position,
                kv_width,
                context_size,
            ),
    {
        let cache_len: usize = checked_len("fp8 cache", context_size, kv_width)?;
        if key.len() != kv_width || value.len() != kv_width {
            return Err(invalid_plan("kv_store_fp8 vector shape mismatch", Values::Zero));
        }
        if key_cache.len() != cache_len || value_cache.len() != cache_len || position >= context_size {
            return Err(invalid_plan(
                "kv_store_fp8 cache shape mismatch: pos={} context={} width={}",
                Values::Three(number(position), number(context_size), number(kv_width)),
            ));
        }
        let position_word: u32 = u32_arg("position", position)?;
        let width: u32 = u32_arg("kv_width", kv_width)?;
        Ok(
            Plan::launch(
                Kernel::KvStoreFp8,
                "launch kv_store_fp8",
                LaunchConfig {
                    grid_dim: (ceil_div(width, 256), 1, 1),
                    block_dim: (256, 1, 1),
                    shared_mem_bytes: 0,
                },
                vec![
                    Arg::Buffer(Operand::KeyCache),
                    Arg::Buffer(Operand::ValueCache),
                    Arg::Buffer(Operand::Key),
                    Arg::Buffer(Operand::Value),
                    Arg::U32(position_word),
                    Arg::U32(width),
                ],
            ),
        )
    }

    /// [`Self::store_kv_batched_device`] over an FP8 cache.
    pub fn store_kv_fp8_batched_device(
        &self,
        key_cache: &DeviceBuffer<u8>,
        value_cache: &DeviceBuffer<u8>,
        key: &DeviceBuffer<F32>,
        value: &DeviceBuffer<F32>,
        start_position: usize,
        batch: usize,
        kv_width: usize,
        context_size: usize,
    ) -> (plan: Result<Plan, AegisError>)
        ensures
            Plan::outcome(plan) =~~= store_fp8_batched_steps(
                key_cache,
                value_cache,
                key,
                value,
                start_position,
                batch,
                kv_width,
                context_size,
            ),
    {
        let vector_len: usize = checked_len("fp8 batched kv", batch, kv_width)?;
        let cache_len: usize = checked_len("fp8 batched cache", context_size, kv_width)?;
        let end_position: usize = checked_sum("fp8 batched end", start_position, batch)?;
        if key.len() < vector_len || value.len() < vector_len {
            return Err(invalid_plan("kv_store_fp8_batched vector shape mismatch", Values::Zero));
        }
        if key_cache.len() != cache_len || value_cache.len() != cache_len || end_position > context_size {
            return Err(invalid_plan(
                "kv_store_fp8_batched cache mismatch: start={} batch={} context={} width={}",
                Values::Four(
                    number(start_position),
                    number(batch),
                    number(context_size),
                    number(kv_width),
                ),
            ));
        }
        let start_word: u32 = u32_arg("start_position", start_position)?;
        let batch_word: u32 = u32_arg("batch", batch)?;
        let width: u32 = u32_arg("kv_width", kv_width)?;
        Ok(
            Plan::launch(
                Kernel::KvStoreFp8Batched,
                "launch kv_store_fp8_batched",
                LaunchConfig {
                    grid_dim: (ceil_div(width, 256), batch_word, 1),
                    block_dim: (256, 1, 1),
                    shared_mem_bytes: 0,
                },
                vec![
                    Arg::Buffer(Operand::KeyCache),
                    Arg::Buffer(Operand::ValueCache),
                    Arg::Buffer(Operand::Key),
                    Arg::Buffer(Operand::Value),
                    Arg::U32(start_word),
                    Arg::U32(batch_word),
                    Arg::U32(width),
                ],
            ),
        )
    }

    /// [`Self::store_kv_slots_batched_device`] over an FP8 cache.
    pub fn store_kv_fp8_slots_batched_device(
        &self,
        key_cache: &DeviceBuffer<u8>,
        value_cache: &DeviceBuffer<u8>,
        key: &DeviceBuffer<F32>,
        value: &DeviceBuffer<F32>,
        slot_mapping: &DeviceBuffer<u32>,
        batch: usize,
        kv_width: usize,
        context_size: usize,
        dense_metadata: DensePrefillMetadataProof,
    ) -> (plan: Result<Plan, AegisError>)
        ensures
            Plan::outcome(plan) =~~= store_fp8_slots_steps(
                key_cache,
                value_cache,
                key,
                value,
                slot_mapping,
                batch,
                kv_width,
                context_size,
                dense_metadata,
            ),
    {
        let vector_len: usize = checked_len("fp8 slot kv", batch, kv_width)?;
        let cache_len: usize = checked_len("fp8 slot cache", context_size, kv_width)?;
        if dense_metadata.batch != batch || dense_metadata.context_len > context_size {
            return Err(invalid_plan(
                "kv_store_fp8_slots: proof mismatch batch={} ctx={} proof_batch={} proof_ctx={}",
                Values::Four(
                    number(batch),
                    number(context_size),
                    number(dense_metadata.batch),
                    number(dense_metadata.context_len),
                ),
            ));
        }
        if key.len() < vector_len || value.len() < vector_len {
            return Err(invalid_plan("kv_store_fp8_slots vector shape mismatch", Values::Zero));
        }
        if slot_mapping.len() < batch || key_cache.len() != cache_len || value_cache.len() != cache_len {
            return Err(invalid_plan(
                "kv_store_fp8_slots cache mismatch: batch={} context={} width={}",
                Values::Three(number(batch), number(context_size), number(kv_width)),
            ));
        }
        let batch_word: u32 = u32_arg("batch", batch)?;
        let width: u32 = u32_arg("kv_width", kv_width)?;
        let context: u32 = u32_arg("context_size", context_size)?;
        Ok(
            Plan::launch(
                Kernel::KvStoreFp8SlotsBatched,
                "launch kv_store_fp8_slots_batched",
                LaunchConfig {
                    grid_dim: (ceil_div(width, 256), batch_word, 1),
                    block_dim: (256, 1, 1),
                    shared_mem_bytes: 0,
                },
                vec![
                    Arg::Buffer(Operand::KeyCache),
                    Arg::Buffer(Operand::ValueCache),
                    Arg::Buffer(Operand::Key),
                    Arg::Buffer(Operand::Value),
                    Arg::Buffer(Operand::SlotMapping),
                    Arg::U32(batch_word),
                    Arg::U32(width),
                    Arg::U32(context),
                ],
            ),
        )
    }

    /// [`Self::store_kv_slots_batched_rope_key_device`] over an FP8 cache, for heads of
    /// at most 256.
    pub fn store_kv_fp8_slots_batched_rope_key_device(
        &self,
        key_cache: &DeviceBuffer<u8>,
        value_cache: &DeviceBuffer<u8>,
        key: &DeviceBuffer<F32>,
        value: &DeviceBuffer<F32>,
        positions: &DeviceBuffer<u32>,
        slot_mapping: &DeviceBuffer<u32>,
        batch: usize,
        num_heads: usize,
        head_dim: usize,
        context_size: usize,
        dense_metadata: DensePrefillMetadataProof,
    ) -> (plan: Result<Plan, AegisError>)
        ensures
            Plan::outcome(plan) =~~= store_fp8_rope_steps(
                key_cache,
                value_cache,
                key,
                value,
                positions,
                slot_mapping,
                batch,
                num_heads,
                head_dim,
                context_size,
                dense_metadata,
            ),
    {
        if num_heads == 0 || head_dim == 0 || head_dim % 2 != 0 || head_dim > 256 {
            return Err(invalid_plan(
                "fp8 roped kv: invalid heads={} head_dim={}",
                Values::Two(number(num_heads), number(head_dim)),
            ));
        }
        let kv_width: usize = checked_len("fp8 roped kv width", num_heads, head_dim)?;
        let vector_len: usize = checked_len("fp8 roped kv vectors", batch, kv_width)?;
        let cache_len: usize = checked_len("fp8 roped cache", context_size, kv_width)?;
        if dense_metadata.batch != batch || dense_metadata.context_len > context_size {
            return Err(invalid_plan(
                "fp8 roped kv: proof mismatch batch={} ctx={}",
                Values::Two(number(batch), number(context_size)),
            ));
        }
        if key.len() < vector_len || value.len() < vector_len {
            return Err(invalid_plan("fp8 roped kv: vector shape mismatch", Values::Zero));
        }
        if positions.len() < batch || slot_mapping.len() < batch || key_cache.len() != cache_len || value_cache.len() != cache_len {
            return Err(invalid_plan(
                "fp8 roped kv: cache shape mismatch context={} width={}",
                Values::Two(number(context_size), number(kv_width)),
            ));
        }
        let batch_word: u32 = u32_arg("batch", batch)?;
        let heads: u32 = u32_arg("num_heads", num_heads)?;
        let dim: u32 = u32_arg("head_dim", head_dim)?;
        let width: u32 = u32_arg("kv_width", kv_width)?;
        let context: u32 = u32_arg("context_size", context_size)?;
        Ok(
            Plan::launch(
                Kernel::RopeKvStoreFp8SlotsBatched,
                "launch rope_kv_store_fp8_slots_batched",
                LaunchConfig {
                    grid_dim: (ceil_div(width, 256), batch_word, 1),
                    block_dim: (256, 1, 1),
                    shared_mem_bytes: 0,
                },
                vec![
                    Arg::Buffer(Operand::KeyCache),
                    Arg::Buffer(Operand::ValueCache),
                    Arg::Buffer(Operand::Key),
                    Arg::Buffer(Operand::Value),
                    Arg::Buffer(Operand::Positions),
                    Arg::Buffer(Operand::SlotMapping),
                    Arg::U32(batch_word),
                    Arg::U32(heads),
                    Arg::U32(dim),
                    Arg::U32(context),
                    Arg::Scalar(Scalar::RopeTheta),
                    Arg::Scalar(Scalar::RopeFactor),
                    Arg::Scalar(Scalar::RopeLowFreqFactor),
                    Arg::Scalar(Scalar::RopeHighFreqFactor),
                    Arg::Scalar(Scalar::RopeOriginalMaxPositions),
                    Arg::Scalar(Scalar::RopePartialDim),
                ],
            ),
        )
    }
}

/// The words of an upload's messages.
#[derive(Clone, Copy)]
pub struct UploadTexts {
    pub staging: &'static str,
    pub map: &'static str,
    pub host: &'static str,
    pub stage: &'static str,
}

/// Uploads the first `count` elements of a host buffer: nothing where there is
/// nothing to upload, and nothing past the end of either buffer.
pub open spec fn upload_steps(
    texts: UploadTexts,
    engine: Engine,
    staging_len: int,
    host_len: int,
    count: int,
) -> Result<Seq<StepView>, AegisError> {
    let copy = StepView::Copy {
        engine,
        from: Region { operand: Operand::Host, start: 0, end: count as usize },
        to: Region { operand: Operand::Staging, start: 0, end: count as usize },
        stage: texts.stage,
    };
    if count == 0 {
        Ok(Seq::empty())
    } else if count > staging_len {
        Err(
            AegisError::invalid_with(
                texts.staging,
                Values::Two(Value::num(count), Value::num(staging_len)),
            ),
        )
    } else {
        Ok(
            Plan::spec_then(
                seq![StepView::MapHost { stage: texts.map }],
                if count > host_len {
                    Err(
                        AegisError::invalid_with(
                            texts.host,
                            Values::Two(Value::num(count), Value::num(host_len)),
                        ),
                    )
                } else {
                    Ok(seq![copy])
                },
            ),
        )
    }
}

/// Plans [`upload_steps`].
fn plan_upload(
    texts: UploadTexts,
    engine: Engine,
    staging: &DeviceBuffer<u16>,
    host_len: usize,
    count: usize,
) -> (plan: Result<Plan, AegisError>)
    ensures
        Plan::outcome(plan) == upload_steps(
            texts,
            engine,
            staging.len() as int,
            host_len as int,
            count as int,
        ),
{
    if count == 0 {
        return Ok(Plan::empty());
    }
    if count > staging.len() {
        return Err(
            invalid_plan(texts.staging, Values::Two(number(count), number(staging.len()))),
        );
    }
    let map = Plan::of(Step::MapHost { stage: texts.map });
    let rest = if count > host_len {
        Err(invalid_plan(texts.host, Values::Two(number(count), number(host_len))))
    } else {
        Ok(
            Plan::of(
                Step::Copy {
                    engine,
                    from: Region { operand: Operand::Host, start: 0, end: count },
                    to: Region { operand: Operand::Staging, start: 0, end: count },
                    stage: texts.stage,
                },
            ),
        )
    };
    Ok(map.then_outcome(rest))
}

/// The words of a writeback's messages.
#[derive(Clone, Copy)]
pub struct WritebackTexts {
    pub start: &'static str,
    pub count: &'static str,
    pub end: &'static str,
    pub staging: &'static str,
    pub host: &'static str,
    pub map: &'static str,
    pub stage: &'static str,
}

/// What is wrong with the elements of `batch` positions from `slot` on, or the
/// range they take.
pub open spec fn writeback_range(
    texts: WritebackTexts,
    staging_len: int,
    slot: int,
    batch: int,
    kv_width: int,
) -> Result<(int, int), AegisError> {
    let start = slot * kv_width;
    let count = batch * kv_width;
    let end = start + count;
    if start > usize::MAX {
        Err(
            AegisError::invalid_with(
                texts.start,
                Values::Two(Value::num(slot), Value::num(kv_width)),
            ),
        )
    } else if count > usize::MAX {
        Err(
            AegisError::invalid_with(
                texts.count,
                Values::Two(Value::num(batch), Value::num(kv_width)),
            ),
        )
    } else if end > usize::MAX {
        Err(
            AegisError::invalid_with(texts.end, Values::Two(Value::num(start), Value::num(count))),
        )
    } else if end > staging_len {
        Err(
            AegisError::invalid_with(
                texts.staging,
                Values::Two(Value::num(end), Value::num(staging_len)),
            ),
        )
    } else {
        Ok((start, end))
    }
}

/// Finds the range of a writeback.
fn find_writeback_range(
    texts: WritebackTexts,
    staging: &DeviceBuffer<u16>,
    slot: usize,
    batch: usize,
    kv_width: usize,
) -> (range: Result<(usize, usize), AegisError>)
    ensures
        match range {
            Ok((start, end)) => {
                &&& start <= end <= staging.len()
                &&& writeback_range(
                    texts,
                    staging.len() as int,
                    slot as int,
                    batch as int,
                    kv_width as int,
                ) == Ok::<_, AegisError>((start as int, end as int))
            },
            Err(error) => writeback_range(
                texts,
                staging.len() as int,
                slot as int,
                batch as int,
                kv_width as int,
            ) == Err::<(int, int), _>(error),
        },
{
    let start: usize = match slot.checked_mul(kv_width) {
        Some(start) => start,
        None => {
            return Err(invalid_plan(texts.start, Values::Two(number(slot), number(kv_width))));
        },
    };
    let count: usize = match batch.checked_mul(kv_width) {
        Some(count) => count,
        None => {
            return Err(invalid_plan(texts.count, Values::Two(number(batch), number(kv_width))));
        },
    };
    let end: usize = match start.checked_add(count) {
        Some(end) => end,
        None => {
            return Err(invalid_plan(texts.end, Values::Two(number(start), number(count))));
        },
    };
    if end > staging.len() {
        return Err(invalid_plan(texts.staging, Values::Two(number(end), number(staging.len()))));
    }
    Ok((start, end))
}

/// An asynchronous writeback: the same range of staging and host memory, both
/// held to their lengths before anything is issued.
pub open spec fn writeback_async_steps(
    texts: WritebackTexts,
    host_len: int,
    staging_len: int,
    slot: int,
    batch: int,
    kv_width: int,
) -> Result<Seq<StepView>, AegisError> {
    match writeback_range(texts, staging_len, slot, batch, kv_width) {
        Err(error) => Err(error),
        Ok((start, end)) => if end > host_len {
            Err(
                AegisError::invalid_with(
                    texts.host,
                    Values::Two(Value::num(end), Value::num(host_len)),
                ),
            )
        } else {
            Ok(
                seq![
                    StepView::MapHost { stage: texts.map },
                    StepView::Copy {
                        engine: Engine::Transfer,
                        from: Region {
                            operand: Operand::Staging,
                            start: start as usize,
                            end: end as usize,
                        },
                        to: Region {
                            operand: Operand::Host,
                            start: start as usize,
                            end: end as usize,
                        },
                        stage: texts.stage,
                    },
                ],
            )
        },
    }
}

/// Plans [`writeback_async_steps`].
fn plan_writeback_async(
    texts: WritebackTexts,
    host_len: usize,
    staging: &DeviceBuffer<u16>,
    slot: usize,
    batch: usize,
    kv_width: usize,
) -> (plan: Result<Plan, AegisError>)
    ensures
        Plan::outcome(plan) == writeback_async_steps(
            texts,
            host_len as int,
            staging.len() as int,
            slot as int,
            batch as int,
            kv_width as int,
        ),
{
    let (start, end) = find_writeback_range(texts, staging, slot, batch, kv_width)?;
    if end > host_len {
        return Err(invalid_plan(texts.host, Values::Two(number(end), number(host_len))));
    }
    let map = Step::MapHost { stage: texts.map };
    let copy = Step::Copy {
        engine: Engine::Transfer,
        from: Region { operand: Operand::Staging, start, end },
        to: Region { operand: Operand::Host, start, end },
        stage: texts.stage,
    };
    let plan = Plan { steps: vec![map, copy] };
    assert(plan@ =~= seq![map@, copy@]);
    Ok(plan)
}

/// A synchronous writeback: the range is downloaded first, and only then held to
/// the length of the host memory it goes to.
pub open spec fn writeback_steps(
    texts: WritebackTexts,
    host_len: int,
    staging_len: int,
    slot: int,
    batch: int,
    kv_width: int,
) -> Result<Seq<StepView>, AegisError> {
    match writeback_range(texts, staging_len, slot, batch, kv_width) {
        Err(error) => Err(error),
        Ok((start, end)) => {
            let downloaded = Region {
                operand: Operand::Downloaded,
                start: 0,
                end: (end - start) as usize,
            };
            Ok(
                Plan::spec_then(
                    seq![
                        StepView::Copy {
                            engine: Engine::Compute,
                            from: Region {
                                operand: Operand::Staging,
                                start: start as usize,
                                end: end as usize,
                            },
                            to: downloaded,
                            stage: texts.stage,
                        },
                        StepView::MapHost { stage: texts.map },
                    ],
                    if end > host_len {
                        Err(
                            AegisError::invalid_with(
                                texts.host,
                                Values::Two(Value::num(end), Value::num(host_len)),
                            ),
                        )
                    } else {
                        Ok(
                            seq![
                                StepView::Copy {
                                    engine: Engine::Processor,
                                    from: downloaded,
                                    to: Region {
                                        operand: Operand::Host,
                                        start: start as usize,
                                        end: end as usize,
                                    },
                                    stage: texts.stage,
                                },
                            ],
                        )
                    },
                ),
            )
        },
    }
}

/// Plans [`writeback_steps`].
fn plan_writeback(
    texts: WritebackTexts,
    host_len: usize,
    staging: &DeviceBuffer<u16>,
    slot: usize,
    batch: usize,
    kv_width: usize,
) -> (plan: Result<Plan, AegisError>)
    ensures
        Plan::outcome(plan) == writeback_steps(
            texts,
            host_len as int,
            staging.len() as int,
            slot as int,
            batch as int,
            kv_width as int,
        ),
{
    let (start, end) = find_writeback_range(texts, staging, slot, batch, kv_width)?;
    let downloaded = Region { operand: Operand::Downloaded, start: 0, end: end - start };
    let download = Step::Copy {
        engine: Engine::Compute,
        from: Region { operand: Operand::Staging, start, end },
        to: downloaded,
        stage: texts.stage,
    };
    let map = Step::MapHost { stage: texts.map };
    let first = Plan { steps: vec![download, map] };
    assert(first@ =~= seq![download@, map@]);
    let rest = if end > host_len {
        Err(invalid_plan(texts.host, Values::Two(number(end), number(host_len))))
    } else {
        Ok(
            Plan::of(
                Step::Copy {
                    engine: Engine::Processor,
                    from: downloaded,
                    to: Region { operand: Operand::Host, start, end },
                    stage: texts.stage,
                },
            ),
        )
    };
    Ok(first.then_outcome(rest))
}

impl UploadTexts {
    /// An upload on the compute stream.
    pub open spec fn spec_blocking() -> UploadTexts {
        UploadTexts {
            staging: "upload_kv_slice overflow: count={} staging_len={}",
            map: "mmap kv host for upload",
            host: "upload_kv_slice host overflow: count={} host_len={}",
            stage: "kv h2d upload",
        }
    }

    /// An upload on the compute stream.
    #[verifier::when_used_as_spec(spec_blocking)]
    pub fn blocking() -> (texts: UploadTexts)
        ensures
            texts == UploadTexts::spec_blocking(),
    {
        UploadTexts {
            staging: "upload_kv_slice overflow: count={} staging_len={}",
            map: "mmap kv host for upload",
            host: "upload_kv_slice host overflow: count={} host_len={}",
            stage: "kv h2d upload",
        }
    }

    /// An upload on the transfer stream.
    pub open spec fn spec_overlapped() -> UploadTexts {
        UploadTexts {
            staging: "upload_kv_slice_async overflow: count={} staging_len={}",
            map: "mmap kv host for async upload",
            host: "upload_kv_slice_async host overflow: count={} host_len={}",
            stage: "kv h2d async upload",
        }
    }

    /// An upload on the transfer stream.
    #[verifier::when_used_as_spec(spec_overlapped)]
    pub fn overlapped() -> (texts: UploadTexts)
        ensures
            texts == UploadTexts::spec_overlapped(),
    {
        UploadTexts {
            staging: "upload_kv_slice_async overflow: count={} staging_len={}",
            map: "mmap kv host for async upload",
            host: "upload_kv_slice_async host overflow: count={} host_len={}",
            stage: "kv h2d async upload",
        }
    }
}

impl WritebackTexts {
    /// One position, on the transfer stream.
    pub open spec fn spec_slot_overlapped() -> WritebackTexts {
        WritebackTexts {
            start: "kv writeback slot overflow: idx={} width={}",
            count: "kv writeback count overflow: batch={} width={}",
            end: "kv writeback end overflow: start={} width={}",
            staging: "kv writeback async staging overflow: end={} staging_len={}",
            host: "kv writeback async host overflow: end={} host_len={}",
            map: "mmap kv host for async writeback",
            stage: "kv d2h async writeback",
        }
    }

    /// One position, on the transfer stream.
    #[verifier::when_used_as_spec(spec_slot_overlapped)]
    pub fn slot_overlapped() -> (texts: WritebackTexts)
        ensures
            texts == WritebackTexts::spec_slot_overlapped(),
    {
        WritebackTexts {
            start: "kv writeback slot overflow: idx={} width={}",
            count: "kv writeback count overflow: batch={} width={}",
            end: "kv writeback end overflow: start={} width={}",
            staging: "kv writeback async staging overflow: end={} staging_len={}",
            host: "kv writeback async host overflow: end={} host_len={}",
            map: "mmap kv host for async writeback",
            stage: "kv d2h async writeback",
        }
    }

    /// One position, on the compute stream.
    pub open spec fn spec_slot_blocking() -> WritebackTexts {
        WritebackTexts {
            start: "kv writeback slot overflow: idx={} width={}",
            count: "kv writeback count overflow: batch={} width={}",
            end: "kv writeback end overflow: start={} width={}",
            staging: "kv writeback staging overflow: end={} staging_len={}",
            host: "kv writeback host overflow: end={} host_len={}",
            map: "mmap kv host for writeback",
            stage: "kv d2h writeback",
        }
    }

    /// One position, on the compute stream.
    #[verifier::when_used_as_spec(spec_slot_blocking)]
    pub fn slot_blocking() -> (texts: WritebackTexts)
        ensures
            texts == WritebackTexts::spec_slot_blocking(),
    {
        WritebackTexts {
            start: "kv writeback slot overflow: idx={} width={}",
            count: "kv writeback count overflow: batch={} width={}",
            end: "kv writeback end overflow: start={} width={}",
            staging: "kv writeback staging overflow: end={} staging_len={}",
            host: "kv writeback host overflow: end={} host_len={}",
            map: "mmap kv host for writeback",
            stage: "kv d2h writeback",
        }
    }

    /// Several positions, on the transfer stream.
    pub open spec fn spec_batch_overlapped() -> WritebackTexts {
        WritebackTexts {
            start: "kv batch async writeback start overflow: slot={} width={}",
            count: "kv batch async writeback count overflow: batch={} width={}",
            end: "kv batch async writeback end overflow: start={} count={}",
            staging: "kv batch async writeback staging overflow: end={} staging_len={}",
            host: "kv batch async writeback host overflow: end={} host_len={}",
            map: "mmap kv host for async batch writeback",
            stage: "kv d2h async batch writeback",
        }
    }

    /// Several positions, on the transfer stream.
    #[verifier::when_used_as_spec(spec_batch_overlapped)]
    pub fn batch_overlapped() -> (texts: WritebackTexts)
        ensures
            texts == WritebackTexts::spec_batch_overlapped(),
    {
        WritebackTexts {
            start: "kv batch async writeback start overflow: slot={} width={}",
            count: "kv batch async writeback count overflow: batch={} width={}",
            end: "kv batch async writeback end overflow: start={} count={}",
            staging: "kv batch async writeback staging overflow: end={} staging_len={}",
            host: "kv batch async writeback host overflow: end={} host_len={}",
            map: "mmap kv host for async batch writeback",
            stage: "kv d2h async batch writeback",
        }
    }

    /// Several positions, on the compute stream.
    pub open spec fn spec_batch_blocking() -> WritebackTexts {
        WritebackTexts {
            start: "kv batch writeback start overflow: slot={} width={}",
            count: "kv batch writeback count overflow: batch={} width={}",
            end: "kv batch writeback end overflow: start={} count={}",
            staging: "kv batch writeback staging overflow: end={} staging_len={}",
            host: "kv batch writeback host overflow: end={} host_len={}",
            map: "mmap kv host for batch writeback",
            stage: "kv batch d2h writeback",
        }
    }

    /// Several positions, on the compute stream.
    #[verifier::when_used_as_spec(spec_batch_blocking)]
    pub fn batch_blocking() -> (texts: WritebackTexts)
        ensures
            texts == WritebackTexts::spec_batch_blocking(),
    {
        WritebackTexts {
            start: "kv batch writeback start overflow: slot={} width={}",
            count: "kv batch writeback count overflow: batch={} width={}",
            end: "kv batch writeback end overflow: start={} count={}",
            staging: "kv batch writeback staging overflow: end={} staging_len={}",
            host: "kv batch writeback host overflow: end={} host_len={}",
            map: "mmap kv host for batch writeback",
            stage: "kv batch d2h writeback",
        }
    }
}

impl CudaRuntime {
    /// Uploads `count` elements of host-resident cache into staging, in order with the
    /// kernels that read it.
    pub fn upload_kv_slice_device(&self, staging: &DeviceBuffer<u16>, host_len: usize, count: usize) -> (plan: Result<
        Plan,
        AegisError,
    >)
        ensures
            Plan::outcome(plan) == upload_steps(
                UploadTexts::blocking(),
                Engine::Compute,
                staging.len() as int,
                host_len as int,
                count as int,
            ),
    {
        plan_upload(UploadTexts::blocking(), Engine::Compute, staging, host_len, count)
    }

    /// Uploads `count` elements of host-resident cache into staging while kernels run;
    /// the caller orders the streams by events.
    pub fn upload_kv_slice_async(&self, staging: &DeviceBuffer<u16>, host_len: usize, count: usize) -> (plan: Result<
        Plan,
        AegisError,
    >)
        ensures
            Plan::outcome(plan) == upload_steps(
                UploadTexts::overlapped(),
                Engine::Transfer,
                staging.len() as int,
                host_len as int,
                count as int,
            ),
    {
        plan_upload(UploadTexts::overlapped(), Engine::Transfer, staging, host_len, count)
    }

    /// Writes one position of staging back to host memory while kernels run.
    pub fn writeback_kv_slot_async(
        &self,
        host_len: usize,
        staging: &DeviceBuffer<u16>,
        slot_idx: usize,
        kv_width: usize,
    ) -> (plan: Result<Plan, AegisError>)
        ensures
            Plan::outcome(plan) == writeback_async_steps(
                WritebackTexts::slot_overlapped(),
                host_len as int,
                staging.len() as int,
                slot_idx as int,
                1,
                kv_width as int,
            ),
    {
        plan_writeback_async(
            WritebackTexts::slot_overlapped(),
            host_len,
            staging,
            slot_idx,
            1,
            kv_width,
        )
    }

    /// Writes `batch` positions of staging back to host memory while kernels run.
    pub fn writeback_kv_batch_async(
        &self,
        host_len: usize,
        staging: &DeviceBuffer<u16>,
        start_slot: usize,
        batch: usize,
        kv_width: usize,
    ) -> (plan: Result<Plan, AegisError>)
        ensures
            Plan::outcome(plan) == (if batch == 0 {
                Ok(Seq::empty())
            } else {
                writeback_async_steps(
                    WritebackTexts::batch_overlapped(),
                    host_len as int,
                    staging.len() as int,
                    start_slot as int,
                    batch as int,
                    kv_width as int,
                )
            }),
    {
        if batch == 0 {
            return Ok(Plan::empty());
        }
        plan_writeback_async(
            WritebackTexts::batch_overlapped(),
            host_len,
            staging,
            start_slot,
            batch,
            kv_width,
        )
    }

    /// Writes one position of staging back to host memory.
    pub fn writeback_kv_slot_device(
        &self,
        host_len: usize,
        staging: &DeviceBuffer<u16>,
        slot_idx: usize,
        kv_width: usize,
    ) -> (plan: Result<Plan, AegisError>)
        ensures
            Plan::outcome(plan) == writeback_steps(
                WritebackTexts::slot_blocking(),
                host_len as int,
                staging.len() as int,
                slot_idx as int,
                1,
                kv_width as int,
            ),
    {
        plan_writeback(
            WritebackTexts::slot_blocking(),
            host_len,
            staging,
            slot_idx,
            1,
            kv_width,
        )
    }

    /// Writes `batch` positions of staging back to host memory.
    pub fn writeback_kv_batch_device(
        &self,
        host_len: usize,
        staging: &DeviceBuffer<u16>,
        start_slot: usize,
        batch: usize,
        kv_width: usize,
    ) -> (plan: Result<Plan, AegisError>)
        ensures
            Plan::outcome(plan) == (if batch == 0 {
                Ok(Seq::empty())
            } else {
                writeback_steps(
                    WritebackTexts::batch_blocking(),
                    host_len as int,
                    staging.len() as int,
                    start_slot as int,
                    batch as int,
                    kv_width as int,
                )
            }),
    {
        if batch == 0 {
            return Ok(Plan::empty());
        }
        plan_writeback(
            WritebackTexts::batch_blocking(),
            host_len,
            staging,
            start_slot,
            batch,
            kv_width,
        )
    }
}

} // verus!
