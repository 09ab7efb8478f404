//! What stores into the key/value cache do: every number of a token's keys and values goes to
//! the row of the token's position, and copies between host and device keep their place.
use crate::kernels;
use crate::launch::{Arg, Engine, LaunchView, Operand, Scalar, StepView};
use crate::runtime;
use crate::runtime::kv::{self, UploadTexts, WritebackTexts};
use crate::types::{DensePrefillMetadataProof, DeviceBuffer, F32};
use vstd::prelude::*;

verus! {

/// The launch stores keys to the key cache and values to the value cache, with a thread for
/// each number of a row along the first axis and a block row for each token along the second.
pub open spec fn stores_rows(launch: LaunchView, width: int, tokens: int) -> bool {
    &&& launch.args[0] == Arg::Buffer(Operand::KeyCache)
    &&& launch.args[1] == Arg::Buffer(Operand::ValueCache)
    &&& launch.args[2] == Arg::Buffer(Operand::Key)
    &&& launch.args[3] == Arg::Buffer(Operand::Value)
    &&& kernels::tiled(launch.config.grid_dim.0 as int, 256, width)
    &&& launch.config.grid_dim.1 == tokens
    &&& launch.config.grid_dim.2 == 1
    &&& launch.config.block_dim == (256u32, 1u32, 1u32)
    &&& launch.config.shared_mem_bytes == 0
}

/// Row `row` of rows of `width` numbers lies within `len` numbers.
pub open spec fn row_fits(row: int, width: int, len: int) -> bool {
    0 <= row * width && (row + 1) * width <= len
}

proof fn lemma_row(row: int, count: int, width: int)
    requires
        0 <= row < count,
        0 <= width,
    ensures
        row_fits(row, width, count * width),
{
    assert(0 <= row * width && (row + 1) * width <= count * width) by (nonlinear_arith)
        requires
            0 <= row < count,
            0 <= width,
    ;
}

/// Metadata of a dense prefill is made for every token, from the start position on.
pub proof fn metadata_is_made_for_every_token(
    start_position: usize,
    batch: usize,
    positions: &DeviceBuffer<u32>,
    slot_mapping: &DeviceBuffer<u32>,
)
    ensures
        kv::dense_metadata_steps(start_position, batch, positions, slot_mapping) matches Ok(steps)
            ==> {
            &&& steps.len() == 1
            &&& steps[0] matches StepView::Launch(launch)
            &&& launch.kernel is BuildDensePrefillMetadata
            &&& launch.args.len() == 4
            &&& kernels::number(launch.args[0]) == start_position
            &&& kernels::number(launch.args[1]) == batch
            &&& launch.args[2] == Arg::Buffer(Operand::Positions)
            &&& launch.args[3] == Arg::Buffer(Operand::SlotMapping)
            &&& kernels::tiled(launch.config.grid_dim.0 as int, 256, batch as int)
            &&& launch.config.grid_dim.1 == 1 && launch.config.grid_dim.2 == 1
            &&& launch.config.block_dim == (256u32, 1u32, 1u32)
            &&& launch.config.shared_mem_bytes == 0
            &&& 1 <= batch <= positions.len()
            &&& batch <= slot_mapping.len()
            &&& start_position + batch <= u32::MAX
        },
        kv::dense_metadata_steps(start_position, batch, positions, slot_mapping) is Ok <==> 1
            <= batch && batch <= positions.len() && batch <= slot_mapping.len() && start_position
            + batch <= u32::MAX && start_position + batch <= usize::MAX,
{
    super::prefill::lemma_tiled(batch as int, 256);
    runtime::lemma_blocks(batch as int, 256);
}

/// A single token's keys and values go to the row of its position in half-precision caches, be the
/// position known to the host or read on the device.
pub proof fn single_stores_fill_their_row(
    key_cache: &DeviceBuffer<u16>,
    value_cache: &DeviceBuffer<u16>,
    key: &DeviceBuffer<F32>,
    value: &DeviceBuffer<F32>,
    p_position: &DeviceBuffer<u32>,
    position: usize,
    kv_width: usize,
    context_size: usize,
)
    ensures
        kv::store_ptr_steps(
            key_cache,
            value_cache,
            key,
            value,
            p_position,
            kv_width,
            context_size,
        ) matches Ok(steps) ==> {
            &&& steps.len() == 1
            &&& steps[0] matches StepView::Launch(launch)
            &&& launch.kernel is KvStorePtr
            &&& launch.args.len() == 6
            &&& stores_rows(launch, kv_width as int, 1)
            &&& launch.args[4] == Arg::Buffer(Operand::Position)
            &&& kernels::number(launch.args[5]) == kv_width
            &&& kv_width <= key.len() && kv_width <= value.len()
            &&& key_cache.len() == context_size * kv_width
            &&& value_cache.len() == context_size * kv_width
        },
        kv::store_steps(
            key_cache,
            value_cache,
            key,
            value,
            position,
            kv_width,
            context_size,
        ) matches Ok(steps) ==> {
            &&& steps.len() == 1
            &&& steps[0] matches StepView::Launch(launch)
            &&& launch.kernel is KvStore
            &&& launch.args.len() == 6
            &&& stores_rows(launch, kv_width as int, 1)
            &&& kernels::number(launch.args[4]) == position
            &&& kernels::number(launch.args[5]) == kv_width
            &&& key.len() == kv_width && value.len() == kv_width
            &&& row_fits(
                kernels::number(launch.args[4]),
                kernels::number(launch.args[5]),
                key_cache.len() as int,
            )
            &&& key_cache.len() == value_cache.len()
        },
        kv::store_steps(
            key_cache,
            value_cache,
            key,
            value,
            position,
            kv_width,
            context_size,
        ) is Ok <==> key.len() == kv_width && value.len() == kv_width && key_cache.len()
            == context_size * kv_width && value_cache.len() == context_size * kv_width && position
            < context_size && position <= u32::MAX && kv_width <= u32::MAX,
{
    super::prefill::lemma_tiled(kv_width as int, 256);
    runtime::lemma_blocks(kv_width as int, 256);
    if position < context_size {
        lemma_row(position as int, context_size as int, kv_width as int);
    }
}

/// A run of tokens goes to the rows of its positions in half-precision caches, token after token.
pub proof fn batched_stores_fill_their_rows(
    key_cache: &DeviceBuffer<u16>,
    value_cache: &DeviceBuffer<u16>,
    key: &DeviceBuffer<F32>,
    value: &DeviceBuffer<F32>,
    start_position: usize,
    batch: usize,
    kv_width: usize,
    context_size: usize,
    token: int,
)
    requires
        0 <= token < batch,
    ensures
        kv::store_batched_steps(
            key_cache,
            value_cache,
            key,
            value,
            start_position,
            batch,
            kv_width,
            context_size,
        ) matches Ok(steps) ==> {
            &&& steps.len() == 1
            &&& steps[0] matches StepView::Launch(launch)
            &&& launch.kernel is KvStoreBatched
            &&& launch.args.len() == 7
            &&& stores_rows(launch, kv_width as int, batch as int)
            &&& kernels::number(launch.args[4]) == start_position
            &&& kernels::number(launch.args[5]) == batch
            &&& kernels::number(launch.args[6]) == kv_width
            &&& row_fits(token, kernels::number(launch.args[6]), key.len() as int)
            &&& row_fits(token, kernels::number(launch.args[6]), value.len() as int)
            &&& row_fits(
                kernels::number(launch.args[4]) + token,
                kernels::number(launch.args[6]),
                key_cache.len() as int,
            )
            &&& key_cache.len() == value_cache.len() == context_size * kv_width
        },
        kv::store_batched_steps(
            key_cache,
            value_cache,
            key,
            value,
            start_position,
            batch,
            kv_width,
            context_size,
        ) is Ok <==> key.len() >= batch * kv_width && value.len() >= batch * kv_width
            && key_cache.len() == context_size * kv_width && value_cache.len() == context_size
            * kv_width && start_position + batch <= context_size && start_position <= u32::MAX
            && batch <= u32::MAX && kv_width <= u32::MAX,
{
    super::prefill::lemma_tiled(kv_width as int, 256);
    runtime::lemma_blocks(kv_width as int, 256);
    lemma_row(token, batch as int, kv_width as int);
    if start_position + batch <= context_size {
        lemma_row(start_position + token, context_size as int, kv_width as int);
    }
}

/// Tokens whose slots are read on the device: every slot of the context has its row in the
/// half-precision caches, and every token its keys, its values and its slot.
pub proof fn slot_mapped_stores_fill_their_rows(
    key_cache: &DeviceBuffer<u16>,
    value_cache: &DeviceBuffer<u16>,
    key: &DeviceBuffer<F32>,
    value: &DeviceBuffer<F32>,
    slot_mapping: &DeviceBuffer<u32>,
    batch: usize,
    kv_width: usize,
    context_size: usize,
    dense_metadata: DensePrefillMetadataProof,
    token: int,
)
    requires
        0 <= token < batch,
    ensures
        kv::store_slots_steps(
            key_cache,
            value_cache,
            key,
            value,
            slot_mapping,
            batch,
            kv_width,
            context_size,
            dense_metadata,
        ) matches Ok(steps) ==> {
            &&& steps.len() == 1
            &&& steps[0] matches StepView::Launch(launch)
            &&& launch.kernel is KvStoreSlotsBatched
            &&& launch.args.len() == 8
            &&& stores_rows(launch, kv_width as int, batch as int)
            &&& launch.args[4] == Arg::Buffer(Operand::SlotMapping)
            &&& kernels::number(launch.args[5]) == batch
            &&& kernels::number(launch.args[6]) == kv_width
            &&& kernels::number(launch.args[7]) == context_size
            &&& row_fits(token, kernels::number(launch.args[6]), key.len() as int)
            &&& row_fits(token, kernels::number(launch.args[6]), value.len() as int)
            &&& token < slot_mapping.len()
            &&& kernels::number(launch.args[7]) * kernels::number(launch.args[6])
                == key_cache.len()
            &&& key_cache.len() == value_cache.len()
            &&& dense_metadata.batch == batch
            &&& dense_metadata.context_len <= context_size
        },
{
    super::prefill::lemma_tiled(kv_width as int, 256);
    runtime::lemma_blocks(kv_width as int, 256);
    lemma_row(token, batch as int, kv_width as int);
}

/// Tokens whose keys are rotated on the way to half-precision caches: the width of a row is that of
/// all heads, and the rotation gets its six parameters in their order.
pub proof fn rotated_stores_fill_their_rows(
    key_cache: &DeviceBuffer<u16>,
    value_cache: &DeviceBuffer<u16>,
    key: &DeviceBuffer<F32>,
    value: &DeviceBuffer<F32>,
    positions: &DeviceBuffer<u32>,
    slot_mapping: &DeviceBuffer<u32>,
    batch: usize,
    num_heads: usize,
    head_dim: usize,
    context_size: usize,
    dense_metadata: DensePrefillMetadataProof,
    token: int,
)
    requires
        0 <= token < batch,
    ensures
        kv::store_rope_steps(
            key_cache,
            value_cache,
            key,
            value,
            positions,
            slot_mapping,
            batch,
            num_heads,
            head_dim,
            context_size,
            dense_metadata,
        ) matches Ok(steps) ==> {
            &&& steps.len() == 1
            &&& steps[0] matches StepView::Launch(launch)
            &&& {
                let width = kernels::number(launch.args[7]) * kernels::number(launch.args[8]);
                &&& launch.kernel is RopeKvStoreSlotsBatched
                &&& launch.args.len() == 16
                &&& stores_rows(launch, width, batch as int)
                &&& launch.args[4] == Arg::Buffer(Operand::Positions)
                &&& launch.args[5] == Arg::Buffer(Operand::SlotMapping)
                &&& kernels::number(launch.args[6]) == batch
                &&& kernels::number(launch.args[7]) == num_heads
                &&& kernels::number(launch.args[8]) == head_dim
                &&& kernels::number(launch.args[9]) == context_size
                &&& launch.args[10] == Arg::Scalar(Scalar::RopeTheta)
                &&& launch.args[11] == Arg::Scalar(Scalar::RopeFactor)
                &&& launch.args[12] == Arg::Scalar(Scalar::RopeLowFreqFactor)
                &&& launch.args[13] == Arg::Scalar(Scalar::RopeHighFreqFactor)
                &&& launch.args[14] == Arg::Scalar(Scalar::RopeOriginalMaxPositions)
                &&& launch.args[15] == Arg::Scalar(Scalar::RopePartialDim)
                &&& row_fits(token, width, key.len() as int)
                &&& row_fits(token, width, value.len() as int)
                &&& token < positions.len() && token < slot_mapping.len()
                &&& kernels::number(launch.args[9]) * width == key_cache.len()
                &&& key_cache.len() == value_cache.len()
                &&& head_dim as int % 2 == 0 && head_dim > 0 && num_heads > 0
                &&& dense_metadata.batch == batch
                &&& dense_metadata.context_len <= context_size
            }
        },
{
    let width = num_heads * head_dim;
    assert(width >= 0) by (nonlinear_arith)
        requires
            width == num_heads * head_dim,
    ;
    super::prefill::lemma_tiled(width, 256);
    runtime::lemma_blocks(width, 256);
    lemma_row(token, batch as int, width);
}

/// A single token's keys and values go to the row of its position in eight-bit caches, be the
/// position known to the host or read on the device.
pub proof fn single_fp8_stores_fill_their_row(
    key_cache: &DeviceBuffer<u8>,
    value_cache: &DeviceBuffer<u8>,
    key: &DeviceBuffer<F32>,
    value: &DeviceBuffer<F32>,
    p_position: &DeviceBuffer<u32>,
    position: usize,
    kv_width: usize,
    context_size: usize,
)
    ensures
        kv::store_fp8_ptr_steps(
            key_cache,
            value_cache,
            key,
            value,
            p_position,
            kv_width,
            context_size,
        ) matches Ok(steps) ==> {
            &&& steps.len() == 1
            &&& steps[0] matches StepView::Launch(launch)
            &&& launch.kernel is KvStoreFp8Ptr
            &&& launch.args.len() == 6
            &&& stores_rows(launch, kv_width as int, 1)
            &&& launch.args[4] == Arg::Buffer(Operand::Position)
            &&& kernels::number(launch.args[5]) == kv_width
            &&& kv_width <= key.len() && kv_width <= value.len()
            &&& key_cache.len() == context_size * kv_width
            &&& value_cache.len() == context_size * kv_width
        },
        kv::store_fp8_steps(
            key_cache,
            value_cache,
            key,
            value,
            position,
            kv_width,
            context_size,
        ) matches Ok(steps) ==> {
            &&& steps.len() == 1
            &&& steps[0] matches StepView::Launch(launch)
            &&& launch.kernel is KvStoreFp8
            &&& launch.args.len() == 6
            &&& stores_rows(launch, kv_width as int, 1)
            &&& kernels::number(launch.args[4]) == position
            &&& kernels::number(launch.args[5]) == kv_width
            &&& key.len() == kv_width && value.len() == kv_width
            &&& row_fits(
                kernels::number(launch.args[4]),
                kernels::number(launch.args[5]),
                key_cache.len() as int,
            )
            &&& key_cache.len() == value_cache.len()
        },
        kv::store_fp8_steps(
            key_cache,
            value_cache,
            key,
            value,
            position,
            kv_width,
            context_size,
        ) is Ok <==> key.len() == kv_width && value.len() == kv_width && key_cache.len()
            == context_size * kv_width && value_cache.len() == context_size * kv_width && position
            < context_size && position <= u32::MAX && kv_width <= u32::MAX,
{
    super::prefill::lemma_tiled(kv_width as int, 256);
    runtime::lemma_blocks(kv_width as int, 256);
    if position < context_size {
        lemma_row(position as int, context_size as int, kv_width as int);
    }
}

/// A run of tokens goes to the rows of its positions in eight-bit caches, token after token.
pub proof fn batched_fp8_stores_fill_their_rows(
    key_cache: &DeviceBuffer<u8>,
    value_cache: &DeviceBuffer<u8>,
    key: &DeviceBuffer<F32>,
    value: &DeviceBuffer<F32>,
    start_position: usize,
    batch: usize,
    kv_width: usize,
    context_size: usize,
    token: int,
)
    requires
        0 <= token < batch,
    ensures
        kv::store_fp8_batched_steps(
            key_cache,
            value_cache,
            key,
            value,
            start_position,
            batch,
            kv_width,
            context_size,
        ) matches Ok(steps) ==> {
            &&& steps.len() == 1
            &&& steps[0] matches StepView::Launch(launch)
            &&& launch.kernel is KvStoreFp8Batched
            &&& launch.args.len() == 7
            &&& stores_rows(launch, kv_width as int, batch as int)
            &&& kernels::number(launch.args[4]) == start_position
            &&& kernels::number(launch.args[5]) == batch
            &&& kernels::number(launch.args[6]) == kv_width
            &&& row_fits(token, kernels::number(launch.args[6]), key.len() as int)
            &&& row_fits(token, kernels::number(launch.args[6]), value.len() as int)
            &&& row_fits(
                kernels::number(launch.args[4]) + token,
                kernels::number(launch.args[6]),
                key_cache.len() as int,
            )
            &&& key_cache.len() == value_cache.len() == context_size * kv_width
        },
        kv::store_fp8_batched_steps(
            key_cache,
            value_cache,
            key,
            value,
            start_position,
            batch,
            kv_width,
            context_size,
        ) is Ok <==> key.len() >= batch * kv_width && value.len() >= batch * kv_width
            && key_cache.len() == context_size * kv_width && value_cache.len() == context_size
            * kv_width && start_position + batch <= context_size && start_position <= u32::MAX
            && batch <= u32::MAX && kv_width <= u32::MAX,
{
    super::prefill::lemma_tiled(kv_width as int, 256);
    runtime::lemma_blocks(kv_width as int, 256);
    lemma_row(token, batch as int, kv_width as int);
    if start_position + batch <= context_size {
        lemma_row(start_position + token, context_size as int, kv_width as int);
    }
}

/// Tokens whose slots are read on the device: every slot of the context has its row in the
/// eight-bit caches, and every token its keys, its values and its slot.
pub proof fn slot_mapped_fp8_stores_fill_their_rows(
    key_cache: &DeviceBuffer<u8>,
    value_cache: &DeviceBuffer<u8>,
    key: &DeviceBuffer<F32>,
    value: &DeviceBuffer<F32>,
    slot_mapping: &DeviceBuffer<u32>,
    batch: usize,
    kv_width: usize,
    context_size: usize,
    dense_metadata: DensePrefillMetadataProof,
    token: int,
)
    requires
        0 <= token < batch,
    ensures
        kv::store_fp8_slots_steps(
            key_cache,
            value_cache,
            key,
            value,
            slot_mapping,
            batch,
            kv_width,
            context_size,
            dense_metadata,
        ) matches Ok(steps) ==> {
            &&& steps.len() == 1
            &&& steps[0] matches StepView::Launch(launch)
            &&& launch.kernel is KvStoreFp8SlotsBatched
            &&& launch.args.len() == 8
            &&& stores_rows(launch, kv_width as int, batch as int)
            &&& launch.args[4] == Arg::Buffer(Operand::SlotMapping)
            &&& kernels::number(launch.args[5]) == batch
            &&& kernels::number(launch.args[6]) == kv_width
            &&& kernels::number(launch.args[7]) == context_size
            &&& row_fits(token, kernels::number(launch.args[6]), key.len() as int)
            &&& row_fits(token, kernels::number(launch.args[6]), value.len() as int)
            &&& token < slot_mapping.len()
            &&& kernels::number(launch.args[7]) * kernels::number(launch.args[6])
                == key_cache.len()
            &&& key_cache.len() == value_cache.len()
            &&& dense_metadata.batch == batch
            &&& dense_metadata.context_len <= context_size
        },
{
    super::prefill::lemma_tiled(kv_width as int, 256);
    runtime::lemma_blocks(kv_width as int, 256);
    lemma_row(token, batch as int, kv_width as int);
}

/// Tokens whose keys are rotated on the way to eight-bit caches: the width of a row is that of
/// all heads, and the rotation gets its six parameters in their order.
pub proof fn rotated_fp8_stores_fill_their_rows(
    key_cache: &DeviceBuffer<u8>,
    value_cache: &DeviceBuffer<u8>,
    key: &DeviceBuffer<F32>,
    value: &DeviceBuffer<F32>,
    positions: &DeviceBuffer<u32>,
    slot_mapping: &DeviceBuffer<u32>,
    batch: usize,
    num_heads: usize,
    head_dim: usize,
    context_size: usize,
    dense_metadata: DensePrefillMetadataProof,
    token: int,
)
    requires
        0 <= token < batch,
    ensures
        kv::store_fp8_rope_steps(
            key_cache,
            value_cache,
            key,
            value,
            positions,
            slot_mapping,
            batch,
            num_heads,
            head_dim,
            context_size,
            dense_metadata,
        ) matches Ok(steps) ==> {
            &&& steps.len() == 1
            &&& steps[0] matches StepView::Launch(launch)
            &&& {
                let width = kernels::number(launch.args[7]) * kernels::number(launch.args[8]);
                &&& launch.kernel is RopeKvStoreFp8SlotsBatched
                &&& launch.args.len() == 16
                &&& stores_rows(launch, width, batch as int)
                &&& launch.args[4] == Arg::Buffer(Operand::Positions)
                &&& launch.args[5] == Arg::Buffer(Operand::SlotMapping)
                &&& kernels::number(launch.args[6]) == batch
                &&& kernels::number(launch.args[7]) == num_heads
                &&& kernels::number(launch.args[8]) == head_dim
                &&& kernels::number(launch.args[9]) == context_size
                &&& launch.args[10] == Arg::Scalar(Scalar::RopeTheta)
                &&& launch.args[11] == Arg::Scalar(Scalar::RopeFactor)
                &&& launch.args[12] == Arg::Scalar(Scalar::RopeLowFreqFactor)
                &&& launch.args[13] == Arg::Scalar(Scalar::RopeHighFreqFactor)
                &&& launch.args[14] == Arg::Scalar(Scalar::RopeOriginalMaxPositions)
                &&& launch.args[15] == Arg::Scalar(Scalar::RopePartialDim)
                &&& row_fits(token, width, key.len() as int)
                &&& row_fits(token, width, value.len() as int)
                &&& token < positions.len() && token < slot_mapping.len()
                &&& kernels::number(launch.args[9]) * width == key_cache.len()
                &&& key_cache.len() == value_cache.len()
                &&& head_dim as int % 2 == 0 && head_dim > 0 && num_heads > 0
                &&& dense_metadata.batch == batch
                &&& dense_metadata.context_len <= context_size
            }
        },
{
    let width = num_heads * head_dim;
    assert(width >= 0) by (nonlinear_arith)
        requires
            width == num_heads * head_dim,
    ;
    super::prefill::lemma_tiled(width, 256);
    runtime::lemma_blocks(width, 256);
    lemma_row(token, batch as int, width);
}

/// An upload copies the first numbers of the host memory to the same place in the staging, as
/// many as were asked for, and nothing where none were.
pub proof fn kv_uploads_keep_their_place(
    texts: UploadTexts,
    engine: Engine,
    staging_len: int,
    host_len: int,
    count: int,
)
    requires
        0 <= count <= usize::MAX,
    ensures
        kv::upload_steps(texts, engine, staging_len, host_len, count) matches Ok(steps) ==> {
            &&& count == 0 ==> steps.len() == 0
            &&& count > 0 ==> steps.len() == 2 && steps[0] is MapHost && (steps[1] is Refuse <==> count
                > host_len)
            &&& count > 0 && count <= host_len ==> (steps[1] matches StepView::Copy {
                engine: used,
                from,
                to,
                stage: _,
            } && used == engine && from.operand == Operand::Host && to.operand == Operand::Staging
                && from.start == 0 && to.start == 0 && from.end == count && to.end == count)
        },
        kv::upload_steps(texts, engine, staging_len, host_len, count) is Ok <==> count == 0 || count
            <= staging_len,
{
}

/// A blocking writeback goes through what was downloaded to the place in host memory that the
/// positions have in staging.
pub proof fn blocking_writebacks_keep_their_place(
    texts: WritebackTexts,
    host_len: int,
    staging_len: int,
    slot: int,
    batch: int,
    kv_width: int,
)
    requires
        0 <= slot,
        0 <= batch,
        0 <= kv_width,
    ensures
        kv::writeback_steps(
            texts,
            host_len,
            staging_len,
            slot,
            batch,
            kv_width,
        ) matches Ok(steps) ==> {
            &&& steps.len() == 3
            &&& steps[0] matches StepView::Copy { engine: _, from, to, stage: _ }
            &&& from.operand == Operand::Staging && to.operand == Operand::Downloaded
            &&& from.start == slot * kv_width && from.end == (slot + batch) * kv_width
            &&& to.start == 0 && to.end == batch * kv_width
            &&& steps[1] is MapHost
            &&& (slot + batch) * kv_width > host_len ==> steps[2] is Refuse
            &&& (slot + batch) * kv_width <= host_len ==> (steps[2] matches StepView::Copy {
                engine: last,
                from: read,
                to: written,
                stage: _,
            } && last is Processor && read == to && written.operand == Operand::Host
                && written.start == slot * kv_width && written.end == (slot + batch) * kv_width)
        },
        kv::writeback_async_steps(
            texts,
            host_len,
            staging_len,
            slot,
            batch,
            kv_width,
        ) matches Ok(steps) ==> {
            &&& steps.len() == 2
            &&& steps[0] is MapHost
            &&& steps[1] matches StepView::Copy { engine, from, to, stage: _ }
            &&& engine is Transfer && from.operand == Operand::Staging && to.operand
                == Operand::Host
        },
        kv::writeback_async_steps(
            texts,
            host_len,
            staging_len,
            slot,
            batch,
            kv_width,
        ) is Ok <==> (slot + batch) * kv_width <= usize::MAX && (slot + batch) * kv_width
            <= staging_len && (slot + batch) * kv_width <= host_len,
{
    assert((slot + batch) * kv_width == slot * kv_width + batch * kv_width) by (nonlinear_arith);
    assert(0 <= slot * kv_width && 0 <= batch * kv_width) by (nonlinear_arith)
        requires
            0 <= slot,
            0 <= batch,
            0 <= kv_width,
    ;
}

} // verus!
