//! What copies between memories do: they are whole, keep their place, and lock whole pages.
use crate::error::AegisError;
use crate::expert_cache::{self, CacheEntry, VramExpertCache};
use crate::host_arena::PinnedArena;
use crate::launch::{Engine, Operand, StepView};
use crate::owned_pinned::{self, OwnedPinnedBuf, PinRequest};
use crate::registered_shards::{is_locked, locked_shards, locked_total};
use crate::runtime;
use crate::runtime::memory;
use crate::types::{DeviceBuffer, F32};
use vstd::prelude::*;

verus! {

/// The step copies `len` elements, from a place of one operand to a place of the other.
pub open spec fn copies(
    step: StepView,
    engine: Engine,
    from: Operand,
    from_start: int,
    to: Operand,
    to_start: int,
    len: int,
) -> bool {
    &&& step matches StepView::Copy { engine: by, from: source, to: target, stage: _ }
    &&& by == engine
    &&& source.operand == from && source.start == from_start && source.end == from_start + len
    &&& target.operand == to && target.start == to_start && target.end == to_start + len
}

/// The outcome is one such copy, or nothing where there is nothing to copy; it is refused
/// exactly where there is no room.
pub open spec fn moved(
    outcome: Result<Seq<StepView>, AegisError>,
    engine: Engine,
    from: Operand,
    from_start: int,
    from_len: int,
    to: Operand,
    to_start: int,
    to_len: int,
    len: int,
) -> bool {
    &&& outcome is Ok <==> len == 0 || (from_start + len <= from_len && to_start + len <= to_len)
    &&& outcome matches Ok(steps) ==> {
        &&& len == 0 ==> steps.len() == 0
        &&& len > 0 ==> steps.len() == 1 && copies(
            steps[0],
            engine,
            from,
            from_start,
            to,
            to_start,
            len,
        )
    }
}

/// Uploads copy all values to the start of the buffer, those that overlap with computation on
/// the engine for transfers.
pub proof fn uploads_are_whole(
    longs: &[u64],
    words: &[u32],
    bytes: &[u8],
    count: usize,
    long_buffer: &DeviceBuffer<u64>,
    word_buffer: &DeviceBuffer<u32>,
    byte_buffer: &DeviceBuffer<u8>,
    real_buffer: &DeviceBuffer<F32>,
)
    ensures
        moved(
            memory::u64_slice_to_upload_steps(longs, long_buffer),
            Engine::Compute,
            Operand::Host,
            0,
            longs@.len() as int,
            Operand::Destination,
            0,
            long_buffer.len() as int,
            longs@.len() as int,
        ),
        moved(
            memory::u32_slice_to_upload_steps(words, word_buffer),
            Engine::Compute,
            Operand::Host,
            0,
            words@.len() as int,
            Operand::Destination,
            0,
            word_buffer.len() as int,
            words@.len() as int,
        ),
        moved(
            memory::u8_slice_to_upload_steps(bytes, byte_buffer),
            Engine::Compute,
            Operand::Host,
            0,
            bytes@.len() as int,
            Operand::Destination,
            0,
            byte_buffer.len() as int,
            bytes@.len() as int,
        ),
        moved(
            memory::f32_slice_to_upload_steps(count, real_buffer),
            Engine::Compute,
            Operand::Host,
            0,
            count as int,
            Operand::Destination,
            0,
            real_buffer.len() as int,
            count as int,
        ),
        moved(
            memory::u32_slice_to_async_upload_steps(words, word_buffer),
            Engine::Transfer,
            Operand::Host,
            0,
            words@.len() as int,
            Operand::Destination,
            0,
            word_buffer.len() as int,
            words@.len() as int,
        ),
        moved(
            memory::f32_slice_to_async_upload_steps(count, real_buffer),
            Engine::Transfer,
            Operand::Host,
            0,
            count as int,
            Operand::Destination,
            0,
            real_buffer.len() as int,
            count as int,
        ),
        memory::copy_u32_steps(words, word_buffer) matches Ok(steps) && steps.len() == 1 && copies(
            steps[0],
            Engine::Compute,
            Operand::Host,
            0,
            Operand::Destination,
            0,
            words@.len() as int,
        ),
{
}

/// Copies of ranges go from their place in the source to their place in the destination.
pub proof fn range_copies_keep_their_place(
    word_src: &DeviceBuffer<u32>,
    word_dst: &DeviceBuffer<u32>,
    real_src: &DeviceBuffer<F32>,
    real_dst: &DeviceBuffer<F32>,
    src_offset: usize,
    dst_offset: usize,
    len: usize,
    bytes: &[u8],
    byte_dst: &DeviceBuffer<u8>,
)
    ensures
        moved(
            memory::copy_u32_d2d_range_steps(word_src, src_offset, word_dst, dst_offset, len),
            Engine::Compute,
            Operand::Source,
            src_offset as int,
            word_src.len() as int,
            Operand::Destination,
            dst_offset as int,
            word_dst.len() as int,
            len as int,
        ),
        moved(
            memory::copy_f32_d2d_range_steps(real_src, src_offset, real_dst, dst_offset, len),
            Engine::Compute,
            Operand::Source,
            src_offset as int,
            real_src.len() as int,
            Operand::Destination,
            dst_offset as int,
            real_dst.len() as int,
            len as int,
        ),
        moved(
            memory::copy_host_u8_to_device_at_offset_steps(bytes, byte_dst, dst_offset),
            Engine::Compute,
            Operand::Host,
            0,
            bytes@.len() as int,
            Operand::Destination,
            dst_offset as int,
            byte_dst.len() as int,
            bytes@.len() as int,
        ),
        moved(
            memory::copy_host_u8_to_device_at_offset_async_steps(bytes, byte_dst, dst_offset),
            Engine::Transfer,
            Operand::Host,
            0,
            bytes@.len() as int,
            Operand::Destination,
            dst_offset as int,
            byte_dst.len() as int,
            bytes@.len() as int,
        ),
{
}

/// Downloads copy the whole buffer, or the first values where a count is given.
pub proof fn downloads_are_whole(
    words: &DeviceBuffer<u32>,
    reals: &DeviceBuffer<F32>,
    bytes: &DeviceBuffer<u8>,
    dst_len: usize,
    count: usize,
)
    ensures
        moved(
            memory::download_pinned_steps(words, dst_len, count),
            Engine::Transfer,
            Operand::Source,
            0,
            words.len() as int,
            Operand::Host,
            0,
            dst_len as int,
            count as int,
        ),
        memory::download_f32_steps(reals) matches Ok(steps) && steps.len() == 1 && copies(
            steps[0],
            Engine::Compute,
            Operand::Source,
            0,
            Operand::Downloaded,
            0,
            reals.len() as int,
        ),
        memory::download_u32_steps(words) matches Ok(steps) && steps.len() == 1 && copies(
            steps[0],
            Engine::Compute,
            Operand::Source,
            0,
            Operand::Downloaded,
            0,
            words.len() as int,
        ),
        memory::download_u8_steps(bytes) matches Ok(steps) && steps.len() == 1 && copies(
            steps[0],
            Engine::Compute,
            Operand::Source,
            0,
            Operand::Downloaded,
            0,
            bytes.len() as int,
        ),
{
}

/// A copy from page-locked memory maps it first, and copies the first bytes to the start of
/// the destination.
pub proof fn pinned_copies_keep_their_place(src_len: int, len: int, dst_len: int)
    requires
        0 <= len <= usize::MAX,
    ensures
        memory::copy_pinned_steps(src_len, len, dst_len) is Ok <==> len == 0 || len <= dst_len,
        memory::copy_pinned_steps(src_len, len, dst_len) matches Ok(steps) ==> {
            &&& len == 0 ==> steps.len() == 0
            &&& len > 0 ==> steps.len() == 2 && steps[0] is MapHost
            &&& len > 0 && len > src_len ==> steps[1] is Refuse
            &&& len > 0 && len <= src_len ==> copies(
                steps[1],
                Engine::Compute,
                Operand::Host,
                0,
                Operand::Destination,
                0,
                len,
            )
        },
{
}

/// An expert's weights and scales go to its entry in the cache, scales directly behind the
/// weights, and fill it.
pub proof fn cached_experts_fill_their_entry(entry: CacheEntry)
    requires
        entry.wf(),
        entry.end() <= usize::MAX,
    ensures
        ({
            let steps = expert_cache::entry_copies(entry);
            &&& steps.len() == 2
            &&& copies(
                steps[0],
                Engine::Compute,
                Operand::Packed,
                0,
                Operand::ExpertCache,
                entry.packed_offset as int,
                entry.packed_bytes as int,
            )
            &&& copies(
                steps[1],
                Engine::Compute,
                Operand::Scales,
                0,
                Operand::ExpertCache,
                entry.packed_offset + entry.packed_bytes,
                entry.scales_bytes as int,
            )
        }),
{
}

/// An entry that is placed starts where it was placed and ends behind weights and scales.
pub proof fn entries_are_placed_whole(offset: int, packed_bytes: int, scales_bytes: int)
    requires
        0 <= offset,
        0 <= packed_bytes,
        0 <= scales_bytes,
        offset + packed_bytes + scales_bytes <= usize::MAX,
    ensures
        ({
            let entry = CacheEntry::placed(offset, packed_bytes, scales_bytes);
            &&& entry.wf()
            &&& entry.packed_offset == offset
            &&& entry.packed_bytes == packed_bytes
            &&& entry.scales_bytes == scales_bytes
            &&& entry.end() == offset + packed_bytes + scales_bytes
        }),
        forall|room: bool, copied: Result<(), AegisError>|
            #![trigger expert_cache::insertion(room, copied)]
            {
                let answer = expert_cache::insertion(room, copied);
                &&& answer == Ok::<bool, AegisError>(true) <==> room && copied is Ok
                &&& answer == Ok::<bool, AegisError>(false) <==> !room
                &&& answer is Err <==> room && copied is Err
            },
{
}

/// Pages are locked whole: as many as hold every byte, and none in vain.
pub proof fn pages_are_locked_whole(len: int, page_size: int)
    requires
        0 <= len,
        0 < page_size,
    ensures
        owned_pinned::whole_pages(len, page_size) % page_size == 0,
        len <= owned_pinned::whole_pages(len, page_size) < len + page_size,
{
    runtime::lemma_blocks(len, page_size);
    let pages = runtime::blocks(len, page_size);
    vstd::arithmetic::div_mod::lemma_mod_multiples_basic(pages, page_size);
    if len > 0 {
        assert(pages * page_size < len + page_size) by (nonlinear_arith)
            requires
                (pages - 1) * page_size < len,
        ;
    } else {
        assert(pages * page_size < page_size) by (nonlinear_arith)
            requires
                pages == 0,
                page_size > 0,
        ;
    }
}

/// What is locked of a buffer starts in the page of the range's first byte and ends with the
/// page of its last, or with the buffer.
pub proof fn locked_pages_are_those_of_the_range(
    buffer_len: int,
    offset: int,
    len: int,
    page_size: int,
)
    requires
        0 < page_size,
        0 <= offset,
        0 < len,
        offset + len <= buffer_len,
    ensures
        ({
            let (start, locked) = owned_pinned::locked_range(buffer_len, offset, len, page_size);
            &&& start % page_size == 0
            &&& offset - page_size < start <= offset
            &&& offset + len <= start + locked < offset + len + page_size
            &&& start + locked == buffer_len || (start + locked) % page_size == 0
        }),
{
    pages_are_locked_whole(offset + len, page_size);
    let q = offset / page_size;
    vstd::arithmetic::div_mod::lemma_fundamental_div_mod(offset, page_size);
    vstd::arithmetic::div_mod::lemma_mod_bound(offset, page_size);
    vstd::arithmetic::mul::lemma_mul_is_commutative(q, page_size);
    vstd::arithmetic::div_mod::lemma_mod_multiples_basic(q, page_size);
}

/// A buffer is locked once. Before that, pinning a range that is not empty locks at least the
/// range, within the buffer and by whole pages but for its end.
pub proof fn pinning_locks_the_range(
    buffer: OwnedPinnedBuf,
    offset: int,
    len: int,
    page_size: int,
)
    requires
        0 < page_size,
        0 <= offset,
        0 < len,
        offset + len <= buffer.spec_len(),
    ensures
        buffer.spec_pin_request(offset, len, page_size) is Pinned <==> buffer.spec_registered(),
        !buffer.spec_registered() ==> (buffer.spec_pin_request(offset, len, page_size)
            matches PinRequest::Register { start, len: locked } && start as int % page_size == 0
            && offset - page_size < start <= offset && offset + len <= start + locked
            <= buffer.spec_len()),
{
    locked_pages_are_those_of_the_range(buffer.spec_len() as int, offset, len, page_size);
}

/// The shards that are listed as locked are those that were accepted and hold bytes, each
/// once and in order.
pub proof fn locked_shards_are_listed_once(
    lens: Seq<Option<usize>>,
    accepted: Seq<bool>,
    i: int,
)
    requires
        lens.len() == accepted.len(),
        lens.len() <= usize::MAX,
        0 <= i < lens.len(),
    ensures
        locked_shards(lens, accepted).contains(i as usize) <==> accepted[i] && (lens[i] matches Some(
            len,
        ) && len > 0),
        forall|a: int, b: int|
            0 <= a < b < locked_shards(lens, accepted).len() ==> #[trigger] locked_shards(
                lens,
                accepted,
            )[a] < #[trigger] locked_shards(lens, accepted)[b],
        forall|a: int|
            0 <= a < locked_shards(lens, accepted).len() ==> #[trigger] locked_shards(
                lens,
                accepted,
            )[a] < lens.len(),
    decreases lens.len(),
{
    let n = lens.len() - 1;
    let before = locked_shards(lens.drop_last(), accepted.drop_last());
    let listed = locked_shards(lens, accepted);
    if n == 0 {
        assert(before.len() == 0);
        if is_locked(lens[0], accepted[0]) {
            assert(listed[0] == 0);
        }
    } else {
        let j = if i < n {
            i
        } else {
            0
        };
        locked_shards_are_listed_once(lens.drop_last(), accepted.drop_last(), j);
        if is_locked(lens.last(), accepted.last()) {
            assert(listed[before.len() as int] == n as usize);
            assert forall|k: int| 0 <= k < before.len() implies listed[k] == before[k] by {}
            if i < n {
                if before.contains(i as usize) {
                    let k = choose|k: int| 0 <= k < before.len() && before[k] == i as usize;
                    assert(listed[k] == i as usize);
                }
            }
        }
    }
}

/// The bytes that are locked are those of the locked shards, in whole pages: one shard more
/// adds its own, and one that is not locked nothing.
pub proof fn locked_bytes_add_up(
    lens: Seq<Option<usize>>,
    accepted: Seq<bool>,
    page_size: int,
    len: Option<usize>,
    taken: bool,
)
    requires
        lens.len() == accepted.len(),
        page_size > 0,
    ensures
        locked_total(lens.push(len), accepted.push(taken), page_size) == locked_total(
            lens,
            accepted,
            page_size,
        ) + (if taken && (len matches Some(bytes) && bytes > 0) {
            owned_pinned::whole_pages(len->Some_0 as int, page_size)
        } else {
            0
        }),
        locked_total(Seq::empty(), Seq::empty(), page_size) == 0,
{
    assert(lens.push(len).drop_last() =~= lens);
    assert(accepted.push(taken).drop_last() =~= accepted);
}

/// No byte of the cache belongs to two entries: neither to weights nor to scales.
pub proof fn entries_share_no_byte(
    cache: VramExpertCache,
    a: Seq<char>,
    b: Seq<char>,
    byte: int,
)
    requires
        cache.apart(),
        cache@.contains_key(a),
        cache@.contains_key(b),
        a != b,
        cache@[a].packed_offset <= byte < cache@[a].scales_offset + cache@[a].scales_bytes,
    ensures
        byte < cache@[b].packed_offset || cache@[b].scales_offset + cache@[b].scales_bytes <= byte,
        byte < cache.spec_used_bytes(),
        cache@[a].packed_offset + cache@[a].packed_bytes == cache@[a].scales_offset,
        cache.spec_used_bytes() <= cache.spec_capacity_bytes(),
{
}

/// No byte of the arena is handed out twice, and all that were are within its used part.
pub proof fn ranges_share_no_byte(arena: PinnedArena, i: int, j: int, byte: int)
    requires
        arena.wf(),
        0 <= i < arena.handed().len(),
        0 <= j < arena.handed().len(),
        i != j,
        arena.handed()[i].offset <= byte < arena.handed()[i].offset + arena.handed()[i].len,
    ensures
        byte < arena.handed()[j].offset || arena.handed()[j].offset + arena.handed()[j].len <= byte,
        byte < arena.spec_used() <= arena.spec_capacity(),
{
    if i < j {
        assert(arena.handed()[i].disjoint(arena.handed()[j]));
    } else {
        assert(arena.handed()[j].disjoint(arena.handed()[i]));
    }
}

} // verus!
