//! How weight files are read, and where in host memory their bytes go.
use crate::error::{AegisError, Value, Values};
use crate::host_arena::{self, PinnedArena};
use crate::runtime::{self, div_ceil};
use crate::text::{self, chars_of, same_text};
use crate::types::HostWeightBytes;
use vstd::prelude::*;

verus! {

/// Number of parts that a large read is split into.
pub const PREAD_CHUNK_COUNT: usize = 8;

/// Reads of fewer bytes are not split.
pub const SPLIT_BYTES: usize = 1048576;

/// Host memory that has to stay free beside a buffered file, in bytes.
pub const SHARD_MARGIN: u64 = 4294967296;

/// A part of a read: `len` bytes from `file_offset` on go to `start..start + len`.
#[derive(Clone, Copy, Debug, PartialEq, Eq, Structural)]
pub struct ReadChunk {
    pub start: usize,
    pub len: usize,
    pub file_offset: u64,
}

/// The size of a part of a read of `len` bytes.
pub open spec fn chunk_bytes(len: int) -> int {
    if len < SPLIT_BYTES {
        len
    } else {
        runtime::blocks(len, PREAD_CHUNK_COUNT as int)
    }
}

/// The number of parts: those that start before the end.
pub open spec fn chunk_count(len: int) -> int {
    if len == 0 {
        0
    } else {
        runtime::blocks(len, chunk_bytes(len))
    }
}

/// Part `i` of a read of `len` bytes: all have the same size, but for the last, which ends
/// where the read ends.
pub open spec fn chunk_at(len: int, file_offset: int, i: int) -> ReadChunk {
    let start = i * chunk_bytes(len);
    let end = if start + chunk_bytes(len) <= len {
        start + chunk_bytes(len)
    } else {
        len
    };
    ReadChunk {
        start: start as usize,
        len: (end - start) as usize,
        file_offset: (file_offset + start) as u64,
    }
}

/// The parts of a read.
pub open spec fn read_chunks(len: int, file_offset: int) -> Seq<ReadChunk> {
    Seq::new(chunk_count(len) as nat, |i: int| chunk_at(len, file_offset, i))
}

/// The parts of a read: none for no bytes, one for few, and up to eight of equal size that
/// can be read side by side.
pub fn read_chunked(len: usize, file_offset: u64) -> (chunks: Vec<ReadChunk>)
    requires
        file_offset + len <= u64::MAX,
    ensures
        chunks@ == read_chunks(len as int, file_offset as int),
        chunks@.len() <= PREAD_CHUNK_COUNT,
{
    let mut chunks: Vec<ReadChunk> = Vec::new();
    if len == 0 {
        assert(chunks@ =~= read_chunks(len as int, file_offset as int));
        return chunks;
    }
    let size: usize = if len < SPLIT_BYTES { len } else { div_ceil(len, PREAD_CHUNK_COUNT) };
    proof {
        lemma_chunks(len as int);
        runtime::lemma_blocks(len as int, size as int);
    }
    let ghost count = chunk_count(len as int);
    let mut start: usize = 0;
    let mut i: usize = 0;
    while start < len
        invariant
            len > 0,
            size == chunk_bytes(len as int),
            0 < size <= len,
            count == chunk_count(len as int),
            count * size >= len,
            (count - 1) * size < len,
            file_offset + len <= u64::MAX,
            0 <= i <= count <= 8,
            i < count ==> start == i * size,
            i == count ==> start == len,
            start <= len,
            chunks@ == read_chunks(len as int, file_offset as int).take(i as int),
        decreases len - start,
    {
        let chunk: usize = if size <= len - start { size } else { len - start };
        chunks.push(
            ReadChunk { start, len: chunk, file_offset: file_offset + start as u64 },
        );
        proof {
            assert(chunks@ =~= read_chunks(len as int, file_offset as int).take(i + 1));
            lemma_next_chunk(i as int, count, size as int, len as int);
        }
        start = start + chunk;
        i = i + 1;
    }
    assert(i == count) by {
        if i < count {
            assert(i * size <= (count - 1) * size) by (nonlinear_arith)
                requires
                    i <= count - 1,
                    size > 0,
            ;
        }
    }
    assert(chunks@ =~= read_chunks(len as int, file_offset as int));
    chunks
}

proof fn lemma_next_chunk(i: int, count: int, size: int, len: int)
    requires
        0 <= i < count,
        0 < size,
        count * size >= len,
        (count - 1) * size < len,
    ensures
        i + 1 < count ==> (i + 1) * size < len,
        i + 1 == count ==> (i + 1) * size >= len,
        (i + 1) * size == i * size + size,
{
    assert((i + 1) * size == i * size + size) by (nonlinear_arith);
    if i + 1 < count {
        assert((i + 1) * size <= (count - 1) * size) by (nonlinear_arith)
            requires
                i + 1 <= count - 1,
                size > 0,
        ;
    }
}

proof fn lemma_chunks(len: int)
    requires
        len > 0,
    ensures
        0 < chunk_bytes(len) <= len,
        0 < chunk_count(len) <= PREAD_CHUNK_COUNT,
        chunk_count(len) * chunk_bytes(len) >= len,
        (chunk_count(len) - 1) * chunk_bytes(len) < len,
{
    runtime::lemma_blocks(len, PREAD_CHUNK_COUNT as int);
    let size = chunk_bytes(len);
    assert(size > 0);
    runtime::lemma_blocks(len, size);
    let n = chunk_count(len);
    assert(n <= 8) by (nonlinear_arith)
        requires
            (n - 1) * size < len,
            len <= 8 * size,
            size > 0,
    ;
    assert(n > 0) by (nonlinear_arith)
        requires
            n * size >= len,
            len > 0,
            size > 0,
    ;
}

/// The parts of a read follow each other without a gap, from the first byte to the last,
/// each from its own place in the file.
pub proof fn chunks_partition_the_read(len: int, file_offset: int, i: int)
    requires
        0 <= file_offset,
        0 <= len <= usize::MAX,
        file_offset + len <= u64::MAX,
        0 <= i < chunk_count(len),
    ensures
        chunk_at(len, file_offset, 0).start == 0,
        chunk_at(len, file_offset, i).len > 0,
        chunk_at(len, file_offset, i).file_offset == file_offset + chunk_at(
            len,
            file_offset,
            i,
        ).start,
        i + 1 < chunk_count(len) ==> chunk_at(len, file_offset, i + 1).start == chunk_at(
            len,
            file_offset,
            i,
        ).start + chunk_at(len, file_offset, i).len,
        i + 1 == chunk_count(len) ==> chunk_at(len, file_offset, i).start + chunk_at(
            len,
            file_offset,
            i,
        ).len == len,
{
    if len > 0 {
        lemma_chunks(len);
        let size = chunk_bytes(len);
        let count = chunk_count(len);
        lemma_next_chunk(i, count, size, len);
        assert(0 * size == 0);
        assert(0 <= i * size) by (nonlinear_arith)
            requires
                0 <= i,
                0 < size,
        ;
        assert(i * size < len) by {
            assert(i * size <= (count - 1) * size) by (nonlinear_arith)
                requires
                    i <= count - 1,
                    size > 0,
            ;
        }
        if i + 1 < count {
            lemma_next_chunk(i + 1, count, size, len);
        }
    }
}

/// Whether a character separates words: it has the Unicode property `White_Space`.
pub open spec fn is_white(c: char) -> bool {
    let code = c as int;
    ||| 9 <= code <= 13
    ||| code == 32
    ||| code == 0x85
    ||| code == 0xA0
    ||| code == 0x1680
    ||| 0x2000 <= code <= 0x200A
    ||| 0x2028 <= code <= 0x2029
    ||| code == 0x202F
    ||| code == 0x205F
    ||| code == 0x3000
}

fn white(c: char) -> (yes: bool)
    ensures
        yes == is_white(c),
{
    let code: u32 = c as u32;
    (9 <= code && code <= 13) || code == 32 || code == 0x85 || code == 0xA0 || code == 0x1680 || (
    0x2000 <= code && code <= 0x200A) || (0x2028 <= code && code <= 0x2029) || code == 0x202F
        || code == 0x205F || code == 0x3000
}

/// Number of characters at the start that separate words.
pub open spec fn lead(text: Seq<char>) -> nat
    decreases text.len(),
{
    if text.len() > 0 && is_white(text[0]) {
        1 + lead(text.drop_first())
    } else {
        0
    }
}

/// Number of characters up to the last one that is part of a word.
pub open spec fn tail(text: Seq<char>) -> nat
    decreases text.len(),
{
    if text.len() > 0 && is_white(text.last()) {
        tail(text.drop_last())
    } else {
        text.len()
    }
}

/// `text` without what separates words at its start and at its end.
pub open spec fn trimmed(text: Seq<char>) -> Seq<char> {
    let rest = text.skip(lead(text) as int);
    rest.take(tail(rest) as int)
}

proof fn lemma_lead(text: Seq<char>, n: int)
    requires
        0 <= n <= text.len(),
        forall|i: int| 0 <= i < n ==> is_white(#[trigger] text[i]),
        n < text.len() ==> !is_white(text[n]),
    ensures
        lead(text) == n,
    decreases text.len(),
{
    if n > 0 {
        let rest = text.drop_first();
        assert(is_white(text[0]));
        assert forall|i: int| 0 <= i < n - 1 implies is_white(#[trigger] rest[i]) by {
            assert(rest[i] == text[i + 1]);
        }
        lemma_lead(rest, n - 1);
    }
}

proof fn lemma_tail(text: Seq<char>, n: int)
    requires
        0 <= n <= text.len(),
        forall|i: int| n <= i < text.len() ==> is_white(#[trigger] text[i]),
        n > 0 ==> !is_white(text[n - 1]),
    ensures
        tail(text) == n,
    decreases text.len(),
{
    if n < text.len() {
        assert(is_white(text[text.len() - 1]));
        lemma_tail(text.drop_last(), n);
    }
}

/// The characters `from..to`.
fn part(chars: &Vec<char>, from: usize, to: usize) -> (out: Vec<char>)
    requires
        from <= to <= chars@.len(),
    ensures
        out@ == chars@.subrange(from as int, to as int),
{
    let mut out: Vec<char> = Vec::new();
    let mut i: usize = from;
    while i < to
        invariant
            from <= i <= to <= chars@.len(),
            out@ == chars@.subrange(from as int, i as int),
        decreases to - i,
    {
        out.push(chars[i]);
        i += 1;
        assert(out@ =~= chars@.subrange(from as int, i as int));
    }
    out
}

fn trim(chars: &Vec<char>) -> (out: Vec<char>)
    ensures
        out@ == trimmed(chars@),
{
    let mut start: usize = 0;
    while start < chars.len() && white(chars[start])
        invariant
            start <= chars@.len(),
            forall|i: int| 0 <= i < start ==> is_white(#[trigger] chars@[i]),
        decreases chars@.len() - start,
    {
        start += 1;
    }
    let mut end: usize = chars.len();
    while start < end && white(chars[end - 1])
        invariant
            start <= end <= chars@.len(),
            forall|i: int| end <= i < chars@.len() ==> is_white(#[trigger] chars@[i]),
        decreases end,
    {
        end -= 1;
    }
    proof {
        lemma_lead(chars@, start as int);
        let rest = chars@.skip(start as int);
        assert forall|i: int| end - start <= i < rest.len() implies is_white(#[trigger] rest[i]) by {
            assert(rest[i] == chars@[i + start]);
        }
        lemma_tail(rest, end - start);
        assert(rest.take(end - start) =~= chars@.subrange(start as int, end as int));
    }
    part(chars, start, end)
}

/// Whether a character is a decimal digit.
pub open spec fn is_digit(c: char) -> bool {
    '0' <= c <= '9'
}

/// The number that a row of digits stands for.
pub open spec fn digits_value(digits: Seq<char>) -> int
    decreases digits.len(),
{
    if digits.len() == 0 {
        0
    } else {
        digits_value(digits.drop_last()) * 10 + (digits.last() as int - 48)
    }
}

/// Every character is a decimal digit.
pub open spec fn all_digits(text: Seq<char>) -> bool {
    forall|i: int| 0 <= i < text.len() ==> is_digit(#[trigger] text[i])
}

/// A numeral without its plus sign.
pub open spec fn unsigned(text: Seq<char>) -> Seq<char> {
    if text.len() > 0 && text[0] == '+' {
        text.skip(1)
    } else {
        text
    }
}

/// The 64-bit number that a numeral stands for: digits, at least one, and a plus sign
/// before them or none.
pub open spec fn numeral_value(text: Seq<char>) -> Option<int> {
    let digits = unsigned(text);
    if digits.len() > 0 && all_digits(digits) && digits_value(digits) <= u64::MAX {
        Some(digits_value(digits))
    } else {
        None
    }
}

proof fn lemma_digits_grow(digits: Seq<char>, n: int)
    requires
        0 <= n <= digits.len(),
        all_digits(digits),
    ensures
        0 <= digits_value(digits.take(n)) <= digits_value(digits),
    decreases digits.len(),
{
    if digits.len() == 0 {
        assert(digits.take(n) =~= digits);
    } else {
        let fewer = digits.drop_last();
        assert forall|i: int| 0 <= i < fewer.len() implies is_digit(#[trigger] fewer[i]) by {
            assert(fewer[i] == digits[i]);
        }
        assert(is_digit(digits[digits.len() - 1]));
        if n < digits.len() {
            lemma_digits_grow(fewer, n);
            assert(fewer.take(n) =~= digits.take(n));
        } else {
            lemma_digits_grow(fewer, n - 1);
            assert(digits.take(n) =~= digits);
            assert(fewer.take(n - 1) =~= fewer);
        }
    }
}

fn parse_numeral(text: &Vec<char>) -> (value: Option<u64>)
    ensures
        match value {
            Some(value) => numeral_value(text@) == Some(value as int),
            None => numeral_value(text@) is None,
        },
{
    let from: usize = if text.len() > 0 && text[0] == '+' { 1 } else { 0 };
    let digits = part(text, from, text.len());
    proof {
        assert(digits@ =~= unsigned(text@));
    }
    if digits.len() == 0 {
        return None;
    }
    let mut value: u64 = 0;
    let mut i: usize = 0;
    while i < digits.len()
        invariant
            i <= digits@.len(),
            forall|k: int| 0 <= k < i ==> is_digit(#[trigger] digits@[k]),
            value == digits_value(digits@.take(i as int)),
            digits@ == unsigned(text@),
        decreases digits@.len() - i,
    {
        let c: char = digits[i];
        if !('0' <= c && c <= '9') {
            assert(!is_digit(digits@[i as int]));
            return None;
        }
        let digit: u64 = (c as u32 - 48) as u64;
        proof {
            assert(digits@.take(i + 1).drop_last() =~= digits@.take(i as int));
            assert(digits_value(digits@.take(i + 1)) == value * 10 + digit);
        }
        let next: Option<u64> = match value.checked_mul(10) {
            Some(tens) => tens.checked_add(digit),
            None => None,
        };
        match next {
            Some(sum) => {
                value = sum;
            },
            None => {
                proof {
                    if all_digits(digits@) {
                        lemma_digits_grow(digits@, i + 1);
                    }
                }
                return None;
            },
        }
        i += 1;
    }
    assert(digits@.take(i as int) =~= digits@);
    Some(value)
}

/// Number of characters of the first line.
pub open spec fn line_len(text: Seq<char>) -> nat
    decreases text.len(),
{
    if text.len() == 0 || text[0] == '\n' {
        0
    } else {
        1 + line_len(text.drop_first())
    }
}

proof fn lemma_line_len(text: Seq<char>, n: int)
    requires
        0 <= n <= text.len(),
        forall|i: int| 0 <= i < n ==> #[trigger] text[i] != '\n',
        n < text.len() ==> text[n] == '\n',
    ensures
        line_len(text) == n,
    decreases text.len(),
{
    if n > 0 {
        let rest = text.drop_first();
        assert(text[0] != '\n');
        assert forall|i: int| 0 <= i < n - 1 implies #[trigger] rest[i] != '\n' by {
            assert(rest[i] == text[i + 1]);
        }
        lemma_line_len(rest, n - 1);
    }
}

/// The bytes that a line says are available, where the line is the one that says so: a
/// number of kilobytes, up to what 64 bits hold.
pub open spec fn line_bytes(rest: Seq<char>) -> Option<int> {
    match numeral_value(trimmed(text::trimmed_end(trimmed(rest), seq!['k', 'B']))) {
        Some(kilobytes) => Some(
            if kilobytes * 1024 <= u64::MAX {
                kilobytes * 1024
            } else {
                u64::MAX as int
            },
        ),
        None => None,
    }
}

/// The available memory that a listing reports: what its first line `MemAvailable:` says.
pub open spec fn available(listing: Seq<char>) -> Option<int>
    decreases listing.len(),
{
    let line = listing.take(line_len(listing) as int);
    if listing.len() == 0 {
        None
    } else if text::begins(line, "MemAvailable:"@) {
        line_bytes(line.skip("MemAvailable:"@.len() as int))
    } else if line_len(listing) < listing.len() {
        available(listing.skip(line_len(listing) as int + 1))
    } else {
        None
    }
}

fn without_units(chars: &Vec<char>) -> (out: Vec<char>)
    ensures
        out@ == text::trimmed_end(chars@, seq!['k', 'B']),
{
    let mut end: usize = chars.len();
    assert(chars@.take(end as int) =~= chars@);
    while end >= 2 && chars[end - 2] == 'k' && chars[end - 1] == 'B'
        invariant
            end <= chars@.len(),
            text::trimmed_end(chars@.take(end as int), seq!['k', 'B']) == text::trimmed_end(
                chars@,
                seq!['k', 'B'],
            ),
        decreases end,
    {
        proof {
            let now = chars@.take(end as int);
            assert(now.skip(end - 2) =~= seq!['k', 'B']);
            assert(text::ends(now, seq!['k', 'B']));
            assert(now.take(end - 2) =~= chars@.take(end - 2));
        }
        end -= 2;
    }
    proof {
        let now = chars@.take(end as int);
        if text::ends(now, seq!['k', 'B']) {
            assert(now.skip(end - 2)[0] == 'k' && now.skip(end - 2)[1] == 'B');
        }
        assert(chars@.subrange(0, end as int) =~= now);
    }
    part(chars, 0, end)
}

fn starts_with(chars: &Vec<char>, prefix: &Vec<char>) -> (yes: bool)
    ensures
        yes == text::begins(chars@, prefix@),
{
    if chars.len() < prefix.len() {
        return false;
    }
    let mut i: usize = 0;
    while i < prefix.len()
        invariant
            i <= prefix@.len() <= chars@.len(),
            forall|k: int| 0 <= k < i ==> chars@[k] == prefix@[k],
        decreases prefix@.len() - i,
    {
        if chars[i] != prefix[i] {
            assert(chars@.take(prefix@.len() as int)[i as int] != prefix@[i as int]);
            return false;
        }
        i += 1;
    }
    assert(chars@.take(prefix@.len() as int) =~= prefix@);
    true
}

/// The available memory that a listing reports, in bytes.
pub fn mem_available_bytes(listing: &str) -> (bytes: Option<u64>)
    ensures
        match bytes {
            Some(bytes) => available(listing@) == Some(bytes as int),
            None => available(listing@) is None,
        },
{
    let prefix = chars_of("MemAvailable:");
    let mut rest = chars_of(listing);
    while rest.len() > 0
        invariant
            prefix@ == "MemAvailable:"@,
            available(rest@) == available(listing@),
        decreases rest@.len(),
    {
        let mut end: usize = 0;
        while end < rest.len() && rest[end] != '\n'
            invariant
                end <= rest@.len(),
                forall|i: int| 0 <= i < end ==> #[trigger] rest@[i] != '\n',
            decreases rest@.len() - end,
        {
            end += 1;
        }
        proof {
            lemma_line_len(rest@, end as int);
            assert(rest@.subrange(0, end as int) =~= rest@.take(end as int));
        }
        let line = part(&rest, 0, end);
        if starts_with(&line, &prefix) {
            let words = part(&line, prefix.len(), line.len());
            assert(words@ =~= line@.skip(prefix@.len() as int));
            let numeral = trim(&without_units(&trim(&words)));
            return match parse_numeral(&numeral) {
                Some(kilobytes) => match kilobytes.checked_mul(1024) {
                    Some(bytes) => Some(bytes),
                    None => Some(u64::MAX),
                },
                None => None,
            };
        }
        if end == rest.len() {
            return None;
        }
        let following = part(&rest, end + 1, rest.len());
        assert(following@ =~= rest@.skip(end + 1));
        rest = following;
    }
    None
}

/// What becomes of a request to have a whole file in memory.
#[derive(Clone, Copy, Debug, PartialEq, Eq, Structural)]
pub enum Buffering {
    /// It is there.
    Reuse,
    /// It is to be read.
    Read,
    /// Memory is too tight: its tensors are to be read one by one.
    Decline,
}

/// Whether there is room for a file of `len` bytes: for the file itself, for what is copied
/// out of it, and a margin. Where nothing is known of the memory, there is.
pub open spec fn has_room(len: int, available: Option<u64>) -> bool {
    match available {
        Some(bytes) => bytes >= 2 * len + SHARD_MARGIN,
        None => true,
    }
}

/// The file that is held in memory: at most one.
#[derive(Debug)]
pub struct ShardCache {
    held: Option<String>,
}

impl ShardCache {
    /// The path of the file that is held.
    pub closed spec fn spec_held(&self) -> Option<Seq<char>> {
        match self.held {
            Some(path) => Some(path@),
            None => None,
        }
    }

    /// No file is held.
    pub fn new() -> (cache: Self)
        ensures
            cache.spec_held() is None,
    {
        ShardCache { held: None }
    }

    /// Whether a file is held.
    pub fn holds(&self, path: &str) -> (yes: bool)
        ensures
            yes == (self.spec_held() == Some(path@)),
    {
        match &self.held {
            Some(held) => same_text(held.as_str(), path),
            None => false,
        }
    }

    /// Asks for a file of `len` bytes. Where another one is held it is dropped first, so that
    /// two are never held at once.
    pub fn ensure_shard_buffered(
        &mut self,
        path: &str,
        len: u64,
        available: Option<u64>,
    ) -> (answer: Buffering)
        requires
            2 * len + SHARD_MARGIN <= u64::MAX,
        ensures
            old(self).spec_held() == Some(path@) ==> answer == Buffering::Reuse
                && final(self).spec_held() == old(self).spec_held(),
            old(self).spec_held() != Some(path@) ==> final(self).spec_held() is None && answer
                == if has_room(len as int, available) {
                Buffering::Read
            } else {
                Buffering::Decline
            },
    {
        if self.holds(path) {
            return Buffering::Reuse;
        }
        self.held = None;
        match available {
            Some(bytes) => {
                if bytes < 2 * len + SHARD_MARGIN {
                    return Buffering::Decline;
                }
            },
            None => {},
        }
        Buffering::Read
    }

    /// Notes that a file was read.
    pub fn buffered(&mut self, path: &str)
        ensures
            final(self).spec_held() == Some(path@),
    {
        self.held = Some(path.to_owned());
    }
}

/// Whether the buffer for uploads has to be made anew to hold `len` bytes.
pub fn bounce_is_short(held: Option<usize>, len: usize) -> (yes: bool)
    ensures
        yes == match held {
            Some(bytes) => bytes < len,
            None => true,
        },
{
    match held {
        Some(bytes) => bytes < len,
        None => true,
    }
}

/// Reserves one range of the arena for packed weights and, right behind them, their scales.
pub fn place_packed_scales_contiguous(
    arena: &mut PinnedArena,
    packed_bytes: usize,
    scale_bytes: usize,
) -> (placed: Result<(HostWeightBytes, HostWeightBytes), AegisError>)
    requires
        old(arena).wf(),
        packed_bytes + scale_bytes <= usize::MAX,
    ensures
        final(arena).wf(),
        final(arena).spec_capacity() == old(arena).spec_capacity(),
        match placed {
            Ok((packed, scales)) => {
                &&& old(arena).spec_used() + packed_bytes + scale_bytes <= old(
                    arena,
                ).spec_capacity()
                &&& packed == (HostWeightBytes::Arena {
                    offset: old(arena).spec_used(),
                    len: packed_bytes,
                })
                &&& scales == (HostWeightBytes::Arena {
                    offset: (old(arena).spec_used() + packed_bytes) as usize,
                    len: scale_bytes,
                })
                &&& final(arena).spec_used() == old(arena).spec_used() + packed_bytes + scale_bytes
                &&& final(arena).handed() == old(arena).handed().push(
                    host_arena::ArenaRange {
                        offset: old(arena).spec_used(),
                        len: (packed_bytes + scale_bytes) as usize,
                    },
                )
            },
            Err(error) => {
                &&& old(arena).spec_used() + packed_bytes + scale_bytes > old(
                    arena,
                ).spec_capacity()
                &&& final(arena).spec_used() == old(arena).spec_used()
                &&& final(arena).handed() == old(arena).handed()
                &&& error == AegisError::invalid_with(
                    "PinnedArena overflow: requested {} at offset {}, capacity {}",
                    Values::Three(
                        Value::num(packed_bytes + scale_bytes),
                        Value::num(old(arena).spec_used() as int),
                        Value::num(old(arena).spec_capacity() as int),
                    ),
                )
            },
        },
{
    let base: usize = arena.reserve(packed_bytes + scale_bytes)?;
    Ok(
        (
            HostWeightBytes::Arena { offset: base, len: packed_bytes },
            HostWeightBytes::Arena { offset: base + packed_bytes, len: scale_bytes },
        ),
    )
}

} // verus!
