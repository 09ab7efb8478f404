//! Host memory that is mapped here and page-locked by the driver.
use crate::error::{invalid_plan, number, unsupported_plan, AegisError, Value, Values};
use crate::runtime::{self, div_ceil};
use vstd::prelude::*;

verus! {

/// A length, rounded up to whole pages.
pub open spec fn whole_pages(len: int, page_size: int) -> int {
    runtime::blocks(len, page_size) * page_size
}

/// Rounds a length up to whole pages.
pub fn round_to_pages(len: usize, page_size: usize) -> (rounded: usize)
    requires
        page_size > 0,
        whole_pages(len as int, page_size as int) <= usize::MAX,
    ensures
        rounded == whole_pages(len as int, page_size as int),
        rounded >= len,
{
    proof {
        runtime::lemma_blocks(len as int, page_size as int);
    }
    div_ceil(len, page_size) * page_size
}

/// The part of a buffer that pinning `offset..offset + len` locks: rounded out to page
/// boundaries, and cut at the end of the buffer.
pub open spec fn locked_range(buffer_len: int, offset: int, len: int, page_size: int) -> (int, int) {
    let start = (offset / page_size) * page_size;
    let end = whole_pages(offset + len, page_size);
    let end = if end <= buffer_len {
        end
    } else {
        buffer_len
    };
    (start, if end >= start {
        end - start
    } else {
        0
    })
}

/// What pinning takes of the driver.
#[derive(Clone, Copy, Debug, PartialEq, Eq, Structural)]
pub enum PinRequest {
    /// Nothing: the buffer is pinned already.
    Pinned,
    /// Nothing: no byte is to be locked.
    Empty,
    /// To lock `len` bytes from `start` on.
    Register { start: usize, len: usize },
}

/// What the driver did.
#[derive(Debug)]
pub enum PinReply {
    /// It was not asked.
    Unasked,
    /// It locked the bytes.
    Registered,
    /// It locked the bytes, and the device sees them at this address.
    Mapped(u64),
    /// It refused to lock them.
    Refused(String),
    /// It locked them but could not map them; the lock was undone.
    Unmapped(String),
}

/// The state of a mapping of host memory.
#[derive(Debug)]
pub struct OwnedPinnedBuf {
    len: usize,
    registered: bool,
    register_start: usize,
    device_ptr: u64,
}

impl OwnedPinnedBuf {
    /// Number of bytes of the mapping.
    pub closed spec fn spec_len(&self) -> usize {
        self.len
    }

    /// Whether the buffer is pinned.
    pub closed spec fn spec_registered(&self) -> bool {
        self.registered
    }

    /// Where the locked part starts.
    pub closed spec fn spec_register_start(&self) -> usize {
        self.register_start
    }

    /// Where the device sees the start of the locked part; zero where it does not.
    pub closed spec fn spec_device_ptr(&self) -> u64 {
        self.device_ptr
    }

    /// What pinning a range takes of the driver.
    pub open spec fn spec_pin_request(&self, offset: int, len: int, page_size: int) -> PinRequest {
        let (start, locked) = locked_range(self.spec_len() as int, offset, len, page_size);
        if self.spec_registered() {
            PinRequest::Pinned
        } else if locked == 0 {
            PinRequest::Empty
        } else {
            PinRequest::Register { start: start as usize, len: locked as usize }
        }
    }

    /// The number of bytes to map for a request of `len` bytes.
    pub fn mapped_len(len: usize, page_size: usize) -> (bytes: Result<usize, AegisError>)
        requires
            page_size > 0,
            whole_pages(len as int, page_size as int) <= usize::MAX,
        ensures
            bytes == if len == 0 {
                Err(AegisError::invalid("OwnedPinnedBuf requires non-zero size"))
            } else {
                Ok(whole_pages(len as int, page_size as int) as usize)
            },
    {
        if len == 0 {
            return Err(invalid_plan("OwnedPinnedBuf requires non-zero size", Values::Zero));
        }
        Ok(round_to_pages(len, page_size))
    }

    /// The buffer of a request of `len` bytes, given what mapping [`Self::mapped_len`] bytes
    /// came to. It is not pinned.
    pub fn new_unpinned(
        len: usize,
        page_size: usize,
        mapped: Result<(), String>,
    ) -> (buffer: Result<Self, AegisError>)
        requires
            page_size > 0,
            whole_pages(len as int, page_size as int) <= usize::MAX,
        ensures
            len == 0 ==> buffer == Err::<Self, _>(
                AegisError::invalid("OwnedPinnedBuf requires non-zero size"),
            ),
            len > 0 ==> match mapped {
                Ok(_) => {
                    &&& buffer matches Ok(buffer)
                    &&& buffer.spec_len() == whole_pages(len as int, page_size as int)
                    &&& !buffer.spec_registered()
                    &&& buffer.spec_register_start() == 0
                    &&& buffer.spec_device_ptr() == 0
                },
                Err(cause) => buffer == Err::<Self, _>(
                    AegisError::unsupported_with(
                        "OwnedPinnedBuf: mmap({}) failed: {}",
                        Values::Two(
                            Value::num(whole_pages(len as int, page_size as int)),
                            Value::Name(cause),
                        ),
                    ),
                ),
            },
    {
        let bytes: usize = Self::mapped_len(len, page_size)?;
        match mapped {
            Ok(()) => Ok(
                OwnedPinnedBuf { len: bytes, registered: false, register_start: 0, device_ptr: 0 },
            ),
            Err(cause) => Err(
                unsupported_plan(
                    "OwnedPinnedBuf: mmap({}) failed: {}",
                    Values::Two(number(bytes), Value::Name(cause)),
                ),
            ),
        }
    }

    /// What pinning a range takes of the driver.
    pub fn pin_request(&self, offset: usize, len: usize, page_size: usize) -> (request: PinRequest)
        requires
            page_size > 0,
            offset + len <= usize::MAX,
            whole_pages(offset + len, page_size as int) <= usize::MAX,
        ensures
            request == self.spec_pin_request(offset as int, len as int, page_size as int),
    {
        if self.registered {
            return PinRequest::Pinned;
        }
        proof {
            vstd::arithmetic::div_mod::lemma_fundamental_div_mod(offset as int, page_size as int);
            vstd::arithmetic::div_mod::lemma_mod_bound(offset as int, page_size as int);
            vstd::arithmetic::div_mod::lemma_div_pos_is_pos(offset as int, page_size as int);
            assert((offset as int / page_size as int) * page_size == page_size * (offset as int
                / page_size as int)) by (nonlinear_arith);
            assert(0 <= page_size * (offset as int / page_size as int)) by (nonlinear_arith)
                requires
                    0 <= offset as int / page_size as int,
            ;
        }
        let start: usize = (offset / page_size) * page_size;
        let rounded: usize = round_to_pages(offset + len, page_size);
        let end: usize = if rounded <= self.len {
            rounded
        } else {
            self.len
        };
        if end <= start {
            return PinRequest::Empty;
        }
        PinRequest::Register { start, len: end - start }
    }

    /// Pins a range, given the driver's reply to [`Self::pin_request`]. `devicemap` asks that
    /// the device see the bytes. A pinned buffer stays as it is, and so does one that the
    /// driver refused.
    pub fn pin_range_with_flags(
        &mut self,
        offset: usize,
        len: usize,
        page_size: usize,
        devicemap: bool,
        reply: PinReply,
    ) -> (outcome: Result<(), AegisError>)
        requires
            page_size > 0,
            offset + len <= usize::MAX,
            whole_pages(offset + len, page_size as int) <= usize::MAX,
            old(self).spec_pin_request(
                offset as int,
                len as int,
                page_size as int,
            ) is Register ==> answers(devicemap, reply),
        ensures
            final(self).spec_len() == old(self).spec_len(),
            match old(self).spec_pin_request(offset as int, len as int, page_size as int) {
                PinRequest::Pinned => outcome is Ok && *final(self) == *old(self),
                PinRequest::Empty => {
                    &&& outcome is Ok
                    &&& final(self).spec_registered()
                    &&& final(self).spec_register_start() == old(self).spec_register_start()
                    &&& final(self).spec_device_ptr() == old(self).spec_device_ptr()
                },
                PinRequest::Register { start, len } => match refusal(start, len, devicemap, reply) {
                    Some(error) => outcome == Err::<(), _>(error) && *final(self) == *old(self),
                    None => {
                        &&& outcome is Ok
                        &&& final(self).spec_registered()
                        &&& final(self).spec_register_start() == start
                        &&& final(self).spec_device_ptr() == match reply {
                            PinReply::Mapped(address) => address,
                            _ => old(self).spec_device_ptr(),
                        }
                    },
                },
            },
    {
        match self.pin_request(offset, len, page_size) {
            PinRequest::Pinned => Ok(()),
            PinRequest::Empty => {
                self.registered = true;
                Ok(())
            },
            PinRequest::Register { start, len } => {
                match reply {
                    PinReply::Refused(cause) => {
                        let flags: &'static str = if devicemap { "0x3" } else { "0x1" };
                        return Err(
                            unsupported_plan(
                                "OwnedPinnedBuf::pin_range({}, {}, flags={}): cuMemHostRegister failed: {}",
                                Values::Four(
                                    number(start),
                                    number(len),
                                    Value::Label(flags),
                                    Value::Name(cause),
                                ),
                            ),
                        );
                    },
                    PinReply::Unmapped(cause) => {
                        return Err(
                            unsupported_plan(
                                "OwnedPinnedBuf::pin_range_devicemap({}, {}): cuMemHostGetDevicePointer_v2 failed: {}",
                                Values::Three(number(start), number(len), Value::Name(cause)),
                            ),
                        );
                    },
                    PinReply::Mapped(address) => {
                        self.device_ptr = address;
                    },
                    PinReply::Registered | PinReply::Unasked => {},
                }
                self.registered = true;
                self.register_start = start;
                Ok(())
            },
        }
    }

    /// Where the device sees the start of the locked part; zero where it does not.
    pub fn device_ptr_base(&self) -> (address: u64)
        ensures
            address == self.spec_device_ptr(),
    {
        self.device_ptr
    }

    /// Where the locked part starts.
    pub fn register_start(&self) -> (offset: usize)
        ensures
            offset == self.spec_register_start(),
    {
        self.register_start
    }

    /// Number of bytes of the mapping.
    pub fn len(&self) -> (bytes: usize)
        ensures
            bytes == self.spec_len(),
    {
        self.len
    }

    /// Where the lock has to be undone when the buffer goes, if it is pinned.
    pub fn unregister_at(&self) -> (offset: Option<usize>)
        ensures
            offset == if self.spec_registered() {
                Some(self.spec_register_start())
            } else {
                None
            },
    {
        if self.registered {
            Some(self.register_start)
        } else {
            None
        }
    }
}

/// The reply answers a request to lock bytes: a map comes where one was asked for.
pub open spec fn answers(devicemap: bool, reply: PinReply) -> bool {
    match reply {
        PinReply::Unasked => false,
        PinReply::Registered => !devicemap,
        PinReply::Mapped(_) => devicemap,
        PinReply::Refused(_) => true,
        PinReply::Unmapped(_) => devicemap,
    }
}

/// What a refusal of the driver is reported as.
pub open spec fn refusal(
    start: usize,
    len: usize,
    devicemap: bool,
    reply: PinReply,
) -> Option<AegisError> {
    match reply {
        PinReply::Refused(cause) => Some(
            AegisError::unsupported_with(
                "OwnedPinnedBuf::pin_range({}, {}, flags={}): cuMemHostRegister failed: {}",
                Values::Four(
                    Value::num(start as int),
                    Value::num(len as int),
                    Value::Label(
                        if devicemap {
                            "0x3"
                        } else {
                            "0x1"
                        },
                    ),
                    Value::Name(cause),
                ),
            ),
        ),
        PinReply::Unmapped(cause) => Some(
            AegisError::unsupported_with(
                "OwnedPinnedBuf::pin_range_devicemap({}, {}): cuMemHostGetDevicePointer_v2 failed: {}",
                Values::Three(
                    Value::num(start as int),
                    Value::num(len as int),
                    Value::Name(cause),
                ),
            ),
        ),
        _ => None,
    }
}

/// What is locked starts at a page boundary, lies within the buffer, and holds every byte
/// of the range that the buffer has.
pub proof fn locked_range_covers(buffer_len: int, offset: int, len: int, page_size: int, byte: int)
    requires
        page_size > 0,
        0 <= offset <= byte < offset + len,
        0 <= byte < buffer_len,
    ensures
        ({
            let (start, locked) = locked_range(buffer_len, offset, len, page_size);
            &&& start % page_size == 0
            &&& 0 <= start <= byte < start + locked
            &&& start + locked <= buffer_len
        }),
{
    let q = offset / page_size;
    vstd::arithmetic::div_mod::lemma_fundamental_div_mod(offset, page_size);
    vstd::arithmetic::div_mod::lemma_mod_bound(offset, page_size);
    vstd::arithmetic::div_mod::lemma_div_pos_is_pos(offset, page_size);
    runtime::lemma_blocks(offset + len, page_size);
    assert(q * page_size == page_size * q) by (nonlinear_arith);
    assert(0 <= q * page_size) by (nonlinear_arith)
        requires
            0 <= q,
            0 < page_size,
    ;
    vstd::arithmetic::div_mod::lemma_mod_multiples_basic(q, page_size);
}

} // verus!
