//! Device memory: allocation, uploads, downloads and copies.
use crate::error::{invalid_plan, number, AegisError, Value, Values};
use crate::launch::{Engine, Operand, Plan, Region, Step, StepView};
use crate::runtime::CudaRuntime;
use crate::types::{DeviceBuffer, F32};
use vstd::prelude::*;

verus! {

/// Occupancy of the device's default memory pool, in bytes: what the pool holds
/// and what of it is in use.
#[derive(Clone, Copy, Debug)]
pub struct MemPoolStats {
    pub reserved_current: usize,
    pub used_current: usize,
}

impl MemPoolStats {
    /// What the pool holds without being in use; nothing where the two readings
    /// disagree.
    pub fn cached_bytes(&self) -> (bytes: usize)
        ensures
            bytes == (if self.reserved_current >= self.used_current {
                self.reserved_current - self.used_current
            } else {
                0
            }),
    {
        self.reserved_current.saturating_sub(self.used_current)
    }
}

/// Whether `len` elements from `offset` on run past the end of `total` elements.
fn past_end(offset: usize, len: usize, total: usize) -> (past: bool)
    ensures
        past == (offset + len > total),
{
    offset > total || len > total - offset
}

/// The steps of [`CudaRuntime::upload_u64_slice_to_device`].
pub open spec fn u64_slice_to_upload_steps(
    values: &[u64],
    buffer: &DeviceBuffer<u64>,
) -> Result<Seq<StepView>, AegisError> {
    if values.len() == 0 {
        Ok(Seq::empty())
    } else if buffer.len() < values.len() {
        Err(AegisError::invalid_with(
                "upload_u64_slice_to_device buffer too small: have {}, need {}",
                Values::Two(Value::num(buffer.len() as int), Value::num(values.len() as int)),
            ))
    } else {
        Ok(
            seq![
                StepView::Copy {
                    engine: Engine::Compute,
                    from: Region { operand: Operand::Host, start: 0, end: values.len() },
                    to: Region { operand: Operand::Destination, start: 0, end: values.len() },
                    stage: "htod u64 slice",
                },
            ],
        )
    }
}

/// The steps of [`CudaRuntime::upload_f32_slice_to_device`].
pub open spec fn f32_slice_to_upload_steps(
    count: usize,
    buffer: &DeviceBuffer<F32>,
) -> Result<Seq<StepView>, AegisError> {
    if count == 0 {
        Ok(Seq::empty())
    } else if buffer.len() < count {
        Err(AegisError::invalid_with(
                "upload_f32_slice_to_device buffer too small: have {}, need {}",
                Values::Two(Value::num(buffer.len() as int), Value::num(count as int)),
            ))
    } else {
        Ok(
            seq![
                StepView::Copy {
                    engine: Engine::Compute,
                    from: Region { operand: Operand::Host, start: 0, end: count },
                    to: Region { operand: Operand::Destination, start: 0, end: count },
                    stage: "htod f32 slice",
                },
            ],
        )
    }
}

/// The steps of [`CudaRuntime::upload_u32_slice_to_device`].
pub open spec fn u32_slice_to_upload_steps(
    values: &[u32],
    buffer: &DeviceBuffer<u32>,
) -> Result<Seq<StepView>, AegisError> {
    if values.len() == 0 {
        Ok(Seq::empty())
    } else if buffer.len() < values.len() {
        Err(AegisError::invalid_with(
                "upload_u32_slice_to_device buffer too small: have {}, need {}",
                Values::Two(Value::num(buffer.len() as int), Value::num(values.len() as int)),
            ))
    } else {
        Ok(
            seq![
                StepView::Copy {
                    engine: Engine::Compute,
                    from: Region { operand: Operand::Host, start: 0, end: values.len() },
                    to: Region { operand: Operand::Destination, start: 0, end: values.len() },
                    stage: "htod u32 slice",
                },
            ],
        )
    }
}

/// The steps of [`CudaRuntime::upload_u8_slice_to_device`].
pub open spec fn u8_slice_to_upload_steps(
    values: &[u8],
    buffer: &DeviceBuffer<u8>,
) -> Result<Seq<StepView>, AegisError> {
    if values.len() == 0 {
        Ok(Seq::empty())
    } else if buffer.len() < values.len() {
        Err(AegisError::invalid_with(
                "upload_u8_slice_to_device buffer too small: have {}, need {}",
                Values::Two(Value::num(buffer.len() as int), Value::num(values.len() as int)),
            ))
    } else {
        Ok(
            seq![
                StepView::Copy {
                    engine: Engine::Compute,
                    from: Region { operand: Operand::Host, start: 0, end: values.len() },
                    to: Region { operand: Operand::Destination, start: 0, end: values.len() },
                    stage: "htod u8 slice",
                },
            ],
        )
    }
}

/// The steps of [`CudaRuntime::upload_u32_slice_to_device_async`].
pub open spec fn u32_slice_to_async_upload_steps(
    values: &[u32],
    buffer: &DeviceBuffer<u32>,
) -> Result<Seq<StepView>, AegisError> {
    if values.len() == 0 {
        Ok(Seq::empty())
    } else if buffer.len() < values.len() {
        Err(AegisError::invalid_with(
                "upload_u32_slice_to_device_async buffer too small: have {} need {}",
                Values::Two(Value::num(buffer.len() as int), Value::num(values.len() as int)),
            ))
    } else {
        Ok(
            seq![
                StepView::Copy {
                    engine: Engine::Transfer,
                    from: Region { operand: Operand::Host, start: 0, end: values.len() },
                    to: Region { operand: Operand::Destination, start: 0, end: values.len() },
                    stage: "htod u32 transfer-stream",
                },
            ],
        )
    }
}

/// The steps of [`CudaRuntime::upload_f32_slice_to_device_async`].
pub open spec fn f32_slice_to_async_upload_steps(
    count: usize,
    buffer: &DeviceBuffer<F32>,
) -> Result<Seq<StepView>, AegisError> {
    if count == 0 {
        Ok(Seq::empty())
    } else if buffer.len() < count {
        Err(AegisError::invalid_with(
                "upload_f32_slice_to_device_async buffer too small: have {} need {}",
                Values::Two(Value::num(buffer.len() as int), Value::num(count as int)),
            ))
    } else {
        Ok(
            seq![
                StepView::Copy {
                    engine: Engine::Transfer,
                    from: Region { operand: Operand::Host, start: 0, end: count },
                    to: Region { operand: Operand::Destination, start: 0, end: count },
                    stage: "htod f32 transfer-stream",
                },
            ],
        )
    }
}

/// The steps of [`CudaRuntime::copy_u32_d2d_range`].
pub open spec fn copy_u32_d2d_range_steps(
    src: &DeviceBuffer<u32>,
    src_offset: usize,
    dst: &DeviceBuffer<u32>,
    dst_offset: usize,
    len: usize,
) -> Result<Seq<StepView>, AegisError> {
    if len == 0 {
        Ok(Seq::empty())
    } else if src_offset + len > src.len() || dst_offset + len > dst.len() {
        Err(AegisError::invalid_with(
                "copy_u32_d2d_range out of bounds: src.len={} src_off={} dst.len={} dst_off={} len={}",
                Values::Five(
                    Value::num(src.len() as int),
                    Value::num(src_offset as int),
                    Value::num(dst.len() as int),
                    Value::num(dst_offset as int),
                    Value::num(len as int),
                ),
            ))
    } else {
        Ok(
            seq![
                StepView::Copy {
                    engine: Engine::Compute,
                    from: Region { operand: Operand::Source, start: src_offset, end: (src_offset + len) as usize },
                    to: Region { operand: Operand::Destination, start: dst_offset, end: (dst_offset + len) as usize },
                    stage: "d2d u32 range",
                },
            ],
        )
    }
}

/// The steps of [`CudaRuntime::copy_f32_d2d_range`].
pub open spec fn copy_f32_d2d_range_steps(
    src: &DeviceBuffer<F32>,
    src_offset: usize,
    dst: &DeviceBuffer<F32>,
    dst_offset: usize,
    len: usize,
) -> Result<Seq<StepView>, AegisError> {
    if len == 0 {
        Ok(Seq::empty())
    } else if src_offset + len > src.len() || dst_offset + len > dst.len() {
        Err(AegisError::invalid_with(
                "copy_f32_d2d_range out of bounds: src.len={} src_off={} dst.len={} dst_off={} len={}",
                Values::Five(
                    Value::num(src.len() as int),
                    Value::num(src_offset as int),
                    Value::num(dst.len() as int),
                    Value::num(dst_offset as int),
                    Value::num(len as int),
                ),
            ))
    } else {
        Ok(
            seq![
                StepView::Copy {
                    engine: Engine::Compute,
                    from: Region { operand: Operand::Source, start: src_offset, end: (src_offset + len) as usize },
                    to: Region { operand: Operand::Destination, start: dst_offset, end: (dst_offset + len) as usize },
                    stage: "d2d f32 range",
                },
            ],
        )
    }
}

/// The steps of [`CudaRuntime::copy_host_u8_to_device_at_offset`].
pub open spec fn copy_host_u8_to_device_at_offset_steps(
    src: &[u8],
    dst: &DeviceBuffer<u8>,
    dst_offset: usize,
) -> Result<Seq<StepView>, AegisError> {
    if src.len() == 0 {
        Ok(Seq::empty())
    } else if dst_offset + src.len() > dst.len() {
        Err(AegisError::invalid_with(
                "copy_host_u8_to_device_at_offset out of bounds: dst.len={} dst_off={} src.len={}",
                Values::Three(
                    Value::num(dst.len() as int),
                    Value::num(dst_offset as int),
                    Value::num(src.len() as int),
                ),
            ))
    } else {
        Ok(
            seq![
                StepView::Copy {
                    engine: Engine::Compute,
                    from: Region { operand: Operand::Host, start: 0, end: src.len() },
                    to: Region { operand: Operand::Destination, start: dst_offset, end: (dst_offset + src.len()) as usize },
                    stage: "h2d u8 range",
                },
            ],
        )
    }
}

/// The steps of [`CudaRuntime::copy_host_u8_to_device_at_offset_async`].
pub open spec fn copy_host_u8_to_device_at_offset_async_steps(
    src: &[u8],
    dst: &DeviceBuffer<u8>,
    dst_offset: usize,
) -> Result<Seq<StepView>, AegisError> {
    if src.len() == 0 {
        Ok(Seq::empty())
    } else if dst_offset + src.len() > dst.len() {
        Err(AegisError::invalid_with(
                "copy_host_u8_to_device_at_offset_async out of bounds: dst.len={} dst_off={} src.len={}",
                Values::Three(
                    Value::num(dst.len() as int),
                    Value::num(dst_offset as int),
                    Value::num(src.len() as int),
                ),
            ))
    } else {
        Ok(
            seq![
                StepView::Copy {
                    engine: Engine::Transfer,
                    from: Region { operand: Operand::Host, start: 0, end: src.len() },
                    to: Region { operand: Operand::Destination, start: dst_offset, end: (dst_offset + src.len()) as usize },
                    stage: "h2d u8 transfer-stream",
                },
            ],
        )
    }
}

/// The steps of [`CudaRuntime::copy_u32_to_device`].
pub open spec fn copy_u32_steps(
    values: &[u32],
    buffer: &DeviceBuffer<u32>,
) -> Result<Seq<StepView>, AegisError> {
    Ok(
        seq![
            StepView::Copy {
                engine: Engine::Compute,
                from: Region { operand: Operand::Host, start: 0, end: values.len() },
                to: Region { operand: Operand::Destination, start: 0, end: values.len() },
                stage: "htod u32 buffer",
            },
        ],
    )
}

/// The steps of [`CudaRuntime::download_u32_to_pinned_async`].
pub open spec fn download_pinned_steps(
    src: &DeviceBuffer<u32>,
    dst_len: usize,
    count: usize,
) -> Result<Seq<StepView>, AegisError> {
    if count == 0 {
        Ok(Seq::empty())
    } else if src.len() < count || dst_len < count {
        Err(AegisError::invalid_with(
                "download_u32_to_pinned_async out of bounds: src={} dst={} count={}",
                Values::Three(
                    Value::num(src.len() as int),
                    Value::num(dst_len as int),
                    Value::num(count as int),
                ),
            ))
    } else {
        Ok(
            seq![
                StepView::Copy {
                    engine: Engine::Transfer,
                    from: Region { operand: Operand::Source, start: 0, end: count },
                    to: Region { operand: Operand::Host, start: 0, end: count },
                    stage: "d2h u32 packed topk async",
                },
            ],
        )
    }
}

/// The steps of [`CudaRuntime::download_f32`].
pub open spec fn download_f32_steps(
    buffer: &DeviceBuffer<F32>,
) -> Result<Seq<StepView>, AegisError> {
    Ok(
        seq![
            StepView::Copy {
                engine: Engine::Compute,
                from: Region { operand: Operand::Source, start: 0, end: buffer.len() },
                to: Region { operand: Operand::Downloaded, start: 0, end: buffer.len() },
                stage: "dtoh f32 buffer",
            },
        ],
    )
}

/// The steps of [`CudaRuntime::download_u32`].
pub open spec fn download_u32_steps(
    buffer: &DeviceBuffer<u32>,
) -> Result<Seq<StepView>, AegisError> {
    Ok(
        seq![
            StepView::Copy {
                engine: Engine::Compute,
                from: Region { operand: Operand::Source, start: 0, end: buffer.len() },
                to: Region { operand: Operand::Downloaded, start: 0, end: buffer.len() },
                stage: "dtoh u32 buffer",
            },
        ],
    )
}

/// The steps of [`CudaRuntime::download_u8`].
pub open spec fn download_u8_steps(
    buffer: &DeviceBuffer<u8>,
) -> Result<Seq<StepView>, AegisError> {
    Ok(
        seq![
            StepView::Copy {
                engine: Engine::Compute,
                from: Region { operand: Operand::Source, start: 0, end: buffer.len() },
                to: Region { operand: Operand::Downloaded, start: 0, end: buffer.len() },
                stage: "dtoh u8 buffer",
            },
        ],
    )
}

impl CudaRuntime {
    /// Uploads `values` to the front of a buffer.
    pub fn upload_u64_slice_to_device(
        &self,
        values: &[u64],
        buffer: &DeviceBuffer<u64>,
    ) -> (plan: Result<Plan, AegisError>)
        ensures
            Plan::outcome(plan) =~~= u64_slice_to_upload_steps(values, buffer),
    {
        if values.len() == 0 {
            return Ok(Plan::empty());
        }
        if buffer.len() < values.len() {
            return Err(invalid_plan(
                "upload_u64_slice_to_device buffer too small: have {}, need {}",
                Values::Two(number(buffer.len()), number(values.len())),
            ));
        }
        Ok(
            Plan::of(
                Step::Copy {
                    engine: Engine::Compute,
                    from: Region { operand: Operand::Host, start: 0, end: values.len() },
                    to: Region { operand: Operand::Destination, start: 0, end: values.len() },
                    stage: "htod u64 slice",
                },
            ),
        )
    }

    /// Uploads `count` single-precision values to the front of a buffer.
    pub fn upload_f32_slice_to_device(
        &self,
        count: usize,
        buffer: &DeviceBuffer<F32>,
    ) -> (plan: Result<Plan, AegisError>)
        ensures
            Plan::outcome(plan) =~~= f32_slice_to_upload_steps(count, buffer),
    {
        if count == 0 {
            return Ok(Plan::empty());
        }
        if buffer.len() < count {
            return Err(invalid_plan(
                "upload_f32_slice_to_device buffer too small: have {}, need {}",
                Values::Two(number(buffer.len()), number(count)),
            ));
        }
        Ok(
            Plan::of(
                Step::Copy {
                    engine: Engine::Compute,
                    from: Region { operand: Operand::Host, start: 0, end: count },
                    to: Region { operand: Operand::Destination, start: 0, end: count },
                    stage: "htod f32 slice",
                },
            ),
        )
    }

    /// Uploads `values` to the front of a buffer.
    pub fn upload_u32_slice_to_device(
        &self,
        values: &[u32],
        buffer: &DeviceBuffer<u32>,
    ) -> (plan: Result<Plan, AegisError>)
        ensures
            Plan::outcome(plan) =~~= u32_slice_to_upload_steps(values, buffer),
    {
        if values.len() == 0 {
            return Ok(Plan::empty());
        }
        if buffer.len() < values.len() {
            return Err(invalid_plan(
                "upload_u32_slice_to_device buffer too small: have {}, need {}",
                Values::Two(number(buffer.len()), number(values.len())),
            ));
        }
        Ok(
            Plan::of(
                Step::Copy {
                    engine: Engine::Compute,
                    from: Region { operand: Operand::Host, start: 0, end: values.len() },
                    to: Region { operand: Operand::Destination, start: 0, end: values.len() },
                    stage: "htod u32 slice",
                },
            ),
        )
    }

    /// Uploads `values` to the front of a buffer.
    pub fn upload_u8_slice_to_device(
        &self,
        values: &[u8],
        buffer: &DeviceBuffer<u8>,
    ) -> (plan: Result<Plan, AegisError>)
        ensures
            Plan::outcome(plan) =~~= u8_slice_to_upload_steps(values, buffer),
    {
        if values.len() == 0 {
            return Ok(Plan::empty());
        }
        if buffer.len() < values.len() {
            return Err(invalid_plan(
                "upload_u8_slice_to_device buffer too small: have {}, need {}",
                Values::Two(number(buffer.len()), number(values.len())),
            ));
        }
        Ok(
            Plan::of(
                Step::Copy {
                    engine: Engine::Compute,
                    from: Region { operand: Operand::Host, start: 0, end: values.len() },
                    to: Region { operand: Operand::Destination, start: 0, end: values.len() },
                    stage: "htod u8 slice",
                },
            ),
        )
    }

    /// [`Self::upload_u32_slice_to_device`] on the transfer stream.
    pub fn upload_u32_slice_to_device_async(
        &self,
        values: &[u32],
        buffer: &DeviceBuffer<u32>,
    ) -> (plan: Result<Plan, AegisError>)
        ensures
            Plan::outcome(plan) =~~= u32_slice_to_async_upload_steps(values, buffer),
    {
        if values.len() == 0 {
            return Ok(Plan::empty());
        }
        if buffer.len() < values.len() {
            return Err(invalid_plan(
                "upload_u32_slice_to_device_async buffer too small: have {} need {}",
                Values::Two(number(buffer.len()), number(values.len())),
            ));
        }
        Ok(
            Plan::of(
                Step::Copy {
                    engine: Engine::Transfer,
                    from: Region { operand: Operand::Host, start: 0, end: values.len() },
                    to: Region { operand: Operand::Destination, start: 0, end: values.len() },
                    stage: "htod u32 transfer-stream",
                },
            ),
        )
    }

    /// [`Self::upload_f32_slice_to_device`] on the transfer stream.
    pub fn upload_f32_slice_to_device_async(
        &self,
        count: usize,
        buffer: &DeviceBuffer<F32>,
    ) -> (plan: Result<Plan, AegisError>)
        ensures
            Plan::outcome(plan) =~~= f32_slice_to_async_upload_steps(count, buffer),
    {
        if count == 0 {
            return Ok(Plan::empty());
        }
        if buffer.len() < count {
            return Err(invalid_plan(
                "upload_f32_slice_to_device_async buffer too small: have {} need {}",
                Values::Two(number(buffer.len()), number(count)),
            ));
        }
        Ok(
            Plan::of(
                Step::Copy {
                    engine: Engine::Transfer,
                    from: Region { operand: Operand::Host, start: 0, end: count },
                    to: Region { operand: Operand::Destination, start: 0, end: count },
                    stage: "htod f32 transfer-stream",
                },
            ),
        )
    }

    /// Copies `len` elements from one device buffer to another.
    pub fn copy_u32_d2d_range(
        &self,
        src: &DeviceBuffer<u32>,
        src_offset: usize,
        dst: &DeviceBuffer<u32>,
        dst_offset: usize,
        len: usize,
    ) -> (plan: Result<Plan, AegisError>)
        ensures
            Plan::outcome(plan) =~~= copy_u32_d2d_range_steps(
                src,
                src_offset,
                dst,
                dst_offset,
                len,
            ),
    {
        if len == 0 {
            return Ok(Plan::empty());
        }
        if past_end(src_offset, len, src.len()) || past_end(dst_offset, len, dst.len()) {
            return Err(invalid_plan(
                "copy_u32_d2d_range out of bounds: src.len={} src_off={} dst.len={} dst_off={} len={}",
                Values::Five(
                    number(src.len()),
                    number(src_offset),
                    number(dst.len()),
                    number(dst_offset),
                    number(len),
                ),
            ));
        }
        Ok(
            Plan::of(
                Step::Copy {
                    engine: Engine::Compute,
                    from: Region { operand: Operand::Source, start: src_offset, end: src_offset + len },
                    to: Region { operand: Operand::Destination, start: dst_offset, end: dst_offset + len },
                    stage: "d2d u32 range",
                },
            ),
        )
    }

    /// Copies `len` elements from one device buffer to another.
    pub fn copy_f32_d2d_range(
        &self,
        src: &DeviceBuffer<F32>,
        src_offset: usize,
        dst: &DeviceBuffer<F32>,
        dst_offset: usize,
        len: usize,
    ) -> (plan: Result<Plan, AegisError>)
        ensures
            Plan::outcome(plan) =~~= copy_f32_d2d_range_steps(
                src,
                src_offset,
                dst,
                dst_offset,
                len,
            ),
    {
        if len == 0 {
            return Ok(Plan::empty());
        }
        if past_end(src_offset, len, src.len()) || past_end(dst_offset, len, dst.len()) {
            return Err(invalid_plan(
                "copy_f32_d2d_range out of bounds: src.len={} src_off={} dst.len={} dst_off={} len={}",
                Values::Five(
                    number(src.len()),
                    number(src_offset),
                    number(dst.len()),
                    number(dst_offset),
                    number(len),
                ),
            ));
        }
        Ok(
            Plan::of(
                Step::Copy {
                    engine: Engine::Compute,
                    from: Region { operand: Operand::Source, start: src_offset, end: src_offset + len },
                    to: Region { operand: Operand::Destination, start: dst_offset, end: dst_offset + len },
                    stage: "d2d f32 range",
                },
            ),
        )
    }

    /// Uploads bytes to a buffer from `dst_offset` on.
    pub fn copy_host_u8_to_device_at_offset(
        &self,
        src: &[u8],
        dst: &DeviceBuffer<u8>,
        dst_offset: usize,
    ) -> (plan: Result<Plan, AegisError>)
        ensures
            Plan::outcome(plan) =~~= copy_host_u8_to_device_at_offset_steps(src, dst, dst_offset),
    {
        if src.len() == 0 {
            return Ok(Plan::empty());
        }
        if past_end(dst_offset, src.len(), dst.len()) {
            return Err(invalid_plan(
                "copy_host_u8_to_device_at_offset out of bounds: dst.len={} dst_off={} src.len={}",
                Values::Three(number(dst.len()), number(dst_offset), number(src.len())),
            ));
        }
        Ok(
            Plan::of(
                Step::Copy {
                    engine: Engine::Compute,
                    from: Region { operand: Operand::Host, start: 0, end: src.len() },
                    to: Region { operand: Operand::Destination, start: dst_offset, end: dst_offset + src.len() },
                    stage: "h2d u8 range",
                },
            ),
        )
    }

    /// [`Self::copy_host_u8_to_device_at_offset`] on the transfer stream.
    pub fn copy_host_u8_to_device_at_offset_async(
        &self,
        src: &[u8],
        dst: &DeviceBuffer<u8>,
        dst_offset: usize,
    ) -> (plan: Result<Plan, AegisError>)
        ensures
            Plan::outcome(plan) =~~= copy_host_u8_to_device_at_offset_async_steps(
                src,
                dst,
                dst_offset,
            ),
    {
        if src.len() == 0 {
            return Ok(Plan::empty());
        }
        if past_end(dst_offset, src.len(), dst.len()) {
            return Err(invalid_plan(
                "copy_host_u8_to_device_at_offset_async out of bounds: dst.len={} dst_off={} src.len={}",
                Values::Three(number(dst.len()), number(dst_offset), number(src.len())),
            ));
        }
        Ok(
            Plan::of(
                Step::Copy {
                    engine: Engine::Transfer,
                    from: Region { operand: Operand::Host, start: 0, end: src.len() },
                    to: Region { operand: Operand::Destination, start: dst_offset, end: dst_offset + src.len() },
                    stage: "h2d u8 transfer-stream",
                },
            ),
        )
    }

    /// Uploads `values` to the front of a buffer that holds them.
    pub fn copy_u32_to_device(
        &self,
        values: &[u32],
        buffer: &DeviceBuffer<u32>,
    ) -> (plan: Result<Plan, AegisError>)
        requires
            values.len() <= buffer.len(),
        ensures
            Plan::outcome(plan) =~~= copy_u32_steps(values, buffer),
    {
        Ok(
            Plan::of(
                Step::Copy {
                    engine: Engine::Compute,
                    from: Region { operand: Operand::Host, start: 0, end: values.len() },
                    to: Region { operand: Operand::Destination, start: 0, end: values.len() },
                    stage: "htod u32 buffer",
                },
            ),
        )
    }

    /// Downloads `count` elements to page-locked host memory on the transfer stream.
    pub fn download_u32_to_pinned_async(
        &self,
        src: &DeviceBuffer<u32>,
        dst_len: usize,
        count: usize,
    ) -> (plan: Result<Plan, AegisError>)
        ensures
            Plan::outcome(plan) =~~= download_pinned_steps(src, dst_len, count),
    {
        if count == 0 {
            return Ok(Plan::empty());
        }
        if src.len() < count || dst_len < count {
            return Err(invalid_plan(
                "download_u32_to_pinned_async out of bounds: src={} dst={} count={}",
                Values::Three(number(src.len()), number(dst_len), number(count)),
            ));
        }
        Ok(
            Plan::of(
                Step::Copy {
                    engine: Engine::Transfer,
                    from: Region { operand: Operand::Source, start: 0, end: count },
                    to: Region { operand: Operand::Host, start: 0, end: count },
                    stage: "d2h u32 packed topk async",
                },
            ),
        )
    }

    /// Downloads a whole buffer.
    pub fn download_f32(
        &self,
        buffer: &DeviceBuffer<F32>,
    ) -> (plan: Result<Plan, AegisError>)
        ensures
            Plan::outcome(plan) =~~= download_f32_steps(buffer),
    {
        Ok(
            Plan::of(
                Step::Copy {
                    engine: Engine::Compute,
                    from: Region { operand: Operand::Source, start: 0, end: buffer.len() },
                    to: Region { operand: Operand::Downloaded, start: 0, end: buffer.len() },
                    stage: "dtoh f32 buffer",
                },
            ),
        )
    }

    /// Downloads a whole buffer.
    pub fn download_u32(
        &self,
        buffer: &DeviceBuffer<u32>,
    ) -> (plan: Result<Plan, AegisError>)
        ensures
            Plan::outcome(plan) =~~= download_u32_steps(buffer),
    {
        Ok(
            Plan::of(
                Step::Copy {
                    engine: Engine::Compute,
                    from: Region { operand: Operand::Source, start: 0, end: buffer.len() },
                    to: Region { operand: Operand::Downloaded, start: 0, end: buffer.len() },
                    stage: "dtoh u32 buffer",
                },
            ),
        )
    }

    /// Downloads a whole buffer.
    pub fn download_u8(
        &self,
        buffer: &DeviceBuffer<u8>,
    ) -> (plan: Result<Plan, AegisError>)
        ensures
            Plan::outcome(plan) =~~= download_u8_steps(buffer),
    {
        Ok(
            Plan::of(
                Step::Copy {
                    engine: Engine::Compute,
                    from: Region { operand: Operand::Source, start: 0, end: buffer.len() },
                    to: Region { operand: Operand::Downloaded, start: 0, end: buffer.len() },
                    stage: "dtoh u8 buffer",
                },
            ),
        )
    }

    /// Uploads the first `len` bytes of page-locked host memory. The host side is
    /// held to its length once it is mapped.
    pub fn copy_pinned_u8_to_device(&self, src_len: usize, len: usize, dst: &DeviceBuffer<u8>) -> (plan: Result<
        Plan,
        AegisError,
    >)
        ensures
            Plan::outcome(plan) == copy_pinned_steps(src_len as int, len as int, dst.len() as int),
    {
        if len == 0 {
            return Ok(Plan::empty());
        }
        if dst.len() < len {
            return Err(
                invalid_plan(
                    "copy_pinned_u8_to_device dst too small: have {} need {}",
                    Values::Two(number(dst.len()), number(len)),
                ),
            );
        }
        let map = Plan::of(Step::MapHost { stage: "pinned u8 as_slice" });
        let rest = if src_len < len {
            Err(
                invalid_plan(
                    "copy_pinned_u8_to_device src too small: have {} need {}",
                    Values::Two(number(src_len), number(len)),
                ),
            )
        } else {
            Ok(
                Plan::of(
                    Step::Copy {
                        engine: Engine::Compute,
                        from: Region { operand: Operand::Host, start: 0, end: len },
                        to: Region { operand: Operand::Destination, start: 0, end: len },
                        stage: "h2d pinned u8",
                    },
                ),
            )
        };
        Ok(map.then_outcome(rest))
    }
}

/// The steps of [`CudaRuntime::copy_pinned_u8_to_device`].
pub open spec fn copy_pinned_steps(src_len: int, len: int, dst_len: int) -> Result<
    Seq<StepView>,
    AegisError,
> {
    let copy = StepView::Copy {
        engine: Engine::Compute,
        from: Region { operand: Operand::Host, start: 0, end: len as usize },
        to: Region { operand: Operand::Destination, start: 0, end: len as usize },
        stage: "h2d pinned u8",
    };
    if len == 0 {
        Ok(Seq::empty())
    } else if dst_len < len {
        Err(
            AegisError::invalid_with(
                "copy_pinned_u8_to_device dst too small: have {} need {}",
                Values::Two(Value::num(dst_len), Value::num(len)),
            ),
        )
    } else {
        Ok(
            Plan::spec_then(
                seq![StepView::MapHost { stage: "pinned u8 as_slice" }],
                if src_len < len {
                    Err(
                        AegisError::invalid_with(
                            "copy_pinned_u8_to_device src too small: have {} need {}",
                            Values::Two(Value::num(src_len), Value::num(len)),
                        ),
                    )
                } else {
                    Ok(seq![copy])
                },
            ),
        )
    }
}

} // verus!
