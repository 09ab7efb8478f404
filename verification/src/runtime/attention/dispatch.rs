//! Which implementation serves a prefill, and the paged prefill request itself.
use super::prefill_paged::{saturating_entries, PagedGroupedPrefill};
use super::{
    checked_len, split_count_of, u32_arg, validate_dynamic_shared_bytes, FA4_HDIM128_K_TILE,
    FA4_HDIM128_Q_BLOCK, FLASH_COMPAT_PAGE_TOKENS, FLASH_SPLIT_K_TOKENS, FLASH_SPLIT_Q_BLOCK,
    PAGED_WMMA_GQA4_HEADS, PAGED_WMMA_GQA4_Q_TOKENS, SHARED_BYTES_LIMIT, TILED_HALFQ_Q_BLOCK,
};
use crate::config::{CudaAttentionBackend, CudaPrefillAttentionKernel};
use crate::error::{invalid_plan, number, unsupported_plan, AegisError, Value, Values};
use crate::functions::Kernel;
use crate::launch::{Arg, Launch, LaunchConfig, Operand, Plan, StepView};
use crate::runtime::{self, div_ceil, CudaRuntime};
use crate::types::CudaAttentionRequest;
use vstd::prelude::*;

verus! {

/// The implementation that serves a prefill over `context_len` positions.
/// Settings reserved for kernels that do not exist are refused; left to itself,
/// the runtime takes paged attention where the device has tensor-core attention
/// and the context is long.
pub open spec fn prefill_backend(rt: CudaRuntime, context_len: int) -> Result<
    CudaAttentionBackend,
    AegisError,
> {
    let target = rt.tuning.auto_target;
    match rt.config.prefill_attention {
        CudaPrefillAttentionKernel::Auto => if (target is FlashAttention2 || target is FlashAttention3
            || target is FlashAttention4) && context_len >= rt.tuning.varlen_min_context {
            Ok(CudaAttentionBackend::AegisVarlen)
        } else {
            Ok(CudaAttentionBackend::Reference)
        },
        CudaPrefillAttentionKernel::Off => Ok(CudaAttentionBackend::Reference),
        CudaPrefillAttentionKernel::Reference => Ok(CudaAttentionBackend::Reference),
        CudaPrefillAttentionKernel::WarpFlash => Ok(CudaAttentionBackend::Reference),
        CudaPrefillAttentionKernel::Continuation => Ok(CudaAttentionBackend::Reference),
        CudaPrefillAttentionKernel::AegisVarlen => Ok(CudaAttentionBackend::AegisVarlen),
        CudaPrefillAttentionKernel::FlashAttention2 => Err(
            AegisError::unsupported(
                "cuda.prefill-attention=fa2 is reserved for the production Ampere/Ada FA2 backend; use aegis-varlen, off, or auto until that kernel lands",
            ),
        ),
        CudaPrefillAttentionKernel::FlashAttention3 => Err(
            AegisError::unsupported(
                "cuda.prefill-attention=fa3 is reserved for the production Hopper FA3 backend; use aegis-varlen, off, or auto until that kernel lands",
            ),
        ),
        CudaPrefillAttentionKernel::FlashAttention4 => if rt.is_sm120() {
            Ok(CudaAttentionBackend::FlashAttention4)
        } else {
            Err(
                AegisError::unsupported_with(
                    "cuda.prefill-attention=fa4 requires a Blackwell/SM12.x CUDA device; device {} is not reported as Blackwell",
                    Values::One(Value::num(rt.device_index as int)),
                ),
            )
        },
    }
}

impl CudaRuntime {
    /// Picks the implementation of a prefill.
    pub fn select_prefill_attention_backend(&self, context_len: usize) -> (backend: Result<
        CudaAttentionBackend,
        AegisError,
    >)
        ensures
            backend == prefill_backend(*self, context_len as int),
    {
        match self.config.prefill_attention {
            CudaPrefillAttentionKernel::Auto => {
                let tensor_core = matches!(
                    self.tuning.auto_target,
                    CudaAttentionBackend::FlashAttention2
                        | CudaAttentionBackend::FlashAttention3
                        | CudaAttentionBackend::FlashAttention4
                );
                if tensor_core && context_len >= self.tuning.varlen_min_context {
                    Ok(CudaAttentionBackend::AegisVarlen)
                } else {
                    Ok(CudaAttentionBackend::Reference)
                }
            },
            CudaPrefillAttentionKernel::Off | CudaPrefillAttentionKernel::Reference => Ok(
                CudaAttentionBackend::Reference,
            ),
            CudaPrefillAttentionKernel::FlashAttention2 => Err(
                unsupported_plan(
                    "cuda.prefill-attention=fa2 is reserved for the production Ampere/Ada FA2 backend; use aegis-varlen, off, or auto until that kernel lands",
                    Values::Zero,
                ),
            ),
            CudaPrefillAttentionKernel::FlashAttention3 => Err(
                unsupported_plan(
                    "cuda.prefill-attention=fa3 is reserved for the production Hopper FA3 backend; use aegis-varlen, off, or auto until that kernel lands",
                    Values::Zero,
                ),
            ),
            CudaPrefillAttentionKernel::FlashAttention4 => {
                if !self.reports_sm120() {
                    return Err(
                        unsupported_plan(
                            "cuda.prefill-attention=fa4 requires a Blackwell/SM12.x CUDA device; device {} is not reported as Blackwell",
                            Values::One(number(self.device_index)),
                        ),
                    );
                }
                Ok(CudaAttentionBackend::FlashAttention4)
            },
            CudaPrefillAttentionKernel::AegisVarlen => Ok(CudaAttentionBackend::AegisVarlen),
            CudaPrefillAttentionKernel::WarpFlash | CudaPrefillAttentionKernel::Continuation => Ok(
                CudaAttentionBackend::Reference,
            ),
        }
    }
}

impl CudaAttentionRequest<'_> {
    /// Pages that the longest sequence needs, at least one.
    pub open spec fn pages(&self) -> int {
        super::split_count(self.max_k as int, FLASH_COMPAT_PAGE_TOKENS as int)
    }

    /// What is wrong with the request's dimensions and metadata.
    pub open spec fn metadata_fault(&self) -> Option<AegisError> {
        if !self.causal {
            Some(AegisError::unsupported("CUDA prefill attention ABI currently requires causal=true"))
        } else if self.num_kv_heads == 0 || self.num_q_heads == 0 || self.head_dim == 0 {
            Some(
                AegisError::invalid_with(
                    "paged varlen prefill dimensions must be non-zero: q_heads={} kv_heads={} head_dim={}",
                    Values::Three(
                        Value::num(self.num_q_heads as int),
                        Value::num(self.num_kv_heads as int),
                        Value::num(self.head_dim as int),
                    ),
                ),
            )
        } else if self.num_sequences == 0 || self.max_q == 0 || self.max_k == 0 {
            Some(
                AegisError::invalid_with(
                    "paged varlen prefill requires non-empty metadata: seqs={} max_q={} max_k={}",
                    Values::Three(
                        Value::num(self.num_sequences as int),
                        Value::num(self.max_q as int),
                        Value::num(self.max_k as int),
                    ),
                ),
            )
        } else if self.num_prefill_tokens == 0 {
            Some(
                AegisError::invalid(
                    "paged varlen prefill requires at least one prefill query token; decode-only attention needs the decode ABI",
                ),
            )
        } else if self.num_decode_tokens > 0 {
            Some(
                AegisError::unsupported_with(
                    "paged varlen mixed prefill+decode is not implemented yet: prefill_tokens={} decode_tokens={}; scheduler descriptors can express mixed batches, but Aegis kernels currently execute prefill rows only",
                    Values::Two(
                        Value::num(self.num_prefill_tokens as int),
                        Value::num(self.num_decode_tokens as int),
                    ),
                ),
            )
        } else if self.block_table_stride < self.pages() {
            Some(
                AegisError::invalid_with(
                    "paged varlen prefill block table stride too small: stride={} required={} max_k={} page_tokens={}",
                    Values::Four(
                        Value::num(self.block_table_stride as int),
                        Value::num(self.pages()),
                        Value::num(self.max_k as int),
                        Value::num(FLASH_COMPAT_PAGE_TOKENS as int),
                    ),
                ),
            )
        } else if self.cu_q.len() < self.num_sequences + 1 || self.cu_k.len() < self.num_sequences + 1
            || self.context_lens.len() < self.num_sequences || self.block_tables.len()
            < super::prefill_paged::block_table_entries(
            self.num_sequences as int,
            self.block_table_stride as int,
        ) || self.slot_mapping.len() < self.num_prefill_tokens {
            Some(
                AegisError::invalid_with(
                    "paged varlen prefill metadata too small: seqs={} cu_q={} cu_k={} context_lens={} block_tables={} stride={} slots={} tokens={}",
                    Values::Eight(
                        Value::num(self.num_sequences as int),
                        Value::num(self.cu_q.len() as int),
                        Value::num(self.cu_k.len() as int),
                        Value::num(self.context_lens.len() as int),
                        Value::num(self.block_tables.len() as int),
                        Value::num(self.block_table_stride as int),
                        Value::num(self.slot_mapping.len() as int),
                        Value::num(self.num_prefill_tokens as int),
                    ),
                ),
            )
        } else {
            None
        }
    }

    /// Elements of one query token.
    pub open spec fn q_width(&self) -> int {
        self.num_q_heads * self.head_dim
    }

    /// Elements of one cached position.
    pub open spec fn kv_width(&self) -> int {
        self.num_kv_heads * self.head_dim
    }

    /// Elements of all query tokens.
    pub open spec fn q_tokens(&self) -> int {
        self.num_prefill_tokens * self.q_width()
    }

    /// Positions that the cache holds.
    pub open spec fn physical_slots(&self) -> int {
        self.k_cache.len() as int / self.kv_width()
    }

    /// Splits of split-K attention.
    pub open spec fn splits(&self) -> int {
        super::split_count(self.max_k as int, FLASH_SPLIT_K_TOKENS as int)
    }

    /// Scratch rows of split-K attention: one per query slot, head and split.
    pub open spec fn scratch_rows(&self) -> int {
        runtime::blocks(self.num_prefill_tokens as int, FLASH_SPLIT_Q_BLOCK as int) * self.num_q_heads
            * self.splits() * FLASH_SPLIT_Q_BLOCK
    }

    /// What is wrong with the lengths of the request's buffers.
    pub open spec fn length_fault(&self) -> Option<AegisError> {
        let heads = self.num_q_heads as int;
        let kv_heads = self.num_kv_heads as int;
        let head_dim = self.head_dim as int;
        if self.q_width() > usize::MAX {
            Some(super::long_product("paged varlen q width", heads, head_dim))
        } else if self.kv_width() > usize::MAX {
            Some(super::long_product("paged varlen kv width", kv_heads, head_dim))
        } else if self.q_tokens() > usize::MAX {
            Some(
                super::long_product(
                    "paged varlen query tokens",
                    self.num_prefill_tokens as int,
                    self.q_width(),
                ),
            )
        } else if self.output.len() < self.q_tokens() || self.q.len() < self.q_tokens() {
            Some(AegisError::invalid("paged varlen prefill query/output shape mismatch"))
        } else if self.q_half matches Some(half) && half.len() < self.q_tokens() {
            Some(
                AegisError::invalid_with(
                    "paged varlen prefill q_half shape mismatch: required={} actual={}",
                    Values::Two(
                        Value::num(self.q_tokens()),
                        Value::num(self.q_half->Some_0.len() as int),
                    ),
                ),
            )
        } else if self.k_cache.len() as int % self.kv_width() != 0 || self.v_cache.len()
            != self.k_cache.len() || self.physical_slots() < self.max_k {
            Some(
                AegisError::invalid_with(
                    "paged varlen prefill kv cache too small or misaligned: max_k={} kv_width={} key_cache={} value_cache={}",
                    Values::Four(
                        Value::num(self.max_k as int),
                        Value::num(self.kv_width()),
                        Value::num(self.k_cache.len() as int),
                        Value::num(self.v_cache.len() as int),
                    ),
                ),
            )
        } else if heads % kv_heads != 0 {
            Some(
                AegisError::invalid(
                    "paged varlen attention heads must be divisible by kv heads",
                ),
            )
        } else if self.scratch_rows() > usize::MAX {
            Some(AegisError::invalid("split-K attention scratch overflow"))
        } else if self.scratch_rows() * head_dim > usize::MAX {
            Some(AegisError::invalid("split-K attention acc overflow"))
        } else {
            None
        }
    }

    /// A single sequence whose queries are at hand in half precision.
    pub open spec fn single_half(&self) -> bool {
        self.q_half is Some && self.num_sequences == 1 && self.head_dim <= 256
    }

    /// Half-precision queries in blocks of four.
    pub open spec fn block4(&self) -> bool {
        self.single_half() && self.num_prefill_tokens >= TILED_HALFQ_Q_BLOCK
    }

    /// The split-K scratch is there and large enough.
    pub open spec fn scratch_ready(&self) -> bool {
        match self.split_scratch {
            Some(scratch) => scratch.acc.len() >= self.scratch_rows() * self.head_dim
                && scratch.m.len() >= self.scratch_rows() && scratch.l.len()
                >= self.scratch_rows(),
            None => false,
        }
    }

    /// The fourth-generation flash kernel applies.
    pub open spec fn flash4(&self, backend: CudaAttentionBackend) -> bool {
        self.single_half() && self.head_dim == 128 && backend is FlashAttention4
    }

    /// The context is long enough for split-K, and everything for it is there.
    pub open spec fn split(&self, backend: CudaAttentionBackend) -> bool {
        self.block4() && !self.flash4(backend) && self.scratch_ready() && self.splits() > 1
            && self.max_k >= 4096
    }

    /// The grouped-query tensor-core kernel applies.
    pub open spec fn grouped(&self, backend: CudaAttentionBackend) -> bool {
        self.q_half is Some && backend is AegisVarlen && self.head_dim == 128 && self.num_q_heads
            / self.num_kv_heads >= PAGED_WMMA_GQA4_HEADS && self.num_prefill_tokens
            >= PAGED_WMMA_GQA4_Q_TOKENS
    }

    /// The request to the grouped-query kernel.
    pub open spec fn as_grouped(&self) -> PagedGroupedPrefill<'_> {
        PagedGroupedPrefill {
            key_cache: self.k_cache,
            value_cache: self.v_cache,
            query_half: self.q_half->Some_0,
            slot_mapping: self.slot_mapping,
            cu_q: self.cu_q,
            context_lens: self.context_lens,
            block_tables: self.block_tables,
            num_sequences: self.num_sequences,
            total_query_tokens: self.num_prefill_tokens,
            max_q: self.max_q,
            block_table_stride: self.block_table_stride,
            physical_slots: self.physical_slots() as usize,
            num_attention_heads: self.num_q_heads,
            num_kv_heads: self.num_kv_heads,
            output: self.output,
        }
    }

    /// What does not fit 32 bits.
    pub open spec fn word_fault(&self) -> Option<AegisError> {
        if self.num_sequences > u32::MAX {
            Some(super::wide("num_sequences", self.num_sequences as int))
        } else if self.num_prefill_tokens > u32::MAX {
            Some(super::wide("total_query_tokens", self.num_prefill_tokens as int))
        } else if self.num_q_heads > u32::MAX {
            Some(super::wide("num_attention_heads", self.num_q_heads as int))
        } else if self.num_kv_heads > u32::MAX {
            Some(super::wide("num_kv_heads", self.num_kv_heads as int))
        } else if self.head_dim > u32::MAX {
            Some(super::wide("head_dim", self.head_dim as int))
        } else if self.splits() > u32::MAX {
            Some(super::wide("split_count", self.splits()))
        } else if self.block_table_stride > u32::MAX {
            Some(super::wide("block_table_stride", self.block_table_stride as int))
        } else if self.physical_slots() > u32::MAX {
            Some(super::wide("physical_slots", self.physical_slots()))
        } else {
            None
        }
    }

    /// Single-precision slots of shared memory.
    pub open spec fn shared_floats(&self, backend: CudaAttentionBackend) -> int {
        if self.flash4(backend) {
            FA4_HDIM128_Q_BLOCK * FA4_HDIM128_K_TILE * 5 + 2 * FA4_HDIM128_Q_BLOCK * self.head_dim
                + FA4_HDIM128_K_TILE * self.head_dim * 2 + FA4_HDIM128_Q_BLOCK * 4
                + FA4_HDIM128_K_TILE
        } else if self.block4() {
            TILED_HALFQ_Q_BLOCK * 4 + (TILED_HALFQ_Q_BLOCK * 2 + 2) * self.head_dim
                + TILED_HALFQ_Q_BLOCK * 4
        } else if self.q_half is Some {
            128 + self.head_dim + 4 + self.head_dim
        } else {
            128 + self.head_dim + 4
        }
    }

    /// Query blocks of the grid.
    pub open spec fn grid_q(&self, backend: CudaAttentionBackend) -> int {
        if self.flash4(backend) {
            runtime::blocks(self.num_prefill_tokens as int, FA4_HDIM128_Q_BLOCK as int)
        } else if self.block4() {
            runtime::blocks(self.num_prefill_tokens as int, TILED_HALFQ_Q_BLOCK as int)
        } else {
            self.num_prefill_tokens as int
        }
    }

    /// The kernel of a launch without splits.
    pub open spec fn kernel(&self, backend: CudaAttentionBackend) -> Kernel {
        if self.q_half is None {
            Kernel::AttentionPrefillPagedVarlen
        } else if !self.block4() {
            Kernel::AttentionPrefillPagedVarlenHalfq
        } else if self.flash4(backend) {
            Kernel::AttentionPrefillPagedVarlenFa4Hdim128
        } else {
            Kernel::AttentionPrefillPagedVarlenHalfqBlock4
        }
    }

    /// The launches of a request that passed every check.
    pub open spec fn launches(&self, backend: CudaAttentionBackend) -> Seq<StepView> {
        let heads = self.num_q_heads as int;
        let grid_q = self.grid_q(backend);
        let shared = self.shared_floats(backend) * 4;
        if self.split(backend) {
            seq![
                StepView::launching(
                    Kernel::AttentionPrefillPagedVarlenHalfqBlock4Split,
                    "launch split-K paged varlen prefill attention",
                    LaunchConfig::of(heads, grid_q, self.splits(), 128, shared),
                    seq![
                        Arg::Buffer(Operand::KeyCache),
                        Arg::Buffer(Operand::ValueCache),
                        Arg::Buffer(Operand::QueryHalf),
                        Arg::Buffer(Operand::SlotMapping),
                        Arg::Buffer(Operand::CuQ),
                        Arg::Buffer(Operand::ContextLens),
                        Arg::Buffer(Operand::BlockTables),
                        Arg::word(self.num_sequences as int),
                        Arg::word(self.num_prefill_tokens as int),
                        Arg::word(heads),
                        Arg::word(self.num_kv_heads as int),
                        Arg::word(self.head_dim as int),
                        Arg::word(FLASH_COMPAT_PAGE_TOKENS as int),
                        Arg::word(FLASH_SPLIT_K_TOKENS as int),
                        Arg::word(self.splits()),
                        Arg::word(self.block_table_stride as int),
                        Arg::word(self.physical_slots()),
                        Arg::Buffer(Operand::SplitAcc),
                        Arg::Buffer(Operand::SplitM),
                        Arg::Buffer(Operand::SplitL),
                    ],
                ),
                StepView::launching(
                    Kernel::AttentionPrefillPagedVarlenHalfqBlock4Combine,
                    "launch combine split-K paged varlen prefill attention",
                    LaunchConfig::of(
                        heads,
                        grid_q,
                        1,
                        128,
                        (FLASH_SPLIT_Q_BLOCK * self.head_dim + FLASH_SPLIT_Q_BLOCK * 4) * 4,
                    ),
                    seq![
                        Arg::Buffer(Operand::SplitAcc),
                        Arg::Buffer(Operand::SplitM),
                        Arg::Buffer(Operand::SplitL),
                        Arg::word(self.num_prefill_tokens as int),
                        Arg::word(heads),
                        Arg::word(self.head_dim as int),
                        Arg::word(self.splits()),
                        Arg::Buffer(Operand::Output),
                    ],
                ),
            ]
        } else {
            seq![
                StepView::launching(
                    self.kernel(backend),
                    "launch paged varlen prefill attention",
                    LaunchConfig::of(heads, grid_q, 1, 128, shared),
                    seq![
                        Arg::Buffer(Operand::KeyCache),
                        Arg::Buffer(Operand::ValueCache),
                        Arg::Buffer(
                            if self.q_half is Some {
                                Operand::QueryHalf
                            } else {
                                Operand::Query
                            },
                        ),
                        Arg::Buffer(Operand::SlotMapping),
                        Arg::Buffer(Operand::CuQ),
                        Arg::Buffer(Operand::ContextLens),
                        Arg::Buffer(Operand::BlockTables),
                        Arg::word(self.num_sequences as int),
                        Arg::word(self.num_prefill_tokens as int),
                        Arg::word(heads),
                        Arg::word(self.num_kv_heads as int),
                        Arg::word(self.head_dim as int),
                        Arg::word(FLASH_COMPAT_PAGE_TOKENS as int),
                        Arg::word(self.block_table_stride as int),
                        Arg::word(self.physical_slots()),
                        Arg::Buffer(Operand::Output),
                    ],
                ),
            ]
        }
    }

    /// The request as a whole, on the runtime `rt`.
    pub open spec fn steps(&self, rt: CudaRuntime) -> Result<Seq<StepView>, AegisError> {
        match self.metadata_fault() {
            Some(error) => Err(error),
            None => match prefill_backend(rt, self.max_k as int) {
                Err(error) => Err(error),
                Ok(backend) => self.backend_steps(backend),
            },
        }
    }

    /// The request as a whole, once its implementation is known.
    pub open spec fn backend_steps(&self, backend: CudaAttentionBackend) -> Result<
        Seq<StepView>,
        AegisError,
    > {
        let shared = self.shared_floats(backend) * 4;
        if !(backend is AegisVarlen || backend is FlashAttention4) {
            Err(
                AegisError::invalid_with(
                    "paged attention ABI was invoked for backend {}; expected aegis-varlen or fa4",
                    Values::One(Value::Label(backend.spec_canonical_name())),
                ),
            )
        } else if self.length_fault() is Some {
            Err(self.length_fault()->Some_0)
        } else if backend is FlashAttention4 && !self.flash4(backend) {
            Err(
                AegisError::unsupported_with(
                    "cuda.prefill-attention=fa4 currently supports only single-sequence causal prefill with q_half, paged f16 KV cache, head_dim=128, and no decode tokens; got seqs={} prefill={} decode={} head_dim={} q_half={}",
                    Values::Five(
                        Value::num(self.num_sequences as int),
                        Value::num(self.num_prefill_tokens as int),
                        Value::num(self.num_decode_tokens as int),
                        Value::num(self.head_dim as int),
                        Value::Flag(self.q_half is Some),
                    ),
                ),
            )
        } else if self.grouped(backend) && !self.split(backend) {
            self.as_grouped().steps()
        } else if self.word_fault() is Some {
            Err(self.word_fault()->Some_0)
        } else if shared > SHARED_BYTES_LIMIT {
            Err(super::shared_excess("prefill_paged_varlen", shared))
        } else {
            Ok(self.launches(backend))
        }
    }
}

impl CudaAttentionRequest<'_> {
    /// Checks the dimensions and the metadata.
    fn check_metadata(&self) -> (checked: Result<(), AegisError>)
        ensures
            match checked {
                Ok(_) => self.metadata_fault() is None,
                Err(error) => self.metadata_fault() == Some(error),
            },
    {
        if !self.causal {
            return Err(
                unsupported_plan(
                    "CUDA prefill attention ABI currently requires causal=true",
                    Values::Zero,
                ),
            );
        }
        if self.num_kv_heads == 0 || self.num_q_heads == 0 || self.head_dim == 0 {
            return Err(
                invalid_plan(
                    "paged varlen prefill dimensions must be non-zero: q_heads={} kv_heads={} head_dim={}",
                    Values::Three(
                        number(self.num_q_heads),
                        number(self.num_kv_heads),
                        number(self.head_dim),
                    ),
                ),
            );
        }
        if self.num_sequences == 0 || self.max_q == 0 || self.max_k == 0 {
            return Err(
                invalid_plan(
                    "paged varlen prefill requires non-empty metadata: seqs={} max_q={} max_k={}",
                    Values::Three(number(self.num_sequences), number(self.max_q), number(self.max_k)),
                ),
            );
        }
        if self.num_prefill_tokens == 0 {
            return Err(
                invalid_plan(
                    "paged varlen prefill requires at least one prefill query token; decode-only attention needs the decode ABI",
                    Values::Zero,
                ),
            );
        }
        if self.num_decode_tokens > 0 {
            return Err(
                unsupported_plan(
                    "paged varlen mixed prefill+decode is not implemented yet: prefill_tokens={} decode_tokens={}; scheduler descriptors can express mixed batches, but Aegis kernels currently execute prefill rows only",
                    Values::Two(number(self.num_prefill_tokens), number(self.num_decode_tokens)),
                ),
            );
        }
        let pages: usize = split_count_of(self.max_k, FLASH_COMPAT_PAGE_TOKENS);
        if self.block_table_stride < pages {
            return Err(
                invalid_plan(
                    "paged varlen prefill block table stride too small: stride={} required={} max_k={} page_tokens={}",
                    Values::Four(
                        number(self.block_table_stride),
                        number(pages),
                        number(self.max_k),
                        number(FLASH_COMPAT_PAGE_TOKENS),
                    ),
                ),
            );
        }
        if self.cu_q.len() <= self.num_sequences || self.cu_k.len() <= self.num_sequences
            || self.context_lens.len() < self.num_sequences || self.block_tables.len()
            < saturating_entries(self.num_sequences, self.block_table_stride)
            || self.slot_mapping.len() < self.num_prefill_tokens {
            return Err(
                invalid_plan(
                    "paged varlen prefill metadata too small: seqs={} cu_q={} cu_k={} context_lens={} block_tables={} stride={} slots={} tokens={}",
                    Values::Eight(
                        number(self.num_sequences),
                        number(self.cu_q.len()),
                        number(self.cu_k.len()),
                        number(self.context_lens.len()),
                        number(self.block_tables.len()),
                        number(self.block_table_stride),
                        number(self.slot_mapping.len()),
                        number(self.num_prefill_tokens),
                    ),
                ),
            );
        }
        Ok(())
    }

    /// Checks the lengths of the buffers; returns the rows of split-K scratch.
    fn check_lengths(&self) -> (checked: Result<usize, AegisError>)
        requires
            self.metadata_fault() is None,
        ensures
            match checked {
                Ok(rows) => self.length_fault() is None && rows == self.scratch_rows(),
                Err(error) => self.length_fault() == Some(error),
            },
    {
        let q_width: usize = checked_len("paged varlen q width", self.num_q_heads, self.head_dim)?;
        let kv_width: usize = checked_len("paged varlen kv width", self.num_kv_heads, self.head_dim)?;
        let q_tokens: usize = checked_len(
            "paged varlen query tokens",
            self.num_prefill_tokens,
            q_width,
        )?;
        if self.output.len() < q_tokens || self.q.len() < q_tokens {
            return Err(
                invalid_plan("paged varlen prefill query/output shape mismatch", Values::Zero),
            );
        }
        if let Some(half) = self.q_half {
            if half.len() < q_tokens {
                return Err(
                    invalid_plan(
                        "paged varlen prefill q_half shape mismatch: required={} actual={}",
                        Values::Two(number(q_tokens), number(half.len())),
                    ),
                );
            }
        }
        proof {
            vstd::arithmetic::mul::lemma_mul_strictly_positive(
                self.num_kv_heads as int,
                self.head_dim as int,
            );
        }
        if self.k_cache.len() % kv_width != 0 || self.v_cache.len() != self.k_cache.len()
            || self.k_cache.len() / kv_width < self.max_k {
            return Err(
                invalid_plan(
                    "paged varlen prefill kv cache too small or misaligned: max_k={} kv_width={} key_cache={} value_cache={}",
                    Values::Four(
                        number(self.max_k),
                        number(kv_width),
                        number(self.k_cache.len()),
                        number(self.v_cache.len()),
                    ),
                ),
            );
        }
        if self.num_q_heads % self.num_kv_heads != 0 {
            return Err(
                invalid_plan(
                    "paged varlen attention heads must be divisible by kv heads",
                    Values::Zero,
                ),
            );
        }
        let q_blocks: usize = div_ceil(self.num_prefill_tokens, FLASH_SPLIT_Q_BLOCK);
        let splits: usize = split_count_of(self.max_k, FLASH_SPLIT_K_TOKENS);
        let ghost rows_int = self.scratch_rows();
        let by_head: usize = match q_blocks.checked_mul(self.num_q_heads) {
            Some(value) => value,
            None => {
                assert(rows_int > usize::MAX) by (nonlinear_arith)
                    requires
                        rows_int == q_blocks * self.num_q_heads * splits * 4,
                        q_blocks * self.num_q_heads > usize::MAX,
                        splits >= 1,
                ;
                return Err(invalid_plan("split-K attention scratch overflow", Values::Zero));
            },
        };
        let by_split: usize = match by_head.checked_mul(splits) {
            Some(value) => value,
            None => {
                return Err(invalid_plan("split-K attention scratch overflow", Values::Zero));
            },
        };
        let rows: usize = match by_split.checked_mul(FLASH_SPLIT_Q_BLOCK) {
            Some(value) => value,
            None => {
                return Err(invalid_plan("split-K attention scratch overflow", Values::Zero));
            },
        };
        match rows.checked_mul(self.head_dim) {
            Some(_) => Ok(rows),
            None => Err(invalid_plan("split-K attention acc overflow", Values::Zero)),
        }
    }

    /// Whether the split-K scratch is there and large enough.
    fn has_scratch(&self, rows: usize) -> (ready: bool)
        requires
            self.length_fault() is None,
            rows == self.scratch_rows(),
        ensures
            ready == self.scratch_ready(),
    {
        match &self.split_scratch {
            Some(scratch) => scratch.acc.len() >= rows * self.head_dim && scratch.m.len() >= rows
                && scratch.l.len() >= rows,
            None => false,
        }
    }

    /// Plans the launches of a request that no other kernel serves.
    fn plan_launches(&self, backend: CudaAttentionBackend, split: bool) -> (plan: Result<
        Plan,
        AegisError,
    >)
        requires
            self.metadata_fault() is None,
            self.length_fault() is None,
            backend is FlashAttention4 ==> self.flash4(backend),
            split == self.split(backend),
        ensures
            Plan::outcome(plan) =~~= (if self.word_fault() is Some {
                Err(self.word_fault()->Some_0)
            } else if self.shared_floats(backend) * 4 > SHARED_BYTES_LIMIT {
                Err(
                    super::shared_excess(
                        "prefill_paged_varlen",
                        self.shared_floats(backend) * 4,
                    ),
                )
            } else {
                Ok(self.launches(backend))
            }),
    {
        let flash4 = self.q_half.is_some() && self.num_sequences == 1 && self.head_dim == 128
            && matches!(backend, CudaAttentionBackend::FlashAttention4);
        let block4 = self.q_half.is_some() && self.num_sequences == 1 && self.head_dim <= 256
            && self.num_prefill_tokens >= TILED_HALFQ_Q_BLOCK;
        let sequences: u32 = u32_arg("num_sequences", self.num_sequences)?;
        let total_q: u32 = u32_arg("total_query_tokens", self.num_prefill_tokens)?;
        let heads: u32 = u32_arg("num_attention_heads", self.num_q_heads)?;
        let kv_heads: u32 = u32_arg("num_kv_heads", self.num_kv_heads)?;
        let head_dim: u32 = u32_arg("head_dim", self.head_dim)?;
        let page_tokens: u32 = u32_arg("page_tokens", FLASH_COMPAT_PAGE_TOKENS)?;
        let split_tokens: u32 = u32_arg("split_tokens", FLASH_SPLIT_K_TOKENS)?;
        let splits: u32 = u32_arg("split_count", split_count_of(self.max_k, FLASH_SPLIT_K_TOKENS))?;
        let stride: u32 = u32_arg("block_table_stride", self.block_table_stride)?;
        proof {
            vstd::arithmetic::mul::lemma_mul_strictly_positive(
                self.num_kv_heads as int,
                self.head_dim as int,
            );
        }
        let kv_width: usize = self.num_kv_heads * self.head_dim;
        let slots: u32 = u32_arg("physical_slots", self.k_cache.len() / kv_width)?;
        let dim: u64 = head_dim as u64;
        let shared_floats: u64 = if flash4 {
            FA4_HDIM128_Q_BLOCK as u64 * FA4_HDIM128_K_TILE as u64 * 5 + 2
                * FA4_HDIM128_Q_BLOCK as u64 * dim + FA4_HDIM128_K_TILE as u64 * dim * 2
                + FA4_HDIM128_Q_BLOCK as u64 * 4 + FA4_HDIM128_K_TILE as u64
        } else if block4 {
            TILED_HALFQ_Q_BLOCK as u64 * 4 + (TILED_HALFQ_Q_BLOCK as u64 * 2 + 2) * dim
                + TILED_HALFQ_Q_BLOCK as u64 * 4
        } else if self.q_half.is_some() {
            128 + dim + 4 + dim
        } else {
            128 + dim + 4
        };
        let grid_q: u32 = if flash4 {
            runtime::ceil_div(total_q, FA4_HDIM128_Q_BLOCK as u32)
        } else if block4 {
            runtime::ceil_div(total_q, TILED_HALFQ_Q_BLOCK as u32)
        } else {
            total_q
        };
        let shared_mem_bytes: u32 = validate_dynamic_shared_bytes(
            "prefill_paged_varlen",
            shared_floats * 4,
        )?;
        if split {
            let first = Launch::new(
                Kernel::AttentionPrefillPagedVarlenHalfqBlock4Split,
                "launch split-K paged varlen prefill attention",
                LaunchConfig {
                    grid_dim: (heads, grid_q, splits),
                    block_dim: (128, 1, 1),
                    shared_mem_bytes,
                },
                vec![
                    Arg::Buffer(Operand::KeyCache),
                    Arg::Buffer(Operand::ValueCache),
                    Arg::Buffer(Operand::QueryHalf),
                    Arg::Buffer(Operand::SlotMapping),
                    Arg::Buffer(Operand::CuQ),
                    Arg::Buffer(Operand::ContextLens),
                    Arg::Buffer(Operand::BlockTables),
                    Arg::U32(sequences),
                    Arg::U32(total_q),
                    Arg::U32(heads),
                    Arg::U32(kv_heads),
                    Arg::U32(head_dim),
                    Arg::U32(page_tokens),
                    Arg::U32(split_tokens),
                    Arg::U32(splits),
                    Arg::U32(stride),
                    Arg::U32(slots),
                    Arg::Buffer(Operand::SplitAcc),
                    Arg::Buffer(Operand::SplitM),
                    Arg::Buffer(Operand::SplitL),
                ],
            );
            let second = Launch::new(
                Kernel::AttentionPrefillPagedVarlenHalfqBlock4Combine,
                "launch combine split-K paged varlen prefill attention",
                LaunchConfig {
                    grid_dim: (heads, grid_q, 1),
                    block_dim: (128, 1, 1),
                    shared_mem_bytes: (FLASH_SPLIT_Q_BLOCK as u32 * head_dim
                        + FLASH_SPLIT_Q_BLOCK as u32 * 4) * 4,
                },
                vec![
                    Arg::Buffer(Operand::SplitAcc),
                    Arg::Buffer(Operand::SplitM),
                    Arg::Buffer(Operand::SplitL),
                    Arg::U32(total_q),
                    Arg::U32(heads),
                    Arg::U32(head_dim),
                    Arg::U32(splits),
                    Arg::Buffer(Operand::Output),
                ],
            );
            return Ok(Plan::launch_both(first, second));
        }
        let kernel = if self.q_half.is_none() {
            Kernel::AttentionPrefillPagedVarlen
        } else if !block4 {
            Kernel::AttentionPrefillPagedVarlenHalfq
        } else if flash4 {
            Kernel::AttentionPrefillPagedVarlenFa4Hdim128
        } else {
            Kernel::AttentionPrefillPagedVarlenHalfqBlock4
        };
        let query = if self.q_half.is_some() {
            Operand::QueryHalf
        } else {
            Operand::Query
        };
        Ok(
            Plan::launch(
                kernel,
                "launch paged varlen prefill attention",
                LaunchConfig {
                    grid_dim: (heads, grid_q, 1),
                    block_dim: (128, 1, 1),
                    shared_mem_bytes,
                },
                vec![
                    Arg::Buffer(Operand::KeyCache),
                    Arg::Buffer(Operand::ValueCache),
                    Arg::Buffer(query),
                    Arg::Buffer(Operand::SlotMapping),
                    Arg::Buffer(Operand::CuQ),
                    Arg::Buffer(Operand::ContextLens),
                    Arg::Buffer(Operand::BlockTables),
                    Arg::U32(sequences),
                    Arg::U32(total_q),
                    Arg::U32(heads),
                    Arg::U32(kv_heads),
                    Arg::U32(head_dim),
                    Arg::U32(page_tokens),
                    Arg::U32(stride),
                    Arg::U32(slots),
                    Arg::Buffer(Operand::Output),
                ],
            ),
        )
    }
}

impl CudaRuntime {
    /// Prefill attention over a paged cache. The settings that get this far never
    /// ask for the warp kernel: it serves the unpaged cache only.
    pub fn attention_prefill_request_device(&self, request: &CudaAttentionRequest<'_>) -> (plan: Result<
        Plan,
        AegisError,
    >)
        ensures
            Plan::outcome(plan) == request.steps(*self),
    {
        request.check_metadata()?;
        let backend = self.select_prefill_attention_backend(request.max_k)?;
        if !matches!(
            backend,
            CudaAttentionBackend::AegisVarlen | CudaAttentionBackend::FlashAttention4
        ) {
            return Err(
                invalid_plan(
                    "paged attention ABI was invoked for backend {}; expected aegis-varlen or fa4",
                    Values::One(Value::Label(backend.canonical_name())),
                ),
            );
        }
        let rows: usize = request.check_lengths()?;
        let scratch_ready = request.has_scratch(rows);
        let single_half = request.q_half.is_some() && request.num_sequences == 1 && request.head_dim
            <= 256;
        let flash4 = single_half && request.head_dim == 128 && matches!(
            backend,
            CudaAttentionBackend::FlashAttention4
        );
        if matches!(backend, CudaAttentionBackend::FlashAttention4) && !flash4 {
            return Err(
                unsupported_plan(
                    "cuda.prefill-attention=fa4 currently supports only single-sequence causal prefill with q_half, paged f16 KV cache, head_dim=128, and no decode tokens; got seqs={} prefill={} decode={} head_dim={} q_half={}",
                    Values::Five(
                        number(request.num_sequences),
                        number(request.num_prefill_tokens),
                        number(request.num_decode_tokens),
                        number(request.head_dim),
                        Value::Flag(request.q_half.is_some()),
                    ),
                ),
            );
        }
        let splits: usize = split_count_of(request.max_k, FLASH_SPLIT_K_TOKENS);
        let split = single_half && request.num_prefill_tokens >= TILED_HALFQ_Q_BLOCK && !flash4
            && scratch_ready && splits > 1 && request.max_k >= 4096;
        let group: usize = request.num_q_heads / request.num_kv_heads;
        if let Some(query_half) = request.q_half {
            let grouped = matches!(backend, CudaAttentionBackend::AegisVarlen) && request.head_dim
                == 128 && group >= PAGED_WMMA_GQA4_HEADS && request.num_prefill_tokens
                >= PAGED_WMMA_GQA4_Q_TOKENS;
            if grouped && !split {
                proof {
                    vstd::arithmetic::mul::lemma_mul_strictly_positive(
                        request.num_kv_heads as int,
                        request.head_dim as int,
                    );
                }
                let kv_width: usize = request.num_kv_heads * request.head_dim;
                let grouped_request = PagedGroupedPrefill {
                    key_cache: request.k_cache,
                    value_cache: request.v_cache,
                    query_half,
                    slot_mapping: request.slot_mapping,
                    cu_q: request.cu_q,
                    context_lens: request.context_lens,
                    block_tables: request.block_tables,
                    num_sequences: request.num_sequences,
                    total_query_tokens: request.num_prefill_tokens,
                    max_q: request.max_q,
                    block_table_stride: request.block_table_stride,
                    physical_slots: request.k_cache.len() / kv_width,
                    num_attention_heads: request.num_q_heads,
                    num_kv_heads: request.num_kv_heads,
                    output: request.output,
                };
                assert(grouped_request == request.as_grouped());
                return self.attention_prefill_paged_varlen_halfq_wmma_hdim128_gqa4_device(
                    &grouped_request,
                );
            }
        }
        request.plan_launches(backend, split)
    }
}

} // verus!
