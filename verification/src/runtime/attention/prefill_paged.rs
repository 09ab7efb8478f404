//! Prefill attention over a paged cache, with tensor cores and grouped queries.
use super::{
    checked_len, u32_arg, DENSE_WMMA_K_TILE, FLASH_COMPAT_PAGE_TOKENS, PAGED_WMMA_GQA4_HEADS,
    PAGED_WMMA_GQA4_Q_TOKENS,
};
use crate::error::{invalid_plan, number, AegisError, Value, Values};
use crate::functions::Kernel;
use crate::launch::{Arg, LaunchConfig, Operand, Plan, Step, StepView};
use crate::runtime::{self, div_ceil, CudaRuntime};
use crate::types::{CudaAttentionRequest, CudaAttentionSplitScratch, DeviceBuffer, F32};
use vstd::prelude::*;

verus! {

/// A paged prefill whose heads share keys and values in groups of four or more.
pub struct PagedGroupedPrefill<'a> {
    pub key_cache: &'a DeviceBuffer<u16>,
    pub value_cache: &'a DeviceBuffer<u16>,
    pub query_half: &'a DeviceBuffer<u16>,
    pub slot_mapping: &'a DeviceBuffer<u32>,
    pub cu_q: &'a DeviceBuffer<u32>,
    pub context_lens: &'a DeviceBuffer<u32>,
    pub block_tables: &'a DeviceBuffer<u32>,
    pub num_sequences: usize,
    pub total_query_tokens: usize,
    pub max_q: usize,
    pub block_table_stride: usize,
    pub physical_slots: usize,
    pub num_attention_heads: usize,
    pub num_kv_heads: usize,
    pub output: &'a DeviceBuffer<F32>,
}

/// Entries that the block tables of all sequences need, held to what a length
/// can be.
pub open spec fn block_table_entries(sequences: int, stride: int) -> int {
    if sequences * stride > usize::MAX {
        usize::MAX as int
    } else {
        sequences * stride
    }
}

/// `sequences * stride`, or the longest length where that is more.
pub fn saturating_entries(sequences: usize, stride: usize) -> (entries: usize)
    ensures
        entries == block_table_entries(sequences as int, stride as int),
{
    match sequences.checked_mul(stride) {
        Some(entries) => entries,
        None => usize::MAX,
    }
}

/// Shared memory of the paged grouped-query kernel: queries, keys, values and
/// weights in half precision; scores, accumulators and statistics in single.
pub open spec fn paged_gqa4_shared_bytes() -> int {
    let rows = PAGED_WMMA_GQA4_Q_TOKENS * PAGED_WMMA_GQA4_HEADS;
    let stride = DENSE_WMMA_K_TILE + 8;
    (rows * 128 + 2 * DENSE_WMMA_K_TILE * 128 + rows * stride) * 2 + (rows * stride + rows * (128 + 8)
        + rows * 3) * 4
}

impl PagedGroupedPrefill<'_> {
    /// What is wrong with the request before anything is issued.
    pub open spec fn fault(&self) -> Option<AegisError> {
        let heads = self.num_attention_heads as int;
        let kv_heads = self.num_kv_heads as int;
        let q_width = heads * 128;
        let q_tokens = self.total_query_tokens * q_width;
        let kv_width = kv_heads * 128;
        let cache_len = self.physical_slots * kv_width;
        if kv_heads == 0 || heads % kv_heads != 0 {
            Some(AegisError::invalid("paged gqa4 wmma attention heads must be divisible by kv heads"))
        } else if heads / kv_heads < PAGED_WMMA_GQA4_HEADS {
            Some(
                AegisError::invalid_with(
                    "paged gqa4 wmma attention requires GQA group >= {}, got {}",
                    Values::Two(
                        Value::num(PAGED_WMMA_GQA4_HEADS as int),
                        Value::num(heads / kv_heads),
                    ),
                ),
            )
        } else if q_width > usize::MAX {
            Some(super::long_product("paged gqa4 wmma q width", heads, 128))
        } else if q_tokens > usize::MAX {
            Some(
                super::long_product(
                    "paged gqa4 wmma query tokens",
                    self.total_query_tokens as int,
                    q_width,
                ),
            )
        } else if self.query_half.len() < q_tokens || self.output.len() < q_tokens {
            Some(
                AegisError::invalid_with(
                    "paged gqa4 wmma attention q/output shape mismatch: query_half={} output={} required={}",
                    Values::Three(
                        Value::num(self.query_half.len() as int),
                        Value::num(self.output.len() as int),
                        Value::num(q_tokens),
                    ),
                ),
            )
        } else if kv_width > usize::MAX {
            Some(super::long_product("paged gqa4 wmma kv width", kv_heads, 128))
        } else if cache_len > usize::MAX {
            Some(super::long_product("paged gqa4 wmma kv cache", self.physical_slots as int, kv_width))
        } else if self.key_cache.len() < cache_len || self.value_cache.len() < cache_len {
            Some(
                AegisError::invalid_with(
                    "paged gqa4 wmma attention kv cache shape mismatch: key_cache={} value_cache={} required={}",
                    Values::Three(
                        Value::num(self.key_cache.len() as int),
                        Value::num(self.value_cache.len() as int),
                        Value::num(cache_len),
                    ),
                ),
            )
        } else if self.slot_mapping.len() < self.total_query_tokens || self.cu_q.len()
            < self.num_sequences + 1 || self.context_lens.len() < self.num_sequences
            || self.block_tables.len() < block_table_entries(
            self.num_sequences as int,
            self.block_table_stride as int,
        ) {
            Some(
                AegisError::invalid_with(
                    "paged gqa4 wmma metadata too small: seqs={} slots={} cu_q={} context_lens={} block_tables={} stride={} total_q={}",
                    Values::Seven(
                        Value::num(self.num_sequences as int),
                        Value::num(self.slot_mapping.len() as int),
                        Value::num(self.cu_q.len() as int),
                        Value::num(self.context_lens.len() as int),
                        Value::num(self.block_tables.len() as int),
                        Value::num(self.block_table_stride as int),
                        Value::num(self.total_query_tokens as int),
                    ),
                ),
            )
        } else {
            None
        }
    }

    /// The launch, once the kernel's shared-memory limit is raised: a block for
    /// every four query heads of a group, eight tokens and one sequence.
    pub open spec fn launch_steps(&self) -> Result<Seq<StepView>, AegisError> {
        let heads = self.num_attention_heads as int;
        let kv_heads = self.num_kv_heads as int;
        let head_blocks = kv_heads * runtime::blocks(heads / kv_heads, PAGED_WMMA_GQA4_HEADS as int);
        let q_blocks = runtime::blocks(self.max_q as int, PAGED_WMMA_GQA4_Q_TOKENS as int);
        if head_blocks > u32::MAX {
            Err(super::wide("paged gqa4 wmma kv/group blocks", head_blocks))
        } else if q_blocks > u32::MAX {
            Err(super::wide("paged gqa4 wmma q blocks", q_blocks))
        } else if self.num_sequences > u32::MAX {
            Err(super::wide("paged gqa4 wmma sequences", self.num_sequences as int))
        } else if self.total_query_tokens > u32::MAX {
            Err(super::wide("total_query_tokens", self.total_query_tokens as int))
        } else if heads > u32::MAX {
            Err(super::wide("num_attention_heads", heads))
        } else if kv_heads > u32::MAX {
            Err(super::wide("num_kv_heads", kv_heads))
        } else if self.block_table_stride > u32::MAX {
            Err(super::wide("block_table_stride", self.block_table_stride as int))
        } else if self.physical_slots > u32::MAX {
            Err(super::wide("physical_slots", self.physical_slots as int))
        } else {
            Ok(
                seq![
                    StepView::launching(
                        Kernel::AttentionPrefillPagedVarlenHalfqWmmaHdim128Gqa4,
                        "launch paged gqa4 halfq wmma prefill attention",
                        LaunchConfig::of(
                            head_blocks,
                            q_blocks,
                            self.num_sequences as int,
                            256,
                            paged_gqa4_shared_bytes(),
                        ),
                        seq![
                            Arg::Buffer(Operand::KeyCache),
                            Arg::Buffer(Operand::ValueCache),
                            Arg::Buffer(Operand::QueryHalf),
                            Arg::Buffer(Operand::SlotMapping),
                            Arg::Buffer(Operand::CuQ),
                            Arg::Buffer(Operand::ContextLens),
                            Arg::Buffer(Operand::BlockTables),
                            Arg::word(self.num_sequences as int),
                            Arg::word(self.total_query_tokens as int),
                            Arg::word(heads),
                            Arg::word(kv_heads),
                            Arg::word(128),
                            Arg::word(FLASH_COMPAT_PAGE_TOKENS as int),
                            Arg::word(self.block_table_stride as int),
                            Arg::word(self.physical_slots as int),
                            Arg::Buffer(Operand::Output),
                        ],
                    ),
                ],
            )
        }
    }

    /// The request as a whole.
    pub open spec fn steps(&self) -> Result<Seq<StepView>, AegisError> {
        match self.fault() {
            Some(error) => Err(error),
            None => Ok(
                Plan::spec_then(
                    seq![
                        StepView::RaiseSharedLimit {
                            kernel: Kernel::AttentionPrefillPagedVarlenHalfqWmmaHdim128Gqa4,
                            bytes: paged_gqa4_shared_bytes() as i32,
                            stage: "set paged gqa4 padded wmma max dynamic shared memory",
                        },
                    ],
                    self.launch_steps(),
                ),
            ),
        }
    }

    /// Checks the request.
    fn check(&self) -> (checked: Result<(), AegisError>)
        ensures
            match checked {
                Ok(_) => self.fault() is None,
                Err(error) => self.fault() == Some(error),
            },
    {
        let heads: usize = self.num_attention_heads;
        let kv_heads: usize = self.num_kv_heads;
        if kv_heads == 0 || heads % kv_heads != 0 {
            return Err(
                invalid_plan(
                    "paged gqa4 wmma attention heads must be divisible by kv heads",
                    Values::Zero,
                ),
            );
        }
        let group: usize = heads / kv_heads;
        if group < PAGED_WMMA_GQA4_HEADS {
            return Err(
                invalid_plan(
                    "paged gqa4 wmma attention requires GQA group >= {}, got {}",
                    Values::Two(number(PAGED_WMMA_GQA4_HEADS), number(group)),
                ),
            );
        }
        let q_width: usize = checked_len("paged gqa4 wmma q width", heads, 128)?;
        let q_tokens: usize = checked_len(
            "paged gqa4 wmma query tokens",
            self.total_query_tokens,
            q_width,
        )?;
        if self.query_half.len() < q_tokens || self.output.len() < q_tokens {
            return Err(
                invalid_plan(
                    "paged gqa4 wmma attention q/output shape mismatch: query_half={} output={} required={}",
                    Values::Three(
                        number(self.query_half.len()),
                        number(self.output.len()),
                        number(q_tokens),
                    ),
                ),
            );
        }
        let kv_width: usize = checked_len("paged gqa4 wmma kv width", kv_heads, 128)?;
        let cache_len: usize = checked_len(
            "paged gqa4 wmma kv cache",
            self.physical_slots,
            kv_width,
        )?;
        if self.key_cache.len() < cache_len || self.value_cache.len() < cache_len {
            return Err(
                invalid_plan(
                    "paged gqa4 wmma attention kv cache shape mismatch: key_cache={} value_cache={} required={}",
                    Values::Three(
                        number(self.key_cache.len()),
                        number(self.value_cache.len()),
                        number(cache_len),
                    ),
                ),
            );
        }
        if self.slot_mapping.len() < self.total_query_tokens || self.cu_q.len()
            <= self.num_sequences || self.context_lens.len() < self.num_sequences || self.block_tables.len()
            < saturating_entries(self.num_sequences, self.block_table_stride) {
            return Err(
                invalid_plan(
                    "paged gqa4 wmma metadata too small: seqs={} slots={} cu_q={} context_lens={} block_tables={} stride={} total_q={}",
                    Values::Seven(
                        number(self.num_sequences),
                        number(self.slot_mapping.len()),
                        number(self.cu_q.len()),
                        number(self.context_lens.len()),
                        number(self.block_tables.len()),
                        number(self.block_table_stride),
                        number(self.total_query_tokens),
                    ),
                ),
            );
        }
        Ok(())
    }

    /// Plans the launch of a checked request.
    fn plan_launch(&self) -> (plan: Result<Plan, AegisError>)
        requires
            self.fault() is None,
        ensures
            Plan::outcome(plan) =~~= self.launch_steps(),
    {
        let group: usize = self.num_attention_heads / self.num_kv_heads;
        let group_tiles: usize = div_ceil(group, PAGED_WMMA_GQA4_HEADS);
        proof {
            super::lemma_group_blocks(
                self.num_attention_heads as int,
                self.num_kv_heads as int,
                group_tiles as int,
            );
        }
        let head_blocks: u32 = u32_arg(
            "paged gqa4 wmma kv/group blocks",
            checked_len("paged gqa4 wmma group blocks", self.num_kv_heads, group_tiles)?,
        )?;
        let q_blocks: u32 = u32_arg(
            "paged gqa4 wmma q blocks",
            div_ceil(self.max_q, PAGED_WMMA_GQA4_Q_TOKENS),
        )?;
        let sequences: u32 = u32_arg("paged gqa4 wmma sequences", self.num_sequences)?;
        let total_q: u32 = u32_arg("total_query_tokens", self.total_query_tokens)?;
        let heads: u32 = u32_arg("num_attention_heads", self.num_attention_heads)?;
        let kv_heads: u32 = u32_arg("num_kv_heads", self.num_kv_heads)?;
        let head_dim: u32 = u32_arg("head_dim", 128)?;
        let page_tokens: u32 = u32_arg("page_tokens", FLASH_COMPAT_PAGE_TOKENS)?;
        let stride: u32 = u32_arg("block_table_stride", self.block_table_stride)?;
        let slots: u32 = u32_arg("physical_slots", self.physical_slots)?;
        Ok(
            Plan::launch(
                Kernel::AttentionPrefillPagedVarlenHalfqWmmaHdim128Gqa4,
                "launch paged gqa4 halfq wmma prefill attention",
                LaunchConfig {
                    grid_dim: (head_blocks, q_blocks, sequences),
                    block_dim: (256, 1, 1),
                    shared_mem_bytes: 50048,
                },
                vec![
                    Arg::Buffer(Operand::KeyCache),
                    Arg::Buffer(Operand::ValueCache),
                    Arg::Buffer(Operand::QueryHalf),
                    Arg::Buffer(Operand::SlotMapping),
                    Arg::Buffer(Operand::CuQ),
                    Arg::Buffer(Operand::ContextLens),
                    Arg::Buffer(Operand::BlockTables),
                    Arg::U32(sequences),
                    Arg::U32(total_q),
                    Arg::U32(heads),
                    Arg::U32(kv_heads),
                    Arg::U32(head_dim),
                    Arg::U32(page_tokens),
                    Arg::U32(stride),
                    Arg::U32(slots),
                    Arg::Buffer(Operand::Output),
                ],
            ),
        )
    }
}

impl CudaRuntime {
    /// Paged prefill for head dimension 128 and groups of at least four query
    /// heads per key/value head.
    pub fn attention_prefill_paged_varlen_halfq_wmma_hdim128_gqa4_device(
        &self,
        request: &PagedGroupedPrefill<'_>,
    ) -> (plan: Result<Plan, AegisError>)
        ensures
            Plan::outcome(plan) == request.steps(),
    {
        request.check()?;
        let raise = Plan::of(
            Step::RaiseSharedLimit {
                kernel: Kernel::AttentionPrefillPagedVarlenHalfqWmmaHdim128Gqa4,
                bytes: 50048,
                stage: "set paged gqa4 padded wmma max dynamic shared memory",
            },
        );
        Ok(raise.then_outcome(request.plan_launch()))
    }

    /// Paged prefill with the parts of the request given one by one; attention is
    /// causal.
    pub fn attention_prefill_paged_varlen_device(
        &self,
        key_cache: &DeviceBuffer<u16>,
        value_cache: &DeviceBuffer<u16>,
        query: &DeviceBuffer<F32>,
        query_half: Option<&DeviceBuffer<u16>>,
        split_scratch: Option<(&DeviceBuffer<F32>, &DeviceBuffer<F32>, &DeviceBuffer<F32>)>,
        slot_mapping: &DeviceBuffer<u32>,
        cu_q: &DeviceBuffer<u32>,
        cu_k: &DeviceBuffer<u32>,
        context_lens: &DeviceBuffer<u32>,
        block_tables: &DeviceBuffer<u32>,
        num_sequences: usize,
        num_prefill_tokens: usize,
        num_decode_tokens: usize,
        max_q: usize,
        max_k: usize,
        block_table_stride: usize,
        num_attention_heads: usize,
        num_kv_heads: usize,
        head_dim: usize,
        output: &DeviceBuffer<F32>,
    ) -> (plan: Result<Plan, AegisError>)
        ensures
            Plan::outcome(plan) == (CudaAttentionRequest {
                q: query,
                q_half: query_half,
                k_cache: key_cache,
                v_cache: value_cache,
                cu_q,
                cu_k,
                context_lens,
                slot_mapping,
                block_tables,
                split_scratch: match split_scratch {
                    Some((acc, m, l)) => Some(CudaAttentionSplitScratch { acc, m, l }),
                    None => None,
                },
                output,
                num_sequences,
                num_prefill_tokens,
                num_decode_tokens,
                max_q,
                max_k,
                block_table_stride,
                head_dim,
                num_q_heads: num_attention_heads,
                num_kv_heads,
                causal: true,
            }).steps(*self),
    {
        let split_scratch = match split_scratch {
            Some((acc, m, l)) => Some(CudaAttentionSplitScratch { acc, m, l }),
            None => None,
        };
        let request = CudaAttentionRequest {
            q: query,
            q_half: query_half,
            k_cache: key_cache,
            v_cache: value_cache,
            cu_q,
            cu_k,
            context_lens,
            slot_mapping,
            block_tables,
            split_scratch,
            output,
            num_sequences,
            num_prefill_tokens,
            num_decode_tokens,
            max_q,
            max_k,
            block_table_stride,
            head_dim,
            num_q_heads: num_attention_heads,
            num_kv_heads,
            causal: true,
        };
        self.attention_prefill_request_device(&request)
    }
}

} // verus!
