//! Prefill attention over an unpaged cache.
use super::{
    checked_len, checked_sum, dense_wmma_cluster2_enabled, dense_wmma_legacy_enabled,
    dense_wmma_q32_enabled, dense_wmma_split_k_enabled, dense_wmma_split_scratch_ready,
    select_prefill_batched_kernel, split_count_of, u32_arg, validate_dynamic_shared_bytes,
    validate_dynamic_shared_bytes_with_cap, PrefillBatchedKernel, CUDA_ATTENTION_BLOCK_DIM,
    DENSE_WARP_TILE_K_TILE, DENSE_WARP_TILE_Q_BLOCK, DENSE_WMMA_FA_Q_BLOCK, DENSE_WMMA_GQA4_HEADS,
    DENSE_WMMA_GQA4_Q_TOKENS, DENSE_WMMA_GQA4_SPLIT_Q_TOKENS, DENSE_WMMA_K_TILE,
    DENSE_WMMA_Q32_BLOCK, DENSE_WMMA_Q_BLOCK, FLASH_COMPAT_PAGE_TOKENS, SHARED_BYTES_LIMIT,
    SHARED_BYTES_OPT_IN, TILED_HALFQ_Q_BLOCK,
};
use crate::config::{AttentionSwitches, CudaAttentionBackend, CudaPrefillAttentionKernel};
use crate::error::{invalid_plan, number, unsupported_plan, AegisError, Value, Values};
use crate::functions::Kernel;
use crate::launch::{Arg, Launch, LaunchConfig, Operand, Plan, Step, StepView};
use crate::runtime::{self, div_ceil, CudaRuntime};
use crate::types::{
    CudaAttentionRequest, CudaAttentionSplitScratch, DensePrefillMetadataProof, DeviceBuffer, F32,
};
use vstd::prelude::*;

verus! {

/// A dense prefill: `batch` half-precision queries from `start_position` on,
/// against a cache that may be a ring of fewer positions than the context has.
pub struct DensePrefill<'a> {
    pub key_cache: &'a DeviceBuffer<u16>,
    pub value_cache: &'a DeviceBuffer<u16>,
    pub query_half: &'a DeviceBuffer<u16>,
    pub start_position: usize,
    pub batch: usize,
    pub context_len: usize,
    pub num_attention_heads: usize,
    pub num_kv_heads: usize,
    pub head_dim: usize,
    pub output: &'a DeviceBuffer<F32>,
}

/// Scratch of dense split-K attention.
pub struct DenseScratch<'a> {
    pub acc: &'a DeviceBuffer<F32>,
    pub m: &'a DeviceBuffer<F32>,
    pub l: &'a DeviceBuffer<F32>,
}

/// The words of a dense kernel's messages.
#[derive(Clone, Copy)]
pub struct DenseTexts {
    pub q_width: &'static str,
    pub q_tokens: &'static str,
    pub kv_width: &'static str,
    pub kv_cache: &'static str,
    pub q_mismatch: &'static str,
    pub kv_mismatch: &'static str,
}

/// The arguments of a dense launch that fit 32 bits.
#[derive(Clone, Copy)]
pub struct DenseWords {
    pub start_position: u32,
    pub total_q: u32,
    pub context_len: u32,
    pub heads: u32,
    pub kv_heads: u32,
    pub head_dim: u32,
    pub cache_capacity: u32,
}

impl DensePrefill<'_> {
    /// Elements of one query token.
    pub open spec fn q_width(&self) -> int {
        self.num_attention_heads * self.head_dim
    }

    /// Elements of one cached position.
    pub open spec fn kv_width(&self) -> int {
        self.num_kv_heads * self.head_dim
    }

    /// Positions that the cache holds.
    pub open spec fn cache_capacity(&self) -> int {
        self.key_cache.len() as int / self.kv_width()
    }

    /// A cached position has elements, so that the cache has a capacity.
    pub open spec fn has_width(&self) -> bool {
        self.num_kv_heads > 0 && self.head_dim > 0
    }

    /// The lengths can be judged: either a cached position has elements, or something else is
    /// wrong before caches are divided into positions.
    pub open spec fn has_verdict(&self) -> bool {
        let q_tokens = self.batch * self.q_width();
        self.has_width() || self.key_cache.len() != self.value_cache.len() || self.q_width()
            > usize::MAX || q_tokens > usize::MAX || self.query_half.len() < q_tokens
            || self.output.len() < q_tokens
    }

    /// What is wrong with the lengths: queries and output hold every query token,
    /// and the two caches hold the same whole number of positions.
    pub open spec fn shape_fault(&self, texts: DenseTexts) -> Option<AegisError> {
        let q_tokens = self.batch * self.q_width();
        let cache_len = self.context_len * self.kv_width();
        let key = self.key_cache.len() as int;
        let value = self.value_cache.len() as int;
        if self.q_width() > usize::MAX {
            Some(
                super::long_product(
                    texts.q_width,
                    self.num_attention_heads as int,
                    self.head_dim as int,
                ),
            )
        } else if q_tokens > usize::MAX {
            Some(super::long_product(texts.q_tokens, self.batch as int, self.q_width()))
        } else if self.kv_width() > usize::MAX {
            Some(
                super::long_product(
                    texts.kv_width,
                    self.num_kv_heads as int,
                    self.head_dim as int,
                ),
            )
        } else if cache_len > usize::MAX {
            Some(super::long_product(texts.kv_cache, self.context_len as int, self.kv_width()))
        } else if self.query_half.len() < q_tokens || self.output.len() < q_tokens {
            Some(
                AegisError::invalid_with(
                    texts.q_mismatch,
                    Values::Three(
                        Value::num(self.query_half.len() as int),
                        Value::num(self.output.len() as int),
                        Value::num(q_tokens),
                    ),
                ),
            )
        } else if key != value || key % self.kv_width() != 0 || key == 0 {
            Some(
                AegisError::invalid_with(
                    texts.kv_mismatch,
                    Values::Three(Value::num(key), Value::num(value), Value::num(cache_len)),
                ),
            )
        } else {
            None
        }
    }

    /// What does not fit 32 bits.
    pub open spec fn word_fault(&self) -> Option<AegisError> {
        if self.start_position > u32::MAX {
            Some(super::wide("start_position", self.start_position as int))
        } else if self.batch > u32::MAX {
            Some(super::wide("total_query_tokens", self.batch as int))
        } else if self.context_len > u32::MAX {
            Some(super::wide("context_len", self.context_len as int))
        } else if self.num_attention_heads > u32::MAX {
            Some(super::wide("num_attention_heads", self.num_attention_heads as int))
        } else if self.num_kv_heads > u32::MAX {
            Some(super::wide("num_kv_heads", self.num_kv_heads as int))
        } else if self.head_dim > u32::MAX {
            Some(super::wide("head_dim", self.head_dim as int))
        } else if self.cache_capacity() > u32::MAX {
            Some(super::wide("cache_capacity", self.cache_capacity()))
        } else {
            None
        }
    }

    /// `words` are the arguments in 32 bits.
    pub open spec fn narrowed(&self, words: DenseWords) -> bool {
        &&& words.start_position == self.start_position
        &&& words.total_q == self.batch
        &&& words.context_len == self.context_len
        &&& words.heads == self.num_attention_heads
        &&& words.kv_heads == self.num_kv_heads
        &&& words.head_dim == self.head_dim
        &&& words.cache_capacity == self.cache_capacity()
    }

    /// The arguments that all dense kernels start with.
    pub open spec fn leading_args(&self) -> Seq<Arg> {
        seq![
            Arg::Buffer(Operand::KeyCache),
            Arg::Buffer(Operand::ValueCache),
            Arg::Buffer(Operand::QueryHalf),
            Arg::word(self.start_position as int),
            Arg::word(self.batch as int),
            Arg::word(self.context_len as int),
            Arg::word(self.num_attention_heads as int),
            Arg::word(self.num_kv_heads as int),
            Arg::word(self.head_dim as int),
            Arg::word(self.cache_capacity()),
        ]
    }

    /// Checks the lengths.
    fn check_shape(&self, texts: DenseTexts) -> (checked: Result<(), AegisError>)
        requires
            self.has_verdict(),
        ensures
            match checked {
                Ok(_) => self.shape_fault(texts) is None,
                Err(error) => self.shape_fault(texts) == Some(error),
            },
    {
        let q_width: usize = checked_len(texts.q_width, self.num_attention_heads, self.head_dim)?;
        let q_tokens: usize = checked_len(texts.q_tokens, self.batch, q_width)?;
        let kv_width: usize = checked_len(texts.kv_width, self.num_kv_heads, self.head_dim)?;
        let cache_len: usize = checked_len(texts.kv_cache, self.context_len, kv_width)?;
        if self.query_half.len() < q_tokens || self.output.len() < q_tokens {
            return Err(
                invalid_plan(
                    texts.q_mismatch,
                    Values::Three(
                        number(self.query_half.len()),
                        number(self.output.len()),
                        number(q_tokens),
                    ),
                ),
            );
        }
        proof {
            if self.has_width() {
                vstd::arithmetic::mul::lemma_mul_strictly_positive(
                    self.num_kv_heads as int,
                    self.head_dim as int,
                );
            }
        }
        if self.key_cache.len() != self.value_cache.len() || self.key_cache.len() % kv_width != 0
            || self.key_cache.is_empty() {
            return Err(
                invalid_plan(
                    texts.kv_mismatch,
                    Values::Three(
                        number(self.key_cache.len()),
                        number(self.value_cache.len()),
                        number(cache_len),
                    ),
                ),
            );
        }
        Ok(())
    }

    /// Narrows the arguments to 32 bits.
    fn words(&self) -> (words: Result<DenseWords, AegisError>)
        requires
            self.has_width(),
            self.kv_width() <= usize::MAX,
        ensures
            match words {
                Ok(words) => self.word_fault() is None && self.narrowed(words),
                Err(error) => self.word_fault() == Some(error),
            },
    {
        let start_position: u32 = u32_arg("start_position", self.start_position)?;
        let total_q: u32 = u32_arg("total_query_tokens", self.batch)?;
        let context_len: u32 = u32_arg("context_len", self.context_len)?;
        let heads: u32 = u32_arg("num_attention_heads", self.num_attention_heads)?;
        let kv_heads: u32 = u32_arg("num_kv_heads", self.num_kv_heads)?;
        let head_dim: u32 = u32_arg("head_dim", self.head_dim)?;
        proof {
            vstd::arithmetic::mul::lemma_mul_strictly_positive(
                self.num_kv_heads as int,
                self.head_dim as int,
            );
        }
        let cache_capacity: u32 = u32_arg(
            "cache_capacity",
            self.key_cache.len() / (self.num_kv_heads * self.head_dim),
        )?;
        Ok(
            DenseWords {
                start_position,
                total_q,
                context_len,
                heads,
                kv_heads,
                head_dim,
                cache_capacity,
            },
        )
    }
}

impl DenseTexts {
    /// The tiled half-precision kernel.
    pub open spec fn spec_block4() -> DenseTexts {
        DenseTexts {
            q_width: "dense halfq q width",
            q_tokens: "dense halfq q tokens",
            kv_width: "dense halfq kv width",
            kv_cache: "dense halfq kv cache",
            q_mismatch: "dense halfq attention q/output shape mismatch: query_half={} output={} required={}",
            kv_mismatch: "dense halfq attention kv cache shape mismatch: key_cache={} value_cache={} required={}",
        }
    }

    /// The tiled half-precision kernel.
    #[verifier::when_used_as_spec(spec_block4)]
    pub fn block4() -> (texts: DenseTexts)
        ensures
            texts == DenseTexts::spec_block4(),
    {
        DenseTexts {
            q_width: "dense halfq q width",
            q_tokens: "dense halfq q tokens",
            kv_width: "dense halfq kv width",
            kv_cache: "dense halfq kv cache",
            q_mismatch: "dense halfq attention q/output shape mismatch: query_half={} output={} required={}",
            kv_mismatch: "dense halfq attention kv cache shape mismatch: key_cache={} value_cache={} required={}",
        }
    }

    /// The warp-tile kernel.
    pub open spec fn spec_warp_tile() -> DenseTexts {
        DenseTexts {
            q_width: "dense warp-tile q width",
            q_tokens: "dense warp-tile q tokens",
            kv_width: "dense warp-tile kv width",
            kv_cache: "dense warp-tile kv cache",
            q_mismatch: "dense warp-tile attention q/output shape mismatch: query_half={} output={} required={}",
            kv_mismatch: "dense warp-tile attention kv cache shape mismatch: key_cache={} value_cache={} required={}",
        }
    }

    /// The warp-tile kernel.
    #[verifier::when_used_as_spec(spec_warp_tile)]
    pub fn warp_tile() -> (texts: DenseTexts)
        ensures
            texts == DenseTexts::spec_warp_tile(),
    {
        DenseTexts {
            q_width: "dense warp-tile q width",
            q_tokens: "dense warp-tile q tokens",
            kv_width: "dense warp-tile kv width",
            kv_cache: "dense warp-tile kv cache",
            q_mismatch: "dense warp-tile attention q/output shape mismatch: query_half={} output={} required={}",
            kv_mismatch: "dense warp-tile attention kv cache shape mismatch: key_cache={} value_cache={} required={}",
        }
    }

    /// The tensor-core kernel.
    pub open spec fn spec_wmma() -> DenseTexts {
        DenseTexts {
            q_width: "dense wmma q width",
            q_tokens: "dense wmma q tokens",
            kv_width: "dense wmma kv width",
            kv_cache: "dense wmma kv cache",
            q_mismatch: "dense wmma attention q/output shape mismatch: query_half={} output={} required={}",
            kv_mismatch: "dense wmma attention kv cache shape mismatch: key_cache={} value_cache={} required={}",
        }
    }

    /// The tensor-core kernel.
    #[verifier::when_used_as_spec(spec_wmma)]
    pub fn wmma() -> (texts: DenseTexts)
        ensures
            texts == DenseTexts::spec_wmma(),
    {
        DenseTexts {
            q_width: "dense wmma q width",
            q_tokens: "dense wmma q tokens",
            kv_width: "dense wmma kv width",
            kv_cache: "dense wmma kv cache",
            q_mismatch: "dense wmma attention q/output shape mismatch: query_half={} output={} required={}",
            kv_mismatch: "dense wmma attention kv cache shape mismatch: key_cache={} value_cache={} required={}",
        }
    }

    /// The flash-style tensor-core kernel.
    pub open spec fn spec_flash() -> DenseTexts {
        DenseTexts {
            q_width: "dense fa wmma q width",
            q_tokens: "dense fa wmma q tokens",
            kv_width: "dense fa wmma kv width",
            kv_cache: "dense fa wmma kv cache",
            q_mismatch: "dense fa wmma attention q/output shape mismatch: query_half={} output={} required={}",
            kv_mismatch: "dense fa wmma attention kv cache shape mismatch: key_cache={} value_cache={} required={}",
        }
    }

    /// The flash-style tensor-core kernel.
    #[verifier::when_used_as_spec(spec_flash)]
    pub fn flash() -> (texts: DenseTexts)
        ensures
            texts == DenseTexts::spec_flash(),
    {
        DenseTexts {
            q_width: "dense fa wmma q width",
            q_tokens: "dense fa wmma q tokens",
            kv_width: "dense fa wmma kv width",
            kv_cache: "dense fa wmma kv cache",
            q_mismatch: "dense fa wmma attention q/output shape mismatch: query_half={} output={} required={}",
            kv_mismatch: "dense fa wmma attention kv cache shape mismatch: key_cache={} value_cache={} required={}",
        }
    }

    /// The grouped-query kernel.
    pub open spec fn spec_grouped() -> DenseTexts {
        DenseTexts {
            q_width: "dense gqa4 wmma q width",
            q_tokens: "dense gqa4 wmma q tokens",
            kv_width: "dense gqa4 wmma kv width",
            kv_cache: "dense gqa4 wmma kv cache",
            q_mismatch: "dense gqa4 wmma attention q/output shape mismatch: query_half={} output={} required={}",
            kv_mismatch: "dense gqa4 wmma attention kv cache shape mismatch: key_cache={} value_cache={} required={}",
        }
    }

    /// The grouped-query kernel.
    #[verifier::when_used_as_spec(spec_grouped)]
    pub fn grouped() -> (texts: DenseTexts)
        ensures
            texts == DenseTexts::spec_grouped(),
    {
        DenseTexts {
            q_width: "dense gqa4 wmma q width",
            q_tokens: "dense gqa4 wmma q tokens",
            kv_width: "dense gqa4 wmma kv width",
            kv_cache: "dense gqa4 wmma kv cache",
            q_mismatch: "dense gqa4 wmma attention q/output shape mismatch: query_half={} output={} required={}",
            kv_mismatch: "dense gqa4 wmma attention kv cache shape mismatch: key_cache={} value_cache={} required={}",
        }
    }

    /// The grouped-query split-K kernel.
    pub open spec fn spec_grouped_split() -> DenseTexts {
        DenseTexts {
            q_width: "dense gqa4 split wmma q width",
            q_tokens: "dense gqa4 split wmma q tokens",
            kv_width: "dense gqa4 split wmma kv width",
            kv_cache: "dense gqa4 split wmma kv cache",
            q_mismatch: "dense gqa4 split wmma attention q/output shape mismatch: query_half={} output={} required={}",
            kv_mismatch: "dense gqa4 split wmma attention kv cache shape mismatch: key_cache={} value_cache={} required={}",
        }
    }

    /// The grouped-query split-K kernel.
    #[verifier::when_used_as_spec(spec_grouped_split)]
    pub fn grouped_split() -> (texts: DenseTexts)
        ensures
            texts == DenseTexts::spec_grouped_split(),
    {
        DenseTexts {
            q_width: "dense gqa4 split wmma q width",
            q_tokens: "dense gqa4 split wmma q tokens",
            kv_width: "dense gqa4 split wmma kv width",
            kv_cache: "dense gqa4 split wmma kv cache",
            q_mismatch: "dense gqa4 split wmma attention q/output shape mismatch: query_half={} output={} required={}",
            kv_mismatch: "dense gqa4 split wmma attention kv cache shape mismatch: key_cache={} value_cache={} required={}",
        }
    }

    /// The clustered kernel.
    pub open spec fn spec_cluster2() -> DenseTexts {
        DenseTexts {
            q_width: "dense cluster2 wmma q width",
            q_tokens: "dense cluster2 wmma q tokens",
            kv_width: "dense cluster2 wmma kv width",
            kv_cache: "dense cluster2 wmma kv cache",
            q_mismatch: "dense cluster2 wmma attention q/output shape mismatch: query_half={} output={} required={}",
            kv_mismatch: "dense cluster2 wmma attention kv cache shape mismatch: key_cache={} value_cache={} required={}",
        }
    }

    /// The clustered kernel.
    #[verifier::when_used_as_spec(spec_cluster2)]
    pub fn cluster2() -> (texts: DenseTexts)
        ensures
            texts == DenseTexts::spec_cluster2(),
    {
        DenseTexts {
            q_width: "dense cluster2 wmma q width",
            q_tokens: "dense cluster2 wmma q tokens",
            kv_width: "dense cluster2 wmma kv width",
            kv_cache: "dense cluster2 wmma kv cache",
            q_mismatch: "dense cluster2 wmma attention q/output shape mismatch: query_half={} output={} required={}",
            kv_mismatch: "dense cluster2 wmma attention kv cache shape mismatch: key_cache={} value_cache={} required={}",
        }
    }

    /// The persistent kernel.
    pub open spec fn spec_persistent() -> DenseTexts {
        DenseTexts {
            q_width: "dense q32 wmma q width",
            q_tokens: "dense q32 wmma q tokens",
            kv_width: "dense q32 wmma kv width",
            kv_cache: "dense q32 wmma kv cache",
            q_mismatch: "dense q32 wmma attention q/output shape mismatch: query_half={} output={} required={}",
            kv_mismatch: "dense q32 wmma attention kv cache shape mismatch: key_cache={} value_cache={} required={}",
        }
    }

    /// The persistent kernel.
    #[verifier::when_used_as_spec(spec_persistent)]
    pub fn persistent() -> (texts: DenseTexts)
        ensures
            texts == DenseTexts::spec_persistent(),
    {
        DenseTexts {
            q_width: "dense q32 wmma q width",
            q_tokens: "dense q32 wmma q tokens",
            kv_width: "dense q32 wmma kv width",
            kv_cache: "dense q32 wmma kv cache",
            q_mismatch: "dense q32 wmma attention q/output shape mismatch: query_half={} output={} required={}",
            kv_mismatch: "dense q32 wmma attention kv cache shape mismatch: key_cache={} value_cache={} required={}",
        }
    }

    /// The split-K kernel.
    pub open spec fn spec_split() -> DenseTexts {
        DenseTexts {
            q_width: "dense split wmma q width",
            q_tokens: "dense split wmma q tokens",
            kv_width: "dense split wmma kv width",
            kv_cache: "dense split wmma kv cache",
            q_mismatch: "dense split wmma attention q/output shape mismatch: query_half={} output={} required={}",
            kv_mismatch: "dense split wmma attention kv cache shape mismatch: key_cache={} value_cache={} required={}",
        }
    }

    /// The split-K kernel.
    #[verifier::when_used_as_spec(spec_split)]
    pub fn split() -> (texts: DenseTexts)
        ensures
            texts == DenseTexts::spec_split(),
    {
        DenseTexts {
            q_width: "dense split wmma q width",
            q_tokens: "dense split wmma q tokens",
            kv_width: "dense split wmma kv width",
            kv_cache: "dense split wmma kv cache",
            q_mismatch: "dense split wmma attention q/output shape mismatch: query_half={} output={} required={}",
            kv_mismatch: "dense split wmma attention kv cache shape mismatch: key_cache={} value_cache={} required={}",
        }
    }
}

/// What tells the plain dense kernels apart.
#[derive(Clone, Copy)]
pub struct DenseKernel {
    pub kernel: Kernel,
    pub stage: &'static str,
    pub indivisible: &'static str,
    pub q_blocks: &'static str,
    pub q_block: usize,
    pub block_dim: u32,
}

impl DensePrefill<'_> {
    /// One launch of a dense kernel without scratch.
    pub open spec fn single(&self, kernel: Kernel, stage: &'static str, config: LaunchConfig) -> Seq<
        StepView,
    > {
        seq![
            StepView::launching(
                kernel,
                stage,
                config,
                self.leading_args().push(Arg::Buffer(Operand::Output)),
            ),
        ]
    }

    /// A plain dense launch: one block per query head and block of queries.
    pub open spec fn plain_steps(
        &self,
        texts: DenseTexts,
        kernel: DenseKernel,
        shared: Result<u32, AegisError>,
    ) -> Result<Seq<StepView>, AegisError> {
        let heads = self.num_attention_heads as int;
        let q_blocks = runtime::blocks(self.batch as int, kernel.q_block as int);
        if self.shape_fault(texts) is Some {
            Err(self.shape_fault(texts)->Some_0)
        } else if heads % self.num_kv_heads as int != 0 {
            Err(AegisError::invalid(kernel.indivisible))
        } else if heads > u32::MAX {
            Err(super::wide("num_attention_heads", heads))
        } else if q_blocks > u32::MAX {
            Err(super::wide(kernel.q_blocks, q_blocks))
        } else if shared is Err {
            Err(shared->Err_0)
        } else if self.word_fault() is Some {
            Err(self.word_fault()->Some_0)
        } else {
            Ok(
                self.single(
                    kernel.kernel,
                    kernel.stage,
                    LaunchConfig::of(
                        heads,
                        q_blocks,
                        1,
                        kernel.block_dim as int,
                        shared->Ok_0 as int,
                    ),
                ),
            )
        }
    }

    /// The arguments of a dense kernel without scratch.
    fn args(&self, words: &DenseWords) -> (args: Vec<Arg>)
        requires
            self.narrowed(*words),
        ensures
            args@ == self.leading_args().push(Arg::Buffer(Operand::Output)),
    {
        let args = vec![
            Arg::Buffer(Operand::KeyCache),
            Arg::Buffer(Operand::ValueCache),
            Arg::Buffer(Operand::QueryHalf),
            Arg::U32(words.start_position),
            Arg::U32(words.total_q),
            Arg::U32(words.context_len),
            Arg::U32(words.heads),
            Arg::U32(words.kv_heads),
            Arg::U32(words.head_dim),
            Arg::U32(words.cache_capacity),
            Arg::Buffer(Operand::Output),
        ];
        assert(args@ =~= self.leading_args().push(Arg::Buffer(Operand::Output)));
        args
    }

    /// Plans a plain dense launch; `shared` is what became of its shared memory.
    fn plan_plain(&self, texts: DenseTexts, kernel: DenseKernel, shared: Result<u32, AegisError>) -> (plan: Result<
        Plan,
        AegisError,
    >)
        requires
            self.has_verdict(),
            kernel.q_block > 0,
        ensures
            Plan::outcome(plan) =~~= self.plain_steps(texts, kernel, shared),
    {
        self.check_shape(texts)?;
        assert(self.has_width());
        if self.num_attention_heads % self.num_kv_heads != 0 {
            return Err(invalid_plan(kernel.indivisible, Values::Zero));
        }
        let heads: u32 = u32_arg("num_attention_heads", self.num_attention_heads)?;
        let q_blocks: u32 = u32_arg(kernel.q_blocks, div_ceil(self.batch, kernel.q_block))?;
        let shared_mem_bytes: u32 = shared?;
        let words = self.words()?;
        Ok(
            Plan::launch(
                kernel.kernel,
                kernel.stage,
                LaunchConfig {
                    grid_dim: (heads, q_blocks, 1),
                    block_dim: (kernel.block_dim, 1, 1),
                    shared_mem_bytes,
                },
                self.args(&words),
            ),
        )
    }
}

/// Shared memory of the tiled half-precision kernel.
pub open spec fn block4_shared_bytes(head_dim: int) -> int {
    (TILED_HALFQ_Q_BLOCK * 2 + (TILED_HALFQ_Q_BLOCK * 2 + 2) * head_dim + TILED_HALFQ_Q_BLOCK * 4) * 4
}

/// Shared memory of the tensor-core kernel: queries, keys, values and weights in
/// half precision; scores, accumulator and tile in single; three statistics.
pub open spec fn wmma_shared_bytes(q_block: int, head_dim: int) -> int {
    (q_block * head_dim + 2 * DENSE_WMMA_K_TILE * head_dim + q_block * DENSE_WMMA_K_TILE) * 2 + (
    q_block * DENSE_WMMA_K_TILE + 2 * (q_block * head_dim) + q_block * 3) * 4
}

/// Shared memory of the flash-style kernel, which keeps no tile beside its
/// accumulator.
pub open spec fn flash_shared_bytes(q_block: int, head_dim: int) -> int {
    (q_block * head_dim + 2 * DENSE_WMMA_K_TILE * head_dim + q_block * DENSE_WMMA_K_TILE) * 2 + (
    q_block * DENSE_WMMA_K_TILE + q_block * head_dim + q_block * 3) * 4
}

/// Shared memory of the grouped-query kernel, whose rows are padded.
pub open spec fn grouped_shared_bytes() -> int {
    let rows = DENSE_WMMA_GQA4_Q_TOKENS * DENSE_WMMA_GQA4_HEADS;
    let stride = DENSE_WMMA_K_TILE + 8;
    (rows * 128 + 2 * DENSE_WMMA_K_TILE * 128 + rows * stride) * 2 + (rows * stride + rows * (128 + 8)
        + rows * 3) * 4
}

/// Outcome of holding `bytes` to what every kernel has.
pub open spec fn granted(kernel: &'static str, bytes: int) -> Result<u32, AegisError> {
    if bytes > SHARED_BYTES_LIMIT {
        Err(super::shared_excess(kernel, bytes))
    } else {
        Ok(bytes as u32)
    }
}

impl DensePrefill<'_> {
    /// The tiled half-precision kernel.
    pub open spec fn block4_steps(&self) -> Result<Seq<StepView>, AegisError> {
        self.plain_steps(
            DenseTexts::block4(),
            DenseKernel {
                kernel: Kernel::AttentionPrefillDenseHalfqBlock4,
                stage: "launch dense halfq varlen prefill attention",
                indivisible: "dense halfq attention heads must be divisible by kv heads",
                q_blocks: "dense halfq q blocks",
                q_block: TILED_HALFQ_Q_BLOCK,
                block_dim: 64,
            },
            granted("prefill_dense_halfq_block4", block4_shared_bytes(self.head_dim as int)),
        )
    }

    /// The warp-tile kernel, for head dimension 128.
    pub open spec fn warp_tile_steps(&self) -> Result<Seq<StepView>, AegisError> {
        self.plain_steps(
            DenseTexts::warp_tile(),
            DenseKernel {
                kernel: Kernel::AttentionPrefillDenseHalfqWarpTileHdim128,
                stage: "launch dense halfq warp-tile prefill attention",
                indivisible: "dense warp-tile attention heads must be divisible by kv heads",
                q_blocks: "dense warp-tile q blocks",
                q_block: DENSE_WARP_TILE_Q_BLOCK,
                block_dim: 512,
            },
            Ok((DENSE_WARP_TILE_K_TILE * 128 * 2 * 2) as u32),
        )
    }

    /// The tensor-core kernel, for head dimensions 128 and 256: one warp for every
    /// sixteen output columns.
    pub open spec fn wmma_steps(&self) -> Result<Seq<StepView>, AegisError> {
        if self.head_dim != 128 && self.head_dim != 256 {
            Err(
                AegisError::unsupported_with(
                    "dense wmma prefill attention requires head_dim ∈ {128, 256}; got {}",
                    Values::One(Value::num(self.head_dim as int)),
                ),
            )
        } else {
            self.plain_steps(
                DenseTexts::wmma(),
                DenseKernel {
                    kernel: if self.head_dim == 128 {
                        Kernel::AttentionPrefillDenseHalfqWmmaHdim128
                    } else {
                        Kernel::AttentionPrefillDenseHalfqWmmaHdim256
                    },
                    stage: "launch dense halfq wmma prefill attention",
                    indivisible: "dense wmma attention heads must be divisible by kv heads",
                    q_blocks: "dense wmma q blocks",
                    q_block: DENSE_WMMA_Q_BLOCK,
                    block_dim: (self.head_dim / 16 * 32) as u32,
                },
                Ok(wmma_shared_bytes(DENSE_WMMA_Q_BLOCK as int, self.head_dim as int) as u32),
            )
        }
    }

    /// The flash-style tensor-core kernel, for head dimension 128.
    pub open spec fn flash_steps(&self) -> Result<Seq<StepView>, AegisError> {
        self.plain_steps(
            DenseTexts::flash(),
            DenseKernel {
                kernel: Kernel::AttentionPrefillDenseHalfqWmmaHdim128Fa,
                stage: "launch dense fa halfq wmma prefill attention",
                indivisible: "dense fa wmma attention heads must be divisible by kv heads",
                q_blocks: "dense fa wmma q blocks",
                q_block: DENSE_WMMA_FA_Q_BLOCK,
                block_dim: 256,
            },
            Ok(flash_shared_bytes(DENSE_WMMA_FA_Q_BLOCK as int, 128) as u32),
        )
    }

    /// The clustered kernel, for head dimension 128: two blocks per query head.
    pub open spec fn cluster2_steps(&self) -> Result<Seq<StepView>, AegisError> {
        let texts = DenseTexts::cluster2();
        let heads = self.num_attention_heads as int;
        let q_blocks = runtime::blocks(self.batch as int, DENSE_WMMA_FA_Q_BLOCK as int);
        if self.shape_fault(texts) is Some {
            Err(self.shape_fault(texts)->Some_0)
        } else if heads % self.num_kv_heads as int != 0 {
            Err(
                AegisError::invalid(
                    "dense cluster2 wmma attention heads must be divisible by kv heads",
                ),
            )
        } else if self.word_fault() is Some {
            Err(self.word_fault()->Some_0)
        } else if heads * 2 > usize::MAX {
            Err(super::long_product("dense cluster2 wmma head cluster blocks", heads, 2))
        } else if heads * 2 > u32::MAX {
            Err(super::wide("dense cluster2 wmma head blocks", heads * 2))
        } else {
            Ok(
                self.single(
                    Kernel::AttentionPrefillDenseHalfqWmmaHdim128Cluster2,
                    "launch dense cluster2 halfq wmma prefill attention",
                    LaunchConfig::of(
                        heads * 2,
                        q_blocks,
                        1,
                        256,
                        flash_shared_bytes(DENSE_WMMA_FA_Q_BLOCK as int, 128),
                    ),
                ),
            )
        }
    }

    /// The persistent kernel, for head dimension 128, once its shared-memory limit
    /// is raised.
    pub open spec fn persistent_launch(&self) -> Result<Seq<StepView>, AegisError> {
        if self.word_fault() is Some {
            Err(self.word_fault()->Some_0)
        } else {
            Ok(
                self.single(
                    Kernel::AttentionPrefillDenseHalfqWmmaHdim128Q32,
                    "launch dense q32 halfq wmma prefill attention",
                    LaunchConfig::of(
                        self.num_attention_heads as int,
                        runtime::blocks(self.batch as int, DENSE_WMMA_Q32_BLOCK as int),
                        1,
                        256,
                        wmma_shared_bytes(DENSE_WMMA_Q32_BLOCK as int, 128),
                    ),
                ),
            )
        }
    }

    /// The persistent kernel, for head dimension 128.
    pub open spec fn persistent_steps(&self) -> Result<Seq<StepView>, AegisError> {
        let texts = DenseTexts::persistent();
        if self.shape_fault(texts) is Some {
            Err(self.shape_fault(texts)->Some_0)
        } else {
            Ok(
                Plan::spec_then(
                    seq![
                        StepView::RaiseSharedLimit {
                            kernel: Kernel::AttentionPrefillDenseHalfqWmmaHdim128Q32,
                            bytes: wmma_shared_bytes(DENSE_WMMA_Q32_BLOCK as int, 128) as i32,
                            stage: "set q32 wmma max dynamic shared memory",
                        },
                    ],
                    self.persistent_launch(),
                ),
            )
        }
    }

    /// What is wrong with the groups of query heads.
    pub open spec fn group_fault(&self, indivisible: &'static str, small: &'static str) -> Option<
        AegisError,
    > {
        let heads = self.num_attention_heads as int;
        let kv_heads = self.num_kv_heads as int;
        if kv_heads == 0 || heads % kv_heads != 0 {
            Some(AegisError::invalid(indivisible))
        } else if heads / kv_heads < DENSE_WMMA_GQA4_HEADS {
            Some(
                AegisError::invalid_with(
                    small,
                    Values::Two(
                        Value::num(DENSE_WMMA_GQA4_HEADS as int),
                        Value::num(heads / kv_heads),
                    ),
                ),
            )
        } else {
            None
        }
    }

    /// Blocks of four query heads, over all key/value heads.
    pub open spec fn head_blocks(&self) -> int {
        self.num_kv_heads * runtime::blocks(
            self.num_attention_heads as int / self.num_kv_heads as int,
            DENSE_WMMA_GQA4_HEADS as int,
        )
    }

    /// The grouped-query kernel, for head dimension 128, once its shared-memory
    /// limit is raised.
    pub open spec fn grouped_launch(&self) -> Result<Seq<StepView>, AegisError> {
        let q_blocks = runtime::blocks(self.batch as int, DENSE_WMMA_GQA4_Q_TOKENS as int);
        if self.head_blocks() > u32::MAX {
            Err(super::wide("dense gqa4 wmma kv/group blocks", self.head_blocks()))
        } else if q_blocks > u32::MAX {
            Err(super::wide("dense gqa4 wmma q blocks", q_blocks))
        } else if self.word_fault() is Some {
            Err(self.word_fault()->Some_0)
        } else {
            Ok(
                self.single(
                    Kernel::AttentionPrefillDenseHalfqWmmaHdim128Gqa4,
                    "launch dense gqa4 halfq wmma prefill attention",
                    LaunchConfig::of(
                        self.head_blocks(),
                        q_blocks,
                        1,
                        256,
                        grouped_shared_bytes(),
                    ),
                ),
            )
        }
    }

    /// The grouped-query kernel, for head dimension 128.
    pub open spec fn grouped_steps(&self) -> Result<Seq<StepView>, AegisError> {
        let texts = DenseTexts::grouped();
        let group_fault = self.group_fault(
            "dense gqa4 wmma attention heads must be divisible by kv heads",
            "dense gqa4 wmma attention requires GQA group >= {}, got {}",
        );
        if group_fault is Some {
            Err(group_fault->Some_0)
        } else if self.shape_fault(texts) is Some {
            Err(self.shape_fault(texts)->Some_0)
        } else {
            Ok(
                Plan::spec_then(
                    seq![
                        StepView::RaiseSharedLimit {
                            kernel: Kernel::AttentionPrefillDenseHalfqWmmaHdim128Gqa4,
                            bytes: grouped_shared_bytes() as i32,
                            stage: "set gqa4 padded wmma max dynamic shared memory",
                        },
                    ],
                    self.grouped_launch(),
                ),
            )
        }
    }

    /// Splits of split-K attention.
    pub open spec fn splits(&self, split_tokens: int) -> int {
        super::split_count(self.context_len as int, split_tokens)
    }

    /// The split-K scratch is large enough.
    pub open spec fn scratch_fits(&self, scratch: DenseScratch<'_>, split_tokens: int) -> bool {
        super::split_scratch_fits(
            scratch.acc.len() as int,
            scratch.m.len() as int,
            scratch.l.len() as int,
            self.batch as int,
            self.context_len as int,
            self.num_attention_heads as int,
            self.head_dim as int,
            split_tokens,
        )
    }

    /// The launch of the splits.
    pub open spec fn split_step(
        &self,
        kernel: Kernel,
        stage: &'static str,
        config: LaunchConfig,
        split_tokens: int,
    ) -> StepView {
        StepView::launching(
            kernel,
            stage,
            config,
            self.leading_args() + seq![
                Arg::word(split_tokens),
                Arg::word(self.splits(split_tokens)),
                Arg::Buffer(Operand::SplitAcc),
                Arg::Buffer(Operand::SplitM),
                Arg::Buffer(Operand::SplitL),
            ],
        )
    }

    /// The launch that combines the splits.
    pub open spec fn combine_step(&self, stage: &'static str, split_tokens: int) -> StepView {
        StepView::launching(
            Kernel::AttentionPrefillDenseHalfqWmmaHdim128Combine,
            stage,
            LaunchConfig::of(
                self.num_attention_heads as int,
                runtime::blocks(self.batch as int, DENSE_WMMA_Q_BLOCK as int),
                1,
                256,
                (DENSE_WMMA_Q_BLOCK * 128 + DENSE_WMMA_Q_BLOCK * 3) * 4,
            ),
            seq![
                Arg::Buffer(Operand::SplitAcc),
                Arg::Buffer(Operand::SplitM),
                Arg::Buffer(Operand::SplitL),
                Arg::word(self.batch as int),
                Arg::word(self.num_attention_heads as int),
                Arg::word(self.head_dim as int),
                Arg::word(self.splits(split_tokens)),
                Arg::Buffer(Operand::Output),
            ],
        )
    }

    /// The grouped-query split-K kernel, for head dimension 128.
    pub open spec fn grouped_split_steps(&self, scratch: DenseScratch<'_>, split_tokens: int) -> Result<
        Seq<StepView>,
        AegisError,
    > {
        let texts = DenseTexts::grouped_split();
        let rows = DENSE_WMMA_GQA4_SPLIT_Q_TOKENS * DENSE_WMMA_GQA4_HEADS;
        let shared = flash_shared_bytes(rows, 128);
        let splits = self.splits(split_tokens);
        let q_blocks = runtime::blocks(self.batch as int, DENSE_WMMA_GQA4_SPLIT_Q_TOKENS as int);
        let group_fault = self.group_fault(
            "dense gqa4 split wmma attention heads must be divisible by kv heads",
            "dense gqa4 split wmma attention requires GQA group >= {}, got {}",
        );
        if group_fault is Some {
            Err(group_fault->Some_0)
        } else if !self.scratch_fits(scratch, split_tokens) {
            Err(
                AegisError::invalid("dense gqa4 split wmma attention scratch buffers are too small"),
            )
        } else if self.shape_fault(texts) is Some {
            Err(self.shape_fault(texts)->Some_0)
        } else if self.word_fault() is Some {
            Err(self.word_fault()->Some_0)
        } else if split_tokens > u32::MAX {
            Err(super::wide("dense gqa4 split wmma split tokens", split_tokens))
        } else {
            Ok(
                seq![
                    self.split_step(
                        Kernel::AttentionPrefillDenseHalfqWmmaHdim128Gqa4Split,
                        "launch split-K dense gqa4 halfq wmma prefill attention",
                        LaunchConfig::of(self.head_blocks(), q_blocks, splits, 256, shared),
                        split_tokens,
                    ),
                    self.combine_step(
                        "launch combine split-K dense gqa4 halfq wmma prefill attention",
                        split_tokens,
                    ),
                ],
            )
        }
    }

    /// The split-K kernel, for head dimension 128.
    pub open spec fn split_steps(&self, scratch: DenseScratch<'_>, split_tokens: int) -> Result<
        Seq<StepView>,
        AegisError,
    > {
        let texts = DenseTexts::split();
        let heads = self.num_attention_heads as int;
        let q_blocks = runtime::blocks(self.batch as int, DENSE_WMMA_Q_BLOCK as int);
        if self.shape_fault(texts) is Some {
            Err(self.shape_fault(texts)->Some_0)
        } else if heads % self.num_kv_heads as int != 0 {
            Err(
                AegisError::invalid("dense split wmma attention heads must be divisible by kv heads"),
            )
        } else if !self.scratch_fits(scratch, split_tokens) {
            Err(AegisError::invalid("dense split wmma attention scratch buffers are too small"))
        } else if self.word_fault() is Some {
            Err(self.word_fault()->Some_0)
        } else if split_tokens > u32::MAX {
            Err(super::wide("dense split wmma split tokens", split_tokens))
        } else {
            Ok(
                seq![
                    self.split_step(
                        Kernel::AttentionPrefillDenseHalfqWmmaHdim128Split,
                        "launch split-K dense halfq wmma prefill attention",
                        LaunchConfig::of(
                            heads,
                            q_blocks,
                            self.splits(split_tokens),
                            256,
                            wmma_shared_bytes(DENSE_WMMA_Q_BLOCK as int, 128),
                        ),
                        split_tokens,
                    ),
                    self.combine_step(
                        "launch combine split-K dense halfq wmma prefill attention",
                        split_tokens,
                    ),
                ],
            )
        }
    }
}

impl CudaRuntime {
    /// Plans [`DensePrefill::block4_steps`].
    pub fn attention_prefill_dense_halfq_block4_device(&self, request: &DensePrefill<'_>) -> (plan: Result<
        Plan,
        AegisError,
    >)
        requires
            request.has_verdict(),
            block4_shared_bytes(request.head_dim as int) <= usize::MAX,
        ensures
            Plan::outcome(plan) == request.block4_steps(),
    {
        let q_block: u64 = TILED_HALFQ_Q_BLOCK as u64;
        let head_dim: u64 = request.head_dim as u64;
        assert(q_block == 4);
        let shared = validate_dynamic_shared_bytes(
            "prefill_dense_halfq_block4",
            (q_block * 2 + 10 * head_dim + q_block * 4) * 4,
        );
        request.plan_plain(
            DenseTexts::block4(),
            DenseKernel {
                kernel: Kernel::AttentionPrefillDenseHalfqBlock4,
                stage: "launch dense halfq varlen prefill attention",
                indivisible: "dense halfq attention heads must be divisible by kv heads",
                q_blocks: "dense halfq q blocks",
                q_block: TILED_HALFQ_Q_BLOCK,
                block_dim: 64,
            },
            shared,
        )
    }

    /// Plans [`DensePrefill::warp_tile_steps`].
    pub fn attention_prefill_dense_halfq_warp_tile_hdim128_device(&self, request: &DensePrefill<'_>) -> (plan:
        Result<Plan, AegisError>)
        requires
            request.has_verdict(),
            request.head_dim == 128,
        ensures
            Plan::outcome(plan) == request.warp_tile_steps(),
    {
        let shared = validate_dynamic_shared_bytes(
            "prefill_dense_halfq_warp_tile_hdim128",
            DENSE_WARP_TILE_K_TILE as u64 * 128 * 2 * 2,
        );
        request.plan_plain(
            DenseTexts::warp_tile(),
            DenseKernel {
                kernel: Kernel::AttentionPrefillDenseHalfqWarpTileHdim128,
                stage: "launch dense halfq warp-tile prefill attention",
                indivisible: "dense warp-tile attention heads must be divisible by kv heads",
                q_blocks: "dense warp-tile q blocks",
                q_block: DENSE_WARP_TILE_Q_BLOCK,
                block_dim: 512,
            },
            shared,
        )
    }

    /// Plans [`DensePrefill::wmma_steps`].
    pub fn attention_prefill_dense_halfq_wmma_hdim_device(&self, request: &DensePrefill<'_>) -> (plan: Result<
        Plan,
        AegisError,
    >)
        requires
            request.head_dim == 128 || request.head_dim == 256 ==> request.has_verdict(),
        ensures
            Plan::outcome(plan) == request.wmma_steps(),
    {
        let kernel = match request.head_dim {
            128 => Kernel::AttentionPrefillDenseHalfqWmmaHdim128,
            256 => Kernel::AttentionPrefillDenseHalfqWmmaHdim256,
            other => {
                return Err(
                    unsupported_plan(
                        "dense wmma prefill attention requires head_dim ∈ {128, 256}; got {}",
                        Values::One(number(other)),
                    ),
                );
            },
        };
        let head_dim: u64 = request.head_dim as u64;
        let q_block: u64 = DENSE_WMMA_Q_BLOCK as u64;
        let k_tile: u64 = DENSE_WMMA_K_TILE as u64;
        let half_values: u64 = q_block * head_dim + 2 * k_tile * head_dim + q_block * k_tile;
        let float_values: u64 = q_block * k_tile + q_block * head_dim + q_block * head_dim + q_block
            * 3;
        let shared = validate_dynamic_shared_bytes_with_cap(
            "prefill_dense_halfq_wmma",
            half_values * 2 + float_values * 4,
            SHARED_BYTES_OPT_IN as u32,
        );
        request.plan_plain(
            DenseTexts::wmma(),
            DenseKernel {
                kernel,
                stage: "launch dense halfq wmma prefill attention",
                indivisible: "dense wmma attention heads must be divisible by kv heads",
                q_blocks: "dense wmma q blocks",
                q_block: DENSE_WMMA_Q_BLOCK,
                block_dim: (request.head_dim / 16) as u32 * 32,
            },
            shared,
        )
    }

    /// Plans [`DensePrefill::flash_steps`].
    pub fn attention_prefill_dense_halfq_wmma_hdim128_fa_device(&self, request: &DensePrefill<'_>) -> (plan:
        Result<Plan, AegisError>)
        requires
            request.has_verdict(),
            request.head_dim == 128,
        ensures
            Plan::outcome(plan) == request.flash_steps(),
    {
        let shared = validate_dynamic_shared_bytes("prefill_dense_halfq_wmma_hdim128_fa", 31936);
        request.plan_plain(
            DenseTexts::flash(),
            DenseKernel {
                kernel: Kernel::AttentionPrefillDenseHalfqWmmaHdim128Fa,
                stage: "launch dense fa halfq wmma prefill attention",
                indivisible: "dense fa wmma attention heads must be divisible by kv heads",
                q_blocks: "dense fa wmma q blocks",
                q_block: DENSE_WMMA_FA_Q_BLOCK,
                block_dim: 256,
            },
            shared,
        )
    }

    /// Plans [`DensePrefill::cluster2_steps`].
    pub fn attention_prefill_dense_halfq_wmma_hdim128_cluster2_device(
        &self,
        request: &DensePrefill<'_>,
    ) -> (plan: Result<Plan, AegisError>)
        requires
            request.has_verdict(),
            request.head_dim == 128,
        ensures
            Plan::outcome(plan) =~~= request.cluster2_steps(),
    {
        request.check_shape(DenseTexts::cluster2())?;
        if request.num_attention_heads % request.num_kv_heads != 0 {
            return Err(
                invalid_plan(
                    "dense cluster2 wmma attention heads must be divisible by kv heads",
                    Values::Zero,
                ),
            );
        }
        let shared_mem_bytes: u32 = validate_dynamic_shared_bytes(
            "prefill_dense_halfq_wmma_hdim128_cluster2",
            31936,
        )?;
        let words = request.words()?;
        let head_blocks: u32 = u32_arg(
            "dense cluster2 wmma head blocks",
            checked_len("dense cluster2 wmma head cluster blocks", request.num_attention_heads, 2)?,
        )?;
        let q_blocks: u32 = u32_arg(
            "dense cluster2 wmma q blocks",
            div_ceil(request.batch, DENSE_WMMA_FA_Q_BLOCK),
        )?;
        Ok(
            Plan::launch(
                Kernel::AttentionPrefillDenseHalfqWmmaHdim128Cluster2,
                "launch dense cluster2 halfq wmma prefill attention",
                LaunchConfig {
                    grid_dim: (head_blocks, q_blocks, 1),
                    block_dim: (256, 1, 1),
                    shared_mem_bytes,
                },
                request.args(&words),
            ),
        )
    }

    /// Plans [`DensePrefill::persistent_steps`].
    pub fn attention_prefill_dense_halfq_wmma_hdim128_q32_device(&self, request: &DensePrefill<'_>) -> (plan:
        Result<Plan, AegisError>)
        requires
            request.has_verdict(),
            request.head_dim == 128,
        ensures
            Plan::outcome(plan) == request.persistent_steps(),
    {
        request.check_shape(DenseTexts::persistent())?;
        let raise = Plan::of(
            Step::RaiseSharedLimit {
                kernel: Kernel::AttentionPrefillDenseHalfqWmmaHdim128Q32,
                bytes: 63872,
                stage: "set q32 wmma max dynamic shared memory",
            },
        );
        Ok(raise.then_outcome(request.plan_persistent()))
    }

    /// Plans [`DensePrefill::grouped_steps`].
    pub fn attention_prefill_dense_halfq_wmma_hdim128_gqa4_device(&self, request: &DensePrefill<'_>) -> (plan:
        Result<Plan, AegisError>)
        requires
            request.head_dim == 128,
        ensures
            Plan::outcome(plan) == request.grouped_steps(),
    {
        request.check_groups(
            "dense gqa4 wmma attention heads must be divisible by kv heads",
            "dense gqa4 wmma attention requires GQA group >= {}, got {}",
        )?;
        request.check_shape(DenseTexts::grouped())?;
        let raise = Plan::of(
            Step::RaiseSharedLimit {
                kernel: Kernel::AttentionPrefillDenseHalfqWmmaHdim128Gqa4,
                bytes: 50048,
                stage: "set gqa4 padded wmma max dynamic shared memory",
            },
        );
        Ok(raise.then_outcome(request.plan_grouped()))
    }

    /// Plans [`DensePrefill::grouped_split_steps`].
    pub fn attention_prefill_dense_halfq_wmma_hdim128_gqa4_split_device(
        &self,
        request: &DensePrefill<'_>,
        scratch: &DenseScratch<'_>,
    ) -> (plan: Result<Plan, AegisError>)
        requires
            self.wf(),
            request.head_dim == 128,
        ensures
            Plan::outcome(plan) =~~= request.grouped_split_steps(
                *scratch,
                self.tuning.dense_split_k_tokens as int,
            ),
    {
        let split_k_tokens: usize = self.tuning.dense_split_k_tokens;
        request.check_groups(
            "dense gqa4 split wmma attention heads must be divisible by kv heads",
            "dense gqa4 split wmma attention requires GQA group >= {}, got {}",
        )?;
        if !request.has_scratch(scratch, split_k_tokens) {
            return Err(
                invalid_plan(
                    "dense gqa4 split wmma attention scratch buffers are too small",
                    Values::Zero,
                ),
            );
        }
        request.check_shape(DenseTexts::grouped_split())?;
        let shared_mem_bytes: u32 = validate_dynamic_shared_bytes(
            "prefill_dense_halfq_wmma_hdim128_gqa4_split",
            47488,
        )?;
        let words = request.words()?;
        let split_tokens: u32 = u32_arg("dense gqa4 split wmma split tokens", split_k_tokens)?;
        proof {
            runtime::lemma_blocks(request.context_len as int, split_k_tokens as int);
        }
        let splits: u32 = u32_arg(
            "dense gqa4 split wmma split count",
            split_count_of(request.context_len, split_k_tokens),
        )?;
        let head_blocks: u32 = u32_arg(
            "dense gqa4 split wmma kv/group blocks",
            request.count_head_blocks(),
        )?;
        let q_blocks: u32 = u32_arg(
            "dense gqa4 split wmma q blocks",
            div_ceil(request.batch, DENSE_WMMA_GQA4_SPLIT_Q_TOKENS),
        )?;
        let first = request.split_launch(
            &words,
            Kernel::AttentionPrefillDenseHalfqWmmaHdim128Gqa4Split,
            "launch split-K dense gqa4 halfq wmma prefill attention",
            LaunchConfig {
                grid_dim: (head_blocks, q_blocks, splits),
                block_dim: (256, 1, 1),
                shared_mem_bytes,
            },
            split_tokens,
            splits,
        );
        let second = request.combine_launch(
            &words,
            "launch combine split-K dense gqa4 halfq wmma prefill attention",
            split_tokens,
            splits,
        );
        Ok(Plan::launch_both(first, second))
    }

    /// Plans [`DensePrefill::split_steps`].
    pub fn attention_prefill_dense_halfq_wmma_hdim128_split_device(
        &self,
        request: &DensePrefill<'_>,
        scratch: &DenseScratch<'_>,
    ) -> (plan: Result<Plan, AegisError>)
        requires
            self.wf(),
            request.has_verdict(),
            request.head_dim == 128,
        ensures
            Plan::outcome(plan) =~~= request.split_steps(
                *scratch,
                self.tuning.dense_split_k_tokens as int,
            ),
    {
        let split_k_tokens: usize = self.tuning.dense_split_k_tokens;
        request.check_shape(DenseTexts::split())?;
        if request.num_attention_heads % request.num_kv_heads != 0 {
            return Err(
                invalid_plan(
                    "dense split wmma attention heads must be divisible by kv heads",
                    Values::Zero,
                ),
            );
        }
        if !request.has_scratch(scratch, split_k_tokens) {
            return Err(
                invalid_plan(
                    "dense split wmma attention scratch buffers are too small",
                    Values::Zero,
                ),
            );
        }
        let shared_mem_bytes: u32 = validate_dynamic_shared_bytes(
            "prefill_dense_halfq_wmma_hdim128_split",
            40128,
        )?;
        let words = request.words()?;
        let split_tokens: u32 = u32_arg("dense split wmma split tokens", split_k_tokens)?;
        proof {
            runtime::lemma_blocks(request.context_len as int, split_k_tokens as int);
        }
        let splits: u32 = u32_arg(
            "dense split wmma split count",
            split_count_of(request.context_len, split_k_tokens),
        )?;
        let q_blocks: u32 = u32_arg(
            "dense split wmma q blocks",
            div_ceil(request.batch, DENSE_WMMA_Q_BLOCK),
        )?;
        let first = request.split_launch(
            &words,
            Kernel::AttentionPrefillDenseHalfqWmmaHdim128Split,
            "launch split-K dense halfq wmma prefill attention",
            LaunchConfig {
                grid_dim: (words.heads, q_blocks, splits),
                block_dim: (256, 1, 1),
                shared_mem_bytes,
            },
            split_tokens,
            splits,
        );
        let second = request.combine_launch(
            &words,
            "launch combine split-K dense halfq wmma prefill attention",
            split_tokens,
            splits,
        );
        Ok(Plan::launch_both(first, second))
    }
}

impl DensePrefill<'_> {
    /// Checks the groups of query heads.
    fn check_groups(&self, indivisible: &'static str, small: &'static str) -> (checked: Result<
        (),
        AegisError,
    >)
        ensures
            match checked {
                Ok(_) => self.group_fault(indivisible, small) is None,
                Err(error) => self.group_fault(indivisible, small) == Some(error),
            },
    {
        if self.num_kv_heads == 0 || self.num_attention_heads % self.num_kv_heads != 0 {
            return Err(invalid_plan(indivisible, Values::Zero));
        }
        let group: usize = self.num_attention_heads / self.num_kv_heads;
        if group < DENSE_WMMA_GQA4_HEADS {
            return Err(
                invalid_plan(small, Values::Two(number(DENSE_WMMA_GQA4_HEADS), number(group))),
            );
        }
        Ok(())
    }

    /// Counts the blocks of four query heads.
    fn count_head_blocks(&self) -> (count: usize)
        requires
            self.num_kv_heads > 0,
        ensures
            count == self.head_blocks(),
            count <= self.num_attention_heads,
    {
        let group: usize = self.num_attention_heads / self.num_kv_heads;
        let tiles: usize = div_ceil(group, DENSE_WMMA_GQA4_HEADS);
        proof {
            super::lemma_group_blocks(
                self.num_attention_heads as int,
                self.num_kv_heads as int,
                tiles as int,
            );
        }
        self.num_kv_heads * tiles
    }

    /// Whether the split-K scratch is large enough.
    fn has_scratch(&self, scratch: &DenseScratch<'_>, split_tokens: usize) -> (ready: bool)
        requires
            split_tokens > 0,
        ensures
            ready == self.scratch_fits(*scratch, split_tokens as int),
    {
        dense_wmma_split_scratch_ready(
            scratch.acc,
            scratch.m,
            scratch.l,
            self.batch,
            self.context_len,
            self.num_attention_heads,
            self.head_dim,
            split_tokens,
        )
    }

    /// Plans the launch of the persistent kernel.
    fn plan_persistent(&self) -> (plan: Result<Plan, AegisError>)
        requires
            self.has_width(),
            self.kv_width() <= usize::MAX,
        ensures
            Plan::outcome(plan) =~~= self.persistent_launch(),
    {
        let words = self.words()?;
        let q_blocks: u32 = u32_arg(
            "dense q32 wmma q blocks",
            div_ceil(self.batch, DENSE_WMMA_Q32_BLOCK),
        )?;
        Ok(
            Plan::launch(
                Kernel::AttentionPrefillDenseHalfqWmmaHdim128Q32,
                "launch dense q32 halfq wmma prefill attention",
                LaunchConfig {
                    grid_dim: (words.heads, q_blocks, 1),
                    block_dim: (256, 1, 1),
                    shared_mem_bytes: 63872,
                },
                self.args(&words),
            ),
        )
    }

    /// Plans the launch of the grouped-query kernel.
    fn plan_grouped(&self) -> (plan: Result<Plan, AegisError>)
        requires
            self.has_width(),
            self.kv_width() <= usize::MAX,
        ensures
            Plan::outcome(plan) =~~= self.grouped_launch(),
    {
        let head_blocks: u32 = u32_arg("dense gqa4 wmma kv/group blocks", self.count_head_blocks())?;
        let q_blocks: u32 = u32_arg(
            "dense gqa4 wmma q blocks",
            div_ceil(self.batch, DENSE_WMMA_GQA4_Q_TOKENS),
        )?;
        let words = self.words()?;
        Ok(
            Plan::launch(
                Kernel::AttentionPrefillDenseHalfqWmmaHdim128Gqa4,
                "launch dense gqa4 halfq wmma prefill attention",
                LaunchConfig {
                    grid_dim: (head_blocks, q_blocks, 1),
                    block_dim: (256, 1, 1),
                    shared_mem_bytes: 50048,
                },
                self.args(&words),
            ),
        )
    }

    /// The launch of the splits.
    fn split_launch(
        &self,
        words: &DenseWords,
        kernel: Kernel,
        stage: &'static str,
        config: LaunchConfig,
        split_tokens: u32,
        splits: u32,
    ) -> (launch: Launch)
        requires
            self.narrowed(*words),
            splits == self.splits(split_tokens as int),
        ensures
            StepView::Launch(launch@) == self.split_step(kernel, stage, config, split_tokens as int),
    {
        let args = vec![
            Arg::Buffer(Operand::KeyCache),
            Arg::Buffer(Operand::ValueCache),
            Arg::Buffer(Operand::QueryHalf),
            Arg::U32(words.start_position),
            Arg::U32(words.total_q),
            Arg::U32(words.context_len),
            Arg::U32(words.heads),
            Arg::U32(words.kv_heads),
            Arg::U32(words.head_dim),
            Arg::U32(words.cache_capacity),
            Arg::U32(split_tokens),
            Arg::U32(splits),
            Arg::Buffer(Operand::SplitAcc),
            Arg::Buffer(Operand::SplitM),
            Arg::Buffer(Operand::SplitL),
        ];
        assert(args@ =~= self.leading_args() + seq![
            Arg::word(split_tokens as int),
            Arg::word(self.splits(split_tokens as int)),
            Arg::Buffer(Operand::SplitAcc),
            Arg::Buffer(Operand::SplitM),
            Arg::Buffer(Operand::SplitL),
        ]);
        Launch::new(kernel, stage, config, args)
    }

    /// The launch that combines the splits.
    fn combine_launch(
        &self,
        words: &DenseWords,
        stage: &'static str,
        split_tokens: u32,
        splits: u32,
    ) -> (launch: Launch)
        requires
            self.narrowed(*words),
            splits == self.splits(split_tokens as int),
        ensures
            StepView::Launch(launch@) =~~= self.combine_step(stage, split_tokens as int),
    {
        proof {
            runtime::lemma_blocks(self.batch as int, DENSE_WMMA_Q_BLOCK as int);
        }
        let q_blocks: u32 = runtime::ceil_div(words.total_q, DENSE_WMMA_Q_BLOCK as u32);
        Launch::new(
            Kernel::AttentionPrefillDenseHalfqWmmaHdim128Combine,
            stage,
            LaunchConfig {
                grid_dim: (words.heads, q_blocks, 1),
                block_dim: (256, 1, 1),
                shared_mem_bytes: 8384,
            },
            vec![
                Arg::Buffer(Operand::SplitAcc),
                Arg::Buffer(Operand::SplitM),
                Arg::Buffer(Operand::SplitL),
                Arg::U32(words.total_q),
                Arg::U32(words.heads),
                Arg::U32(words.head_dim),
                Arg::U32(splits),
                Arg::Buffer(Operand::Output),
            ],
        )
    }
}

/// A prefill in single precision: `batch` queries from `start_position` on, whose
/// keys and values are at hand both in the cache and as a chunk of their own.
pub struct BatchedPrefill<'a> {
    pub key_cache: &'a DeviceBuffer<u16>,
    pub value_cache: &'a DeviceBuffer<u16>,
    pub key_chunk: &'a DeviceBuffer<F32>,
    pub value_chunk: &'a DeviceBuffer<F32>,
    pub query: &'a DeviceBuffer<F32>,
    pub start_position: usize,
    pub batch: usize,
    pub num_attention_heads: usize,
    pub num_kv_heads: usize,
    pub head_dim: usize,
    pub output: &'a DeviceBuffer<F32>,
}

impl BatchedPrefill<'_> {
    /// Positions that the last query attends to.
    pub open spec fn max_seq_len(&self) -> int {
        self.start_position + self.batch
    }

    /// Shared memory of the kernels that keep all scores.
    pub open spec fn legacy_shared_bytes(&self) -> int {
        (self.max_seq_len() + CUDA_ATTENTION_BLOCK_DIM) * 4
    }

    /// Elements of one cached position.
    pub open spec fn kv_width(&self) -> int {
        self.num_kv_heads * self.head_dim
    }

    /// Positions that the cache holds.
    pub open spec fn cache_capacity(&self) -> int {
        self.key_cache.len() as int / self.kv_width()
    }

    /// What is wrong with the dimensions and the lengths.
    pub open spec fn fault(&self) -> Option<AegisError> {
        let heads = self.num_attention_heads as int;
        let kv_heads = self.num_kv_heads as int;
        let head_dim = self.head_dim as int;
        let batch = self.batch as int;
        let q_width = heads * head_dim;
        let kv_width = self.kv_width();
        let cache_len = self.max_seq_len() * kv_width;
        if kv_heads == 0 || heads == 0 || head_dim == 0 {
            Some(
                AegisError::invalid_with(
                    "prefill attention dimensions must be non-zero: q_heads={} kv_heads={} head_dim={}",
                    Values::Three(Value::num(heads), Value::num(kv_heads), Value::num(head_dim)),
                ),
            )
        } else if q_width > usize::MAX {
            Some(super::long_product("prefill query width", heads, head_dim))
        } else if kv_width > usize::MAX {
            Some(super::long_product("prefill kv width", kv_heads, head_dim))
        } else if batch * q_width > usize::MAX {
            Some(super::long_product("prefill query batch", batch, q_width))
        } else if batch * kv_width > usize::MAX {
            Some(super::long_product("prefill kv batch", batch, kv_width))
        } else if self.query.len() < batch * q_width || self.output.len() < batch * q_width {
            Some(AegisError::invalid("batched attention query/output shape mismatch"))
        } else if self.key_chunk.len() < batch * kv_width || self.value_chunk.len() < batch
            * kv_width {
            Some(AegisError::invalid("batched attention current kv chunk shape mismatch"))
        } else if self.max_seq_len() > usize::MAX {
            Some(super::long_sum("prefill max seq", self.start_position as int, batch))
        } else if batch > 0 && cache_len > usize::MAX {
            Some(super::long_product("prefill key cache", self.max_seq_len(), kv_width))
        } else if batch == 0 || self.key_cache.len() < cache_len || self.value_cache.len()
            < cache_len {
            Some(
                AegisError::invalid_with(
                    "batched attention kv shape mismatch: start={} batch={} kv_width={} key_cache={} value_cache={}",
                    Values::Five(
                        Value::num(self.start_position as int),
                        Value::num(batch),
                        Value::num(kv_width),
                        Value::num(self.key_cache.len() as int),
                        Value::num(self.value_cache.len() as int),
                    ),
                ),
            )
        } else if heads % kv_heads != 0 {
            Some(AegisError::invalid("attention heads must be divisible by kv heads"))
        } else if self.start_position > u32::MAX {
            Some(super::wide("start_position", self.start_position as int))
        } else if batch > u32::MAX {
            Some(super::wide("batch", batch))
        } else if heads > u32::MAX {
            Some(super::wide("num_attention_heads", heads))
        } else if kv_heads > u32::MAX {
            Some(super::wide("num_kv_heads", kv_heads))
        } else if head_dim > u32::MAX {
            Some(super::wide("head_dim", head_dim))
        } else if self.cache_capacity() > u32::MAX {
            Some(super::wide("cache_capacity", self.cache_capacity()))
        } else {
            None
        }
    }

    /// The launch once its kernel is picked.
    pub open spec fn launch_steps(&self, kernel: PrefillBatchedKernel) -> Result<
        Seq<StepView>,
        AegisError,
    > {
        let shared = if kernel is Continuation {
            granted("prefill_dense_online", (CUDA_ATTENTION_BLOCK_DIM + self.head_dim + 3) * 4)
        } else {
            granted("prefill_dense_cache", self.legacy_shared_bytes())
        };
        match shared {
            Err(error) => Err(error),
            Ok(shared) => Ok(
                seq![
                    StepView::launching(
                        match kernel {
                            PrefillBatchedKernel::Warp => Kernel::AttentionPrefillBatchedWarp,
                            PrefillBatchedKernel::Continuation => Kernel::AttentionPrefillContinuation,
                            PrefillBatchedKernel::CacheOnly => Kernel::AttentionPrefillBatched,
                        },
                        "launch batched attention prefill",
                        LaunchConfig::of(
                            self.num_attention_heads as int,
                            self.batch as int,
                            1,
                            CUDA_ATTENTION_BLOCK_DIM as int,
                            shared as int,
                        ),
                        if kernel is Continuation {
                            seq![
                                Arg::Buffer(Operand::KeyCache),
                                Arg::Buffer(Operand::ValueCache),
                                Arg::Buffer(Operand::KeyChunk),
                                Arg::Buffer(Operand::ValueChunk),
                                Arg::Buffer(Operand::Query),
                                Arg::word(self.start_position as int),
                                Arg::word(self.batch as int),
                                Arg::word(self.num_attention_heads as int),
                                Arg::word(self.num_kv_heads as int),
                                Arg::word(self.head_dim as int),
                                Arg::word(self.cache_capacity()),
                                Arg::Buffer(Operand::Output),
                            ]
                        } else {
                            seq![
                                Arg::Buffer(Operand::KeyCache),
                                Arg::Buffer(Operand::ValueCache),
                                Arg::Buffer(Operand::Query),
                                Arg::word(self.start_position as int),
                                Arg::word(self.batch as int),
                                Arg::word(self.num_attention_heads as int),
                                Arg::word(self.num_kv_heads as int),
                                Arg::word(self.head_dim as int),
                                Arg::word(self.cache_capacity()),
                                Arg::Buffer(Operand::Output),
                            ]
                        },
                    ),
                ],
            ),
        }
    }

    /// The request as a whole: one block per query head and query.
    pub open spec fn steps(&self, config: CudaPrefillAttentionKernel) -> Result<
        Seq<StepView>,
        AegisError,
    > {
        if self.fault() is Some {
            Err(self.fault()->Some_0)
        } else {
            match super::batched_kernel(
                config,
                self.start_position as int,
                self.head_dim as int,
                self.legacy_shared_bytes(),
            ) {
                Err(error) => Err(error),
                Ok(kernel) => self.launch_steps(kernel),
            }
        }
    }

    /// Checks the dimensions and the lengths.
    fn check(&self) -> (checked: Result<(), AegisError>)
        ensures
            match checked {
                Ok(_) => self.fault() is None,
                Err(error) => self.fault() == Some(error),
            },
    {
        if self.num_kv_heads == 0 || self.num_attention_heads == 0 || self.head_dim == 0 {
            return Err(
                invalid_plan(
                    "prefill attention dimensions must be non-zero: q_heads={} kv_heads={} head_dim={}",
                    Values::Three(
                        number(self.num_attention_heads),
                        number(self.num_kv_heads),
                        number(self.head_dim),
                    ),
                ),
            );
        }
        let q_width: usize = checked_len(
            "prefill query width",
            self.num_attention_heads,
            self.head_dim,
        )?;
        let kv_width: usize = checked_len("prefill kv width", self.num_kv_heads, self.head_dim)?;
        let query_batch_len: usize = checked_len("prefill query batch", self.batch, q_width)?;
        let kv_batch_len: usize = checked_len("prefill kv batch", self.batch, kv_width)?;
        if self.query.len() < query_batch_len || self.output.len() < query_batch_len {
            return Err(
                invalid_plan("batched attention query/output shape mismatch", Values::Zero),
            );
        }
        if self.key_chunk.len() < kv_batch_len || self.value_chunk.len() < kv_batch_len {
            return Err(
                invalid_plan("batched attention current kv chunk shape mismatch", Values::Zero),
            );
        }
        let max_seq_len: usize = checked_sum("prefill max seq", self.start_position, self.batch)?;
        let missing = self.batch == 0 || self.key_cache.len() < checked_len(
            "prefill key cache",
            max_seq_len,
            kv_width,
        )? || self.value_cache.len() < checked_len("prefill value cache", max_seq_len, kv_width)?;
        if missing {
            return Err(
                invalid_plan(
                    "batched attention kv shape mismatch: start={} batch={} kv_width={} key_cache={} value_cache={}",
                    Values::Five(
                        number(self.start_position),
                        number(self.batch),
                        number(kv_width),
                        number(self.key_cache.len()),
                        number(self.value_cache.len()),
                    ),
                ),
            );
        }
        if self.num_attention_heads % self.num_kv_heads != 0 {
            return Err(
                invalid_plan("attention heads must be divisible by kv heads", Values::Zero),
            );
        }
        u32_arg("start_position", self.start_position)?;
        u32_arg("batch", self.batch)?;
        u32_arg("num_attention_heads", self.num_attention_heads)?;
        u32_arg("num_kv_heads", self.num_kv_heads)?;
        u32_arg("head_dim", self.head_dim)?;
        proof {
            vstd::arithmetic::mul::lemma_mul_strictly_positive(
                self.num_kv_heads as int,
                self.head_dim as int,
            );
        }
        u32_arg("cache_capacity", self.key_cache.len() / kv_width)?;
        Ok(())
    }

    /// Plans the launch once its kernel is picked.
    fn plan_launch(&self, kernel: PrefillBatchedKernel) -> (plan: Result<Plan, AegisError>)
        requires
            self.fault() is None,
        ensures
            Plan::outcome(plan) =~~= self.launch_steps(kernel),
    {
        proof {
            vstd::arithmetic::mul::lemma_mul_strictly_positive(
                self.num_kv_heads as int,
                self.head_dim as int,
            );
        }
        let capacity: u32 = (self.key_cache.len() / (self.num_kv_heads * self.head_dim)) as u32;
        let start: u32 = self.start_position as u32;
        let batch: u32 = self.batch as u32;
        let heads: u32 = self.num_attention_heads as u32;
        let kv_heads: u32 = self.num_kv_heads as u32;
        let head_dim: u32 = self.head_dim as u32;
        let continuation = matches!(kernel, PrefillBatchedKernel::Continuation);
        let shared_mem_bytes: u32 = if continuation {
            validate_dynamic_shared_bytes(
                "prefill_dense_online",
                (CUDA_ATTENTION_BLOCK_DIM as u64 + head_dim as u64 + 3) * 4,
            )?
        } else {
            validate_dynamic_shared_bytes(
                "prefill_dense_cache",
                (start as u64 + batch as u64) * 4 + CUDA_ATTENTION_BLOCK_DIM as u64 * 4,
            )?
        };
        let config = LaunchConfig {
            grid_dim: (heads, batch, 1),
            block_dim: (CUDA_ATTENTION_BLOCK_DIM, 1, 1),
            shared_mem_bytes,
        };
        if continuation {
            return Ok(
                Plan::launch(
                    Kernel::AttentionPrefillContinuation,
                    "launch batched attention prefill",
                    config,
                    vec![
                        Arg::Buffer(Operand::KeyCache),
                        Arg::Buffer(Operand::ValueCache),
                        Arg::Buffer(Operand::KeyChunk),
                        Arg::Buffer(Operand::ValueChunk),
                        Arg::Buffer(Operand::Query),
                        Arg::U32(start),
                        Arg::U32(batch),
                        Arg::U32(heads),
                        Arg::U32(kv_heads),
                        Arg::U32(head_dim),
                        Arg::U32(capacity),
                        Arg::Buffer(Operand::Output),
                    ],
                ),
            );
        }
        Ok(
            Plan::launch(
                if matches!(kernel, PrefillBatchedKernel::Warp) {
                    Kernel::AttentionPrefillBatchedWarp
                } else {
                    Kernel::AttentionPrefillBatched
                },
                "launch batched attention prefill",
                config,
                vec![
                    Arg::Buffer(Operand::KeyCache),
                    Arg::Buffer(Operand::ValueCache),
                    Arg::Buffer(Operand::Query),
                    Arg::U32(start),
                    Arg::U32(batch),
                    Arg::U32(heads),
                    Arg::U32(kv_heads),
                    Arg::U32(head_dim),
                    Arg::U32(capacity),
                    Arg::Buffer(Operand::Output),
                ],
            ),
        )
    }
}

impl CudaRuntime {
    /// Prefill attention in single precision over an unpaged cache.
    pub fn attention_prefill_batched_device(
        &self,
        key_cache: &DeviceBuffer<u16>,
        value_cache: &DeviceBuffer<u16>,
        key_chunk: &DeviceBuffer<F32>,
        value_chunk: &DeviceBuffer<F32>,
        query: &DeviceBuffer<F32>,
        start_position: usize,
        batch: usize,
        num_attention_heads: usize,
        num_kv_heads: usize,
        head_dim: usize,
        output: &DeviceBuffer<F32>,
    ) -> (plan: Result<Plan, AegisError>)
        ensures
            Plan::outcome(plan) == (BatchedPrefill {
                key_cache,
                value_cache,
                key_chunk,
                value_chunk,
                query,
                start_position,
                batch,
                num_attention_heads,
                num_kv_heads,
                head_dim,
                output,
            }).steps(self.config.prefill_attention),
    {
        let request = BatchedPrefill {
            key_cache,
            value_cache,
            key_chunk,
            value_chunk,
            query,
            start_position,
            batch,
            num_attention_heads,
            num_kv_heads,
            head_dim,
            output,
        };
        request.check()?;
        let kernel = select_prefill_batched_kernel(
            self.config.prefill_attention,
            start_position,
            head_dim,
            (start_position as u64 + batch as u64 + CUDA_ATTENTION_BLOCK_DIM as u64) * 4,
        )?;
        request.plan_launch(kernel)
    }
}

/// A prefill of one sequence whose keys and values are cached without pages, with
/// everything that any of its implementations may need.
pub struct CompatPrefill<'a> {
    pub key_cache: &'a DeviceBuffer<u16>,
    pub value_cache: &'a DeviceBuffer<u16>,
    pub key_chunk: &'a DeviceBuffer<F32>,
    pub value_chunk: &'a DeviceBuffer<F32>,
    pub query: &'a DeviceBuffer<F32>,
    pub query_half: &'a DeviceBuffer<u16>,
    pub query_half_ready: bool,
    pub split_acc: &'a DeviceBuffer<F32>,
    pub split_m: &'a DeviceBuffer<F32>,
    pub split_l: &'a DeviceBuffer<F32>,
    pub slot_mapping: &'a DeviceBuffer<u32>,
    pub cu_q: &'a DeviceBuffer<u32>,
    pub cu_k: &'a DeviceBuffer<u32>,
    pub context_lens: &'a DeviceBuffer<u32>,
    pub block_tables: &'a DeviceBuffer<u32>,
    pub num_sequences: usize,
    pub start_position: usize,
    pub batch: usize,
    pub num_attention_heads: usize,
    pub num_kv_heads: usize,
    pub head_dim: usize,
    pub output: &'a DeviceBuffer<F32>,
    pub dense_metadata: DensePrefillMetadataProof,
}

/// Settings under which the dense tensor-core kernels may be used.
pub open spec fn dense_setting(config: CudaPrefillAttentionKernel) -> bool {
    config is Auto || config is AegisVarlen || config is WarpFlash
}

impl CompatPrefill<'_> {
    /// The positions of the request.
    pub open spec fn context_len(&self) -> int {
        self.dense_metadata.context_len as int
    }

    /// The error for metadata that is not the identity.
    pub open spec fn unproven(&self) -> AegisError {
        AegisError::invalid_with(
            "dense varlen prefill adapter requires proven identity metadata: seqs={} cu_q={} context_lens={} slots={} start={} batch={} proof_start={} proof_batch={} proof_context={}",
            Values::Nine(
                Value::num(self.num_sequences as int),
                Value::num(self.cu_q.len() as int),
                Value::num(self.context_lens.len() as int),
                Value::num(self.slot_mapping.len() as int),
                Value::num(self.start_position as int),
                Value::num(self.batch as int),
                Value::num(self.dense_metadata.start_position as int),
                Value::num(self.dense_metadata.batch as int),
                Value::num(self.dense_metadata.context_len as int),
            ),
        )
    }

    /// What is wrong with the request before an implementation is picked.
    pub open spec fn fault(&self) -> Option<AegisError> {
        if self.num_sequences > u32::MAX {
            Some(super::wide("num_sequences", self.num_sequences as int))
        } else if self.start_position > u32::MAX {
            Some(super::wide("start_position", self.start_position as int))
        } else if self.batch > u32::MAX {
            Some(super::wide("batch", self.batch as int))
        } else if self.num_sequences != 1 || self.cu_q.len() < 2 || self.context_lens.len() == 0
            || self.slot_mapping.len() < self.batch || self.dense_metadata.start_position
            != self.start_position || self.dense_metadata.batch != self.batch {
            Some(self.unproven())
        } else if self.start_position + self.batch > usize::MAX {
            Some(
                AegisError::invalid_with(
                    "dense varlen prefill adapter position overflow: start={} batch={}",
                    Values::Two(
                        Value::num(self.start_position as int),
                        Value::num(self.batch as int),
                    ),
                ),
            )
        } else if self.dense_metadata.context_len != self.start_position + self.batch {
            Some(self.unproven())
        } else if self.num_kv_heads == 0 || self.num_attention_heads as int
            % self.num_kv_heads as int != 0 {
            Some(
                AegisError::invalid("dense prefill attention heads must be divisible by kv heads"),
            )
        } else {
            None
        }
    }

    /// The request to a dense kernel.
    pub open spec fn as_dense(&self) -> DensePrefill<'_> {
        DensePrefill {
            key_cache: self.key_cache,
            value_cache: self.value_cache,
            query_half: self.query_half,
            start_position: self.start_position,
            batch: self.batch,
            context_len: self.dense_metadata.context_len,
            num_attention_heads: self.num_attention_heads,
            num_kv_heads: self.num_kv_heads,
            head_dim: self.head_dim,
            output: self.output,
        }
    }

    /// The scratch of split-K attention.
    pub open spec fn scratch(&self) -> DenseScratch<'_> {
        DenseScratch { acc: self.split_acc, m: self.split_m, l: self.split_l }
    }

    /// The request in single precision.
    pub open spec fn as_batched(&self) -> BatchedPrefill<'_> {
        BatchedPrefill {
            key_cache: self.key_cache,
            value_cache: self.value_cache,
            key_chunk: self.key_chunk,
            value_chunk: self.value_chunk,
            query: self.query,
            start_position: self.start_position,
            batch: self.batch,
            num_attention_heads: self.num_attention_heads,
            num_kv_heads: self.num_kv_heads,
            head_dim: self.head_dim,
            output: self.output,
        }
    }

    /// The request over pages that are the identity.
    pub open spec fn as_paged(&self) -> CudaAttentionRequest<'_> {
        CudaAttentionRequest {
            q: self.query,
            q_half: Some(self.query_half),
            k_cache: self.key_cache,
            v_cache: self.value_cache,
            cu_q: self.cu_q,
            cu_k: self.cu_k,
            context_lens: self.context_lens,
            slot_mapping: self.slot_mapping,
            block_tables: self.block_tables,
            split_scratch: Some(
                CudaAttentionSplitScratch { acc: self.split_acc, m: self.split_m, l: self.split_l },
            ),
            output: self.output,
            num_sequences: self.num_sequences,
            num_prefill_tokens: self.batch,
            num_decode_tokens: 0,
            max_q: self.batch,
            max_k: self.dense_metadata.context_len,
            block_table_stride: super::split_count(
                self.context_len(),
                FLASH_COMPAT_PAGE_TOKENS as int,
            ) as usize,
            head_dim: self.head_dim,
            num_q_heads: self.num_attention_heads,
            num_kv_heads: self.num_kv_heads,
            causal: true,
        }
    }

    /// Elements of all query tokens.
    pub open spec fn q_len(&self) -> int {
        self.batch * (self.num_attention_heads * self.head_dim)
    }

    /// What is wrong with the number of query elements.
    pub open spec fn q_len_fault(&self, width: &'static str, all: &'static str) -> Option<AegisError> {
        let q_width = self.num_attention_heads * self.head_dim;
        if q_width > usize::MAX {
            Some(super::long_product(width, self.num_attention_heads as int, self.head_dim as int))
        } else if self.q_len() > usize::MAX {
            Some(super::long_product(all, self.batch as int, q_width))
        } else {
            None
        }
    }

    /// `rest`, after the queries were brought to half precision where they are not.
    pub open spec fn after_conversion(&self, rest: Result<Seq<StepView>, AegisError>) -> Result<
        Seq<StepView>,
        AegisError,
    > {
        if self.query_half_ready {
            rest
        } else {
            Ok(
                Plan::spec_then(
                    seq![
                        StepView::ConvertToHalf {
                            input: Operand::Query,
                            len: self.q_len() as usize,
                            output: Operand::QueryHalf,
                        },
                    ],
                    rest,
                ),
            )
        }
    }

    /// The dense kernel for head dimension 128.
    pub open spec fn hdim128_steps(&self, rt: CudaRuntime, switches: AttentionSwitches) -> Result<
        Seq<StepView>,
        AegisError,
    > {
        let dense = self.as_dense();
        let split_tokens = rt.tuning.dense_split_k_tokens as int;
        let group = self.num_attention_heads as int / self.num_kv_heads as int;
        let split = switches.split_k() && self.context_len() >= split_tokens * 2
            && dense.scratch_fits(self.scratch(), split_tokens);
        if rt.config.prefill_attention is WarpFlash {
            dense.warp_tile_steps()
        } else if split && group >= DENSE_WMMA_GQA4_HEADS {
            dense.grouped_split_steps(self.scratch(), split_tokens)
        } else if split {
            dense.split_steps(self.scratch(), split_tokens)
        } else if switches.experimental_cluster && self.context_len() >= 1024 {
            dense.cluster2_steps()
        } else if switches.experimental_persistent && self.context_len() >= 1024 {
            dense.persistent_steps()
        } else if group >= DENSE_WMMA_GQA4_HEADS {
            dense.grouped_steps()
        } else if switches.legacy_wmma {
            dense.wmma_steps()
        } else {
            dense.flash_steps()
        }
    }

    /// The dense tensor-core kernels apply to this head dimension.
    pub open spec fn dense_for(&self, config: CudaPrefillAttentionKernel, head_dim: int) -> bool {
        dense_setting(config) && self.head_dim == head_dim && self.batch >= DENSE_WARP_TILE_Q_BLOCK
    }

    /// A first prefill that the batched kernels serve from shared memory.
    pub open spec fn batched_first(&self, config: CudaPrefillAttentionKernel) -> bool {
        dense_setting(config) && self.start_position == 0 && self.head_dim % 32 == 0 && self.head_dim
            <= 256 && (self.context_len() + CUDA_ATTENTION_BLOCK_DIM) * 4 <= SHARED_BYTES_LIMIT
    }

    /// None of the dense tensor-core kernels and no first prefill.
    pub open spec fn undecided(&self, config: CudaPrefillAttentionKernel) -> bool {
        !self.dense_for(config, 256) && !self.dense_for(config, 128) && !self.batched_first(config)
    }

    /// The tiled half-precision kernel is picked.
    pub open spec fn tiled(&self, rt: CudaRuntime) -> bool {
        &&& self.fault() is None
        &&& self.undecided(rt.config.prefill_attention)
        &&& super::dispatch::prefill_backend(rt, self.context_len()) == Ok::<_, AegisError>(
            CudaAttentionBackend::AegisVarlen,
        )
        &&& self.context_len() >= rt.tuning.varlen_min_context
        &&& self.q_len_fault("dense varlen query half width", "dense varlen query half conversion")
            is None
        &&& self.query_half_ready
        &&& self.query_half.len() >= self.q_len()
        &&& self.head_dim <= 256
        &&& self.batch >= TILED_HALFQ_Q_BLOCK
    }

    /// The request once no dense tensor-core kernel was picked.
    pub open spec fn undecided_steps(&self, rt: CudaRuntime) -> Result<Seq<StepView>, AegisError> {
        let q_len_fault = self.q_len_fault(
            "dense varlen query half width",
            "dense varlen query half conversion",
        );
        match super::dispatch::prefill_backend(rt, self.context_len()) {
            Err(error) => Err(error),
            Ok(backend) => if (backend is AegisVarlen || backend is FlashAttention4)
                && self.context_len() >= rt.tuning.varlen_min_context {
                if q_len_fault is Some {
                    Err(q_len_fault->Some_0)
                } else if self.query_half_ready && self.query_half.len() < self.q_len() {
                    Err(
                        AegisError::invalid_with(
                            "dense varlen prefill q_half shape mismatch: required={} actual={}",
                            Values::Two(
                                Value::num(self.q_len()),
                                Value::num(self.query_half.len() as int),
                            ),
                        ),
                    )
                } else if self.tiled(rt) {
                    self.as_dense().block4_steps()
                } else {
                    self.after_conversion(self.as_paged().steps(rt))
                }
            } else {
                self.as_batched().steps(rt.config.prefill_attention)
            },
        }
    }

    /// The request as a whole.
    pub open spec fn steps(&self, rt: CudaRuntime, switches: AttentionSwitches) -> Result<
        Seq<StepView>,
        AegisError,
    > {
        let config = rt.config.prefill_attention;
        let wide_fault = self.q_len_fault(
            "dense wmma hdim256 q width",
            "dense wmma hdim256 query half width",
        );
        let narrow_fault = self.q_len_fault(
            "dense warp-tile query half width",
            "dense warp-tile query half conversion",
        );
        if self.fault() is Some {
            Err(self.fault()->Some_0)
        } else if self.dense_for(config, 256) {
            if wide_fault is Some {
                Err(wide_fault->Some_0)
            } else {
                self.after_conversion(self.as_dense().wmma_steps())
            }
        } else if self.dense_for(config, 128) {
            if narrow_fault is Some {
                Err(narrow_fault->Some_0)
            } else if self.query_half_ready && self.query_half.len() < self.q_len() {
                Err(
                    AegisError::invalid_with(
                        "dense warp-tile q_half shape mismatch: required={} actual={}",
                        Values::Two(
                            Value::num(self.q_len()),
                            Value::num(self.query_half.len() as int),
                        ),
                    ),
                )
            } else {
                self.after_conversion(self.hdim128_steps(rt, switches))
            }
        } else if self.batched_first(config) {
            self.as_batched().steps(config)
        } else {
            self.undecided_steps(rt)
        }
    }

    /// Checks the request before an implementation is picked.
    fn check(&self) -> (checked: Result<(), AegisError>)
        ensures
            match checked {
                Ok(_) => self.fault() is None,
                Err(error) => self.fault() == Some(error),
            },
    {
        u32_arg("num_sequences", self.num_sequences)?;
        u32_arg("start_position", self.start_position)?;
        u32_arg("batch", self.batch)?;
        let mut proven = self.num_sequences == 1 && self.cu_q.len() >= 2
            && !self.context_lens.is_empty() && self.slot_mapping.len() >= self.batch
            && self.dense_metadata.start_position == self.start_position
            && self.dense_metadata.batch == self.batch;
        if proven {
            match self.start_position.checked_add(self.batch) {
                Some(end) => {
                    proven = self.dense_metadata.context_len == end;
                },
                None => {
                    return Err(
                        invalid_plan(
                            "dense varlen prefill adapter position overflow: start={} batch={}",
                            Values::Two(number(self.start_position), number(self.batch)),
                        ),
                    );
                },
            }
        }
        if !proven {
            return Err(
                invalid_plan(
                    "dense varlen prefill adapter requires proven identity metadata: seqs={} cu_q={} context_lens={} slots={} start={} batch={} proof_start={} proof_batch={} proof_context={}",
                    Values::Nine(
                        number(self.num_sequences),
                        number(self.cu_q.len()),
                        number(self.context_lens.len()),
                        number(self.slot_mapping.len()),
                        number(self.start_position),
                        number(self.batch),
                        number(self.dense_metadata.start_position),
                        number(self.dense_metadata.batch),
                        number(self.dense_metadata.context_len),
                    ),
                ),
            );
        }
        if self.num_kv_heads == 0 || self.num_attention_heads % self.num_kv_heads != 0 {
            return Err(
                invalid_plan(
                    "dense prefill attention heads must be divisible by kv heads",
                    Values::Zero,
                ),
            );
        }
        Ok(())
    }

    /// Elements of all query tokens, if that is a length.
    fn query_len(&self, width: &'static str, all: &'static str) -> (len: Result<usize, AegisError>)
        ensures
            match len {
                Ok(len) => self.q_len_fault(width, all) is None && len == self.q_len(),
                Err(error) => self.q_len_fault(width, all) == Some(error),
            },
    {
        let q_width: usize = checked_len(width, self.num_attention_heads, self.head_dim)?;
        checked_len(all, self.batch, q_width)
    }

    /// Puts the conversion of the queries in front of `rest` where it is needed.
    fn convert_first(&self, q_len: usize, rest: Result<Plan, AegisError>) -> (plan: Result<
        Plan,
        AegisError,
    >)
        requires
            q_len == self.q_len(),
        ensures
            Plan::outcome(plan) == self.after_conversion(Plan::outcome(rest)),
    {
        if self.query_half_ready {
            return rest;
        }
        let convert = Plan::of(
            Step::ConvertToHalf { input: Operand::Query, len: q_len, output: Operand::QueryHalf },
        );
        Ok(convert.then_outcome(rest))
    }

    /// The request to a dense kernel.
    fn dense(&self) -> (dense: DensePrefill<'_>)
        ensures
            dense == self.as_dense(),
    {
        DensePrefill {
            key_cache: self.key_cache,
            value_cache: self.value_cache,
            query_half: self.query_half,
            start_position: self.start_position,
            batch: self.batch,
            context_len: self.dense_metadata.context_len,
            num_attention_heads: self.num_attention_heads,
            num_kv_heads: self.num_kv_heads,
            head_dim: self.head_dim,
            output: self.output,
        }
    }
}

impl CudaRuntime {
    /// Plans [`CompatPrefill::hdim128_steps`].
    fn plan_dense_hdim128(&self, request: &CompatPrefill<'_>, switches: &AttentionSwitches) -> (plan: Result<
        Plan,
        AegisError,
    >)
        requires
            self.wf(),
            request.fault() is None,
            request.head_dim == 128,
        ensures
            Plan::outcome(plan) == request.hdim128_steps(*self, *switches),
    {
        let dense = request.dense();
        let scratch = DenseScratch {
            acc: request.split_acc,
            m: request.split_m,
            l: request.split_l,
        };
        let context_len: usize = request.dense_metadata.context_len;
        let group: usize = request.num_attention_heads / request.num_kv_heads;
        if matches!(self.config.prefill_attention, CudaPrefillAttentionKernel::WarpFlash) {
            return self.attention_prefill_dense_halfq_warp_tile_hdim128_device(&dense);
        }
        let split_tokens: usize = self.tuning.dense_split_k_tokens;
        let split = dense_wmma_split_k_enabled(switches) && context_len >= split_tokens * 2
            && dense.has_scratch(&scratch, split_tokens);
        if split && group >= DENSE_WMMA_GQA4_HEADS {
            self.attention_prefill_dense_halfq_wmma_hdim128_gqa4_split_device(&dense, &scratch)
        } else if split {
            self.attention_prefill_dense_halfq_wmma_hdim128_split_device(&dense, &scratch)
        } else if dense_wmma_cluster2_enabled(switches) && context_len >= 1024 {
            self.attention_prefill_dense_halfq_wmma_hdim128_cluster2_device(&dense)
        } else if dense_wmma_q32_enabled(switches) && context_len >= 1024 {
            self.attention_prefill_dense_halfq_wmma_hdim128_q32_device(&dense)
        } else if group >= DENSE_WMMA_GQA4_HEADS {
            self.attention_prefill_dense_halfq_wmma_hdim128_gqa4_device(&dense)
        } else if dense_wmma_legacy_enabled(switches) {
            self.attention_prefill_dense_halfq_wmma_hdim_device(&dense)
        } else {
            self.attention_prefill_dense_halfq_wmma_hdim128_fa_device(&dense)
        }
    }

    /// Plans [`CompatPrefill::undecided_steps`].
    fn plan_dense_undecided(&self, request: &CompatPrefill<'_>) -> (plan: Result<Plan, AegisError>)
        requires
            request.fault() is None,
            request.undecided(self.config.prefill_attention),
            request.head_dim > 0 || !request.tiled(*self) || request.key_cache.len()
                != request.value_cache.len(),
        ensures
            Plan::outcome(plan) == request.undecided_steps(*self),
    {
        let context_len: usize = request.dense_metadata.context_len;
        let backend = self.select_prefill_attention_backend(context_len)?;
        let paged = matches!(
            backend,
            CudaAttentionBackend::AegisVarlen | CudaAttentionBackend::FlashAttention4
        ) && context_len >= self.tuning.varlen_min_context;
        if !paged {
            return self.attention_prefill_batched_device(
                request.key_cache,
                request.value_cache,
                request.key_chunk,
                request.value_chunk,
                request.query,
                request.start_position,
                request.batch,
                request.num_attention_heads,
                request.num_kv_heads,
                request.head_dim,
                request.output,
            );
        }
        let q_len: usize = request.query_len(
            "dense varlen query half width",
            "dense varlen query half conversion",
        )?;
        if request.query_half_ready && request.query_half.len() < q_len {
            return Err(
                invalid_plan(
                    "dense varlen prefill q_half shape mismatch: required={} actual={}",
                    Values::Two(number(q_len), number(request.query_half.len())),
                ),
            );
        }
        if matches!(backend, CudaAttentionBackend::AegisVarlen) && request.query_half_ready
            && request.head_dim <= 256 && request.batch >= TILED_HALFQ_Q_BLOCK {
            assert(request.tiled(*self));
            return self.attention_prefill_dense_halfq_block4_device(&request.dense());
        }
        let stride: usize = split_count_of(context_len, FLASH_COMPAT_PAGE_TOKENS);
        let rest = self.attention_prefill_paged_varlen_device(
            request.key_cache,
            request.value_cache,
            request.query,
            Some(request.query_half),
            Some((request.split_acc, request.split_m, request.split_l)),
            request.slot_mapping,
            request.cu_q,
            request.cu_k,
            request.context_lens,
            request.block_tables,
            request.num_sequences,
            request.batch,
            0,
            request.batch,
            context_len,
            stride,
            request.num_attention_heads,
            request.num_kv_heads,
            request.head_dim,
            request.output,
        );
        request.convert_first(q_len, rest)
    }

    /// Plans [`CompatPrefill::steps`].
    fn plan_dense_compat(
        &self,
        request: &CompatPrefill<'_>,
        switches: &AttentionSwitches,
    ) -> (plan: Result<Plan, AegisError>)
        requires
            self.wf(),
            request.head_dim > 0 || !request.tiled(*self) || request.key_cache.len()
                != request.value_cache.len(),
        ensures
            Plan::outcome(plan) == request.steps(*self, *switches),
    {
        request.check()?;
        let dense_allowed = matches!(
            self.config.prefill_attention,
            CudaPrefillAttentionKernel::Auto
                | CudaPrefillAttentionKernel::AegisVarlen
                | CudaPrefillAttentionKernel::WarpFlash
        );
        let context_len: usize = request.dense_metadata.context_len;
        if dense_allowed && request.head_dim == 256 && request.batch >= DENSE_WARP_TILE_Q_BLOCK {
            let q_len: usize = request.query_len(
                "dense wmma hdim256 q width",
                "dense wmma hdim256 query half width",
            )?;
            let rest = self.attention_prefill_dense_halfq_wmma_hdim_device(&request.dense());
            return request.convert_first(q_len, rest);
        }
        if dense_allowed && request.head_dim == 128 && request.batch >= DENSE_WARP_TILE_Q_BLOCK {
            let q_len: usize = request.query_len(
                "dense warp-tile query half width",
                "dense warp-tile query half conversion",
            )?;
            if request.query_half_ready && request.query_half.len() < q_len {
                return Err(
                    invalid_plan(
                        "dense warp-tile q_half shape mismatch: required={} actual={}",
                        Values::Two(number(q_len), number(request.query_half.len())),
                    ),
                );
            }
            let rest = self.plan_dense_hdim128(request, switches);
            return request.convert_first(q_len, rest);
        }
        let legacy_shared_bytes: u64 = (context_len as u64 + CUDA_ATTENTION_BLOCK_DIM as u64) * 4;
        if dense_allowed && request.start_position == 0 && request.head_dim % 32 == 0
            && request.head_dim <= 256 && legacy_shared_bytes <= SHARED_BYTES_LIMIT {
            return self.attention_prefill_batched_device(
                request.key_cache,
                request.value_cache,
                request.key_chunk,
                request.value_chunk,
                request.query,
                request.start_position,
                request.batch,
                request.num_attention_heads,
                request.num_kv_heads,
                request.head_dim,
                request.output,
            );
        }
        self.plan_dense_undecided(request)
    }

    /// Prefill attention of one sequence over an unpaged cache, by whichever
    /// implementation the settings and the shape call for.
    pub fn attention_prefill_dense_compat_device(
        &self,
        key_cache: &DeviceBuffer<u16>,
        value_cache: &DeviceBuffer<u16>,
        key_chunk: &DeviceBuffer<F32>,
        value_chunk: &DeviceBuffer<F32>,
        query: &DeviceBuffer<F32>,
        query_half: &DeviceBuffer<u16>,
        query_half_ready: bool,
        split_acc: &DeviceBuffer<F32>,
        split_m: &DeviceBuffer<F32>,
        split_l: &DeviceBuffer<F32>,
        slot_mapping: &DeviceBuffer<u32>,
        cu_q: &DeviceBuffer<u32>,
        cu_k: &DeviceBuffer<u32>,
        context_lens: &DeviceBuffer<u32>,
        block_tables: &DeviceBuffer<u32>,
        num_sequences: usize,
        start_position: usize,
        batch: usize,
        num_attention_heads: usize,
        num_kv_heads: usize,
        head_dim: usize,
        output: &DeviceBuffer<F32>,
        dense_metadata: DensePrefillMetadataProof,
        switches: &AttentionSwitches,
    ) -> (plan: Result<Plan, AegisError>)
        requires
            self.wf(),
            head_dim > 0 || key_cache.len() != value_cache.len() || !(CompatPrefill {
                key_cache,
                value_cache,
                key_chunk,
                value_chunk,
                query,
                query_half,
                query_half_ready,
                split_acc,
                split_m,
                split_l,
                slot_mapping,
                cu_q,
                cu_k,
                context_lens,
                block_tables,
                num_sequences,
                start_position,
                batch,
                num_attention_heads,
                num_kv_heads,
                head_dim,
                output,
                dense_metadata,
            }).tiled(*self),
        ensures
            Plan::outcome(plan) == (CompatPrefill {
                key_cache,
                value_cache,
                key_chunk,
                value_chunk,
                query,
                query_half,
                query_half_ready,
                split_acc,
                split_m,
                split_l,
                slot_mapping,
                cu_q,
                cu_k,
                context_lens,
                block_tables,
                num_sequences,
                start_position,
                batch,
                num_attention_heads,
                num_kv_heads,
                head_dim,
                output,
                dense_metadata,
            }).steps(*self, *switches),
    {
        let request = CompatPrefill {
            key_cache,
            value_cache,
            key_chunk,
            value_chunk,
            query,
            query_half,
            query_half_ready,
            split_acc,
            split_m,
            split_l,
            slot_mapping,
            cu_q,
            cu_k,
            context_lens,
            block_tables,
            num_sequences,
            start_position,
            batch,
            num_attention_heads,
            num_kv_heads,
            head_dim,
            output,
            dense_metadata,
        };
        self.plan_dense_compat(&request, switches)
    }
}

} // verus!
