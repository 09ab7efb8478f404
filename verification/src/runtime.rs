//! The runtime of one device: what it is and what it may be asked to launch.
use crate::config::{CudaRuntimeConfig, PrefillTuning};
use crate::error::{invalid_plan, AegisError, Message, Value, Values};
use crate::expert_cache::VramExpertCache;
use crate::text::{self, has_prefix};
use vstd::prelude::*;

pub mod attention;
pub mod blackwell;
pub mod cublaslt;
pub mod cutlass;
pub mod cutlass_moe_smoke;
pub mod fp4_reference;
pub mod fp8_mma_smoke;
pub mod graph;
pub mod kv;
pub mod linear;
pub mod memory;
pub mod moe_gpu_driven;
pub mod rng;

verus! {

/// The runtime of one CUDA device.
pub struct CudaRuntime {
    pub device_index: usize,
    pub compute_capability: Option<String>,
    pub config: CudaRuntimeConfig,
    pub tuning: PrefillTuning,
    pub expert_cache: Option<VramExpertCache>,
}

impl CudaRuntime {
    /// The tuning is usable: a split holds at least one token, and twice its
    /// size is still a length.
    pub open spec fn wf(&self) -> bool {
        &&& self.tuning.dense_split_k_tokens > 0
        &&& self.tuning.dense_split_k_tokens * 2 <= usize::MAX
    }

    /// The compute capability as text, if the device reports one.
    pub open spec fn capability(&self) -> Option<Seq<char>> {
        match self.compute_capability {
            Some(text) => Some(text@),
            None => None,
        }
    }

    /// The device reports a compute capability `12.x`.
    pub open spec fn is_sm120(&self) -> bool {
        match self.capability() {
            Some(text) => text::begins(text, "12."@),
            None => false,
        }
    }

    /// The runtime of a device with the given settings.
    pub fn new_with_config(
        device_index: usize,
        compute_capability: Option<String>,
        config: CudaRuntimeConfig,
        tuning: PrefillTuning,
    ) -> (runtime: Self)
        requires
            tuning.dense_split_k_tokens > 0,
            tuning.dense_split_k_tokens * 2 <= usize::MAX,
        ensures
            runtime.wf(),
            runtime.device_index == device_index,
            runtime.compute_capability == compute_capability,
            runtime.config == config,
            runtime.tuning == tuning,
            runtime.expert_cache is None,
    {
        CudaRuntime { device_index, compute_capability, config, tuning, expert_cache: None }
    }

    /// Installs the expert cache, once.
    pub fn install_expert_cache(
        &mut self,
        cache: VramExpertCache,
    ) -> (installed: Result<(), AegisError>)
        ensures
            old(self).expert_cache is None ==> installed is Ok && *final(self) == (CudaRuntime {
                expert_cache: Some(cache),
                ..*old(self)
            }),
            old(self).expert_cache is Some ==> *final(self) == *old(self) && installed == Err::<
                (),
                _,
            >(AegisError::invalid("expert cache already installed")),
    {
        if self.expert_cache.is_some() {
            return Err(invalid_plan("expert cache already installed", Values::Zero));
        }
        self.expert_cache = Some(cache);
        Ok(())
    }

    /// The expert cache, if one was installed.
    pub fn expert_cache(&self) -> (cache: Option<&VramExpertCache>)
        ensures
            match cache {
                Some(cache) => self.expert_cache == Some(*cache),
                None => self.expert_cache is None,
            },
    {
        match &self.expert_cache {
            Some(cache) => Some(cache),
            None => None,
        }
    }

    /// The index of the device.
    pub fn device_index(&self) -> (index: usize)
        ensures
            index == self.device_index,
    {
        self.device_index
    }

    /// The settings of the runtime.
    pub fn config(&self) -> (config: CudaRuntimeConfig)
        ensures
            config == self.config,
    {
        self.config
    }

    /// The compute capability of the device, if it reports one.
    pub fn compute_capability(&self) -> (capability: Option<&str>)
        ensures
            match capability {
                Some(text) => self.capability() == Some(text@),
                None => self.capability() is None,
            },
    {
        match &self.compute_capability {
            Some(text) => Some(text.as_str()),
            None => None,
        }
    }

    /// Whether the device reports a compute capability `12.x`.
    pub fn reports_sm120(&self) -> (yes: bool)
        ensures
            yes == self.is_sm120(),
    {
        match self.compute_capability() {
            Some(text) => has_prefix(text, "12."),
            None => false,
        }
    }
}

/// How many blocks of `divisor` hold `value` items.
pub open spec fn blocks(value: int, divisor: int) -> int {
    (value + divisor - 1) / divisor
}

/// `value / divisor`, rounded up.
pub fn ceil_div(value: u32, divisor: u32) -> (quotient: u32)
    requires
        divisor > 0,
    ensures
        quotient == blocks(value as int, divisor as int),
{
    proof {
        lemma_blocks(value as int, divisor as int);
    }
    let whole: u32 = value / divisor;
    if value % divisor == 0 {
        whole
    } else {
        whole + 1
    }
}

/// `value / divisor`, rounded up.
pub fn div_ceil(value: usize, divisor: usize) -> (quotient: usize)
    requires
        divisor > 0,
    ensures
        quotient == blocks(value as int, divisor as int),
        quotient <= value,
{
    proof {
        lemma_blocks(value as int, divisor as int);
    }
    let whole: usize = value / divisor;
    if value % divisor == 0 {
        whole
    } else {
        whole + 1
    }
}

/// The blocks cover every item, and the last one is not superfluous.
pub proof fn lemma_blocks(value: int, divisor: int)
    requires
        value >= 0,
        divisor > 0,
    ensures
        blocks(value, divisor) == value / divisor + (if value % divisor == 0 { 0int } else { 1int }),
        0 <= blocks(value, divisor) <= value,
        blocks(value, divisor) * divisor >= value,
        value > 0 ==> (blocks(value, divisor) - 1) * divisor < value,
{
    let q = value / divisor;
    let r = value % divisor;
    vstd::arithmetic::div_mod::lemma_fundamental_div_mod(value, divisor);
    vstd::arithmetic::div_mod::lemma_mod_bound(value, divisor);
    vstd::arithmetic::div_mod::lemma_div_pos_is_pos(value, divisor);
    let up: int = if r == 0 { 0 } else { 1 };
    assert(value + divisor - 1 == (q + up) * divisor + (if r == 0 { divisor - 1 } else { r - 1 }))
        by (nonlinear_arith)
        requires
            value == divisor * q + r,
            up == (if r == 0 { 0int } else { 1int }),
    ;
    vstd::arithmetic::div_mod::lemma_fundamental_div_mod_converse(
        value + divisor - 1,
        divisor,
        q + up,
        if r == 0 { divisor - 1 } else { r - 1 },
    );
    assert((q + up) * divisor >= value && (value > 0 ==> (q + up - 1) * divisor < value) && q + up
        <= value) by (nonlinear_arith)
        requires
            value == divisor * q + r,
            0 <= r < divisor,
            q >= 0,
            divisor > 0,
            up == (if r == 0 { 0int } else { 1int }),
    ;
}

/// The error for a device call that failed at `stage`; `detail` is what the
/// driver had to say.
pub fn map_cuda_err(stage: &'static str, detail: String) -> (error: AegisError)
    ensures
        error == AegisError::Unsupported(
            Message {
                text: "cuda stage `{}` failed: {}",
                values: Values::Two(Value::Label(stage), Value::Name(detail)),
            },
        ),
{
    AegisError::Unsupported(
        Message {
            text: "cuda stage `{}` failed: {}",
            values: Values::Two(Value::Label(stage), Value::Name(detail)),
        },
    )
}

} // verus!
