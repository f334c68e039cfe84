//! Builder for context parameters.
//!
//! Use [`LlamaContextParams`] to configure context size, batching, cache layout, position
//! scaling, and the tensor program that a context owns.

pub mod types;

pub use crate::context::params::types::{LlamaContextType, LlamaPoolingType, RopeScalingType};

use crate::context::tensor_transaction::TensorTransactions;
use crate::float32::Float32;
use vstd::prelude::*;
use vstd::string::*;

verus! {

/// The native code of half-precision cache elements.
pub const NATIVE_TYPE_F16: u32 = 1;

/// Error returned when [`LlamaContextParams::try_clone`] cannot duplicate state.
#[derive(Clone, Copy, Debug, PartialEq, Eq, Structural)]
pub enum ParamsCloneError {
    /// Per-sequence sampler chains cannot be duplicated.
    SamplerChains,
    /// Owned tensor transaction handlers cannot be duplicated.
    TensorTransactions,
}

impl ParamsCloneError {
    /// The error as text.
    pub open spec fn display(self) -> Seq<char> {
        match self {
            ParamsCloneError::SamplerChains =>
                "cannot clone params that own per-sequence sampler chains"@,
            ParamsCloneError::TensorTransactions =>
                "cannot clone params that own tensor transactions"@,
        }
    }

    /// Writes the error as text.
    pub fn to_string(&self) -> (text: String)
        ensures
            text@ == self.display(),
    {
        match self {
            ParamsCloneError::SamplerChains =>
                "cannot clone params that own per-sequence sampler chains".to_owned(),
            ParamsCloneError::TensorTransactions =>
                "cannot clone params that own tensor transactions".to_owned(),
        }
    }
}

/// The evaluation callback of a context.
#[derive(Clone, Copy, Debug, PartialEq, Eq, Structural)]
pub enum EvalCallback {
    /// No callback.
    Unset,
    /// A callback of the caller's own, by its address.
    Custom(usize),
    /// The callback of a tensor capture.
    TensorCapture,
    /// The callback of owned tensor transactions.
    TensorTransactions,
}

/// What an evaluation callback is handed with each call.
#[derive(Clone, Copy, Debug, PartialEq, Eq, Structural)]
pub enum CallbackData {
    /// Nothing.
    Null,
    /// The data at an address.
    Address(usize),
    /// The tensor transactions that the parameters own.
    OwnedTransactions,
}

/// A sampler chain attached to one sequence.
#[derive(Clone, Copy, Debug, PartialEq, Eq, Structural)]
pub struct SamplerSeqConfig {
    /// The sequence.
    pub seq_id: i32,
    /// The chain, by its address.
    pub sampler: usize,
}

/// The plain settings of a context.
#[derive(Clone, Copy, Debug, PartialEq)]
pub struct ContextSettings {
    /// Context size; zero where the model specifies it.
    pub n_ctx: u32,
    /// Tokens in one batch.
    pub n_batch: u32,
    /// Tokens in one micro-batch.
    pub n_ubatch: u32,
    /// Independent sequence states.
    pub n_seq_max: u32,
    /// Recurrent-state snapshots per sequence.
    pub n_rs_seq: u32,
    /// Threads for generation.
    pub n_threads: i32,
    /// Threads for batches.
    pub n_threads_batch: i32,
    /// Context type.
    pub ctx_type: LlamaContextType,
    /// Position scaling.
    pub rope_scaling_type: RopeScalingType,
    /// Embedding pooling.
    pub pooling_type: LlamaPoolingType,
    /// Rope frequency base; zero where the model specifies it.
    pub rope_freq_base: Float32,
    /// Rope frequency scale; zero where the model specifies it.
    pub rope_freq_scale: Float32,
    /// Element type code of the key cache.
    pub type_k: u32,
    /// Element type code of the value cache.
    pub type_v: u32,
    /// Whether embeddings are extracted.
    pub embeddings: bool,
    /// Whether cache and attention operations are offloaded.
    pub offload_kqv: bool,
    /// Whether the attention rotation is disabled.
    pub attn_rot_disabled: bool,
    /// Evaluation callback.
    pub cb_eval: EvalCallback,
    /// What the evaluation callback is handed.
    pub cb_eval_user_data: CallbackData,
    /// Whether the decode begin and end hooks of tensor transactions are installed.
    pub decode_hooks: bool,
}

/// The settings of a context unless told otherwise.
pub open spec fn default_settings() -> ContextSettings {
    ContextSettings {
        n_ctx: 512,
        n_batch: 2048,
        n_ubatch: 512,
        n_seq_max: 1,
        n_rs_seq: 0,
        n_threads: 4,
        n_threads_batch: 4,
        ctx_type: LlamaContextType::Default,
        rope_scaling_type: RopeScalingType::Unspecified,
        pooling_type: LlamaPoolingType::Unspecified,
        rope_freq_base: Float32 { bits: 0 },
        rope_freq_scale: Float32 { bits: 0 },
        type_k: NATIVE_TYPE_F16,
        type_v: NATIVE_TYPE_F16,
        embeddings: false,
        offload_kqv: true,
        attn_rot_disabled: false,
        cb_eval: EvalCallback::Unset,
        cb_eval_user_data: CallbackData::Null,
        decode_hooks: false,
    }
}

/// The mathematical content of context parameters.
#[verifier::ext_equal]
pub struct LlamaContextParamsView {
    /// Plain settings.
    pub settings: ContextSettings,
    /// Attached sampler chains.
    pub samplers: Seq<SamplerSeqConfig>,
    /// Owned tensor transactions.
    pub transactions: Option<TensorTransactions>,
}

impl LlamaContextParamsView {
    /// The parameters with other settings.
    pub open spec fn with(self, settings: ContextSettings) -> Self {
        LlamaContextParamsView { settings, ..self }
    }

    /// What a clone keeps: neither sampler chains nor owned transactions, nor the callbacks that
    /// came with the transactions.
    pub open spec fn cloned(self) -> Self {
        LlamaContextParamsView {
            settings: if self.transactions is Some {
                ContextSettings {
                    cb_eval: EvalCallback::Unset,
                    cb_eval_user_data: CallbackData::Null,
                    decode_hooks: false,
                    ..self.settings
                }
            } else {
                self.settings
            },
            samplers: Seq::empty(),
            transactions: None,
        }
    }
}

/// Builder for the parameters of a context.
///
/// Construct with [`Default::default`] and chain `with_*` setters. Getters mirror the settings.
///
/// Sampler chains and tensor transactions are owned until the context is created. A clone drops
/// both, because neither can be duplicated.
pub struct LlamaContextParams {
    settings: ContextSettings,
    sampler_configs: Vec<SamplerSeqConfig>,
    tensor_transactions: Option<TensorTransactions>,
}

impl View for LlamaContextParams {
    type V = LlamaContextParamsView;

    closed spec fn view(&self) -> LlamaContextParamsView {
        LlamaContextParamsView {
            settings: self.settings,
            samplers: self.sampler_configs@,
            transactions: self.tensor_transactions,
        }
    }
}

impl LlamaContextParams {
    /// Returns the plain settings.
    pub fn settings(&self) -> (settings: ContextSettings)
        ensures
            settings == self@.settings,
    {
        self.settings
    }

    /// Sets the size of the context; none, or zero, leaves it to the model.
    pub fn with_n_ctx(self, n_ctx: Option<u32>) -> (params: Self)
        ensures
            params@ == self@.with(
                ContextSettings {
                    n_ctx: match n_ctx {
                        Some(n_ctx) => n_ctx,
                        None => 0,
                    },
                    ..self@.settings
                },
            ),
    {
        let n_ctx: u32 = match n_ctx {
            Some(n_ctx) => n_ctx,
            None => 0,
        };
        LlamaContextParams { settings: ContextSettings { n_ctx, ..self.settings }, ..self }
    }

    /// Returns the size of the context, or nothing where the model specifies it.
    pub fn n_ctx(&self) -> (n_ctx: Option<u32>)
        ensures
            n_ctx == (if self@.settings.n_ctx == 0 {
                None
            } else {
                Some(self@.settings.n_ctx)
            }),
    {
        if self.settings.n_ctx == 0 {
            None
        } else {
            Some(self.settings.n_ctx)
        }
    }

    /// Sets the maximum number of independent sequence states, at least one. It must match the
    /// highest sequence id used by batched decoding.
    pub fn with_n_seq_max(self, n_seq_max: u32) -> (params: Self)
        ensures
            params@ == self@.with(
                ContextSettings {
                    n_seq_max: if n_seq_max == 0 {
                        1
                    } else {
                        n_seq_max
                    },
                    ..self@.settings
                },
            ),
    {
        let n_seq_max: u32 = if n_seq_max == 0 {
            1
        } else {
            n_seq_max
        };
        LlamaContextParams { settings: ContextSettings { n_seq_max, ..self.settings }, ..self }
    }

    /// Returns the maximum number of independent sequence states.
    pub fn n_seq_max(&self) -> (n_seq_max: u32)
        ensures
            n_seq_max == self@.settings.n_seq_max,
    {
        self.settings.n_seq_max
    }

    /// Sets the tokens in one batch.
    pub fn with_n_batch(self, n_batch: u32) -> (params: Self)
        ensures
            params@ == self@.with(ContextSettings { n_batch, ..self@.settings }),
    {
        LlamaContextParams { settings: ContextSettings { n_batch, ..self.settings }, ..self }
    }

    /// Returns the tokens in one batch.
    pub fn n_batch(&self) -> (n_batch: u32)
        ensures
            n_batch == self@.settings.n_batch,
    {
        self.settings.n_batch
    }

    /// Sets the tokens in one micro-batch.
    pub fn with_n_ubatch(self, n_ubatch: u32) -> (params: Self)
        ensures
            params@ == self@.with(ContextSettings { n_ubatch, ..self@.settings }),
    {
        LlamaContextParams { settings: ContextSettings { n_ubatch, ..self.settings }, ..self }
    }

    /// Returns the tokens in one micro-batch.
    pub fn n_ubatch(&self) -> (n_ubatch: u32)
        ensures
            n_ubatch == self@.settings.n_ubatch,
    {
        self.settings.n_ubatch
    }

    /// Sets the context type.
    pub fn with_ctx_type(self, ctx_type: LlamaContextType) -> (params: Self)
        ensures
            params@ == self@.with(ContextSettings { ctx_type, ..self@.settings }),
    {
        LlamaContextParams { settings: ContextSettings { ctx_type, ..self.settings }, ..self }
    }

    /// Returns the context type.
    pub fn ctx_type(&self) -> (ctx_type: LlamaContextType)
        ensures
            ctx_type == self@.settings.ctx_type,
    {
        self.settings.ctx_type
    }

    /// Sets the recurrent-state snapshots per sequence, which rollback needs.
    pub fn with_n_rs_seq(self, n_rs_seq: u32) -> (params: Self)
        ensures
            params@ == self@.with(ContextSettings { n_rs_seq, ..self@.settings }),
    {
        LlamaContextParams { settings: ContextSettings { n_rs_seq, ..self.settings }, ..self }
    }

    /// Returns the recurrent-state snapshots per sequence.
    pub fn n_rs_seq(&self) -> (n_rs_seq: u32)
        ensures
            n_rs_seq == self@.settings.n_rs_seq,
    {
        self.settings.n_rs_seq
    }

    /// Sets whether cache and attention operations are offloaded.
    pub fn with_offload_kqv(self, enabled: bool) -> (params: Self)
        ensures
            params@ == self@.with(ContextSettings { offload_kqv: enabled, ..self@.settings }),
    {
        LlamaContextParams {
            settings: ContextSettings { offload_kqv: enabled, ..self.settings },
            ..self
        }
    }

    /// Returns whether cache and attention operations are offloaded.
    pub fn offload_kqv(&self) -> (offload_kqv: bool)
        ensures
            offload_kqv == self@.settings.offload_kqv,
    {
        self.settings.offload_kqv
    }

    /// Sets the position scaling.
    pub fn with_rope_scaling_type(self, rope_scaling_type: RopeScalingType) -> (params: Self)
        ensures
            params@ == self@.with(ContextSettings { rope_scaling_type, ..self@.settings }),
    {
        LlamaContextParams {
            settings: ContextSettings { rope_scaling_type, ..self.settings },
            ..self
        }
    }

    /// Returns the position scaling.
    pub fn rope_scaling_type(&self) -> (rope_scaling_type: RopeScalingType)
        ensures
            rope_scaling_type == self@.settings.rope_scaling_type,
    {
        self.settings.rope_scaling_type
    }

    /// Sets the rope frequency base.
    pub fn with_rope_freq_base(self, rope_freq_base: Float32) -> (params: Self)
        ensures
            params@ == self@.with(ContextSettings { rope_freq_base, ..self@.settings }),
    {
        LlamaContextParams { settings: ContextSettings { rope_freq_base, ..self.settings }, ..self }
    }

    /// Returns the rope frequency base.
    pub fn rope_freq_base(&self) -> (rope_freq_base: Float32)
        ensures
            rope_freq_base == self@.settings.rope_freq_base,
    {
        self.settings.rope_freq_base
    }

    /// Sets the rope frequency scale.
    pub fn with_rope_freq_scale(self, rope_freq_scale: Float32) -> (params: Self)
        ensures
            params@ == self@.with(ContextSettings { rope_freq_scale, ..self@.settings }),
    {
        LlamaContextParams {
            settings: ContextSettings { rope_freq_scale, ..self.settings },
            ..self
        }
    }

    /// Returns the rope frequency scale.
    pub fn rope_freq_scale(&self) -> (rope_freq_scale: Float32)
        ensures
            rope_freq_scale == self@.settings.rope_freq_scale,
    {
        self.settings.rope_freq_scale
    }

    /// Returns the number of threads.
    pub fn n_threads(&self) -> (n_threads: i32)
        ensures
            n_threads == self@.settings.n_threads,
    {
        self.settings.n_threads
    }

    /// Returns the number of threads for batches.
    pub fn n_threads_batch(&self) -> (n_threads_batch: i32)
        ensures
            n_threads_batch == self@.settings.n_threads_batch,
    {
        self.settings.n_threads_batch
    }

    /// Sets the number of threads.
    pub fn with_n_threads(self, n_threads: i32) -> (params: Self)
        ensures
            params@ == self@.with(ContextSettings { n_threads, ..self@.settings }),
    {
        LlamaContextParams { settings: ContextSettings { n_threads, ..self.settings }, ..self }
    }

    /// Sets the number of threads for batches.
    pub fn with_n_threads_batch(self, n_threads: i32) -> (params: Self)
        ensures
            params@ == self@.with(ContextSettings { n_threads_batch: n_threads, ..self@.settings }),
    {
        LlamaContextParams {
            settings: ContextSettings { n_threads_batch: n_threads, ..self.settings },
            ..self
        }
    }

    /// Returns whether embeddings are extracted.
    pub fn embeddings(&self) -> (embeddings: bool)
        ensures
            embeddings == self@.settings.embeddings,
    {
        self.settings.embeddings
    }

    /// Sets whether embeddings are extracted.
    pub fn with_embeddings(self, embedding: bool) -> (params: Self)
        ensures
            params@ == self@.with(ContextSettings { embeddings: embedding, ..self@.settings }),
    {
        LlamaContextParams {
            settings: ContextSettings { embeddings: embedding, ..self.settings },
            ..self
        }
    }

    /// Sets the evaluation callback, by its address.
    pub fn with_cb_eval(self, cb_eval: Option<usize>) -> (params: Self)
        ensures
            params@ == self@.with(
                ContextSettings {
                    cb_eval: match cb_eval {
                        Some(address) => EvalCallback::Custom(address),
                        None => EvalCallback::Unset,
                    },
                    ..self@.settings
                },
            ),
    {
        let cb_eval = match cb_eval {
            Some(address) => EvalCallback::Custom(address),
            None => EvalCallback::Unset,
        };
        LlamaContextParams { settings: ContextSettings { cb_eval, ..self.settings }, ..self }
    }

    /// Sets what the evaluation callback is handed, by its address; none for nothing.
    pub fn with_cb_eval_user_data(self, cb_eval_user_data: Option<usize>) -> (params: Self)
        ensures
            params@ == self@.with(
                ContextSettings {
                    cb_eval_user_data: match cb_eval_user_data {
                        Some(address) => CallbackData::Address(address),
                        None => CallbackData::Null,
                    },
                    ..self@.settings
                },
            ),
    {
        let cb_eval_user_data = match cb_eval_user_data {
            Some(address) => CallbackData::Address(address),
            None => CallbackData::Null,
        };
        LlamaContextParams {
            settings: ContextSettings { cb_eval_user_data, ..self.settings },
            ..self
        }
    }

    /// Attaches a tensor capture, by its address, to intercept intermediate tensor outputs.
    ///
    /// The capture must stay at its address until the resulting context is dropped, and must not
    /// be accessed while a context operation may invoke the callback. Prefer
    /// [`Self::with_tensor_transactions`], which hands the callback state over.
    pub fn with_tensor_capture(self, capture: usize) -> (params: Self)
        ensures
            params@ == self@.with(
                ContextSettings {
                    cb_eval: EvalCallback::TensorCapture,
                    cb_eval_user_data: CallbackData::Address(capture),
                    ..self@.settings
                },
            ),
    {
        LlamaContextParams {
            settings: ContextSettings {
                cb_eval: EvalCallback::TensorCapture,
                cb_eval_user_data: CallbackData::Address(capture),
                ..self.settings
            },
            ..self
        }
    }

    /// Attaches bounded owned tensor transactions, with their evaluation callback and their
    /// decode hooks.
    pub fn with_tensor_transactions(self, transactions: TensorTransactions) -> (params: Self)
        ensures
            params@ == (LlamaContextParamsView {
                settings: ContextSettings {
                    cb_eval: EvalCallback::TensorTransactions,
                    cb_eval_user_data: CallbackData::OwnedTransactions,
                    decode_hooks: true,
                    ..self@.settings
                },
                transactions: Some(transactions),
                ..self@
            }),
    {
        LlamaContextParams {
            settings: ContextSettings {
                cb_eval: EvalCallback::TensorTransactions,
                cb_eval_user_data: CallbackData::OwnedTransactions,
                decode_hooks: true,
                ..self.settings
            },
            tensor_transactions: Some(transactions),
            ..self
        }
    }

    /// Takes the tensor transactions out, for the context that is created.
    pub fn into_tensor_transactions(self) -> (transactions: Option<TensorTransactions>)
        ensures
            transactions == self@.transactions,
    {
        self.tensor_transactions
    }

    /// Sets the element type code of the key cache.
    pub fn with_cache_type_k(self, ty: u32) -> (params: Self)
        ensures
            params@ == self@.with(ContextSettings { type_k: ty, ..self@.settings }),
    {
        LlamaContextParams { settings: ContextSettings { type_k: ty, ..self.settings }, ..self }
    }

    /// Returns the element type code of the key cache.
    pub fn cache_type_k(&self) -> (type_k: u32)
        ensures
            type_k == self@.settings.type_k,
    {
        self.settings.type_k
    }

    /// Sets the element type code of the value cache.
    pub fn with_cache_type_v(self, ty: u32) -> (params: Self)
        ensures
            params@ == self@.with(ContextSettings { type_v: ty, ..self@.settings }),
    {
        LlamaContextParams { settings: ContextSettings { type_v: ty, ..self.settings }, ..self }
    }

    /// Returns the element type code of the value cache.
    pub fn cache_type_v(&self) -> (type_v: u32)
        ensures
            type_v == self@.settings.type_v,
    {
        self.settings.type_v
    }

    /// Sets whether the attention rotation, which improves quantized caches, is disabled.
    pub fn with_attn_rot_disabled(self, disabled: bool) -> (params: Self)
        ensures
            params@ == self@.with(
                ContextSettings { attn_rot_disabled: disabled, ..self@.settings },
            ),
    {
        LlamaContextParams {
            settings: ContextSettings { attn_rot_disabled: disabled, ..self.settings },
            ..self
        }
    }

    /// Returns whether the attention rotation is disabled.
    pub fn attn_rot_disabled(&self) -> (attn_rot_disabled: bool)
        ensures
            attn_rot_disabled == self@.settings.attn_rot_disabled,
    {
        self.settings.attn_rot_disabled
    }

    /// Sets the embedding pooling.
    pub fn with_pooling_type(self, pooling_type: LlamaPoolingType) -> (params: Self)
        ensures
            params@ == self@.with(ContextSettings { pooling_type, ..self@.settings }),
    {
        LlamaContextParams { settings: ContextSettings { pooling_type, ..self.settings }, ..self }
    }

    /// Returns the embedding pooling.
    pub fn pooling_type(&self) -> (pooling_type: LlamaPoolingType)
        ensures
            pooling_type == self@.settings.pooling_type,
    {
        self.settings.pooling_type
    }

    /// Attaches sampler chains to sequences.
    pub fn with_sampler_seq_configs(self, configs: Vec<SamplerSeqConfig>) -> (params: Self)
        ensures
            params@ == (LlamaContextParamsView { samplers: configs@, ..self@ }),
    {
        LlamaContextParams { sampler_configs: configs, ..self }
    }

    /// Returns the attached sampler chains.
    pub fn sampler_seq_configs(&self) -> (configs: &[SamplerSeqConfig])
        ensures
            configs@ == self@.samplers,
    {
        self.sampler_configs.as_slice()
    }

    /// Clones these parameters, failing when sampler chains or tensor transactions are attached.
    ///
    /// Prefer this over [`Clone::clone`] to detect what a clone would drop.
    pub fn try_clone(&self) -> (result: Result<Self, ParamsCloneError>)
        ensures
            match result {
                Ok(params) => self@.samplers.len() == 0 && self@.transactions is None && params@
                    == self@.cloned(),
                Err(error) => error == (if self@.samplers.len() > 0 {
                    ParamsCloneError::SamplerChains
                } else {
                    ParamsCloneError::TensorTransactions
                }) && (self@.samplers.len() > 0 || self@.transactions is Some),
            },
    {
        if self.sampler_configs.len() != 0 {
            return Err(ParamsCloneError::SamplerChains);
        }
        if self.tensor_transactions.is_some() {
            return Err(ParamsCloneError::TensorTransactions);
        }
        Ok(self.clone())
    }
}

impl Default for LlamaContextParams {
    fn default() -> (params: Self)
        ensures
            params@ == (LlamaContextParamsView {
                settings: default_settings(),
                samplers: Seq::empty(),
                transactions: None,
            }),
    {
        let params = LlamaContextParams {
            settings: ContextSettings {
                n_ctx: 512,
                n_batch: 2048,
                n_ubatch: 512,
                n_seq_max: 1,
                n_rs_seq: 0,
                n_threads: 4,
                n_threads_batch: 4,
                ctx_type: LlamaContextType::Default,
                rope_scaling_type: RopeScalingType::Unspecified,
                pooling_type: LlamaPoolingType::Unspecified,
                rope_freq_base: Float32::from_bits(0),
                rope_freq_scale: Float32::from_bits(0),
                type_k: NATIVE_TYPE_F16,
                type_v: NATIVE_TYPE_F16,
                embeddings: false,
                offload_kqv: true,
                attn_rot_disabled: false,
                cb_eval: EvalCallback::Unset,
                cb_eval_user_data: CallbackData::Null,
                decode_hooks: false,
            },
            sampler_configs: Vec::new(),
            tensor_transactions: None,
        };
        assert(params@.samplers =~= Seq::empty());
        params
    }
}

/// Duplicates context parameters for reuse, without sampler chains and tensor transactions.
impl Clone for LlamaContextParams {
    fn clone(&self) -> (params: Self)
        ensures
            params@ == self@.cloned(),
    {
        let settings = if self.tensor_transactions.is_some() {
            ContextSettings {
                cb_eval: EvalCallback::Unset,
                cb_eval_user_data: CallbackData::Null,
                decode_hooks: false,
                ..self.settings
            }
        } else {
            self.settings
        };
        let params = LlamaContextParams {
            settings,
            sampler_configs: Vec::new(),
            tensor_transactions: None,
        };
        assert(params@ =~= self@.cloned());
        params
    }
}

/// A clone that succeeds drops nothing.
pub proof fn law_checked_clones_drop_nothing(params: LlamaContextParamsView)
    requires
        params.samplers.len() == 0,
        params.transactions is None,
    ensures
        params.cloned() == params,
{
    assert(params.cloned() =~= params);
}

/// A clone never shares sampler chains or tensor transactions, nor a callback into transactions
/// that it does not own. Everything else is kept, and cloning a clone changes nothing.
pub proof fn law_clones_share_no_owned_state(params: LlamaContextParamsView)
    ensures
        params.cloned().samplers.len() == 0,
        params.cloned().transactions is None,
        params.transactions is Some ==> params.cloned().settings.cb_eval == EvalCallback::Unset
            && params.cloned().settings.cb_eval_user_data == CallbackData::Null
            && !params.cloned().settings.decode_hooks,
        params.cloned().settings == (ContextSettings {
            cb_eval: params.cloned().settings.cb_eval,
            cb_eval_user_data: params.cloned().settings.cb_eval_user_data,
            decode_hooks: params.cloned().settings.decode_hooks,
            ..params.settings
        }),
        params.cloned().cloned() == params.cloned(),
{
}

/// A clone of parameters without transactions keeps every setting, whether or not sampler chains
/// were attached. A clone of parameters with transactions keeps every setting but the callback,
/// its data and the hooks.
pub proof fn law_clones_keep_the_settings(params: LlamaContextParamsView)
    ensures
        params.transactions is None ==> params.cloned().settings == params.settings,
        params.transactions is Some ==> params.cloned().settings == (ContextSettings {
            cb_eval: EvalCallback::Unset,
            cb_eval_user_data: CallbackData::Null,
            decode_hooks: false,
            ..params.settings
        }),
{
}

/// Other settings leave the sampler chains and the tensor transactions alone.
pub proof fn law_settings_leave_owned_state_alone(
    params: LlamaContextParamsView,
    settings: ContextSettings,
)
    ensures
        params.with(settings).settings == settings,
        params.with(settings).samplers == params.samplers,
        params.with(settings).transactions == params.transactions,
{
}

/// Unless told otherwise, a context holds 512 tokens of one sequence, decoded in batches of 2048
/// and micro-batches of 512 by four threads; its cache is half-precision and offloaded, everything
/// else is left to the model or off, and no callback is installed.
pub proof fn law_defaults_are_those_of_an_ordinary_context()
    ensures
        default_settings().n_ctx == 512,
        default_settings().n_batch == 2048,
        default_settings().n_ubatch == 512,
        default_settings().n_seq_max == 1,
        default_settings().n_rs_seq == 0,
        default_settings().n_threads == 4,
        default_settings().n_threads_batch == 4,
        default_settings().ctx_type.native_code() == 0,
        default_settings().rope_scaling_type.native_code() == -1,
        default_settings().pooling_type.native_code() == -1,
        default_settings().rope_freq_base.scaled_value() == 0,
        default_settings().rope_freq_scale.scaled_value() == 0,
        !default_settings().rope_freq_base.negative(),
        !default_settings().rope_freq_scale.negative(),
        default_settings().type_k == 1,
        default_settings().type_v == 1,
        !default_settings().embeddings,
        default_settings().offload_kqv,
        !default_settings().attn_rot_disabled,
        default_settings().cb_eval == EvalCallback::Unset,
        default_settings().cb_eval_user_data == CallbackData::Null,
        !default_settings().decode_hooks,
{
}

} // verus!
