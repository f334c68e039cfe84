use llama_cpp_4::context::params::{
    CallbackData, EvalCallback, SamplerSeqConfig,
};
use llama_cpp_4::prelude::{
    Float32, LlamaContextParams, LlamaContextType, LlamaPoolingType, ParamsCloneError,
    RopeScalingType, TensorAccess, TensorCapture, TensorSelector, TensorTransactions,
};

fn float(value: f32) -> Float32 {
    Float32::from_bits(value.to_bits())
}

fn transactions() -> TensorTransactions {
    let selector = TensorSelector::layer_output(1, 4, 2, TensorAccess::ReadOnly, true).unwrap();
    TensorTransactions::capture(vec![selector]).unwrap()
}

#[test]
fn captures_can_change_threads() {
    fn assert_send<T: Send>() {}
    assert_send::<TensorCapture>();
    assert_send::<TensorTransactions>();
}

#[test]
fn defaults_are_the_documented_ones() {
    let params = LlamaContextParams::default();
    assert_eq!(params.n_ctx(), Some(512));
    assert_eq!(params.n_batch(), 2048);
    assert_eq!(params.n_ubatch(), 512);
    assert_eq!(params.n_seq_max(), 1);
    assert_eq!(params.n_rs_seq(), 0);
    assert_eq!(params.n_threads(), 4);
    assert_eq!(params.n_threads_batch(), 4);
    assert_eq!(params.ctx_type(), LlamaContextType::Default);
    assert_eq!(params.rope_scaling_type(), RopeScalingType::Unspecified);
    assert_eq!(params.pooling_type(), LlamaPoolingType::Unspecified);
    assert_eq!(params.rope_freq_base(), float(0.0));
    assert_eq!(params.rope_freq_scale(), float(0.0));
    assert_eq!(params.cache_type_k(), 1);
    assert_eq!(params.cache_type_v(), 1);
    assert!(!params.embeddings());
    assert!(params.offload_kqv());
    assert!(!params.attn_rot_disabled());
    assert_eq!(params.settings().cb_eval, EvalCallback::Unset);
    assert_eq!(params.settings().cb_eval_user_data, CallbackData::Null);
    assert!(!params.settings().decode_hooks);
}

#[test]
fn setters_are_read_back() {
    let params = LlamaContextParams::default()
        .with_n_ctx(Some(2048))
        .with_n_seq_max(16)
        .with_n_batch(100)
        .with_n_ubatch(50)
        .with_ctx_type(LlamaContextType::Mtp)
        .with_n_rs_seq(3)
        .with_offload_kqv(false)
        .with_rope_scaling_type(RopeScalingType::Linear)
        .with_rope_freq_base(float(0.5))
        .with_rope_freq_scale(float(0.25))
        .with_n_threads(8)
        .with_n_threads_batch(9)
        .with_embeddings(true)
        .with_cache_type_k(6)
        .with_cache_type_v(2)
        .with_attn_rot_disabled(true)
        .with_pooling_type(LlamaPoolingType::Last);
    assert_eq!(params.n_ctx(), Some(2048));
    assert_eq!(params.n_seq_max(), 16);
    assert_eq!(params.n_batch(), 100);
    assert_eq!(params.n_ubatch(), 50);
    assert_eq!(params.ctx_type(), LlamaContextType::Mtp);
    assert_eq!(params.n_rs_seq(), 3);
    assert!(!params.offload_kqv());
    assert_eq!(params.rope_scaling_type(), RopeScalingType::Linear);
    assert_eq!(params.rope_freq_base(), float(0.5));
    assert_eq!(params.rope_freq_scale(), float(0.25));
    assert_eq!(params.n_threads(), 8);
    assert_eq!(params.n_threads_batch(), 9);
    assert!(params.embeddings());
    assert_eq!(params.cache_type_k(), 6);
    assert_eq!(params.cache_type_v(), 2);
    assert!(params.attn_rot_disabled());
    assert_eq!(params.pooling_type(), LlamaPoolingType::Last);
    assert_eq!(params.with_n_ctx(None).n_ctx(), None);
    assert_eq!(LlamaContextParams::default().with_n_seq_max(0).n_seq_max(), 1);
}

#[test]
fn native_codes_are_exact() {
    assert_eq!(LlamaContextType::Default.native(), 0);
    assert_eq!(LlamaContextType::Mtp.native(), 1);
    assert_eq!(RopeScalingType::Unspecified.native(), -1);
    assert_eq!(RopeScalingType::Unscaled.native(), 0);
    assert_eq!(RopeScalingType::Linear.native(), 1);
    assert_eq!(RopeScalingType::Yarn.native(), 2);
    assert_eq!(LlamaPoolingType::Unspecified.native(), -1);
    assert_eq!(LlamaPoolingType::Unpooled.native(), 0);
    assert_eq!(LlamaPoolingType::Mean.native(), 1);
    assert_eq!(LlamaPoolingType::Cls.native(), 2);
    assert_eq!(LlamaPoolingType::Last.native(), 3);
    assert_eq!(LlamaPoolingType::Rank.native(), 4);
}

#[test]
fn callbacks_are_installed_with_their_data() {
    let params = LlamaContextParams::default()
        .with_cb_eval(Some(7))
        .with_cb_eval_user_data(Some(8));
    assert_eq!(params.settings().cb_eval, EvalCallback::Custom(7));
    assert_eq!(params.settings().cb_eval_user_data, CallbackData::Address(8));
    // A caller's own callback survives a clone.
    assert_eq!(params.clone().settings(), params.settings());
    let params = params.with_tensor_capture(9);
    assert_eq!(params.settings().cb_eval, EvalCallback::TensorCapture);
    assert_eq!(params.settings().cb_eval_user_data, CallbackData::Address(9));
    let params = params.with_cb_eval(None).with_cb_eval_user_data(None);
    assert_eq!(params.settings(), LlamaContextParams::default().settings());
}

#[test]
fn clones_drop_what_cannot_be_duplicated() {
    let plain = LlamaContextParams::default().with_n_batch(77);
    assert_eq!(plain.try_clone().unwrap().settings(), plain.settings());

    let owning = plain.with_tensor_transactions(transactions());
    assert_eq!(owning.settings().cb_eval, EvalCallback::TensorTransactions);
    assert_eq!(owning.settings().cb_eval_user_data, CallbackData::OwnedTransactions);
    assert!(owning.settings().decode_hooks);
    assert!(matches!(owning.try_clone(), Err(ParamsCloneError::TensorTransactions)));
    let copy = owning.clone();
    assert_eq!(copy.settings().cb_eval, EvalCallback::Unset);
    assert_eq!(copy.settings().cb_eval_user_data, CallbackData::Null);
    assert!(!copy.settings().decode_hooks);
    assert_eq!(copy.n_batch(), 77);
    assert!(copy.into_tensor_transactions().is_none());

    let chained =
        owning.with_sampler_seq_configs(vec![SamplerSeqConfig { seq_id: 0, sampler: 5 }]);
    assert!(matches!(chained.try_clone(), Err(ParamsCloneError::SamplerChains)));
    assert_eq!(chained.sampler_seq_configs().len(), 1);
    assert!(chained.clone().sampler_seq_configs().is_empty());
    assert!(chained.into_tensor_transactions().is_some());
    assert_eq!(
        ParamsCloneError::SamplerChains.to_string(),
        "cannot clone params that own per-sequence sampler chains"
    );
    assert_eq!(
        ParamsCloneError::TensorTransactions.to_string(),
        "cannot clone params that own tensor transactions"
    );
}
