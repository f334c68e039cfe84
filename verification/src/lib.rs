//! Checked tensor capture, tensor transactions and speculative sessions for llama.cpp contexts.
//!
//! The native library is reached by the code around this crate. What stands here decides: which
//! tensors are wanted and whether they are as announced, what is written back, which captures are
//! committed, when a speculative session may draft, accept or hand out its state, and what is
//! reported when any of that fails.

pub mod context;
pub mod eagle;
pub mod eagle_laws;
pub mod float32;
pub mod message;
pub mod name_map;
pub mod names;
pub mod prelude;
pub mod speculative;
pub mod text;
pub mod token;

pub use crate::context::params::{LlamaContextParams, ParamsCloneError};
pub use crate::context::tensor_capture::{CapturedTensor, TensorCapture};
pub use crate::context::tensor_transaction::{
    CapturedTensorData,
    TensorAccess,
    TensorBatchRow,
    TensorCallbackFailure,
    TensorDataMut,
    TensorElementType,
    TensorRowMapping,
    TensorSelector,
    TensorShape,
    TensorTransaction,
    TensorTransactionError,
    TensorTransactionHandler,
    TensorTransactions,
    TensorWriteback,
    TransactionalTensorCapture,
};
pub use crate::eagle::{Eagle3Session, Eagle3SessionConfig, Eagle3SessionError};
pub use crate::float32::Float32;
pub use crate::speculative::SpeculativeStateError;
pub use crate::token::LlamaToken;
