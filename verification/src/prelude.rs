//! The types that most users need.

pub use crate::context::params::{
    LlamaContextParams,
    LlamaContextType,
    LlamaPoolingType,
    ParamsCloneError,
    RopeScalingType,
};
pub use crate::context::tensor_capture::{CapturedTensor, TensorCapture};
pub use crate::context::tensor_transaction::{
    CapturedTensorData,
    TensorAccess,
    TensorBatchRow,
    TensorCallbackFailure,
    TensorDataMut,
    TensorElementType,
    TensorRowMapping,
    TensorSelector,
    TensorShape,
    TensorTransaction,
    TensorTransactionError,
    TensorTransactionHandler,
    TensorTransactions,
    TensorWriteback,
    TransactionalTensorCapture,
};
pub use crate::eagle::{Eagle3Session, Eagle3SessionConfig, Eagle3SessionError};
pub use crate::float32::Float32;
pub use crate::speculative::SpeculativeStateError;
pub use crate::token::LlamaToken;
