//! Context parameters and the tensor programs attached to a context.

pub mod decode_laws;
pub mod native;
pub mod params;
pub mod program_laws;
pub mod tensor_capture;
pub mod tensor_failure;
pub mod tensor_selector;
pub mod tensor_transaction;
pub mod transaction_laws;
pub mod transaction_model;
