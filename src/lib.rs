//! Adaptors that turn a variable-output hashing core into a streaming hash,
//! with the output length fixed either by a const parameter or at run time.
pub mod core_api;
pub mod ct_variable;
pub mod rt_variable;

pub use core_api::{HashState, InvalidOutputSize, VariableOutputCore};
pub use ct_variable::CtVariableCoreWrapper;
pub use rt_variable::RtVariableCoreWrapper;
