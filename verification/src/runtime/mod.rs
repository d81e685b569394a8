//! The values of a running program.

pub mod number;
pub mod runtime_error;
pub mod runtime_function;
pub mod runtime_type;
