//! A bridge between a sandboxed guest's narrow calling convention and
//! host-implemented system operations.
pub mod abi;
pub mod assemble;
pub mod context;
pub mod diagnostics;
pub mod ops;
pub mod resolve;
pub mod signature;
pub mod trampoline;
