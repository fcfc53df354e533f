//! Session ABI records, status codes and generation-checked handles.

pub mod abi;
pub mod error;
pub mod handle;
pub mod runtime;
pub mod registry;
