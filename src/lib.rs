//! Contract fixtures for a blockchain execution host.
//!
//! Each entry point is a function from what it reads of the host (arguments,
//! caller, storage) to the ordered list of host calls it makes. The host calls
//! themselves are performed outside the library.
pub mod async_context;
pub mod blockchain_hooks;
pub mod child_simple;
pub mod exchange;
pub mod exec_dest_ctx;
pub mod host;
pub mod parent_simple;
pub mod promises_common;
pub mod rawrs;
pub mod second_contract;
