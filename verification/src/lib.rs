//! Host-function bridge between sandboxed contract code and host logic.

pub mod bindings;
pub mod bridge;
pub mod catalog;
pub mod driver;
pub mod errors;
pub mod marshal;
pub mod memory;
pub mod wasmtime_ext;
