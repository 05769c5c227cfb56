//! The component interfaces of leaf: their types and the memory layouts their
//! bindings use.
pub mod abi;
pub mod http_fetch;
pub mod kv;
pub mod lift;
