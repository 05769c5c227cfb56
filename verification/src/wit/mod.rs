//! The host side of the interfaces that components import.
pub mod fetch;
