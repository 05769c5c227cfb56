//! The second command line's commands: `new`, `compile` and `up`.
pub mod compile;
pub mod new;
