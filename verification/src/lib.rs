//! Project logic of the leaf wasm serverless platform: manifests, build
//! targets, command plans, query strings and the component ABI layouts.
pub mod text;
pub mod run_server;
pub mod vars;
pub mod manifest;
pub mod plan;
pub mod cmd;
pub mod cmd_cli;
pub mod bindings;
pub mod wit;
pub mod generator;
pub mod common_manifest;
pub mod flags;
pub mod server;
pub mod service;
pub mod decimal;
pub mod cli_server;
pub mod wasm;
