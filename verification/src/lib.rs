//! Verified configuration logic of the runwasi wasmtime and wasmer shims.
pub mod config;
pub mod discovery;
pub mod engine;
pub mod laws;
pub mod settings;
pub mod wasmer_shim;
pub mod wasmtime_api;
