//! Axum integration for the apcore ecosystem: route scanning, module
//! validation, settings, task bookkeeping and context mapping, with the
//! decision logic verified.
pub mod args;
pub mod cli;
pub mod client;
pub mod config;
pub mod context;
pub mod engine;
pub mod errors;
pub mod json;
pub mod scanner;
pub mod text;
