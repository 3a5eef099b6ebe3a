//! Lifecycle management for large on-disk model artifacts and orchestration of
//! a two-path (remote vs. local) style-analysis request.
//!
//! The library owns the decisions: which files a model variant needs, what a
//! cache probe means, which analysis path to take and when to fall back. The
//! host application performs the surrounding I/O (file reads, network calls)
//! and hands the results in as plain values.

pub mod candle_inference;
pub mod file_ops;
pub mod image_utils;
pub mod json;
pub mod model_manager;
pub mod offline_analyzer;
pub mod orchestrator;
pub mod remote_api;
pub mod settings;
pub mod text;
