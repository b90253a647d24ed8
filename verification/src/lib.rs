//! Core logic of the Crixata policy grader: grading rubric, request
//! handling decisions, sidecar start-up, download bookkeeping, cache
//! record conversion and configuration paths.

pub mod cache;
pub mod config;
pub mod grade;
pub mod llm;
pub mod model;
pub mod server;
pub mod sidecar;
pub mod sync;
pub mod text;
