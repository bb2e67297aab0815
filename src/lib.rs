//! Orchestration core of a batch video transcoder: per-group progress
//! tracking, the progress actor's decisions, the converter's run state
//! machine, the per-group job executor and the argument compiler.
pub mod arg;
pub mod bucket;
pub mod converter;
pub mod error;
pub mod executor;
pub mod options;
pub mod progress;
pub mod sinker;
pub mod validation;

pub use error::Error;
