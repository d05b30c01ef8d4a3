//! Transcription side of the pipeline: acceleration probing, model loading
//! and transcript assembly.

pub mod gpu;
pub mod health;
pub mod osinfo;
pub mod streaming;
pub mod worker;
