//! Speech capture pipeline: buffering, mixdown, resampling, voice activity
//! detection and the model loading ladder, with machine-checked contracts.

pub mod audio;
pub mod commands;
pub mod events;
pub mod permissions;
pub mod platform;
pub mod state;
pub mod text;
pub mod whisper;
