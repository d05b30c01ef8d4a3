//! Real-time audio side of the pipeline.

pub mod buffer;
pub mod capture;
pub mod channel;
pub mod chunks;
pub mod resample;
pub mod vad;
