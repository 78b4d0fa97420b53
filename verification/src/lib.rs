//! Core logic of a two-stream audio capture pipeline: sample serialization,
//! bounded-channel bridging, device resolution, segmented encoder commands,
//! the stop-drain barrier, device liveness tracking, and post-recording
//! assembly plans.
pub mod channel;
pub mod devices;
pub mod encoder;
pub mod errors;
pub mod format;
pub mod listener;
pub mod media;
pub mod recorder;
