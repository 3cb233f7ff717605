//! Batch conversion of raster images to WebP: the per-image pipeline, the
//! shared progress state of a batch and the stream of progress events that a
//! consumer replays.

pub mod app;
pub mod batch;
pub mod codec;
pub mod events;
pub mod job;
pub mod pipeline;
pub mod progress;
pub mod text;
pub mod utils;
