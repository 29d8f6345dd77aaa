//! Compiles an editing timeline into a filter graph and an encoder
//! invocation, and decides what a render reports while it runs.

pub mod audio_sync;
pub mod capabilities;
pub mod compile;
pub mod error;
pub mod graph;
pub mod invocation;
pub mod media;
pub mod orchestrator;
pub mod partition;
pub mod render;
pub mod text;
pub mod timeline;
