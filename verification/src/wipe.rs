//! The overwrite engine: progress accounting, the reusable buffers and the
//! pass state machine.

pub mod buffers;
pub mod engine;
pub mod image;
pub mod plan;
pub mod progress;

pub use buffers::Buffers;
pub use engine::pass_random;
pub use engine::pass_zeros;
pub use engine::PassEngine;
pub use plan::PassPlan;
pub use progress::ProgressTracker;
