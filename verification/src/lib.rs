//! Overwrite engine for sanitising a raw block device: pass scheduling,
//! buffer and alignment management, sync policy and progress accounting.
//!
//! The library decides and computes; it performs no device I/O itself. A
//! caller drives a [`wipe::PassEngine`] by carrying out each action it asks
//! for and reporting the outcome back.

pub mod args;
pub mod dev;
pub mod failure;
pub mod platform;
pub mod text;
pub mod wipe;
