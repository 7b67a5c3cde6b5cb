//! Lifecycle manager and line-delimited JSON protocol for a long-lived
//! browser-automation worker process.
//!
//! The library decides; the host performs the process I/O. `paths` lays out
//! where the runtime and the worker script are looked for, `protocol` frames
//! requests and reads replies, and `worker` is the Stopped / Running state
//! machine that every request goes through.

pub mod error;
pub mod json;
pub mod paths;
pub mod protocol;
pub mod worker;

pub use error::PlaywrightError;
pub use worker::PlaywrightWorker;
