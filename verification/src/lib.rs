//! Core logic of a dual-stream (audio + video) screen recorder.
//!
//! The library models and verifies the decision logic of the recording
//! pipeline: start-time synchronization between the two capture streams,
//! the bounded relay channel that decouples real-time producers from the
//! encoder pumps, encoder command construction, segment-manifest parsing,
//! the segment watcher that discovers and dispatches uploads exactly once,
//! and the shutdown sequence.  All I/O (capture devices, encoder
//! processes, the filesystem, the network) stays outside the library and
//! hands it plain values.

pub mod clock;
pub mod command;
pub mod devices;
pub mod errors;
pub mod frame;
pub mod manifest;
pub mod numfmt;
pub mod options;
pub mod relay;
pub mod samples;
pub mod session;
pub mod watcher;
