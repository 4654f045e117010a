//! Drives an external media-download tool: derives quality choices from the
//! tool's format metadata, builds download arguments, and turns the tool's
//! output lines into a stream of download events.
pub mod args;
pub mod greeting;
pub mod metadata;
pub mod progress;
pub mod quality;
pub mod session;
