//! Core of a keyboard-capture tool: decoding of raw three-byte control
//! messages into typed piano events, a delta-timestamped recording log,
//! a replay plan that reproduces a log byte for byte, and the state
//! machine that keeps at most one capture session alive at a time.

pub mod errors;
pub mod events;
pub mod keys;
pub mod playback;
pub mod recording;
pub mod session;
