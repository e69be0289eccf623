//! Pulse-width control of a hobby servo: the duty value that commands an
//! angle, and the two-position sweep built on it.

pub mod binary32;
pub mod bounds;
pub mod laws;
pub mod servo;
pub mod sweep;
