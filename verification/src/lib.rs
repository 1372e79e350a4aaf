//! Core of a terminal plotter for streaming numeric data.
//!
//! Lines of whitespace-separated numbers arrive on a data stream; a control
//! stream can request shutdown at any time. This crate holds the verified
//! heart of that pipeline: assembling bytes into lines and tokens, storing
//! per-column series of samples trimmed to a sliding window, deriving the
//! visible x-range from the line counter, and assembling the per-frame render
//! set. Parsing tokens into floating-point values, the y-axis statistics and
//! the actual terminal drawing live with the surrounding application.

pub mod control;
pub mod engine;
pub mod line;
pub mod render;
pub mod store;
pub mod window;
