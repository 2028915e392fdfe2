//! Annotates a line-oriented input stream with per-line and cumulative elapsed
//! time, optionally restricted to lines matching a pattern, and produces a
//! final summary exactly once, whether the run ends at end-of-stream or is cut
//! short by an interrupt.

pub mod annotator;
pub mod argopt;
pub mod error;
pub mod model;
pub mod numfmt;
pub mod pattern;
pub mod reader;
pub mod summarizer;
pub mod textutil;
pub mod time_format;
pub mod timeln;

mod clock;
mod color;
