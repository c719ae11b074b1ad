//! Polling library for environmental sensors exposed as filesystem nodes.
//!
//! The library holds the decision logic: which channels a discovered device
//! offers, how raw channel reads are turned into measurement fields, and how
//! a capture is assembled into a timestamped record. The caller performs the
//! actual directory listing and file reads and hands the raw outcomes in as
//! plain values.

pub mod cli;
pub mod clock;
pub mod sensor;
pub mod text;

pub use text::trim_ws;
