//! Colorized, timestamped console log lines.
//!
//! The library computes each line; writing it out is left to the caller.
pub mod clock;
pub mod laws;
pub mod logger;
pub mod palette;
pub mod stamp;

pub use clock::Timestamp;
pub use logger::{Coloring, Logger, Overwrite, OverwriteDate, Severity};
pub use palette::Colors;
