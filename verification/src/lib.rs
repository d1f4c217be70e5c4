//! A countdown towards a time of day: reading the target, measuring what is
//! left, and drawing the progress line.

mod clock;
pub mod decimal;
pub mod duration;
pub mod error;
pub mod format;
pub mod hour;
pub mod number;
pub mod progress;
pub mod target;
pub mod timestamp;
