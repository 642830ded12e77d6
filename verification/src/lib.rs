//! Finds holes in a log: stretches of time between two stamped lines in
//! which nothing was written.
//!
//! A line carries a stamp when it starts with `[`, a date and time with
//! its offset from UTC, and `]`. [`extract::extract_timestamp`] reads the
//! stamp of one line. [`max_hole::MaxHole`] keeps the widest hole of a stream,
//! [`thresh_hole::ThreshHole`] reports every hole over a threshold as it
//! is found, and [`scanner::Scanner`] drives one of the two over the lines
//! of a log and counts the lines it had to skip.

pub mod extract;
pub mod timed_line;
pub mod max_hole;
pub mod scanner;
pub mod thresh_hole;
