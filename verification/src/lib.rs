//! A test runner core for single-file C programs: it pairs the lines of a
//! case file into `(input, expected)` cases, classifies one child-program
//! run per case, renders styled report lines, and tallies the results.
//!
//! Process spawning, file reading and argument handling live in the
//! surrounding binary; this crate holds the verified logic: parsing the
//! case file, classifying each run, formatting every report line, and the
//! tally arithmetic.

pub mod cases;
pub mod engine;
pub mod files;
pub mod outcome;
pub mod report;
pub mod text;
