//! Picks the build tool that governs a directory and maps a verb to that
//! tool's command line.

pub mod cmd;
pub mod languages;
