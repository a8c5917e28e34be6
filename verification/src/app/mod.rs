//! The popup program's command line.

pub mod cli;
