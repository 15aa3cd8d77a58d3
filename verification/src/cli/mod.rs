//! The program's command line: its grammar, its parser and its configuration.

pub mod grammar;
pub mod parser;
pub mod config;
pub mod laws;
