//! Test runs: outcomes, results, and the reports of cargo-nextest.

pub mod nextest;
pub mod result;
