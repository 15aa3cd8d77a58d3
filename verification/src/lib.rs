//! Hindsight: the verified core of a development-history server.
//!
//! The crate holds the rules that decide what the server stores and answers:
//! the command line, the test-report reader, the ingestion plans and the
//! shapes of the records and responses.

#![allow(unused_imports)]

use vstd::prelude::*;

pub mod cli;
pub mod copilot;
pub mod git;
pub mod handlers;
pub mod ingest;
pub mod lsp;
pub mod migrations;
pub mod queries;
pub mod records;
pub mod runner;
pub mod support;
pub mod testing;
pub mod text;
pub mod tools;

verus! {

} // verus!
