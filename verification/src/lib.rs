//! Checks that separately compiled pieces of code agree on calling conventions
//! and type layouts: declaration emission for a C-family backend, the test
//! pipeline with its generation cache, the expectation rules and the reports.

pub mod abis;
pub mod cli;
pub mod error;
pub mod fivemat;
pub mod harness;
pub mod report;
pub mod text;
pub mod toolchains;
pub mod types;
