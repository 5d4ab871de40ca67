//! The test pipeline: what is generated for a test, where it is written, and
//! how far a test is run.

pub mod generate;
pub mod run;
pub mod test;
