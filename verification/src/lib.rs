//! Verified grading core for an online-judge submission pipeline.
//!
//! The crate covers the pure heart of the judge: the output comparator,
//! the per-case status resolution, the compiler-stage and sandbox-stage
//! decisions, the test-case provisioner, and the aggregation of a matrix
//! of per-case results into an overall score, status and timing figure.
//! Process invocation, the database and the network stay outside; they
//! hand this library plain values and take plain values back.

pub mod aggregate;
pub mod compare;
pub mod compile;
pub mod error;
pub mod lang;
pub mod problem;
pub mod provision;
pub mod sandbox;
pub mod status;
pub mod strutil;
pub mod submission;
pub mod users;
pub mod views;
