//! A conformance test runner for a move-deciding HTTP game service.
//!
//! A run discovers fixture files, sends each fixture's game state to the
//! service, classifies the returned move against the fixture's expected
//! set, and aggregates the outcomes into a summary and an exit status.

pub mod classify;
pub mod fixture;
pub mod json;
pub mod outcome;
pub mod report;
pub mod response;
pub mod run;
