//! Operational readiness validation and test orchestration for a
//! multi-service platform.
//!
//! The library holds the decision logic of the tool: the fixed catalog of
//! readiness checks with its severity policy, the classification of probe
//! outcomes into check results, the aggregation of results into a verdict,
//! the derivation of health and metrics URLs from the service registry,
//! the extraction of per-service test configurations, and the planning and
//! classification of test runs.  The surrounding program performs the
//! probes themselves (process spawns, HTTP requests, file reads) and hands
//! their outcomes to this library as plain values.

pub mod aggregate;
pub mod check;
pub mod cli;
pub mod config;
pub mod probes;
pub mod registry;
pub mod runsh;
pub mod testrun;
pub mod text;
