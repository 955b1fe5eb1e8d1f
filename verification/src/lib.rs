//! A local developer-workflow helper: detects which language ecosystems are
//! present in a project, runs a battery of health-check hooks for each, and
//! aggregates the results into a pass/fail report.

pub mod api;
pub mod commit;
pub mod config;
pub mod doc;
pub mod hooks;
pub mod utils;
