//! Read-only diagnostics for a Kubernetes cluster.
//!
//! Each check takes the objects that one list request returned and turns them
//! into a report: a one-line summary and the issues found, in the order in
//! which they were found. The checks decide nothing about how the objects are
//! fetched or how a report is shown.

pub mod args;
pub mod cluster;
pub mod diagnostic;
pub mod diagnostic_report;
pub mod events_diagnostic;
pub mod nodes_diagnostic;
pub mod pods_diagnostics;
pub mod sequences;
pub mod services_diagnostics;
pub mod text;
pub mod time;
