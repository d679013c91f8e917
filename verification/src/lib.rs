//! Kubernetes cluster inspection library: the pure, verified core of the
//! inspection tool (status model, localisation, parsing of node data,
//! issue classification and report helpers).

pub mod utils;
pub mod inspections;
pub mod reporting;
pub mod scoring;
pub mod server;
pub mod node_inspection;
pub mod cli;
pub mod config;
pub mod jobs;
