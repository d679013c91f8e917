//! Report helpers: resource grouping and the report generator's pure parts.

pub mod disks;
pub mod export;
pub mod findings;
pub mod generator;
pub mod markdown;
pub mod report_index;
pub mod report_resource;
pub mod tables;
pub mod text;

pub use crate::utils::lang::Lang;
pub use generator::ReportGenerator;
pub use report_resource::{issue_to_resource_key, REPORT_RESOURCE_ORDER};
