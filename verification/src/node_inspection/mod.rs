//! Inspection of a node from inside: the node collector's parsing and
//! decisions, and the records it produces.

pub mod collector;
pub mod http;
pub mod local;
pub mod types;
