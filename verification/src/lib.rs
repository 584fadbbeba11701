//! Mainframe security auditing: the verified core.
//!
//! Scanner output is text; each scanner turns the lines that carry one of its
//! markers into findings.  The findings are enriched with compliance
//! identifiers and summarised for the reports.
pub mod cli;
pub mod compliance;
pub mod config;
pub mod error;
pub mod paths;
pub mod report;
pub mod scanners;
pub mod text;
pub mod types;

pub use config::Config;
pub use error::MsasError;
pub use types::{Findings, Severity};
