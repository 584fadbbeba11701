//! What the reports are made of: CSV records and the summaries that the HTML
//! and PDF reports show.
pub mod csv;
pub mod summary;
