//! Acquisition pipeline for drug-shortage notices and regulatory safety
//! letters: field parsing, feed ingestion, letter extraction, de-duplication,
//! bounded fetch planning, the shared store and the refresh schedule.
pub mod crawl;
pub mod date;
pub mod feed;
pub mod fetch;
pub mod fields;
pub mod letters;
pub mod scheduler;
pub mod shortage;
pub mod store;
pub mod text;
