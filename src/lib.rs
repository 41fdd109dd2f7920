//! Incremental, resumable ingestion of a marketplace seller's inventory into a
//! local catalog: request building and response classification, pagination,
//! the rows that are written for listings and releases, and the scrape job's
//! state machine.
pub mod client;
pub mod job;
pub mod pager;
pub mod text;
pub mod types;
pub mod writer;

