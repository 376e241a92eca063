//! Core of an interactive terminal search client: a query/result
//! synchronization engine around pluggable remote content sources.
//!
//! The library normalizes unreliable per-source data into a canonical row
//! model, derives a render-ready table from it, and guarantees through
//! generation tagging that only the outcome of the most recently dispatched
//! query is ever shown, however fetches race or fail.

pub mod conv;
pub mod results;
pub mod scrape;
pub mod sort;
pub mod source;
pub mod strutil;
pub mod sync;
pub mod theme;
pub mod torrent_galaxy;
