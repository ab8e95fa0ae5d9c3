//! Scrapes the "new" and "trending" listings of lib.rs, joins each listed crate
//! with its registry timestamp and README, and assembles RSS feeds from them.
pub mod enrich;
pub mod feed;
pub mod parser;
pub mod time;
