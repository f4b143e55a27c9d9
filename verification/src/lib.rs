//! Acquisition pipeline for an account's media feed: a bounded page crawl,
//! extraction of asset references from feed entries, and the per-reference
//! decisions and outcomes of the download fan-out.

pub mod cli;
pub mod client;
pub mod crawl;
pub mod download;
pub mod error;
pub mod extract;
pub mod pages;
pub mod reference;
pub mod text;
