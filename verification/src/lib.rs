//! Core of a polite web crawler: URL canonicalization, link and metadata
//! scraping, robots.txt policy with per-domain cooldowns, a visited set
//! guarding dispatch, and a model of the persistent queue and page store.
use vstd::prelude::*;

pub mod clock;
pub mod laws;
pub mod registry;
pub mod scrape;
pub mod store;
pub mod text;
pub mod types;
pub mod urls;
pub mod visited;
pub mod website;
pub mod worker;

verus! {

/// Milliseconds that must elapse between two crawls of the same domain.
pub const DOMAIN_CRAWL_COOLDOWN: i64 = 10_000;

/// Milliseconds that must elapse between two robots.txt fetches of the same domain.
pub const ROBOTS_FETCH_COOLDOWN: i64 = 86_400_000;

} // verus!
