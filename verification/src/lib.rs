//! A polite, pluggable web-crawling engine.
//!
//! The engine crawls a link graph from a seed set of locations: a frontier
//! deduplicates discovered locations, a rate limiter spaces outbound fetches,
//! and in-flight counters decide when a crawl is complete.  Fetching and
//! persistence are delegated to a site-specific spider capability; the
//! engine itself never performs I/O.

pub mod crawler;
pub mod engine;
pub mod error;
pub mod frontier;
pub mod limiter;
pub mod spider;
pub mod spiders;

pub use crawler::Crawler;
pub use crawler::Summary;
pub use engine::EngineState;
pub use error::EngineError;
pub use error::ProcessError;
pub use error::ScrapeError;
pub use frontier::Frontier;
pub use limiter::RateLimiter;
pub use spider::Spider;
