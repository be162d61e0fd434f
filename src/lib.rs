//! Scraping engine for a small news aggregator: declarative selectors over
//! fetched HTML pages, per-source link discovery and article extraction, and
//! the best-effort aggregation of many sources into one list.
//!
//! Network access is not part of this crate. Its functions take what a fetch
//! returned (a body or a [`FetchError`]) and decide what follows, so a caller
//! is free to run the fetches concurrently and hand the outcomes over in input
//! order.
pub mod aggregate;
pub mod article;
pub mod html;
pub mod site;

pub use aggregate::{get_top_articles, get_top_articles_from_origin, SourceOutcome};
pub use article::{article_expected, Article};
pub use html::{CssSelector, Document};
pub use site::{
    article_headers, classify_response, get_all, list_sources, ConfigError, FetchError, Site,
    SourceInfo,
};
