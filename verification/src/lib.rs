//! Extraction and aggregation core of a newsletter scraper.
//!
//! The library turns fetched page markup into structured records: the
//! archive page yields a list of issues, each issue page yields a list of
//! article links, and the per-issue results are merged into one flat
//! record set. Network retrieval and the tabular output sink live outside
//! the library; every function here is a pure computation over the page
//! text it is handed.

pub mod collect;
pub mod extract;
pub mod html;
