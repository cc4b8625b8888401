//! Scrape-and-extract pipeline for a torrent index site: query validation,
//! search-URL construction, and pattern extraction of listing rows, magnet
//! links and swarm statistics from fetched page bodies.
//!
//! All extraction logic is verified; fetching pages is left to the caller,
//! who drives a [`session::SearchSession`] by handing it response bodies.

pub mod chars;
pub mod listing;
pub mod magnet;
pub mod model;
pub mod query;
pub mod session;
pub mod stats;

pub use model::TorrentSearchError;
pub use model::TorrentSearchResult;
pub use session::SearchSession;
pub use session::SearchStep;
