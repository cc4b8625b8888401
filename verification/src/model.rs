//! Caller-visible data model: the error kinds of the pipeline and the
//! per-torrent result record.

use vstd::prelude::*;

verus! {

/// Why a step of the search pipeline, or a single field of one record,
/// could not be produced.
#[derive(Clone, Eq, Debug)]
pub enum TorrentSearchError {
    /// The listing page yielded zero extractable rows: the query was valid
    /// but nothing matched.
    NoSearchResults,
    /// A network/transport failure, carrying the underlying error's
    /// description. Raised only by the fetch steps, which live outside this
    /// library; extraction itself never produces it.
    ReqwestError(String),
    /// The detail page held no magnet-link pattern.
    MagnetNotFound,
    /// The site rejects queries of fewer than three user-perceived
    /// characters, so such a query is refused before any fetch.
    SearchTooShort,
    /// The detail page held no seeders pattern.
    SeedsNotFound,
    /// The detail page held no leeches pattern.
    LeechesNotFound,
}

/// Two errors are the same kind, and for transport errors carry the same
/// description.
pub open spec fn error_eq(a: TorrentSearchError, b: TorrentSearchError) -> bool {
    match (a, b) {
        (TorrentSearchError::NoSearchResults, TorrentSearchError::NoSearchResults) => true,
        (TorrentSearchError::ReqwestError(x), TorrentSearchError::ReqwestError(y)) => x@ == y@,
        (TorrentSearchError::MagnetNotFound, TorrentSearchError::MagnetNotFound) => true,
        (TorrentSearchError::SearchTooShort, TorrentSearchError::SearchTooShort) => true,
        (TorrentSearchError::SeedsNotFound, TorrentSearchError::SeedsNotFound) => true,
        (TorrentSearchError::LeechesNotFound, TorrentSearchError::LeechesNotFound) => true,
        _ => false,
    }
}

impl PartialEq for TorrentSearchError {
    fn eq(&self, other: &Self) -> (r: bool) {
        match (self, other) {
            (TorrentSearchError::NoSearchResults, TorrentSearchError::NoSearchResults) => true,
            (TorrentSearchError::ReqwestError(a), TorrentSearchError::ReqwestError(b)) => a.eq(b),
            (TorrentSearchError::MagnetNotFound, TorrentSearchError::MagnetNotFound) => true,
            (TorrentSearchError::SearchTooShort, TorrentSearchError::SearchTooShort) => true,
            (TorrentSearchError::SeedsNotFound, TorrentSearchError::SeedsNotFound) => true,
            (TorrentSearchError::LeechesNotFound, TorrentSearchError::LeechesNotFound) => true,
            _ => false,
        }
    }
}

impl vstd::std_specs::cmp::PartialEqSpecImpl for TorrentSearchError {
    open spec fn obeys_eq_spec() -> bool {
        true
    }

    open spec fn eq_spec(&self, other: &Self) -> bool {
        error_eq(*self, *other)
    }
}

/// Relies on std's derived `Clone` for `Result`: vstd gives it no
/// specification, so nothing is claimed of the copy. It is here only so the
/// record below can derive `Clone`.
pub assume_specification<T: Clone, E: Clone>[ <Result<T, E> as Clone>::clone ](
    r: &Result<T, E>,
) -> Result<T, E>;

/// One search hit. The three extracted fields are independent: any of them
/// may have failed without affecting the others, so each carries its own
/// `Result`.
#[derive(Clone, Eq, Debug)]
pub struct TorrentSearchResult {
    /// Display name, copied from the listing row that produced this record.
    pub name: String,
    /// Seeder count, or why it could not be extracted from the detail page.
    pub seeders: Result<usize, TorrentSearchError>,
    /// Leech count, or why it could not be extracted from the detail page.
    pub leeches: Result<usize, TorrentSearchError>,
    /// The magnet URI, or why it could not be extracted from the detail page.
    pub magnet: Result<String, TorrentSearchError>,
}

/// Two records agree field for field: same name, and each extracted field
/// holds the same value or the same error.
pub open spec fn result_eq(a: TorrentSearchResult, b: TorrentSearchResult) -> bool {
    &&& a.name@ == b.name@
    &&& match (a.seeders, b.seeders) {
        (Ok(x), Ok(y)) => x == y,
        (Err(x), Err(y)) => error_eq(x, y),
        _ => false,
    }
    &&& match (a.leeches, b.leeches) {
        (Ok(x), Ok(y)) => x == y,
        (Err(x), Err(y)) => error_eq(x, y),
        _ => false,
    }
    &&& match (a.magnet, b.magnet) {
        (Ok(x), Ok(y)) => x@ == y@,
        (Err(x), Err(y)) => error_eq(x, y),
        _ => false,
    }
}

impl PartialEq for TorrentSearchResult {
    fn eq(&self, other: &Self) -> (r: bool) {
        let seeders_eq = match (&self.seeders, &other.seeders) {
            (Ok(x), Ok(y)) => *x == *y,
            (Err(x), Err(y)) => x.eq(y),
            _ => false,
        };
        let leeches_eq = match (&self.leeches, &other.leeches) {
            (Ok(x), Ok(y)) => *x == *y,
            (Err(x), Err(y)) => x.eq(y),
            _ => false,
        };
        let magnet_eq = match (&self.magnet, &other.magnet) {
            (Ok(x), Ok(y)) => x.eq(y),
            (Err(x), Err(y)) => x.eq(y),
            _ => false,
        };
        self.name.eq(&other.name) && seeders_eq && leeches_eq && magnet_eq
    }
}

impl vstd::std_specs::cmp::PartialEqSpecImpl for TorrentSearchResult {
    open spec fn obeys_eq_spec() -> bool {
        true
    }

    open spec fn eq_spec(&self, other: &Self) -> bool {
        result_eq(*self, *other)
    }
}

} // verus!
