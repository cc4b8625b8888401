//! The search pipeline's orchestrator. A `SearchSession` makes every
//! decision of a search — validating the query, choosing each URL to fetch,
//! extracting rows and per-row fields, and assembling the result set —
//! while the caller performs the fetches: each step hands back either a URL
//! to GET or the outcome, and the caller feeds every fetched body (or a
//! transport failure, which ends the search) into the session.

use vstd::prelude::*;
use crate::listing::{listing_rows, find_torrents};
use crate::magnet::{magnet_of, find_magnet};
use crate::model::{TorrentSearchError, TorrentSearchResult};
use crate::query::{
    grapheme_count_of, grapheme_count, min_query_graphemes, listing_url_of, listing_url,
    detail_url_of, detail_url,
};
use crate::stats::{seeds_of, leeches_of, find_peer_info};

verus! {

/// What the session is waiting for.
#[derive(Clone, Copy, Debug)]
pub enum Phase {
    /// The listing page's body.
    AwaitListing,
    /// The body of the detail page of the next unprocessed row.
    AwaitDetail,
    /// Nothing: the search ended in a result set or an error.
    Finished,
}

/// What the caller must do next: fetch a URL and hand the body back, or
/// take the finished outcome.
#[derive(Debug)]
pub enum SearchStep {
    /// GET this URL and call `on_page` with the response body, or
    /// `on_transport_error` if the request failed.
    Fetch(String),
    /// The search succeeded with these results, one per listing row.
    Done(Vec<TorrentSearchResult>),
    /// The search ended with this error and no results.
    Failed(TorrentSearchError),
}

/// The record extracted for a row named `name` whose detail page reads
/// `page`: each field holds its extracted value, or the error of the one
/// pattern that did not match, independently of the other fields.
pub open spec fn result_matches(rec: TorrentSearchResult, name: Seq<char>, page: Seq<char>) -> bool {
    &&& rec.name@ == name
    &&& match magnet_of(page) {
        Some(m) => rec.magnet matches Ok(u) && u@ == m,
        None => rec.magnet == Err::<String, TorrentSearchError>(TorrentSearchError::MagnetNotFound),
    }
    &&& match seeds_of(page) {
        Some(n) => if n <= usize::MAX {
            rec.seeders matches Ok(v) && v == n
        } else {
            rec.seeders == Err::<usize, TorrentSearchError>(TorrentSearchError::SeedsNotFound)
        },
        None => rec.seeders == Err::<usize, TorrentSearchError>(TorrentSearchError::SeedsNotFound),
    }
    &&& match leeches_of(page) {
        Some(n) => if n <= usize::MAX {
            rec.leeches matches Ok(v) && v == n
        } else {
            rec.leeches == Err::<usize, TorrentSearchError>(TorrentSearchError::LeechesNotFound)
        },
        None => rec.leeches == Err::<usize, TorrentSearchError>(
            TorrentSearchError::LeechesNotFound,
        ),
    }
}

/// One search in progress. The ghost fields record the query and every
/// body the caller has fed in, so the contracts can tie each produced
/// record to the page it was extracted from.
pub struct SearchSession {
    /// What the session is waiting for.
    pub phase: Phase,
    /// Detail paths of the listing rows, each with its trailing slash.
    pub paths: Vec<String>,
    /// Display names of the listing rows, in page order.
    pub names: Vec<String>,
    /// Records assembled so far, one per processed row.
    pub results: Vec<TorrentSearchResult>,
    /// The raw query the session was started with.
    pub query: Ghost<Seq<char>>,
    /// The listing body, once it has been fed in.
    pub listing: Ghost<Seq<char>>,
    /// The detail bodies fed in so far, in row order.
    pub details: Ghost<Seq<Seq<char>>>,
}

impl SearchSession {
    /// The session still expects a page.
    pub open spec fn awaiting(self) -> bool {
        self.phase is AwaitListing || self.phase is AwaitDetail
    }

    /// The paths and names are exactly the listing page's rows, with the
    /// trailing slash appended to each path.
    pub open spec fn rows_ok(self) -> bool {
        let rows = listing_rows(self.listing@);
        &&& self.names@.len() == rows.len()
        &&& forall|k: int|
            0 <= k < rows.len() ==> self.paths@[k]@ == rows[k].0.push('/') && self.names@[k]@
                == rows[k].1
    }

    /// The session's invariant: paths and names pair up, one record has
    /// been produced per fed detail body, each from its own row and page,
    /// and the phase says how far the pipeline has come.
    pub open spec fn wf(self) -> bool {
        &&& self.paths@.len() == self.names@.len()
        &&& self.results@.len() == self.details@.len()
        &&& forall|k: int|
            0 <= k < self.results@.len() ==> k < self.names@.len() && result_matches(
                self.results@[k],
                self.names@[k]@,
                self.details@[k],
            )
        &&& match self.phase {
            Phase::AwaitListing => self.names@.len() == 0 && self.results@.len() == 0,
            Phase::AwaitDetail => self.rows_ok() && self.results@.len() < self.names@.len(),
            Phase::Finished => true,
        }
    }

    /// Tells whether the session still expects a page, so an unverified
    /// caller can keep to `on_page`'s precondition.
    pub fn is_awaiting(&self) -> (b: bool)
        ensures
            b == self.awaiting(),
    {
        match self.phase {
            Phase::AwaitListing => true,
            Phase::AwaitDetail => true,
            Phase::Finished => false,
        }
    }

    /// Starts a search. A query of fewer than three user-perceived
    /// characters fails at once with `SearchTooShort` and asks for no
    /// fetch; any other query asks for the listing page of its search URL.
    pub fn start(search: String) -> (r: (SearchSession, SearchStep))
        ensures
            r.0.wf(),
            r.0.query@ == search@,
            grapheme_count_of(search@) < min_query_graphemes() ==> r.0.phase is Finished && r.1
                == SearchStep::Failed(TorrentSearchError::SearchTooShort),
            grapheme_count_of(search@) >= min_query_graphemes() ==> r.0.phase is AwaitListing && (
            r.1 matches SearchStep::Fetch(u) && u@ == listing_url_of(search@)),
    {
        let count = grapheme_count(search.as_str());
        if count < 3 {
            let session = SearchSession {
                phase: Phase::Finished,
                paths: Vec::new(),
                names: Vec::new(),
                results: Vec::new(),
                query: Ghost(search@),
                listing: Ghost(Seq::empty()),
                details: Ghost(Seq::empty()),
            };
            (session, SearchStep::Failed(TorrentSearchError::SearchTooShort))
        } else {
            let url = listing_url(search.as_str());
            let session = SearchSession {
                phase: Phase::AwaitListing,
                paths: Vec::new(),
                names: Vec::new(),
                results: Vec::new(),
                query: Ghost(search@),
                listing: Ghost(Seq::empty()),
                details: Ghost(Seq::empty()),
            };
            (session, SearchStep::Fetch(url))
        }
    }

    /// Feeds the session the body of the page it asked for.
    ///
    /// For the listing body: a page with no rows fails with
    /// `NoSearchResults`; otherwise the rows' paths and names are kept and
    /// the first detail page is asked for. For a detail body: one record is
    /// appended, its fields extracted independently from that body, and the
    /// next detail page is asked for until every row has its record, at
    /// which point the full result set, in listing order, is handed out.
    pub fn on_page(&mut self, body: String) -> (step: SearchStep)
        requires
            old(self).wf(),
            old(self).awaiting(),
        ensures
            final(self).wf(),
            final(self).query == old(self).query,
            old(self).phase is AwaitListing ==> {
                let rows = listing_rows(body@);
                &&& final(self).listing@ == body@
                &&& rows.len() == 0 ==> final(self).phase is Finished && step
                    == SearchStep::Failed(TorrentSearchError::NoSearchResults)
                &&& rows.len() > 0 ==> {
                    &&& final(self).phase is AwaitDetail
                    &&& final(self).rows_ok()
                    &&& final(self).results@.len() == 0
                    &&& step matches SearchStep::Fetch(u) && u@ == detail_url_of(
                        rows[0].0.push('/'),
                    )
                }
            },
            old(self).phase is AwaitDetail ==> {
                let idx = old(self).results@.len() as int;
                &&& final(self).names == old(self).names
                &&& final(self).paths == old(self).paths
                &&& final(self).listing == old(self).listing
                &&& idx + 1 < old(self).names@.len() ==> {
                    &&& final(self).phase is AwaitDetail
                    &&& final(self).details@ == old(self).details@.push(body@)
                    &&& final(self).results@.len() == idx + 1
                    &&& result_matches(final(self).results@[idx], old(self).names@[idx]@, body@)
                    &&& step matches SearchStep::Fetch(u) && u@ == detail_url_of(
                        old(self).paths@[idx + 1]@,
                    )
                }
                &&& idx + 1 == old(self).names@.len() ==> {
                    &&& final(self).phase is Finished
                    &&& step matches SearchStep::Done(rs) && rs@.len() == old(
                        self,
                    ).names@.len() && (forall|k: int|
                        0 <= k < rs@.len() ==> result_matches(
                            rs@[k],
                            old(self).names@[k]@,
                            old(self).details@.push(body@)[k],
                        ))
                }
            },
    {
        match self.phase {
            Phase::AwaitListing => {
                proof {
                    self.listing@ = body@;
                }
                match find_torrents(body.as_str()) {
                    Ok(pn) => {
                        self.paths = pn.0;
                        self.names = pn.1;
                        self.phase = Phase::AwaitDetail;
                        let url = detail_url(self.paths[0].as_str());
                        SearchStep::Fetch(url)
                    },
                    Err(e) => {
                        self.phase = Phase::Finished;
                        SearchStep::Failed(e)
                    },
                }
            },
            Phase::AwaitDetail => {
                let magnet = find_magnet(body.as_str());
                let peers = find_peer_info(body.as_str());
                let idx = self.results.len();
                let name = self.names[idx].clone();
                let rec = TorrentSearchResult {
                    name,
                    seeders: peers.0,
                    leeches: peers.1,
                    magnet,
                };
                self.results.push(rec);
                proof {
                    self.details@ = self.details@.push(body@);
                }
                if self.results.len() < self.names.len() {
                    let url = detail_url(self.paths[self.results.len()].as_str());
                    SearchStep::Fetch(url)
                } else {
                    self.phase = Phase::Finished;
                    let mut out: Vec<TorrentSearchResult> = Vec::new();
                    core::mem::swap(&mut out, &mut self.results);
                    proof {
                        self.details@ = Seq::empty();
                    }
                    SearchStep::Done(out)
                }
            },
            Phase::Finished => {
                // Unreachable under the precondition.
                SearchStep::Failed(TorrentSearchError::NoSearchResults)
            },
        }
    }

    /// Records that the fetch the session asked for failed, ending the
    /// search with the transport error's description.
    pub fn on_transport_error(&mut self, description: String) -> (step: SearchStep)
        requires
            old(self).wf(),
        ensures
            final(self).wf(),
            final(self).phase is Finished,
            step == SearchStep::Failed(TorrentSearchError::ReqwestError(description)),
    {
        self.phase = Phase::Finished;
        SearchStep::Failed(TorrentSearchError::ReqwestError(description))
    }
}

} // verus!
