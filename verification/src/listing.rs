//! Extraction of result rows from a listing page. A row is recognised by
//! the site's fixed markup: a name cell whose icon link points under
//! `/sub/`, followed by the torrent link whose href carries the detail path
//! and display name. Matches are collected left to right, without overlap,
//! in order of appearance.

use vstd::prelude::*;
use crate::chars::{
    CharClass, run_end, lit_match, lemma_run_end, class_run_end, lit_at, to_chars,
    chars_to_string, copy_range,
};
use crate::model::TorrentSearchError;

verus! {

/// Markup that opens a listing row, up to the digits of the `/sub/` link.
pub open spec fn row_head_lit() -> Seq<char> {
    "<td class=\"coll-1 name\"><a href=\"/sub/"@
}

/// Markup between the `/sub/` link's digits and the icon's class digits.
pub open spec fn row_mid_lit() -> Seq<char> {
    "/\" class=\"icon\"><i class=\"flaticon-"@
}

/// Markup closing the icon and opening the torrent link, up to its path.
pub open spec fn row_link_lit() -> Seq<char> {
    "\"></i></a><a href=\""@
}

/// Leading segment of every detail path.
pub open spec fn torrent_prefix_lit() -> Seq<char> {
    "/torrent/"@
}

/// One `'/'`.
pub open spec fn slash_lit() -> Seq<char> {
    seq!['/']
}

/// The listing row recognised at position `i` of the page, if any:
/// `(path, name, end)` where `path` is the captured detail path (without a
/// trailing slash), `name` the captured display name, and `end` the
/// position just past the match. Each character run is maximal, as the
/// literal that follows it can contain no character of the run's class.
pub open spec fn listing_capture_at(s: Seq<char>, i: int) -> Option<(Seq<char>, Seq<char>, int)> {
    if !lit_match(s, i, row_head_lit()) {
        None
    } else {
        let d1 = run_end(s, CharClass::Digit, i + row_head_lit().len());
        if !lit_match(s, d1, slash_lit()) {
            None
        } else {
            let d2 = run_end(s, CharClass::Digit, d1 + 1);
            if !lit_match(s, d2, row_mid_lit()) {
                None
            } else {
                let a = run_end(s, CharClass::Alnum, d2 + row_mid_lit().len());
                if !lit_match(s, a, row_link_lit()) {
                    None
                } else {
                    let p = a + row_link_lit().len();
                    if !lit_match(s, p, torrent_prefix_lit()) {
                        None
                    } else {
                        let d3 = run_end(s, CharClass::Digit, p + torrent_prefix_lit().len());
                        if !lit_match(s, d3, slash_lit()) {
                            None
                        } else {
                            let ne = run_end(s, CharClass::Name, d3 + 1);
                            Some((s.subrange(p, ne), s.subrange(d3 + 1, ne), ne))
                        }
                    }
                }
            }
        }
    }
}

/// A recognised row lies within the page and ends strictly after its start.
pub proof fn lemma_capture_advances(s: Seq<char>, i: int)
    requires
        0 <= i <= s.len(),
        listing_capture_at(s, i) is Some,
    ensures
        i < listing_capture_at(s, i)->Some_0.2 <= s.len(),
{
    let d1 = run_end(s, CharClass::Digit, i + row_head_lit().len());
    lemma_run_end(s, CharClass::Digit, i + row_head_lit().len());
    let d2 = run_end(s, CharClass::Digit, d1 + 1);
    lemma_run_end(s, CharClass::Digit, d1 + 1);
    let a = run_end(s, CharClass::Alnum, d2 + row_mid_lit().len());
    lemma_run_end(s, CharClass::Alnum, d2 + row_mid_lit().len());
    let p = a + row_link_lit().len();
    let d3 = run_end(s, CharClass::Digit, p + torrent_prefix_lit().len());
    lemma_run_end(s, CharClass::Digit, p + torrent_prefix_lit().len());
    lemma_run_end(s, CharClass::Name, d3 + 1);
}

/// All rows of the page from position `i` on, in order of appearance,
/// without overlap: after a match the scan resumes at its end, otherwise at
/// the next position.
pub open spec fn listing_rows_from(s: Seq<char>, i: int) -> Seq<(Seq<char>, Seq<char>)>
    decreases s.len() - i
        when 0 <= i <= s.len()
        via lemma_listing_rows_from_decreases
{
    if i >= s.len() {
        Seq::empty()
    } else {
        match listing_capture_at(s, i) {
            Some(cap) => seq![(cap.0, cap.1)] + listing_rows_from(s, cap.2),
            None => listing_rows_from(s, i + 1),
        }
    }
}

#[via_fn]
proof fn lemma_listing_rows_from_decreases(s: Seq<char>, i: int) {
    if i < s.len() && listing_capture_at(s, i) is Some {
        lemma_capture_advances(s, i);
    }
}

/// Every row of the listing page: `(path, name)` pairs in page order.
pub open spec fn listing_rows(page: Seq<char>) -> Seq<(Seq<char>, Seq<char>)> {
    listing_rows_from(page, 0)
}

/// The row literals, as character vectors ready for matching.
struct RowLits {
    head: Vec<char>,
    mid: Vec<char>,
    link: Vec<char>,
    torrent: Vec<char>,
    slash: Vec<char>,
}

impl RowLits {
    spec fn wf(&self) -> bool {
        &&& self.head@ == row_head_lit()
        &&& self.mid@ == row_mid_lit()
        &&& self.link@ == row_link_lit()
        &&& self.torrent@ == torrent_prefix_lit()
        &&& self.slash@ == slash_lit()
    }

    fn make() -> (l: RowLits)
        ensures
            l.wf(),
    {
        let slash = to_chars("/");
        proof {
            reveal_strlit("/");
            assert(slash@ =~= slash_lit());
        }
        RowLits {
            head: to_chars("<td class=\"coll-1 name\"><a href=\"/sub/"),
            mid: to_chars("/\" class=\"icon\"><i class=\"flaticon-"),
            link: to_chars("\"></i></a><a href=\""),
            torrent: to_chars("/torrent/"),
            slash,
        }
    }
}

/// Recognises a listing row at position `i`, returning the positions
/// `(path_start, name_start, end)` of its captures.
fn capture_at(v: &Vec<char>, i: usize, l: &RowLits) -> (r: Option<(usize, usize, usize)>)
    requires
        i <= v@.len(),
        l.wf(),
    ensures
        (r is Some) == (listing_capture_at(v@, i as int) is Some),
        r matches Some(pos) ==> {
            &&& pos.0 <= pos.1 <= pos.2
            &&& i < pos.2 <= v@.len()
            &&& listing_capture_at(v@, i as int) == Some(
                (
                    v@.subrange(pos.0 as int, pos.2 as int),
                    v@.subrange(pos.1 as int, pos.2 as int),
                    pos.2 as int,
                ),
            )
        },
{
    // Pins the page length as a usize, so the position sums below are
    // known to fit.
    let n = v.len();
    proof {
        assert(n == v@.len());
    }
    if !lit_at(v, i, &l.head) {
        return None;
    }
    let d1 = class_run_end(v, CharClass::Digit, i + l.head.len());
    if !lit_at(v, d1, &l.slash) {
        return None;
    }
    let d2 = class_run_end(v, CharClass::Digit, d1 + 1);
    if !lit_at(v, d2, &l.mid) {
        return None;
    }
    let a = class_run_end(v, CharClass::Alnum, d2 + l.mid.len());
    if !lit_at(v, a, &l.link) {
        return None;
    }
    let p = a + l.link.len();
    if !lit_at(v, p, &l.torrent) {
        return None;
    }
    let d3 = class_run_end(v, CharClass::Digit, p + l.torrent.len());
    if !lit_at(v, d3, &l.slash) {
        return None;
    }
    let ne = class_run_end(v, CharClass::Name, d3 + 1);
    Some((p, d3 + 1, ne))
}

/// Extracts every listing row of `page`. On success the two vectors have
/// one entry per row, in page order: the detail path with the trailing
/// slash the site's detail URLs need, and the display name. A page with no
/// recognisable row is `NoSearchResults`.
pub fn find_torrents(page: &str) -> (r: Result<(Vec<String>, Vec<String>), TorrentSearchError>)
    ensures
        match r {
            Ok(pn) => {
                let rows = listing_rows(page@);
                &&& rows.len() > 0
                &&& pn.0@.len() == rows.len()
                &&& pn.1@.len() == rows.len()
                &&& forall|k: int|
                    0 <= k < rows.len() ==> pn.0@[k]@ == rows[k].0.push('/') && pn.1@[k]@
                        == rows[k].1
            },
            Err(e) => e == TorrentSearchError::NoSearchResults && listing_rows(page@).len() == 0,
        },
{
    let v = to_chars(page);
    let l = RowLits::make();
    let mut paths: Vec<String> = Vec::new();
    let mut names: Vec<String> = Vec::new();
    let ghost mut done: Seq<(Seq<char>, Seq<char>)> = Seq::empty();
    let mut i: usize = 0;
    proof {
        assert(done + listing_rows_from(v@, 0) =~= listing_rows(v@));
    }
    while i < v.len()
        invariant
            i <= v@.len(),
            v@ == page@,
            l.wf(),
            listing_rows(v@) == done + listing_rows_from(v@, i as int),
            paths@.len() == done.len(),
            names@.len() == done.len(),
            forall|k: int|
                0 <= k < done.len() ==> paths@[k]@ == done[k].0.push('/') && names@[k]@
                    == done[k].1,
        decreases v@.len() - i,
    {
        match capture_at(&v, i, &l) {
            Some(pos) => {
                let mut pc = copy_range(&v, pos.0, pos.2);
                pc.push('/');
                paths.push(chars_to_string(&pc));
                let nc = copy_range(&v, pos.1, pos.2);
                names.push(chars_to_string(&nc));
                proof {
                    let cap = listing_capture_at(v@, i as int)->Some_0;
                    assert(listing_rows_from(v@, i as int) == seq![(cap.0, cap.1)]
                        + listing_rows_from(v@, cap.2));
                    assert((done + listing_rows_from(v@, i as int)) =~= (done.push((cap.0, cap.1))
                        + listing_rows_from(v@, cap.2)));
                    done = done.push((cap.0, cap.1));
                }
                i = pos.2;
            },
            None => {
                proof {
                    assert(listing_rows_from(v@, i as int) == listing_rows_from(v@, i + 1));
                }
                i = i + 1;
            },
        }
    }
    proof {
        assert(listing_rows_from(v@, i as int) =~= Seq::<(Seq<char>, Seq<char>)>::empty());
        assert(done + listing_rows_from(v@, i as int) =~= done);
    }
    if paths.len() == 0 {
        Err(TorrentSearchError::NoSearchResults)
    } else {
        Ok((paths, names))
    }
}

} // verus!
