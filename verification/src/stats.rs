//! Extraction of swarm statistics (seeders and leeches) from a detail
//! page. Each count sits as a run of decimal digits inside a known span;
//! the run is parsed as a non-negative integer. A count too large for the
//! machine word is treated as if its span held no usable count.

use vstd::prelude::*;
use crate::chars::{
    CharClass, run_end, lit_match, lemma_run_end, class_run_end, lit_at, to_chars, digits_value,
    digits_to_usize,
};
use crate::model::TorrentSearchError;

verus! {

/// Markup opening the seeders span.
pub open spec fn seeds_open_lit() -> Seq<char> {
    "<span class=\"seeds\">"@
}

/// Markup opening the leeches span.
pub open spec fn leeches_open_lit() -> Seq<char> {
    "<span class=\"leeches\">"@
}

/// Markup closing either span.
pub open spec fn span_close_lit() -> Seq<char> {
    "</span>"@
}

/// The statistic read at position `i`: the opening markup, at least one
/// decimal digit, and the closing markup; the value is the whole digit run
/// parsed as a non-negative integer.
pub open spec fn stat_at(s: Seq<char>, open: Seq<char>, i: int) -> Option<int> {
    if !lit_match(s, i, open) {
        None
    } else {
        let d = run_end(s, CharClass::Digit, i + open.len());
        if d > i + open.len() && lit_match(s, d, span_close_lit()) {
            Some(digits_value(s, i + open.len(), d))
        } else {
            None
        }
    }
}

/// The first such statistic at or after position `i`.
pub open spec fn stat_find_from(s: Seq<char>, open: Seq<char>, i: int) -> Option<int>
    decreases s.len() - i
    when 0 <= i <= s.len()
{
    if i >= s.len() {
        None
    } else {
        match stat_at(s, open, i) {
            Some(val) => Some(val),
            None => stat_find_from(s, open, i + 1),
        }
    }
}

/// The page's seeders value, if its span is present.
pub open spec fn seeds_of(page: Seq<char>) -> Option<int> {
    stat_find_from(page, seeds_open_lit(), 0)
}

/// The page's leeches value, if its span is present.
pub open spec fn leeches_of(page: Seq<char>) -> Option<int> {
    stat_find_from(page, leeches_open_lit(), 0)
}

/// What reading a statistic at one position gave.
enum StatRead {
    /// No statistic stands at this position.
    NoStat,
    /// A statistic stands here, but its value does not fit a `usize`.
    TooLarge,
    /// A statistic stands here, with this value.
    Value(usize),
}

/// Reads the statistic at position `i`.
fn stat_at_exec(v: &Vec<char>, open: &Vec<char>, close: &Vec<char>, i: usize) -> (r: StatRead)
    requires
        close@ == span_close_lit(),
    ensures
        match stat_at(v@, open@, i as int) {
            None => r is NoStat,
            Some(n) => if n <= usize::MAX {
                r matches StatRead::Value(val) && val == n
            } else {
                r is TooLarge
            },
        },
{
    // Pins the page length as a usize, so the position sums below are
    // known to fit.
    let n = v.len();
    proof {
        assert(n == v@.len());
    }
    if !lit_at(v, i, open) {
        return StatRead::NoStat;
    }
    let start = i + open.len();
    let d = class_run_end(v, CharClass::Digit, start);
    if d > start && lit_at(v, d, close) {
        proof {
            lemma_run_end(v@, CharClass::Digit, start as int);
        }
        match digits_to_usize(v, start, d) {
            Some(val) => StatRead::Value(val),
            None => StatRead::TooLarge,
        }
    } else {
        StatRead::NoStat
    }
}

/// Finds the first statistic in the page, if the page holds one whose
/// value the machine word can represent.
fn find_stat(v: &Vec<char>, open: &Vec<char>, close: &Vec<char>) -> (r: Option<usize>)
    requires
        close@ == span_close_lit(),
    ensures
        match stat_find_from(v@, open@, 0) {
            None => r is None,
            Some(n) => if n <= usize::MAX {
                r matches Some(val) && val == n
            } else {
                r is None
            },
        },
{
    let mut i: usize = 0;
    while i < v.len()
        invariant
            i <= v@.len(),
            close@ == span_close_lit(),
            stat_find_from(v@, open@, 0) == stat_find_from(v@, open@, i as int),
        decreases v@.len() - i,
    {
        match stat_at_exec(v, open, close, i) {
            StatRead::Value(val) => {
                return Some(val);
            },
            StatRead::TooLarge => {
                return None;
            },
            StatRead::NoStat => {
                i = i + 1;
            },
        }
    }
    None
}

/// Extracts the seeders and leeches counts of a detail page. The two
/// extractions are independent: each reads only its own span, and either
/// may fail without affecting the other. A count beyond the machine word
/// is reported as the same per-field error as a missing span.
pub fn find_peer_info(page: &str) -> (r: (
    Result<usize, TorrentSearchError>,
    Result<usize, TorrentSearchError>,
))
    ensures
        match seeds_of(page@) {
            Some(n) => if n <= usize::MAX {
                r.0 matches Ok(val) && val == n
            } else {
                r.0 == Err::<usize, TorrentSearchError>(TorrentSearchError::SeedsNotFound)
            },
            None => r.0 == Err::<usize, TorrentSearchError>(TorrentSearchError::SeedsNotFound),
        },
        match leeches_of(page@) {
            Some(n) => if n <= usize::MAX {
                r.1 matches Ok(val) && val == n
            } else {
                r.1 == Err::<usize, TorrentSearchError>(TorrentSearchError::LeechesNotFound)
            },
            None => r.1 == Err::<usize, TorrentSearchError>(TorrentSearchError::LeechesNotFound),
        },
{
    let v = to_chars(page);
    let seeds_open = to_chars("<span class=\"seeds\">");
    let leeches_open = to_chars("<span class=\"leeches\">");
    let close = to_chars("</span>");
    let seeds = match find_stat(&v, &seeds_open, &close) {
        Some(val) => Ok(val),
        None => Err(TorrentSearchError::SeedsNotFound),
    };
    let leeches = match find_stat(&v, &leeches_open, &close) {
        Some(val) => Ok(val),
        None => Err(TorrentSearchError::LeechesNotFound),
    };
    (seeds, leeches)
}

} // verus!
