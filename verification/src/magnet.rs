//! Extraction of the first magnet URI from a detail page. A magnet link is
//! an optional `stratum-` prefix, the `magnet:?xt=urn:` head, a known
//! hash-algorithm token, a hash written in hexadecimal or base32, and then
//! tracker/parameter text that must end in a tracker `announce`, a 40-digit
//! hexadecimal hash, or a base32 run. The parameter section is taken as
//! long as possible, then given back character by character until a valid
//! ending is found, so the match is the longest the grammar allows at its
//! starting position.

use vstd::prelude::*;
use crate::chars::{
    CharClass, is_base32_char, run_end, lit_match, class_run_end, char_in_class, lit_at, to_chars,
    chars_to_string, copy_range,
};
use crate::model::TorrentSearchError;

verus! {

/// The optional prefix some links carry in front of the scheme.
pub open spec fn stratum_lit() -> Seq<char> {
    "stratum-"@
}

/// The scheme and exact-topic head of every magnet URI.
pub open spec fn magnet_head_lit() -> Seq<char> {
    "magnet:?xt=urn:"@
}

/// The tracker-URL tail that may end a match.
pub open spec fn announce_lit() -> Seq<char> {
    "announce"@
}

/// One `'&'`.
pub open spec fn amp_lit() -> Seq<char> {
    seq!['&']
}

/// Where the hash-algorithm token ending at `':'` stops, if one of the
/// recognised tokens stands at `j`. No two tokens share a first character,
/// so at most one can match.
pub open spec fn hash_token_end(s: Seq<char>, j: int) -> Option<int> {
    if lit_match(s, j, "sha1:"@) {
        Some(j + "sha1:"@.len())
    } else if lit_match(s, j, "btih:"@) {
        Some(j + "btih:"@.len())
    } else if lit_match(s, j, "ed2k:"@) {
        Some(j + "ed2k:"@.len())
    } else if lit_match(s, j, "aich:"@) {
        Some(j + "aich:"@.len())
    } else if lit_match(s, j, "kzhash:"@) {
        Some(j + "kzhash:"@.len())
    } else if lit_match(s, j, "md5:"@) {
        Some(j + "md5:"@.len())
    } else if lit_match(s, j, "tree:tiger:"@) {
        Some(j + "tree:tiger:"@.len())
    } else {
        None
    }
}

/// Where a valid match ending starting at `p` stops, if any: a tracker
/// `announce`, exactly forty hexadecimal digits, or a maximal base32 run.
pub open spec fn tail_end_at(s: Seq<char>, p: int) -> Option<int> {
    if lit_match(s, p, announce_lit()) {
        Some(p + announce_lit().len())
    } else if 0 <= p <= s.len() && run_end(s, CharClass::Hex, p) - p >= 40 {
        Some(p + 40)
    } else if 0 <= p < s.len() && is_base32_char(s[p]) {
        Some(run_end(s, CharClass::Base32, p))
    } else {
        None
    }
}

/// The match ending for the longest parameter run that still leaves a
/// valid ending: `j` characters of the run are kept, then an ending must
/// stand at `base + j`; failing that, one character is given back.
pub open spec fn star_back(s: Seq<char>, base: int, j: int) -> Option<int>
    decreases j
    when j >= 0
{
    match tail_end_at(s, base + j) {
        Some(e) => Some(e),
        None => if j == 0 {
            None
        } else {
            star_back(s, base, j - 1)
        },
    }
}

/// Where the magnet URI starting at position `i` ends, if one starts
/// there. The hash may be a maximal run of hexadecimal digits or, failing
/// that, of base32 characters; either way the run must be nonempty and
/// followed by `'&'`, after which the parameter text runs to its longest
/// valid ending.
pub open spec fn magnet_end_at(s: Seq<char>, i: int) -> Option<int> {
    let j = if lit_match(s, i, stratum_lit()) && lit_match(
        s,
        i + stratum_lit().len(),
        magnet_head_lit(),
    ) {
        i + stratum_lit().len()
    } else {
        i
    };
    if !lit_match(s, j, magnet_head_lit()) {
        None
    } else {
        match hash_token_end(s, j + magnet_head_lit().len()) {
            None => None,
            Some(k) => {
                let h = run_end(s, CharClass::Hex, k);
                let b = run_end(s, CharClass::Base32, k);
                let q = if h > k && lit_match(s, h, amp_lit()) {
                    Some(h + 1)
                } else if b > k && lit_match(s, b, amp_lit()) {
                    Some(b + 1)
                } else {
                    None
                };
                match q {
                    None => None,
                    Some(q) => {
                        let m = run_end(s, CharClass::Param, q);
                        star_back(s, q, m - q)
                    },
                }
            },
        }
    }
}

/// The first magnet URI at or after position `i`: the match at the
/// leftmost position where one starts.
pub open spec fn magnet_find_from(s: Seq<char>, i: int) -> Option<Seq<char>>
    decreases s.len() - i
    when 0 <= i <= s.len()
{
    if i >= s.len() {
        None
    } else {
        match magnet_end_at(s, i) {
            Some(e) => Some(s.subrange(i, e)),
            None => magnet_find_from(s, i + 1),
        }
    }
}

/// The first magnet URI of the page, if any.
pub open spec fn magnet_of(page: Seq<char>) -> Option<Seq<char>> {
    magnet_find_from(page, 0)
}

/// The magnet literals, as character vectors ready for matching.
struct MagnetLits {
    stratum: Vec<char>,
    head: Vec<char>,
    announce: Vec<char>,
    amp: Vec<char>,
    sha1: Vec<char>,
    btih: Vec<char>,
    ed2k: Vec<char>,
    aich: Vec<char>,
    kzhash: Vec<char>,
    md5: Vec<char>,
    tree: Vec<char>,
}

impl MagnetLits {
    spec fn wf(&self) -> bool {
        &&& self.stratum@ == stratum_lit()
        &&& self.head@ == magnet_head_lit()
        &&& self.announce@ == announce_lit()
        &&& self.amp@ == amp_lit()
        &&& self.sha1@ == "sha1:"@
        &&& self.btih@ == "btih:"@
        &&& self.ed2k@ == "ed2k:"@
        &&& self.aich@ == "aich:"@
        &&& self.kzhash@ == "kzhash:"@
        &&& self.md5@ == "md5:"@
        &&& self.tree@ == "tree:tiger:"@
    }

    fn make() -> (l: MagnetLits)
        ensures
            l.wf(),
    {
        let amp = to_chars("&");
        proof {
            reveal_strlit("&");
            assert(amp@ =~= amp_lit());
        }
        MagnetLits {
            stratum: to_chars("stratum-"),
            head: to_chars("magnet:?xt=urn:"),
            announce: to_chars("announce"),
            amp,
            sha1: to_chars("sha1:"),
            btih: to_chars("btih:"),
            ed2k: to_chars("ed2k:"),
            aich: to_chars("aich:"),
            kzhash: to_chars("kzhash:"),
            md5: to_chars("md5:"),
            tree: to_chars("tree:tiger:"),
        }
    }
}

/// Recognises a hash-algorithm token at `j`.
fn token_at(v: &Vec<char>, j: usize, l: &MagnetLits) -> (r: Option<usize>)
    requires
        l.wf(),
    ensures
        (r is Some) == (hash_token_end(v@, j as int) is Some),
        r matches Some(k) ==> hash_token_end(v@, j as int) == Some(k as int) && j <= k
            <= v@.len(),
{
    // Pins the page length as a usize, so the position sums below are
    // known to fit.
    let n = v.len();
    proof {
        assert(n == v@.len());
    }
    if lit_at(v, j, &l.sha1) {
        Some(j + l.sha1.len())
    } else if lit_at(v, j, &l.btih) {
        Some(j + l.btih.len())
    } else if lit_at(v, j, &l.ed2k) {
        Some(j + l.ed2k.len())
    } else if lit_at(v, j, &l.aich) {
        Some(j + l.aich.len())
    } else if lit_at(v, j, &l.kzhash) {
        Some(j + l.kzhash.len())
    } else if lit_at(v, j, &l.md5) {
        Some(j + l.md5.len())
    } else if lit_at(v, j, &l.tree) {
        Some(j + l.tree.len())
    } else {
        None
    }
}

/// Recognises a valid match ending at `p`.
fn tail_at(v: &Vec<char>, p: usize, l: &MagnetLits) -> (r: Option<usize>)
    requires
        p <= v@.len(),
        l.wf(),
    ensures
        (r is Some) == (tail_end_at(v@, p as int) is Some),
        r matches Some(e) ==> tail_end_at(v@, p as int) == Some(e as int) && p <= e <= v@.len(),
{
    // Pins the page length as a usize, so the position sums below are
    // known to fit.
    let n = v.len();
    proof {
        assert(n == v@.len());
    }
    if lit_at(v, p, &l.announce) {
        Some(p + l.announce.len())
    } else {
        let he = class_run_end(v, CharClass::Hex, p);
        if he - p >= 40 {
            Some(p + 40)
        } else if p < v.len() && char_in_class(CharClass::Base32, v[p]) {
            Some(class_run_end(v, CharClass::Base32, p))
        } else {
            None
        }
    }
}

/// Finds the longest valid parameter run, scanning back from `m`.
fn star_scan(v: &Vec<char>, q: usize, m: usize, l: &MagnetLits) -> (r: Option<usize>)
    requires
        q <= m <= v@.len(),
        l.wf(),
    ensures
        (r is Some) == (star_back(v@, q as int, (m - q) as int) is Some),
        r matches Some(e) ==> star_back(v@, q as int, (m - q) as int) == Some(e as int) && q <= e
            <= v@.len(),
{
    let mut j = m - q;
    loop
        invariant
            j <= m - q,
            q <= m <= v@.len(),
            l.wf(),
            star_back(v@, q as int, (m - q) as int) == star_back(v@, q as int, j as int),
        decreases j,
    {
        match tail_at(v, q + j, l) {
            Some(e) => {
                return Some(e);
            },
            None => {
                if j == 0 {
                    return None;
                }
                j = j - 1;
            },
        }
    }
}

/// Recognises a magnet URI starting at `i`, returning where it ends.
fn magnet_at(v: &Vec<char>, i: usize, l: &MagnetLits) -> (r: Option<usize>)
    requires
        i <= v@.len(),
        l.wf(),
    ensures
        (r is Some) == (magnet_end_at(v@, i as int) is Some),
        r matches Some(e) ==> magnet_end_at(v@, i as int) == Some(e as int) && i < e <= v@.len(),
{
    // Pins the page length as a usize, so the position sums below are
    // known to fit.
    let n = v.len();
    proof {
        assert(n == v@.len());
    }
    let j = if lit_at(v, i, &l.stratum) && lit_at(v, i + l.stratum.len(), &l.head) {
        i + l.stratum.len()
    } else {
        i
    };
    if !lit_at(v, j, &l.head) {
        return None;
    }
    let k = match token_at(v, j + l.head.len(), l) {
        Some(k) => k,
        None => {
            return None;
        },
    };
    let h = class_run_end(v, CharClass::Hex, k);
    let b = class_run_end(v, CharClass::Base32, k);
    let q = if h > k && lit_at(v, h, &l.amp) {
        h + 1
    } else if b > k && lit_at(v, b, &l.amp) {
        b + 1
    } else {
        return None;
    };
    let m = class_run_end(v, CharClass::Param, q);
    star_scan(v, q, m, l)
}

/// Extracts the first magnet URI of a detail page, exactly as it stands in
/// the page; a page without one is `MagnetNotFound`.
pub fn find_magnet(page: &str) -> (r: Result<String, TorrentSearchError>)
    ensures
        match magnet_of(page@) {
            Some(m) => r matches Ok(u) && u@ == m,
            None => r == Err::<String, TorrentSearchError>(TorrentSearchError::MagnetNotFound),
        },
{
    let v = to_chars(page);
    let l = MagnetLits::make();
    let mut i: usize = 0;
    while i < v.len()
        invariant
            i <= v@.len(),
            v@ == page@,
            l.wf(),
            magnet_of(page@) == magnet_find_from(v@, i as int),
        decreases v@.len() - i,
    {
        match magnet_at(&v, i, &l) {
            Some(e) => {
                let mc = copy_range(&v, i, e);
                return Ok(chars_to_string(&mc));
            },
            None => {
                i = i + 1;
            },
        }
    }
    Err(TorrentSearchError::MagnetNotFound)
}

} // verus!
