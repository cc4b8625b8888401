//! Query validation and URL construction: counting user-perceived
//! characters, rewriting path separators the site rejects in search terms,
//! and assembling the two URL shapes the pipeline fetches.

use vstd::prelude::*;
use unicode_segmentation::UnicodeSegmentation;
use crate::chars::{to_chars, chars_to_string};

verus! {

/// Number of grapheme clusters (user-perceived characters) in a text;
/// determined by the characters alone.
pub uninterp spec fn grapheme_count_of(s: Seq<char>) -> nat;

/// Relies on `UnicodeSegmentation::graphemes` of unicode-segmentation: the
/// iterator yields the extended grapheme clusters of `s`, so its count is a
/// function of the characters alone.
#[verifier::external_body]
pub(crate) fn grapheme_count(s: &str) -> (n: usize)
    ensures
        n as nat == grapheme_count_of(s@),
{
    UnicodeSegmentation::graphemes(s, true).count()
}

/// The fewest user-perceived characters the site accepts in a query.
pub open spec fn min_query_graphemes() -> nat {
    3
}

/// The query with every path separator rewritten to `'+'`: a plain `'/'`,
/// or a percent-encoded one (`%2F` or `%2f`), each becomes one `'+'`.
pub open spec fn escaped_query(s: Seq<char>) -> Seq<char>
    decreases s.len(),
{
    if s.len() == 0 {
        Seq::empty()
    } else if s[0] == '/' {
        seq!['+'] + escaped_query(s.skip(1))
    } else if s.len() >= 3 && s[0] == '%' && s[1] == '2' && (s[2] == 'F' || s[2] == 'f') {
        seq!['+'] + escaped_query(s.skip(3))
    } else {
        seq![s[0]] + escaped_query(s.skip(1))
    }
}

/// Position `k` of `t` starts a path separator: a plain `'/'` or a
/// percent-encoded one.
pub open spec fn separator_at(t: Seq<char>, k: int) -> bool {
    t[k] == '/' || (k + 3 <= t.len() && t[k] == '%' && t[k + 1] == '2' && (t[k + 2] == 'F' || t[k
        + 2] == 'f'))
}

/// Computes `escaped_query`.
pub fn escape_query_chars(q: &Vec<char>) -> (o: Vec<char>)
    ensures
        o@ == escaped_query(q@),
{
    let mut o: Vec<char> = Vec::new();
    let mut i: usize = 0;
    proof {
        assert(q@.skip(0) =~= q@);
        assert(o@ + escaped_query(q@) =~= escaped_query(q@));
    }
    while i < q.len()
        invariant
            i <= q@.len(),
            escaped_query(q@) == o@ + escaped_query(q@.skip(i as int)),
        decreases q@.len() - i,
    {
        let ghost pre = q@.skip(i as int);
        if q[i] == '/' {
            o.push('+');
            i = i + 1;
            proof {
                assert(pre.skip(1) =~= q@.skip(i as int));
                assert(o@ + escaped_query(q@.skip(i as int)) =~= o@.drop_last() + (seq!['+']
                    + escaped_query(q@.skip(i as int))));
            }
        } else if q.len() - i >= 3 && q[i] == '%' && q[i + 1] == '2' && (q[i + 2] == 'F' || q[i + 2]
            == 'f') {
            o.push('+');
            i = i + 3;
            proof {
                assert(pre.len() >= 3 && pre[0] == '%' && pre[1] == '2' && (pre[2] == 'F' || pre[2]
                    == 'f'));
                assert(pre.skip(3) =~= q@.skip(i as int));
                assert(o@ + escaped_query(q@.skip(i as int)) =~= o@.drop_last() + (seq!['+']
                    + escaped_query(q@.skip(i as int))));
            }
        } else {
            let c = q[i];
            o.push(c);
            i = i + 1;
            proof {
                assert(pre.skip(1) =~= q@.skip(i as int));
                assert(o@ + escaped_query(q@.skip(i as int)) =~= o@.drop_last() + (seq![c]
                    + escaped_query(q@.skip(i as int))));
            }
        }
    }
    proof {
        assert(q@.skip(i as int) =~= Seq::<char>::empty());
        assert(o@ + escaped_query(q@.skip(i as int)) =~= o@);
    }
    o
}

/// No position of the escaped query starts a path separator, plain or
/// percent-encoded: the rewrite of `escaped_query` removes them all.
pub proof fn lemma_escaped_query_no_separator(s: Seq<char>)
    ensures
        forall|k: int| 0 <= k < escaped_query(s).len() ==> !separator_at(escaped_query(s), k),
    decreases s.len(),
{
    let e = escaped_query(s);
    if s.len() == 0 {
    } else {
        let head: char = if s[0] == '/' {
            '+'
        } else if s.len() >= 3 && s[0] == '%' && s[1] == '2' && (s[2] == 'F' || s[2] == 'f') {
            '+'
        } else {
            s[0]
        };
        let tail = if s.len() >= 3 && s[0] == '%' && s[1] == '2' && (s[2] == 'F' || s[2] == 'f') {
            escaped_query(s.skip(3))
        } else {
            escaped_query(s.skip(1))
        };
        assert(e == seq![head] + tail);
        if s[0] == '/' {
            lemma_escaped_query_no_separator(s.skip(1));
        } else if s.len() >= 3 && s[0] == '%' && s[1] == '2' && (s[2] == 'F' || s[2] == 'f') {
            lemma_escaped_query_no_separator(s.skip(3));
        } else {
            lemma_escaped_query_no_separator(s.skip(1));
        }
        assert forall|k: int| 0 <= k < e.len() implies !separator_at(e, k) by {
            if k == 0 {
                lemma_escaped_head_not_sep(s);
            } else {
                assert(e[k] == tail[k - 1]);
                assert(!separator_at(tail, k - 1));
                if k + 3 <= e.len() {
                    assert(e[k + 1] == tail[k]);
                    assert(e[k + 2] == tail[k + 1]);
                }
            }
        }
    }
}

/// The escaped query never begins with a separator: a plain `'/'` is
/// rewritten, and a leading `'%'` can only be a kept character, so the two
/// output characters after it cannot complete a percent-encoded separator
/// that the rewrite would have removed.
proof fn lemma_escaped_head_not_sep(s: Seq<char>)
    requires
        s.len() > 0,
    ensures
        !separator_at(escaped_query(s), 0),
{
    let e = escaped_query(s);
    assert(e[0] != '/');
    if 3 <= e.len() && e[0] == '%' && e[1] == '2' && (e[2] == 'F' || e[2] == 'f') {
        assert(s[0] == '%');
        let t1 = escaped_query(s.skip(1));
        assert(e == seq![s[0]] + t1);
        let s1 = s.skip(1);
        assert(s1.len() > 0);
        if s1[0] == '/' {
            assert(t1[0] == '+');
        } else if s1.len() >= 3 && s1[0] == '%' && s1[1] == '2' && (s1[2] == 'F' || s1[2] == 'f') {
            assert(t1[0] == '+');
        } else {
            assert(t1 == seq![s1[0]] + escaped_query(s1.skip(1)));
            assert(s1[0] == '2');
            let s2 = s1.skip(1);
            let t2 = escaped_query(s2);
            assert(t1[1] == t2[0]);
            assert(s2.len() > 0);
            if s2[0] == '/' {
                assert(t2[0] == '+');
            } else if s2.len() >= 3 && s2[0] == '%' && s2[1] == '2' && (s2[2] == 'F' || s2[2]
                == 'f') {
                assert(t2[0] == '+');
            } else {
                assert(t2 == seq![s2[0]] + escaped_query(s2.skip(1)));
                assert(s2[0] == 'F' || s2[0] == 'f');
                assert(s[1] == s1[0] && s[2] == s2[0]);
                // s itself began with the pattern, so the rewrite branch of
                // escaped_query applied and the head is '+', not '%'.
                assert(false);
            }
        }
    }
}

/// The search URL for page 1 of the site's results for the escaped query.
pub open spec fn listing_url_of(q: Seq<char>) -> Seq<char> {
    "https://1337x.to/search/"@ + escaped_query(q) + "/1/"@
}

/// The URL of a detail page, the site's origin followed by the page's path.
pub open spec fn detail_url_of(path: Seq<char>) -> Seq<char> {
    "https://1337x.to"@ + path
}

/// Builds the search URL for a raw query string.
pub fn listing_url(search: &str) -> (u: String)
    ensures
        u@ == listing_url_of(search@),
{
    let q = to_chars(search);
    let mut out = to_chars("https://1337x.to/search/");
    let mut esc = escape_query_chars(&q);
    let mut tail = to_chars("/1/");
    out.append(&mut esc);
    out.append(&mut tail);
    chars_to_string(&out)
}

/// Builds the URL of a detail page from its site-relative path.
pub fn detail_url(path: &str) -> (u: String)
    ensures
        u@ == detail_url_of(path@),
{
    let mut out = to_chars("https://1337x.to");
    let mut p = to_chars(path);
    out.append(&mut p);
    chars_to_string(&out)
}

} // verus!
