use torrent_search::query::listing_url;
use torrent_search::{SearchSession, SearchStep, TorrentSearchError, TorrentSearchResult};

const DEBIAN_MAGNET: &str = "magnet:?xt=urn:btih:9EB579CA38807332ECA53358E5E014CAD70C1358&dn=Debian+8.7.1+%5BJessie%5D%5BKDE%5D%5Bx32%5D%5Bi386%5D%5BCD1%5D%5BISO%5D%5BUzerus%5D&tr=udp%3A%2F%2Ftracker.zer0day.to%3A1337%2Fannounce&tr=udp%3A%2F%2Ftracker.leechers-paradise.org%3A6969%2Fannounce&tr=udp%3A%2F%2Fcoppersurfer.tk%3A6969%2Fannounce";

fn listing_row(id: &str, name: &str) -> String {
    format!(
        "<td class=\"coll-1 name\"><a href=\"/sub/10/0/\" class=\"icon\"><i class=\"flaticon-hd\"></i></a><a href=\"/torrent/{}/{}\">{}</a></td>",
        id, name, name
    )
}

fn expect_fetch(step: SearchStep) -> String {
    match step {
        SearchStep::Fetch(url) => url,
        SearchStep::Done(_) => panic!("expected a fetch, the search finished"),
        SearchStep::Failed(e) => panic!("expected a fetch, the search failed: {:?}", e),
    }
}

#[test]
fn short_query_fails_without_any_fetch() {
    let (session, step) = SearchSession::start("jj".to_string());
    assert!(!session.is_awaiting());
    match step {
        SearchStep::Failed(e) => assert_eq!(e, TorrentSearchError::SearchTooShort),
        _ => panic!("a two-character query must fail before any fetch"),
    }
}

#[test]
fn query_length_counts_grapheme_clusters_not_chars() {
    // Three chars but two user-perceived characters: still too short.
    let (session, step) = SearchSession::start("e\u{0301}x".to_string());
    assert!(!session.is_awaiting());
    assert!(matches!(
        step,
        SearchStep::Failed(TorrentSearchError::SearchTooShort)
    ));
    // Four chars, three user-perceived characters: accepted.
    let (session, step) = SearchSession::start("e\u{0301}xy".to_string());
    assert!(session.is_awaiting());
    let url = expect_fetch(step);
    assert_eq!(url, "https://1337x.to/search/e\u{0301}xy/1/");
}

#[test]
fn separators_rewritten_in_search_url() {
    let (_, step) = SearchSession::start("a/b%2Fc%2fd".to_string());
    assert_eq!(expect_fetch(step), "https://1337x.to/search/a+b+c+d/1/");
    assert_eq!(
        listing_url("The/Query%2F"),
        "https://1337x.to/search/The+Query+/1/"
    );
}

#[test]
fn empty_listing_fails_with_no_search_results() {
    let (mut session, step) = SearchSession::start("dsfadsmfoaisdmvapedoejdapoae".to_string());
    assert_eq!(
        expect_fetch(step),
        "https://1337x.to/search/dsfadsmfoaisdmvapedoejdapoae/1/"
    );
    let step = session.on_page("<html><body>0 results</body></html>".to_string());
    assert!(!session.is_awaiting());
    assert!(matches!(
        step,
        SearchStep::Failed(TorrentSearchError::NoSearchResults)
    ));
}

#[test]
fn transport_failure_aborts_the_search() {
    let (mut session, step) = SearchSession::start("Debian ISO".to_string());
    let _ = expect_fetch(step);
    let step = session.on_transport_error("connection refused".to_string());
    match step {
        SearchStep::Failed(TorrentSearchError::ReqwestError(d)) => {
            assert_eq!(d, "connection refused")
        }
        _ => panic!("a transport failure must abort the whole search"),
    }
}

#[test]
fn full_search_preserves_listing_order_and_field_independence() {
    let listing = format!(
        "<html><table>{}{}</table></html>",
        listing_row("123456", "Debian-8-7-1-Jessie-KDE-x32-i386-CD1-ISO-Uzerus"),
        listing_row("654321", "Arch-Linux-2014-10-10-x86-x64"),
    );
    let detail_full = format!(
        "<html><a href=\"{}\">Magnet</a><span class=\"seeds\">9</span><span class=\"leeches\">3</span></html>",
        DEBIAN_MAGNET
    );
    // The second row's page has no magnet link, but both counters.
    let detail_no_magnet =
        "<html><span class=\"seeds\">64</span><span class=\"leeches\">21</span></html>";

    let (mut session, step) = SearchSession::start("Debian ISO".to_string());
    assert_eq!(expect_fetch(step), "https://1337x.to/search/Debian ISO/1/");

    let step = session.on_page(listing);
    assert_eq!(
        expect_fetch(step),
        "https://1337x.to/torrent/123456/Debian-8-7-1-Jessie-KDE-x32-i386-CD1-ISO-Uzerus/"
    );

    assert!(session.is_awaiting());
    let step = session.on_page(detail_full);
    assert_eq!(
        expect_fetch(step),
        "https://1337x.to/torrent/654321/Arch-Linux-2014-10-10-x86-x64/"
    );

    assert!(session.is_awaiting());
    let step = session.on_page(detail_no_magnet.to_string());
    let results = match step {
        SearchStep::Done(results) => results,
        _ => panic!("after the last detail page the search must be done"),
    };
    assert!(!session.is_awaiting());

    assert_eq!(results.len(), 2);
    assert_eq!(results[0].name, "Debian-8-7-1-Jessie-KDE-x32-i386-CD1-ISO-Uzerus");
    assert_eq!(results[0].magnet, Ok(DEBIAN_MAGNET.to_string()));
    assert_eq!(results[0].seeders, Ok(9));
    assert_eq!(results[0].leeches, Ok(3));

    assert_eq!(results[1].name, "Arch-Linux-2014-10-10-x86-x64");
    assert_eq!(results[1].magnet, Err(TorrentSearchError::MagnetNotFound));
    assert_eq!(results[1].seeders, Ok(64));
    assert_eq!(results[1].leeches, Ok(21));
}

#[test]
fn single_row_search_returns_one_record() {
    let listing = listing_row("99", "Sintel-4K");
    let detail = "<span class=\"seeds\">1</span>";
    let (mut session, step) = SearchSession::start("Sintel 4K".to_string());
    let _ = expect_fetch(step);
    let step = session.on_page(listing);
    assert_eq!(expect_fetch(step), "https://1337x.to/torrent/99/Sintel-4K/");
    let step = session.on_page(detail.to_string());
    match step {
        SearchStep::Done(results) => {
            assert_eq!(results.len(), 1);
            let expected = TorrentSearchResult {
                name: "Sintel-4K".to_string(),
                seeders: Ok(1),
                leeches: Err(TorrentSearchError::LeechesNotFound),
                magnet: Err(TorrentSearchError::MagnetNotFound),
            };
            assert_eq!(results[0], expected);
        }
        _ => panic!("one row needs exactly one detail fetch"),
    }
}
