use torrent_search::listing::find_torrents;
use torrent_search::magnet::find_magnet;
use torrent_search::stats::find_peer_info;
use torrent_search::TorrentSearchError;

const DEBIAN_MAGNET: &str = "magnet:?xt=urn:btih:9EB579CA38807332ECA53358E5E014CAD70C1358&dn=Debian+8.7.1+%5BJessie%5D%5BKDE%5D%5Bx32%5D%5Bi386%5D%5BCD1%5D%5BISO%5D%5BUzerus%5D&tr=udp%3A%2F%2Ftracker.zer0day.to%3A1337%2Fannounce&tr=udp%3A%2F%2Ftracker.leechers-paradise.org%3A6969%2Fannounce&tr=udp%3A%2F%2Fcoppersurfer.tk%3A6969%2Fannounce";

fn listing_row(id: &str, name: &str) -> String {
    format!(
        "<td class=\"coll-1 name\"><a href=\"/sub/10/0/\" class=\"icon\"><i class=\"flaticon-hd\"></i></a><a href=\"/torrent/{}/{}\">{}</a></td>",
        id, name, name
    )
}

#[test]
fn listing_rows_in_page_order() {
    let page = format!(
        "<html><body><table>{}{}</table></body></html>",
        listing_row("123456", "Debian-8-7-1-Jessie-KDE-x32-i386-CD1-ISO-Uzerus"),
        listing_row("654321", "Arch-Linux-2014-10-10-x86-x64"),
    );
    let (paths, names) = find_torrents(&page).unwrap();
    assert_eq!(paths.len(), 2);
    assert_eq!(names.len(), 2);
    assert_eq!(
        paths[0],
        "/torrent/123456/Debian-8-7-1-Jessie-KDE-x32-i386-CD1-ISO-Uzerus/"
    );
    assert_eq!(names[0], "Debian-8-7-1-Jessie-KDE-x32-i386-CD1-ISO-Uzerus");
    assert_eq!(paths[1], "/torrent/654321/Arch-Linux-2014-10-10-x86-x64/");
    assert_eq!(names[1], "Arch-Linux-2014-10-10-x86-x64");
}

#[test]
fn listing_without_rows_is_no_search_results() {
    let page = "<html><body>No results were returned.</body></html>";
    assert_eq!(
        find_torrents(page).unwrap_err(),
        TorrentSearchError::NoSearchResults
    );
}

#[test]
fn listing_ignores_malformed_rows() {
    // The icon link is missing, so the row must not be extracted.
    let page = format!(
        "<td class=\"coll-1 name\"><a href=\"/torrent/1/x\">x</a>{}",
        listing_row("777", "Only-Good-Row")
    );
    let (paths, names) = find_torrents(&page).unwrap();
    assert_eq!(paths.len(), 1);
    assert_eq!(names[0], "Only-Good-Row");
    assert_eq!(paths[0], "/torrent/777/Only-Good-Row/");
}

#[test]
fn magnet_extracted_byte_for_byte() {
    let page = format!(
        "<html><a class=\"btn\" href=\"{}\">Magnet Download</a></html>",
        DEBIAN_MAGNET
    );
    assert_eq!(find_magnet(&page).unwrap(), DEBIAN_MAGNET);
}

#[test]
fn magnet_keeps_stratum_prefix() {
    let page = format!("<a href=\"stratum-{}\">", DEBIAN_MAGNET);
    let found = find_magnet(&page).unwrap();
    assert_eq!(found, format!("stratum-{}", DEBIAN_MAGNET));
}

#[test]
fn magnet_with_base32_hash() {
    let page = "<a href=\"magnet:?xt=urn:btih:MFRGGZDFMZTWQ2LKNNWG23TP&tr=udp%3A%2F%2Ftracker.example.org%3A80%2Fannounce\">";
    assert_eq!(
        find_magnet(page).unwrap(),
        "magnet:?xt=urn:btih:MFRGGZDFMZTWQ2LKNNWG23TP&tr=udp%3A%2F%2Ftracker.example.org%3A80%2Fannounce"
    );
}

#[test]
fn magnet_missing_is_magnet_not_found() {
    let page = "<html><body>no link here</body></html>";
    assert_eq!(
        find_magnet(page).unwrap_err(),
        TorrentSearchError::MagnetNotFound
    );
}

#[test]
fn peer_info_both_present() {
    let page = "<span class=\"seeds\">5</span><span class=\"leeches\">7</span>";
    let (seeders, leeches) = find_peer_info(page);
    assert_eq!(seeders, Ok(5));
    assert_eq!(leeches, Ok(7));
}

#[test]
fn peer_info_parses_whole_digit_runs() {
    let page = "<span class=\"seeds\">142</span><span class=\"leeches\">38</span>";
    let (seeders, leeches) = find_peer_info(page);
    assert_eq!(seeders, Ok(142));
    assert_eq!(leeches, Ok(38));
}

#[test]
fn peer_info_ignores_leading_zeroes() {
    let page = "<span class=\"seeds\">007</span><span class=\"leeches\">0</span>";
    let (seeders, leeches) = find_peer_info(page);
    assert_eq!(seeders, Ok(7));
    assert_eq!(leeches, Ok(0));
}

#[test]
fn peer_info_count_beyond_machine_word_is_an_error() {
    let page = "<span class=\"seeds\">111111111111111111111111111</span><span class=\"leeches\">5</span>";
    let (seeders, leeches) = find_peer_info(page);
    assert_eq!(seeders, Err(TorrentSearchError::SeedsNotFound));
    assert_eq!(leeches, Ok(5));
}

#[test]
fn peer_info_missing_seeds_keeps_leeches() {
    let page = "<html><span class=\"leeches\">3</span></html>";
    let (seeders, leeches) = find_peer_info(page);
    assert_eq!(seeders, Err(TorrentSearchError::SeedsNotFound));
    assert_eq!(leeches, Ok(3));
}

#[test]
fn peer_info_missing_leeches_keeps_seeds() {
    let page = "<html><span class=\"seeds\">4</span></html>";
    let (seeders, leeches) = find_peer_info(page);
    assert_eq!(seeders, Ok(4));
    assert_eq!(leeches, Err(TorrentSearchError::LeechesNotFound));
}

#[test]
fn peer_info_requires_digits_in_span() {
    let page = "<span class=\"seeds\">n/a</span><span class=\"leeches\"></span>";
    let (seeders, leeches) = find_peer_info(page);
    assert_eq!(seeders, Err(TorrentSearchError::SeedsNotFound));
    assert_eq!(leeches, Err(TorrentSearchError::LeechesNotFound));
}

#[test]
fn error_equality_distinguishes_descriptions() {
    assert_eq!(
        TorrentSearchError::ReqwestError("timed out".to_string()),
        TorrentSearchError::ReqwestError("timed out".to_string())
    );
    assert_ne!(
        TorrentSearchError::ReqwestError("timed out".to_string()),
        TorrentSearchError::ReqwestError("refused".to_string())
    );
    assert_ne!(
        TorrentSearchError::SeedsNotFound,
        TorrentSearchError::LeechesNotFound
    );
}
