use nyaa::results::ItemType;
use nyaa::sort::{SelectedSort, SortDir};
use nyaa::source::{Config, SourceConfig, Sources};
use nyaa::sync::{Engine, FetchError, LoadState, SearchQuery};
use nyaa::theme::{Color, Theme};
use nyaa::torrent_galaxy::{get_lang, get_status_color, TgxConfig, TorrentGalaxyHtmlSource};

const BASE: &str = "https://torrentgalaxy.to/torrents.php";

#[allow(clippy::too_many_arguments)]
fn row(
    cat: usize,
    lang: &str,
    title: &str,
    torrent: &str,
    uploader: &str,
    status: &str,
    size: &str,
    views: &str,
    seeders: &str,
    leechers: &str,
    date: &str,
    trusted: bool,
) -> String {
    let check = if trusted { "fa fa-check" } else { "fa" };
    format!(
        "<div class=\"tgxtablerow\"><div class=\"tgxtablecell\"><a href=\"torrents.php?cat={cat}\">c</a></div><div class=\"tgxtablecell\"><i class=\"{check}\"></i></div><div class=\"tgxtablecell\"><img title=\"{lang}\"></div><div class=\"tgxtablecell\"><div><a class=\"txlight\" href=\"/post/7\" title=\"{title}\">t</a></div></div><div class=\"tgxtablecell\"><a href=\"{torrent}\">d</a><a href=\"magnet:?xt=urn:btih:AAA\">m</a></div><div class=\"tgxtablecell\"></div><div class=\"tgxtablecell\"><span><a title=\"{status}\"><span>{uploader}</span></a></span></div><div class=\"tgxtablecell\"><span>{size}</span></div><div class=\"tgxtablecell\"></div><div class=\"tgxtablecell\"><span><font><b>{views}</b></font></span></div><div class=\"tgxtablecell\"><span><font><b>{seeders}</b></font><font><b>{leechers}</b></font></span></div><div class=\"tgxtablecell\">{date}</div></div>",
        cat = cat,
        check = check,
        lang = lang,
        title = title,
        torrent = torrent,
        uploader = uploader,
        status = status,
        size = size,
        views = views,
        seeders = seeders,
        leechers = leechers,
        date = date,
    )
}

fn page(rows: &[String], badge: Option<&str>) -> String {
    let badge_html = match badge {
        Some(b) => format!("<div id=\"filterbox2\"><span class=\"badge\">{}</span></div>", b),
        None => String::new(),
    };
    format!("<html><body>{}{}</body></html>", badge_html, rows.concat())
}

#[test]
fn one_row_parses_into_a_normalized_item() {
    let r = row(
        42,
        "English",
        "A movie",
        "/torrent/100/a-movie",
        "alice",
        "Trusted Uploader",
        "500 MB",
        "123",
        "10",
        "5",
        "05/06 13:37",
        true,
    );
    let html = page(&[r], Some("2,500 Results"));
    let rs = TorrentGalaxyHtmlSource::parse_response(&html, BASE, 1).expect("parses");
    assert_eq!(rs.items.len(), 1);
    let it = &rs.items[0];
    assert_eq!(it.id, 0);
    assert_eq!(it.title, "A movie");
    assert_eq!(it.category, 42);
    assert_eq!(it.icon.label, "HdM");
    assert_eq!(it.icon.color, Color::LightBlue);
    assert_eq!(it.seeders, 10);
    assert_eq!(it.leechers, 5);
    assert_eq!(it.downloads, 123);
    assert_eq!(it.size, "500 MB");
    assert_eq!(it.bytes, 500 * 1024 * 1024);
    assert_eq!(it.item_type, ItemType::Normal);
    assert_eq!(it.torrent_link, "https://torrentgalaxy.to/torrent/100/a-movie");
    assert_eq!(it.post_link, "https://torrentgalaxy.to/post/7");
    assert_eq!(it.magnet_link, "magnet:?xt=urn:btih:AAA");
    assert_eq!(it.file_name, "100.torrent");
    assert_eq!(it.uploader, "alice");
    assert_eq!(it.uploader_status, "Trusted Uploader");
    assert_eq!(it.lang, "English");
    assert_eq!(it.date, "05/06 13:37");
    assert_eq!(rs.pagination.current_page, 1);
    assert_eq!(rs.pagination.last_page, 50);
    assert_eq!(rs.pagination.total_results, 2500);
}

#[test]
fn missing_fields_get_their_documented_defaults() {
    // No seeder text, a comma-grouped size, no trust mark.
    let r = row(
        0,
        "",
        "B",
        "/torrent/3/b",
        "bob",
        "",
        "1,015 KB",
        "0",
        "-",
        "0",
        "",
        false,
    );
    let html = page(&[r], Some("51"));
    let rs = TorrentGalaxyHtmlSource::parse_response(&html, BASE, 1).expect("parses");
    let it = &rs.items[0];
    assert_eq!(it.seeders, 0);
    assert_eq!(it.size, "1.01 MB");
    assert_eq!(it.item_type, ItemType::Remake);
    assert_eq!(rs.pagination.last_page, 2);
    assert_eq!(rs.pagination.total_results, 51);
}

#[test]
fn empty_result_list_paginates_to_zero() {
    let html = page(&[], Some("0 Results"));
    let rs = TorrentGalaxyHtmlSource::parse_response(&html, BASE, 1).expect("parses");
    assert_eq!(rs.items.len(), 0);
    assert_eq!(rs.pagination.last_page, 0);
    assert_eq!(rs.pagination.total_results, 0);
}

#[test]
fn nonempty_list_without_badge_gets_placeholder_pagination() {
    let r = row(
        0,
        "",
        "C",
        "/torrent/4/c",
        "u",
        "",
        "1 MB",
        "0",
        "1",
        "1",
        "d",
        false,
    );
    let html = format!("<html><body>{}</body></html>", r);
    let rs = TorrentGalaxyHtmlSource::parse_response(&html, BASE, 1).expect("parses");
    assert_eq!(rs.pagination.last_page, 50);
    assert_eq!(rs.pagination.total_results, 2500);
}

#[test]
fn a_page_with_no_result_list_is_a_parse_error() {
    let err = TorrentGalaxyHtmlSource::parse_response("<html><body>oops</body></html>", BASE, 1);
    assert!(matches!(err, Err(FetchError::Parse(_))));
}

#[test]
fn non_ok_status_is_a_transport_error() {
    let r = TorrentGalaxyHtmlSource::check_status("https://x.y/", 503);
    match r {
        Err(FetchError::Transport(url, code)) => {
            assert_eq!(url, "https://x.y/");
            assert_eq!(code, 503);
        }
        _ => panic!("expected a transport error"),
    }
    assert!(TorrentGalaxyHtmlSource::check_status("https://x.y/", 200).is_ok());
}

#[test]
fn query_string_carries_every_field() {
    let q = SearchQuery {
        query: "abc def".to_string(),
        page: 2,
        category: 41,
        filter: 2,
        sort: SelectedSort { sort: 3, dir: SortDir::Asc },
        user: None,
    };
    let s = TorrentGalaxyHtmlSource::build_query(&q);
    assert_eq!(s, "search=abc%20def&page=1&nox=2&nox=1&c41=1&sort=size&order=asc");
}

#[test]
fn default_query_string_is_minimal() {
    let q = SearchQuery::default();
    let s = TorrentGalaxyHtmlSource::build_query(&q);
    assert_eq!(s, "search=&page=0&sort=id&order=desc");
}

#[test]
fn full_url_joins_base_path_and_query() {
    let cfg = TgxConfig::default();
    let q = SearchQuery::default();
    let url = TorrentGalaxyHtmlSource::build_url(&cfg, &q).expect("base parses");
    assert_eq!(url, "https://torrentgalaxy.to/torrents.php?search=&page=0&sort=id&order=desc");
}

#[test]
fn info_lists_categories_filters_and_sorts() {
    let info = TorrentGalaxyHtmlSource::info();
    assert_eq!(info.cats.len(), 11);
    assert_eq!(info.cats[0].name, "All Categories");
    assert_eq!(info.cats[10].name, "XXX");
    let total: usize = info.cats.iter().map(|g| g.entries.len()).sum();
    assert_eq!(total, 37);
    assert_eq!(info.filters.len(), 4);
    assert_eq!(info.filters[1], "Filter online streams");
    assert_eq!(info.sorts.len(), 5);
    assert_eq!(info.sorts[0], "Date");
    let e = info.entry_from_id(42);
    assert_eq!(e.label, "HdM");
    assert_eq!(e.name, "HD Movies");
    let fallback = info.entry_from_id(9999);
    assert_eq!(fallback.id, 0);
    let by_cfg = info.entry_from_cfg("Anime");
    assert_eq!(by_cfg.id, 28);
}

#[test]
fn configured_defaults_resolve() {
    let cfg = Config { sources: SourceConfig { tgx: Some(TgxConfig::default()) } };
    assert_eq!(TorrentGalaxyHtmlSource::default_category(&cfg), 0);
    assert_eq!(TorrentGalaxyHtmlSource::default_sort(&cfg), 0);
    assert_eq!(TorrentGalaxyHtmlSource::default_filter(&cfg), 0);
    let mut tgx = TgxConfig::default();
    tgx.default_category = "HdTV".to_string();
    let cfg2 = Config { sources: SourceConfig { tgx: Some(tgx) } };
    assert_eq!(TorrentGalaxyHtmlSource::default_category(&cfg2), 41);
    let none = Config { sources: SourceConfig { tgx: None } };
    assert_eq!(TorrentGalaxyHtmlSource::default_category(&none), 0);
}

#[test]
fn load_config_fills_missing_section_only() {
    let mut sc = SourceConfig { tgx: None };
    TorrentGalaxyHtmlSource::load_config(&mut sc);
    let filled = sc.tgx.clone().expect("filled in");
    assert_eq!(filled.base_url, "https://torrentgalaxy.to/");
    let mut custom = TgxConfig::default();
    custom.base_url = "https://mirror.example/".to_string();
    let mut sc2 = SourceConfig { tgx: Some(custom) };
    TorrentGalaxyHtmlSource::load_config(&mut sc2);
    assert_eq!(sc2.tgx.unwrap().base_url, "https://mirror.example/");
}

#[test]
fn language_and_status_tables() {
    assert_eq!(get_lang("English".to_string()), "en");
    assert_eq!(get_lang("Croatian".to_string()), "hr");
    assert_eq!(get_lang("Klingon".to_string()), "??");
    assert_eq!(get_lang(String::new()), "??");
    assert_eq!(get_status_color("Admin".to_string()), Some(Color::Yellow));
    assert_eq!(get_status_color("Trusted User".to_string()), Some(Color::Cyan));
    assert_eq!(get_status_color("nobody".to_string()), None);
}

#[test]
fn an_unparsable_base_url_yields_no_request() {
    let mut cfg = TgxConfig::default();
    cfg.base_url = "https://".to_string();
    assert_eq!(TorrentGalaxyHtmlSource::build_url(&cfg, &SearchQuery::default()), None);
}

#[test]
fn end_to_end_two_queries_race_and_the_newer_wins() {
    // First query: two items, one with an unreadable seeder count and a
    // comma-grouped size. A second query supersedes it before its outcome
    // lands; only the second query's table is ever shown.
    let theme = Theme::default();
    let q1 = SearchQuery {
        query: "abc".to_string(),
        page: 1,
        ..SearchQuery::default()
    };
    let rows1 = [
        row(42, "English", "first", "/torrent/1/f", "u1", "", "500 MB", "9", "10", "2", "d1", true),
        row(42, "English", "second", "/torrent/2/s", "u2", "", "1,200 KB", "9", "-", "2", "d2", false),
    ];
    let html1 = page(&rows1, Some("2"));
    let set1 = TorrentGalaxyHtmlSource::parse_response(&html1, BASE, 1).expect("parses");
    assert_eq!(set1.items.len(), 2);
    assert_eq!(set1.items[0].seeders, 10);
    assert_eq!(set1.items[1].seeders, 0);
    assert_eq!(set1.items[1].size, "1.20 MB");
    let table1 = Sources::TorrentGalaxy.format_table(&set1.items, &q1, &theme);
    assert_eq!(table1.rows.len(), 2);
    assert_eq!(table1.rows[1].cells[6].content, "0");
    assert_eq!(table1.rows[1].cells[4].content, "1.20 MB");

    let mut e = Engine::new();
    let g1 = e.dispatch();
    // The user pages on before the first fetch resolves.
    let q2 = SearchQuery { page: 2, ..q1.clone() };
    let g2 = e.dispatch();

    let rows2 = [row(
        42, "English", "third", "/torrent/3/t", "u3", "", "1 GB", "9", "7", "1", "d3", true,
    )];
    let html2 = page(&rows2, Some("2"));
    let set2 = TorrentGalaxyHtmlSource::parse_response(&html2, BASE, 2).expect("parses");
    let table2 = Sources::TorrentGalaxy.format_table(&set2.items, &q2, &theme);

    // The newer outcome lands first and is accepted.
    assert!(e.on_outcome(g2, Ok(table2)));
    assert_eq!(e.state, LoadState::Idle);
    let shown = e.table.as_ref().expect("shown");
    assert_eq!(shown.rows.len(), 1);
    assert_eq!(shown.rows[0].cells[2].content, "third");

    // The slower, superseded outcome arrives late and changes nothing.
    assert!(!e.on_outcome(g1, Ok(table1)));
    let shown_after = e.table.as_ref().expect("still shown");
    assert_eq!(shown_after.rows.len(), 1);
    assert_eq!(shown_after.rows[0].cells[2].content, "third");
}
