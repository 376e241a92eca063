use nyaa::results::{Pagination, ResultSet};
use nyaa::sync::{AppSync, Engine, FetchError, LoadState, Results, SearchQuery};
use nyaa::theme::Theme;

fn empty_set() -> ResultSet {
    ResultSet {
        items: Vec::new(),
        pagination: Pagination { current_page: 1, last_page: 0, total_results: 0 },
    }
}

fn table_of(set: &ResultSet, search: &SearchQuery) -> nyaa::results::ResultTable {
    nyaa::source::Sources::TorrentGalaxy.format_table(&set.items, search, &Theme::default())
}

#[test]
fn fresh_engine_is_idle_and_empty() {
    let e = Engine::new();
    assert_eq!(e.current_generation, 0);
    assert_eq!(e.state, LoadState::Idle);
    assert!(e.table.is_none());
}

#[test]
fn dispatch_bumps_generation_and_loads() {
    let mut e = Engine::new();
    let g1 = e.dispatch();
    assert_eq!(g1, 1);
    assert_eq!(e.state, LoadState::Loading);
    let g2 = e.dispatch();
    assert_eq!(g2, 2);
    assert_eq!(e.state, LoadState::Loading);
}

#[test]
fn current_ok_outcome_is_accepted() {
    let mut e = Engine::new();
    let g = e.dispatch();
    let set = empty_set();
    let t = table_of(&set, &SearchQuery::default());
    let accepted = e.on_outcome(g, Ok(t));
    assert!(accepted);
    assert_eq!(e.state, LoadState::Idle);
    assert!(e.table.is_some());
}

#[test]
fn stale_outcome_is_discarded() {
    let mut e = Engine::new();
    let g1 = e.dispatch();
    let g2 = e.dispatch();
    let set = empty_set();
    let q = SearchQuery::default();
    let accepted_stale = e.on_outcome(g1, Ok(table_of(&set, &q)));
    assert!(!accepted_stale);
    assert_eq!(e.state, LoadState::Loading);
    assert!(e.table.is_none());
    let accepted = e.on_outcome(g2, Ok(table_of(&set, &q)));
    assert!(accepted);
    assert_eq!(e.state, LoadState::Idle);
}

#[test]
fn late_stale_outcome_cannot_overwrite_accepted_one() {
    // Two generations race; the newer outcome lands first, the older one
    // arrives afterwards and must leave the displayed table unchanged.
    let mut e = Engine::new();
    let g1 = e.dispatch();
    let g2 = e.dispatch();
    let q = SearchQuery::default();

    let mut newer = empty_set();
    newer.pagination.current_page = 2;
    let accepted = e.on_outcome(g2, Ok(table_of(&newer, &q)));
    assert!(accepted);
    let shown_before = format!("{:?}", e.table);

    let older = empty_set();
    let accepted_late = e.on_outcome(g1, Ok(table_of(&older, &q)));
    assert!(!accepted_late);
    let shown_after = format!("{:?}", e.table);
    assert_eq!(shown_before, shown_after);
    assert_eq!(e.state, LoadState::Idle);
}

#[test]
fn error_outcome_keeps_last_good_table() {
    let mut e = Engine::new();
    let g1 = e.dispatch();
    let set = empty_set();
    let q = SearchQuery::default();
    assert!(e.on_outcome(g1, Ok(table_of(&set, &q))));
    let shown = format!("{:?}", e.table);
    let g2 = e.dispatch();
    let accepted = e.on_outcome(
        g2,
        Err(FetchError::Transport("https://example.invalid/".to_string(), 503)),
    );
    assert!(accepted);
    assert_eq!(e.state, LoadState::Error);
    assert_eq!(format!("{:?}", e.table), shown);
}

#[test]
fn load_results_packages_success_and_passes_errors_through() {
    let q = SearchQuery::default();
    let set = empty_set();
    let theme = Theme::default();
    let ok = AppSync::load_results(
        nyaa::source::Sources::TorrentGalaxy,
        q.clone(),
        Ok(set),
        &theme,
    );
    let results: Results = ok.expect("success should package");
    assert_eq!(results.search.page, 1);
    assert_eq!(results.response.items.len(), 0);
    assert_eq!(results.table.rows.len(), 0);

    let err = AppSync::load_results(
        nyaa::source::Sources::TorrentGalaxy,
        q,
        Err(FetchError::Parse("nothing".to_string())),
        &theme,
    );
    assert!(matches!(err, Err(FetchError::Parse(_))));
}
