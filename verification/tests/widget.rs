use nyaa::results::{Alignment, Constraint, Item, ItemType, Icon};
use nyaa::sort::{KeyInput, Sort, SortPopup, StatefulTable};
use nyaa::source::Sources;
use nyaa::sync::{Mode, SearchQuery};
use nyaa::theme::{Color, Theme};

fn item(title: &str, date: &str, uploader: &str, seeders: u32) -> Item {
    Item {
        id: 0,
        title: title.to_string(),
        date: date.to_string(),
        seeders,
        leechers: 2,
        downloads: 12000,
        size: "500 MB".to_string(),
        bytes: 524288000,
        torrent_link: String::new(),
        magnet_link: String::new(),
        post_link: String::new(),
        file_name: String::new(),
        category: 42,
        icon: Icon { label: "HdM".to_string(), color: Color::LightBlue },
        item_type: ItemType::Trusted,
        uploader: uploader.to_string(),
        uploader_status: "Admin".to_string(),
        lang: "English".to_string(),
    }
}

#[test]
fn sort_keys_list_in_order_with_labels() {
    let keys = Sort::iter();
    assert_eq!(keys.len(), 6);
    assert_eq!(keys[0].to_string(), "Date");
    assert_eq!(keys[5].to_string(), "Category");
    assert_eq!(Sort::Seeders.index(), 2);
}

#[test]
fn popup_lists_labels_and_starts_on_date() {
    let p = SortPopup::default();
    assert_eq!(p.table.items.len(), 6);
    assert_eq!(p.table.items[1], "Downloads");
    assert_eq!(p.table.selected, 0);
    assert!(matches!(p.selected, Sort::Date));
}

#[test]
fn selection_wraps_both_ways() {
    let mut t = StatefulTable::with_items(vec!["a".to_string(), "b".to_string(), "c".to_string()]);
    t.next_wrap(-1);
    assert_eq!(t.selected, 2);
    t.next_wrap(1);
    assert_eq!(t.selected, 0);
    t.next_wrap(1);
    assert_eq!(t.selected, 1);
    t.select(0);
    assert_eq!(t.selected, 0);
}

#[test]
fn popup_keys_move_choose_and_close() {
    let mut p = SortPopup::default();
    let mut mode = Mode::Sort;
    p.handle_event(&mut mode, &KeyInput::Char('j'));
    assert_eq!(p.table.selected, 1);
    assert_eq!(mode, Mode::Sort);
    p.handle_event(&mut mode, &KeyInput::Char('k'));
    assert_eq!(p.table.selected, 0);
    p.handle_event(&mut mode, &KeyInput::Char('k'));
    assert_eq!(p.table.selected, 5);
    p.handle_event(&mut mode, &KeyInput::Char('G'));
    assert_eq!(p.table.selected, 5);
    p.handle_event(&mut mode, &KeyInput::Enter);
    assert!(matches!(p.selected, Sort::Category));
    assert_eq!(mode, Mode::Normal);
    let mut mode2 = Mode::Sort;
    p.handle_event(&mut mode2, &KeyInput::Char('g'));
    assert_eq!(p.table.selected, 0);
    p.handle_event(&mut mode2, &KeyInput::Esc);
    assert_eq!(mode2, Mode::Normal);
    let mut mode3 = Mode::Sort;
    p.handle_event(&mut mode3, &KeyInput::Char('x'));
    assert_eq!(mode3, Mode::Sort);
    p.handle_event(&mut mode3, &KeyInput::Char('q'));
    assert_eq!(mode3, Mode::Normal);
}

#[test]
fn table_rows_render_contents_colors_and_alignment() {
    let items = vec![item("A movie", "05/06", "alice", 10)];
    let q = SearchQuery::default();
    let theme = Theme::default();
    let t = Sources::TorrentGalaxy.format_table(&items, &q, &theme);
    assert_eq!(t.rows.len(), 1);
    let cells = &t.rows[0].cells;
    assert_eq!(cells.len(), 9);
    assert_eq!(cells[0].content, "HdM");
    assert_eq!(cells[0].color, Color::LightBlue);
    assert_eq!(cells[1].content, "en");
    assert_eq!(cells[2].content, "A movie");
    assert_eq!(cells[2].color, theme.trusted);
    assert_eq!(cells[3].content, "alice");
    assert_eq!(cells[3].color, Color::Yellow);
    assert_eq!(cells[4].content, "500 MB");
    assert_eq!(cells[4].align, Alignment::Right);
    assert_eq!(cells[5].content, "05/06");
    assert_eq!(cells[6].content, "10");
    assert_eq!(cells[6].color, theme.trusted);
    assert_eq!(cells[6].align, Alignment::Right);
    assert_eq!(cells[7].content, "2");
    assert_eq!(cells[7].color, theme.remake);
    assert_eq!(cells[8].content, "12K");
}

#[test]
fn column_widths_floor_at_readability_minimums() {
    let q = SearchQuery::default();
    let theme = Theme::default();
    let narrow = vec![item("t", "x", "u", 1)];
    let t = Sources::TorrentGalaxy.format_table(&narrow, &q, &theme);
    assert_eq!(t.binding[5], Constraint::Length(6));
    assert_eq!(t.binding[3], Constraint::Length(8));
    let wide = vec![item("t", "a long date string", "a-very-long-uploader", 1)];
    let t2 = Sources::TorrentGalaxy.format_table(&wide, &q, &theme);
    assert_eq!(t2.binding[5], Constraint::Length(18));
    assert_eq!(t2.binding[3], Constraint::Length(20));
    assert_eq!(t2.binding[0], Constraint::Length(3));
    assert_eq!(t2.binding[2], Constraint::Min(3));
}

#[test]
fn header_marks_the_active_sort_column() {
    let items = vec![item("t", "d", "u", 1)];
    let theme = Theme::default();
    let mut q = SearchQuery::default();
    q.sort.sort = 3;
    q.sort.dir = nyaa::sort::SortDir::Asc;
    let t = Sources::TorrentGalaxy.format_table(&items, &q, &theme);
    let h = &t.headers.cells;
    assert_eq!(h.len(), 9);
    assert_eq!(h[0].content, "Cat");
    assert_eq!(h[4].content, "Size^");
    assert_eq!(h[5].content, "Date");
    let mut q2 = SearchQuery::default();
    q2.sort.sort = 0;
    let t2 = Sources::TorrentGalaxy.format_table(&items, &q2, &theme);
    assert_eq!(t2.headers.cells[5].content, "Datev");
    assert_eq!(t2.headers.cells[4].content, "Size");
}

#[test]
fn same_inputs_derive_the_same_table_twice() {
    let items = vec![item("A", "d1", "u1", 3), item("B", "d2", "u2", 4)];
    let q = SearchQuery::default();
    let theme = Theme::default();
    let t1 = Sources::TorrentGalaxy.format_table(&items, &q, &theme);
    let t2 = Sources::TorrentGalaxy.format_table(&items, &q, &theme);
    assert_eq!(format!("{:?}", t1), format!("{:?}", t2));
}
