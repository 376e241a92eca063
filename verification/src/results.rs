//! The canonical result model: normalized items, one fetch's result set with
//! its pagination, and the derived render-ready table.

use vstd::prelude::*;

use crate::theme::Color;

verus! {

/// Trust level of an item, as the source marks it.
#[derive(Clone, Copy, Debug, PartialEq, Eq, Structural)]
pub enum ItemType {
    Normal,
    Trusted,
    Remake,
}

/// A category icon: short label and semantic color.
#[derive(Clone, Debug)]
pub struct Icon {
    pub label: String,
    pub color: Color,
}

/// One canonical, normalized record. Created fresh per fetch and never
/// mutated afterwards.
#[derive(Clone, Debug)]
pub struct Item {
    pub id: usize,
    pub title: String,
    pub date: String,
    pub seeders: u32,
    pub leechers: u32,
    pub downloads: u32,
    pub size: String,
    pub bytes: usize,
    pub torrent_link: String,
    pub magnet_link: String,
    pub post_link: String,
    pub file_name: String,
    pub category: usize,
    pub icon: Icon,
    pub item_type: ItemType,
    pub uploader: String,
    pub uploader_status: String,
    pub lang: String,
}

/// Pagination as one adapter invocation reports it.
#[derive(Clone, Copy, Debug, PartialEq, Eq, Structural)]
pub struct Pagination {
    pub current_page: usize,
    pub last_page: usize,
    pub total_results: usize,
}

/// The source-agnostic output of one fetch.
#[derive(Clone, Debug)]
pub struct ResultSet {
    pub items: Vec<Item>,
    pub pagination: Pagination,
}

/// Cell alignment in the derived table.
#[derive(Clone, Copy, Debug, PartialEq, Eq, Structural)]
pub enum Alignment {
    Left,
    Right,
}

/// A column width binding for the render layer.
#[derive(Clone, Copy, Debug, PartialEq, Eq, Structural)]
pub enum Constraint {
    Length(u16),
    Min(u16),
}

/// A header column: label-only, or sortable with a bound sort key.
#[derive(Clone, Debug)]
pub enum ResultColumn {
    Normal(String, Constraint),
    Sorted(String, u16, u32),
}

/// The table header: an ordered sequence of columns.
#[derive(Clone, Debug)]
pub struct ResultHeader {
    pub cols: Vec<ResultColumn>,
}

/// One rendered cell: content, semantic color, alignment.
#[derive(Clone, Debug)]
pub struct ResultCell {
    pub content: String,
    pub color: Color,
    pub align: Alignment,
}

/// One rendered row.
#[derive(Clone, Debug)]
pub struct ResultRow {
    pub cells: Vec<ResultCell>,
}

/// The derived, render-ready table. Rebuilt from scratch on every accepted
/// result set, never patched.
#[derive(Clone, Debug)]
pub struct ResultTable {
    pub headers: ResultRow,
    pub rows: Vec<ResultRow>,
    pub binding: Vec<Constraint>,
}

/// The width binding of one column.
pub open spec fn col_binding(c: ResultColumn) -> Constraint {
    match c {
        ResultColumn::Normal(_, b) => b,
        ResultColumn::Sorted(_, w, _) => Constraint::Length(w),
    }
}

/// The rendered label of one header column under the active sort.
pub open spec fn col_label(c: ResultColumn, dir: crate::sort::SortDir, sort_id: u32) -> Seq<
    char,
> {
    match c {
        ResultColumn::Normal(l, _) => l@,
        ResultColumn::Sorted(l, _, id) => if id == sort_id {
            if dir is Desc {
                l@ + "v"@
            } else {
                l@ + "^"@
            }
        } else {
            l@
        },
    }
}

impl ResultHeader {
    /// The width bindings of all columns, in order.
    pub fn get_binding(&self) -> (r: Vec<Constraint>)
        ensures
            r@.len() == self.cols@.len(),
            forall|i: int|
                0 <= i < r@.len() ==> r@[i] == col_binding(#[trigger] self.cols@[i]),
    {
        let mut r: Vec<Constraint> = Vec::new();
        let n = self.cols.len();
        let mut i: usize = 0;
        while i < n
            invariant
                n == self.cols@.len(),
                0 <= i <= n,
                r@.len() == i,
                forall|j: int|
                    0 <= j < i ==> r@[j] == col_binding(#[trigger] self.cols@[j]),
            decreases n - i,
        {
            let b = match &self.cols[i] {
                ResultColumn::Normal(_, b) => *b,
                ResultColumn::Sorted(_, w, _) => Constraint::Length(*w),
            };
            r.push(b);
            i = i + 1;
        }
        r
    }

    /// The header row, with the active sort column marked with a direction
    /// indicator. Cells are left-aligned and carry the given foreground.
    pub fn get_row(&self, dir: crate::sort::SortDir, sort_id: u32, fg: Color) -> (r: ResultRow)
        ensures
            r.cells@.len() == self.cols@.len(),
            forall|i: int|
                0 <= i < r.cells@.len() ==> {
                    &&& (#[trigger] r.cells@[i]).content@ == col_label(
                        self.cols@[i],
                        dir,
                        sort_id,
                    )
                    &&& r.cells@[i].color == fg
                    &&& r.cells@[i].align == Alignment::Left
                },
    {
        let mut cells: Vec<ResultCell> = Vec::new();
        let n = self.cols.len();
        let mut i: usize = 0;
        while i < n
            invariant
                n == self.cols@.len(),
                0 <= i <= n,
                cells@.len() == i,
                forall|j: int|
                    0 <= j < i ==> {
                        &&& (#[trigger] cells@[j]).content@ == col_label(
                            self.cols@[j],
                            dir,
                            sort_id,
                        )
                        &&& cells@[j].color == fg
                        &&& cells@[j].align == Alignment::Left
                    },
            decreases n - i,
        {
            let content: String = match &self.cols[i] {
                ResultColumn::Normal(l, _) => l.clone(),
                ResultColumn::Sorted(l, _, id) => {
                    if *id == sort_id {
                        match dir {
                            crate::sort::SortDir::Desc => l.clone().concat("v"),
                            crate::sort::SortDir::Asc => l.clone().concat("^"),
                        }
                    } else {
                        l.clone()
                    }
                },
            };
            cells.push(ResultCell { content, color: fg, align: Alignment::Left });
            i = i + 1;
        }
        ResultRow { cells }
    }
}

} // verus!
