//! The sort selection widget: the sort keys a user can pick, the direction,
//! and the popup's selection state machine.

use vstd::prelude::*;

use crate::sync::Mode;

verus! {

/// A sort key the user can pick.
#[derive(Clone, Copy, Debug, PartialEq, Eq, Structural)]
pub enum Sort {
    Date,
    Downloads,
    Seeders,
    Leechers,
    Name,
    Category,
}

/// Sort direction.
#[derive(Clone, Copy, Debug, PartialEq, Eq, Structural)]
pub enum SortDir {
    Desc,
    Asc,
}

/// The sort key and direction a query carries.
#[derive(Clone, Copy, Debug, PartialEq, Eq, Structural)]
pub struct SelectedSort {
    pub sort: usize,
    pub dir: SortDir,
}

impl Default for SelectedSort {
    /// First sort key, descending.
    fn default() -> (r: Self)
        ensures
            r == (SelectedSort { sort: 0usize, dir: SortDir::Desc }),
    {
        SelectedSort { sort: 0, dir: SortDir::Desc }
    }
}

impl SortDir {
    /// The query-string form of the direction.
    pub open spec fn url_label(self) -> Seq<char> {
        match self {
            SortDir::Desc => "desc"@,
            SortDir::Asc => "asc"@,
        }
    }

    /// Renders the direction for a query string.
    pub fn to_url(&self) -> (r: String)
        ensures
            r@ == self.url_label(),
    {
        match self {
            SortDir::Desc => String::from_str("desc"),
            SortDir::Asc => String::from_str("asc"),
        }
    }
}

/// The fixed order in which sort keys are listed.
pub open spec fn sort_order() -> Seq<Sort> {
    seq![
        Sort::Date,
        Sort::Downloads,
        Sort::Seeders,
        Sort::Leechers,
        Sort::Name,
        Sort::Category,
    ]
}

impl Sort {
    /// All sort keys, in listing order.
    pub fn iter() -> (r: Vec<Sort>)
        ensures
            r@ == sort_order(),
    {
        let mut v: Vec<Sort> = Vec::new();
        v.push(Sort::Date);
        v.push(Sort::Downloads);
        v.push(Sort::Seeders);
        v.push(Sort::Leechers);
        v.push(Sort::Name);
        v.push(Sort::Category);
        proof {
            assert(v@ =~= sort_order());
        }
        v
    }

    /// The display label of the key.
    pub open spec fn label(self) -> Seq<char> {
        match self {
            Sort::Date => "Date"@,
            Sort::Downloads => "Downloads"@,
            Sort::Seeders => "Seeders"@,
            Sort::Leechers => "Leechers"@,
            Sort::Name => "Name"@,
            Sort::Category => "Category"@,
        }
    }

    /// Renders the display label.
    pub fn to_string(&self) -> (r: String)
        ensures
            r@ == self.label(),
    {
        match self {
            Sort::Date => String::from_str("Date"),
            Sort::Downloads => String::from_str("Downloads"),
            Sort::Seeders => String::from_str("Seeders"),
            Sort::Leechers => String::from_str("Leechers"),
            Sort::Name => String::from_str("Name"),
            Sort::Category => String::from_str("Category"),
        }
    }

    /// The key's position in listing order.
    pub open spec fn spec_index(self) -> int {
        match self {
            Sort::Date => 0,
            Sort::Downloads => 1,
            Sort::Seeders => 2,
            Sort::Leechers => 3,
            Sort::Name => 4,
            Sort::Category => 5,
        }
    }

    /// The key's position in listing order.
    pub fn index(&self) -> (r: usize)
        ensures
            r == self.spec_index(),
    {
        match self {
            Sort::Date => 0,
            Sort::Downloads => 1,
            Sort::Seeders => 2,
            Sort::Leechers => 3,
            Sort::Name => 4,
            Sort::Category => 5,
        }
    }
}

/// A scrollable list of labels with one selected row.
#[derive(Clone, Debug)]
pub struct StatefulTable {
    pub items: Vec<String>,
    pub selected: usize,
}

impl StatefulTable {
    /// A table over `items` with the first row selected.
    pub fn with_items(items: Vec<String>) -> (r: Self)
        ensures
            r.items == items,
            r.selected == 0usize,
    {
        StatefulTable { items, selected: 0 }
    }

    /// Moves the selection by `delta`, wrapping at both ends.
    pub fn next_wrap(&mut self, delta: isize)
        requires
            old(self).items@.len() > 0,
            old(self).selected < old(self).items@.len(),
            -0x10000 <= delta <= 0x10000,
            old(self).items@.len() <= 0x7fffffff,
        ensures
            final(self).items == old(self).items,
            final(self).selected == (old(self).selected + delta) % (old(
                self,
            ).items@.len() as int),
    {
        let n: usize = self.items.len();
        let sel: usize = self.selected;
        let idx: usize = if delta >= 0 {
            let d: usize = (delta as usize) % n;
            let s: usize = sel + d;
            proof {
                let q = (delta as int) / (n as int);
                vstd::arithmetic::div_mod::lemma_fundamental_div_mod(delta as int, n as int);
                if s >= n {
                    assert(sel + delta == (n as int) * (q + 1) + (s - n)) by (nonlinear_arith)
                        requires
                            delta as int == q * (n as int) + d,
                            s == sel + d,
                    ;
                    vstd::arithmetic::div_mod::lemma_mod_multiples_vanish(
                        q + 1,
                        s - n,
                        n as int,
                    );
                    vstd::arithmetic::div_mod::lemma_small_mod((s - n) as nat, n as nat);
                } else {
                    assert(sel + delta == (n as int) * q + s) by (nonlinear_arith)
                        requires
                            delta as int == q * (n as int) + d,
                            s == sel + d,
                    ;
                    vstd::arithmetic::div_mod::lemma_mod_multiples_vanish(q, s as int, n as int);
                    vstd::arithmetic::div_mod::lemma_small_mod(s as nat, n as nat);
                }
            }
            if s >= n {
                s - n
            } else {
                s
            }
        } else {
            let neg: usize = (-delta) as usize;
            let k: usize = neg % n;
            proof {
                let q = (neg as int) / (n as int);
                vstd::arithmetic::div_mod::lemma_fundamental_div_mod(neg as int, n as int);
                if k <= sel {
                    assert(sel + delta == (n as int) * (-q) + (sel - k)) by (nonlinear_arith)
                        requires
                            neg as int == q * (n as int) + k,
                            delta as int == -(neg as int),
                    ;
                    vstd::arithmetic::div_mod::lemma_mod_multiples_vanish(
                        -q,
                        sel - k,
                        n as int,
                    );
                    vstd::arithmetic::div_mod::lemma_small_mod((sel - k) as nat, n as nat);
                } else {
                    assert(sel + delta == (n as int) * (-q - 1) + (sel + n - k))
                        by (nonlinear_arith)
                        requires
                            neg as int == q * (n as int) + k,
                            delta as int == -(neg as int),
                    ;
                    vstd::arithmetic::div_mod::lemma_mod_multiples_vanish(
                        -q - 1,
                        sel + n - k,
                        n as int,
                    );
                    vstd::arithmetic::div_mod::lemma_small_mod((sel + n - k) as nat, n as nat);
                }
            }
            if k <= sel {
                sel - k
            } else {
                sel + n - k
            }
        };
        self.selected = idx;
    }

    /// Selects row `i`.
    pub fn select(&mut self, i: usize)
        ensures
            final(self).items == old(self).items,
            final(self).selected == i,
    {
        self.selected = i;
    }
}

/// The sort popup: the listed keys and the currently chosen one.
#[derive(Clone, Debug)]
pub struct SortPopup {
    pub table: StatefulTable,
    pub selected: Sort,
}

impl Default for SortPopup {
    /// Lists every sort key's label, with `Date` chosen.
    fn default() -> (r: Self)
        ensures
            r.table.items@.len() == sort_order().len(),
            forall|i: int|
                0 <= i < sort_order().len() ==> (#[trigger] r.table.items@[i])@
                    == sort_order()[i].label(),
            r.table.selected == 0usize,
            r.selected == Sort::Date,
    {
        let keys = Sort::iter();
        let mut labels: Vec<String> = Vec::new();
        let n = keys.len();
        let mut i: usize = 0;
        while i < n
            invariant
                n == keys@.len(),
                keys@ == sort_order(),
                0 <= i <= n,
                labels@.len() == i,
                forall|j: int|
                    0 <= j < i ==> (#[trigger] labels@[j])@ == sort_order()[j].label(),
            decreases n - i,
        {
            labels.push(keys[i].to_string());
            i = i + 1;
        }
        SortPopup { table: StatefulTable::with_items(labels), selected: Sort::Date }
    }
}

/// A key press, as the popup's logic reads it: the code of a pressed key.
#[derive(Clone, Copy, Debug, PartialEq, Eq, Structural)]
pub enum KeyInput {
    Esc,
    Enter,
    Char(char),
    Other,
}

impl SortPopup {
    /// Handles one key press: `Esc`/`s`/`q` close the popup, `j`/`k` move the
    /// selection with wrap-around, `g`/`G` jump to the ends, and `Enter`
    /// chooses the highlighted key and closes the popup.
    pub fn handle_event(&mut self, mode: &mut Mode, k: &KeyInput)
        requires
            old(self).table.items@.len() > 0,
            old(self).table.items@.len() <= 0x7fffffff,
            old(self).table.selected < old(self).table.items@.len(),
        ensures
            final(self).table.items == old(self).table.items,
            match k {
                KeyInput::Esc => *final(self) == *old(self) && *final(mode) == Mode::Normal,
                KeyInput::Char(c) => {
                    if *c == 's' || *c == 'q' {
                        *final(self) == *old(self) && *final(mode) == Mode::Normal
                    } else if *c == 'j' {
                        final(self).selected == old(self).selected && *final(mode) == *old(mode)
                            && final(self).table.selected == (old(self).table.selected + 1) % (old(
                            self,
                        ).table.items@.len() as int)
                    } else if *c == 'k' {
                        final(self).selected == old(self).selected && *final(mode) == *old(mode)
                            && final(self).table.selected == (old(self).table.selected - 1) % (old(
                            self,
                        ).table.items@.len() as int)
                    } else if *c == 'G' {
                        final(self).selected == old(self).selected && *final(mode) == *old(mode)
                            && final(self).table.selected == old(self).table.items@.len() - 1
                    } else if *c == 'g' {
                        final(self).selected == old(self).selected && *final(mode) == *old(mode)
                            && final(self).table.selected == 0
                    } else {
                        *final(self) == *old(self) && *final(mode) == *old(mode)
                    }
                },
                KeyInput::Enter => {
                    if old(self).table.selected < sort_order().len() {
                        final(self).table == old(self).table && final(self).selected == sort_order()[
                            old(self).table.selected as int
                        ] && *final(mode) == Mode::Normal
                    } else {
                        *final(self) == *old(self) && *final(mode) == *old(mode)
                    }
                },
                KeyInput::Other => *final(self) == *old(self) && *final(mode) == *old(mode),
            },
    {
        match k {
            KeyInput::Esc => {
                *mode = Mode::Normal;
            },
            KeyInput::Char(c) => {
                if *c == 's' || *c == 'q' {
                    *mode = Mode::Normal;
                } else if *c == 'j' {
                    self.table.next_wrap(1);
                } else if *c == 'k' {
                    self.table.next_wrap(-1);
                } else if *c == 'G' {
                    let last = self.table.items.len() - 1;
                    self.table.select(last);
                } else if *c == 'g' {
                    self.table.select(0);
                }
            },
            KeyInput::Enter => {
                let keys = Sort::iter();
                if self.table.selected < keys.len() {
                    self.selected = keys[self.table.selected];
                    *mode = Mode::Normal;
                }
            },
            KeyInput::Other => {},
        }
    }
}

} // verus!
