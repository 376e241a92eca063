//! The source-adapter boundary: static per-adapter metadata (the category
//! tree, filter and sort names), the shared source configuration, and the
//! adapter registry.

use vstd::prelude::*;

use crate::results::Icon;
use crate::theme::Color;

verus! {

/// One category: id, icon label, long label, machine name, color.
#[derive(Clone, Debug)]
pub struct CatEntry {
    pub id: usize,
    pub label: String,
    pub name: String,
    pub cfg: String,
    pub color: Color,
}

/// A named group of categories.
#[derive(Clone, Debug)]
pub struct CatGroup {
    pub name: String,
    pub entries: Vec<CatEntry>,
}

/// Static per-adapter metadata, loaded once at registration.
#[derive(Clone, Debug)]
pub struct SourceInfo {
    pub cats: Vec<CatGroup>,
    pub filters: Vec<String>,
    pub sorts: Vec<String>,
}

/// Whether two entries carry the same data.
pub open spec fn same_entry(a: CatEntry, b: CatEntry) -> bool {
    &&& a.id == b.id
    &&& a.label@ == b.label@
    &&& a.name@ == b.name@
    &&& a.cfg@ == b.cfg@
    &&& a.color == b.color
}

/// All entries of all groups, flattened in listing order.
pub open spec fn flat_entries(cats: Seq<CatGroup>) -> Seq<CatEntry>
    decreases cats.len(),
{
    if cats.len() == 0 {
        Seq::empty()
    } else {
        cats[0].entries@ + flat_entries(cats.skip(1))
    }
}

/// The index of the first entry with the given id, or -1.
pub open spec fn find_by_id(s: Seq<CatEntry>, id: usize) -> int
    decreases s.len(),
{
    if s.len() == 0 {
        -1
    } else if s[0].id == id {
        0
    } else {
        if find_by_id(s.skip(1), id) == -1 {
            -1
        } else {
            find_by_id(s.skip(1), id) + 1
        }
    }
}

/// The index of the first entry with the given machine name, or -1.
pub open spec fn find_by_cfg(s: Seq<CatEntry>, cfg: Seq<char>) -> int
    decreases s.len(),
{
    if s.len() == 0 {
        -1
    } else if s[0].cfg@ == cfg {
        0
    } else {
        if find_by_cfg(s.skip(1), cfg) == -1 {
            -1
        } else {
            find_by_cfg(s.skip(1), cfg) + 1
        }
    }
}

impl CatEntry {
    /// A fresh copy carrying the same data.
    pub fn duplicate(&self) -> (r: CatEntry)
        ensures
            same_entry(r, *self),
    {
        CatEntry {
            id: self.id,
            label: self.label.clone(),
            name: self.name.clone(),
            cfg: self.cfg.clone(),
            color: self.color,
        }
    }

    /// The entry's icon: its short label in its color.
    pub fn icon(&self) -> (r: Icon)
        ensures
            r.label@ == self.label@,
            r.color == self.color,
    {
        Icon { label: self.label.clone(), color: self.color }
    }
}

/// Flattening one more group appends its entries.
pub proof fn lemma_flat_take_snoc(cats: Seq<CatGroup>, i: int)
    requires
        0 <= i < cats.len(),
    ensures
        flat_entries(cats.take(i + 1)) == flat_entries(cats.take(i)) + cats[i].entries@,
    decreases i,
{
    if i == 0 {
        assert(cats.take(1) =~= seq![cats[0]]);
        assert(cats.take(1).skip(1) =~= Seq::<CatGroup>::empty());
        assert(cats.take(0) =~= Seq::<CatGroup>::empty());
        assert(flat_entries(Seq::<CatGroup>::empty()) == Seq::<CatEntry>::empty());
        assert(cats.take(1)[0] == cats[0]);
        assert(flat_entries(cats.take(1)) == cats[0].entries@ + Seq::<CatEntry>::empty());
        assert(cats[0].entries@ + Seq::<CatEntry>::empty() =~= Seq::<CatEntry>::empty()
            + cats[0].entries@);
    } else {
        let t = cats.skip(1);
        lemma_flat_take_snoc(t, i - 1);
        assert(cats.take(i + 1).skip(1) =~= t.take(i));
        assert(cats.take(i).skip(1) =~= t.take(i - 1));
        assert(cats.take(i + 1)[0] == cats[0]);
        assert(cats.take(i)[0] == cats[0]);
        assert(flat_entries(cats.take(i + 1)) == cats[0].entries@ + flat_entries(t.take(i)));
        assert(flat_entries(cats.take(i)) == cats[0].entries@ + flat_entries(t.take(i - 1)));
        assert(t[i - 1] == cats[i]);
        assert(cats[0].entries@ + (flat_entries(t.take(i - 1)) + cats[i].entries@) =~= (
        cats[0].entries@ + flat_entries(t.take(i - 1))) + cats[i].entries@);
    }
}

proof fn lemma_find_by_id_is(s: Seq<CatEntry>, id: usize, i: int)
    requires
        0 <= i < s.len(),
        s[i].id == id,
        forall|j: int| 0 <= j < i ==> (#[trigger] s[j]).id != id,
    ensures
        find_by_id(s, id) == i,
    decreases s.len(),
{
    if s[0].id != id {
        lemma_find_by_id_is(s.skip(1), id, i - 1);
    }
}

proof fn lemma_find_by_id_none(s: Seq<CatEntry>, id: usize)
    requires
        forall|j: int| 0 <= j < s.len() ==> (#[trigger] s[j]).id != id,
    ensures
        find_by_id(s, id) == -1,
    decreases s.len(),
{
    if s.len() > 0 {
        lemma_find_by_id_none(s.skip(1), id);
    }
}

proof fn lemma_find_by_cfg_is(s: Seq<CatEntry>, cfg: Seq<char>, i: int)
    requires
        0 <= i < s.len(),
        s[i].cfg@ == cfg,
        forall|j: int| 0 <= j < i ==> (#[trigger] s[j]).cfg@ != cfg,
    ensures
        find_by_cfg(s, cfg) == i,
    decreases s.len(),
{
    if s[0].cfg@ != cfg {
        lemma_find_by_cfg_is(s.skip(1), cfg, i - 1);
    }
}

proof fn lemma_find_by_cfg_none(s: Seq<CatEntry>, cfg: Seq<char>)
    requires
        forall|j: int| 0 <= j < s.len() ==> (#[trigger] s[j]).cfg@ != cfg,
    ensures
        find_by_cfg(s, cfg) == -1,
    decreases s.len(),
{
    if s.len() > 0 {
        lemma_find_by_cfg_none(s.skip(1), cfg);
    }
}

impl SourceInfo {
    /// The flattened category list, in listing order.
    pub fn flat(&self) -> (r: Vec<CatEntry>)
        ensures
            r@.len() == flat_entries(self.cats@).len(),
            forall|i: int|
                0 <= i < r@.len() ==> same_entry(#[trigger] r@[i], flat_entries(self.cats@)[i]),
    {
        let mut r: Vec<CatEntry> = Vec::new();
        let n = self.cats.len();
        let mut g: usize = 0;
        while g < n
            invariant
                n == self.cats@.len(),
                0 <= g <= n,
                r@.len() == flat_entries(self.cats@.take(g as int)).len(),
                forall|i: int|
                    0 <= i < r@.len() ==> same_entry(
                        #[trigger] r@[i],
                        flat_entries(self.cats@.take(g as int))[i],
                    ),
            decreases n - g,
        {
            let m = self.cats[g].entries.len();
            let mut e: usize = 0;
            while e < m
                invariant
                    n == self.cats@.len(),
                    0 <= g < n,
                    m == self.cats@[g as int].entries@.len(),
                    0 <= e <= m,
                    r@.len() == flat_entries(self.cats@.take(g as int)).len() + e,
                    forall|i: int|
                        0 <= i < flat_entries(self.cats@.take(g as int)).len() ==> same_entry(
                            #[trigger] r@[i],
                            flat_entries(self.cats@.take(g as int))[i],
                        ),
                    forall|i: int|
                        0 <= i < e ==> same_entry(
                            #[trigger] r@[flat_entries(self.cats@.take(g as int)).len() + i],
                            self.cats@[g as int].entries@[i],
                        ),
                decreases m - e,
            {
                r.push(self.cats[g].entries[e].duplicate());
                e = e + 1;
            }
            proof {
                lemma_flat_take_snoc(self.cats@, g as int);
                let pre = flat_entries(self.cats@.take(g as int));
                let post = flat_entries(self.cats@.take(g + 1));
                assert(post == pre + self.cats@[g as int].entries@);
                assert(r@.len() == post.len());
                assert forall|i: int| 0 <= i < r@.len() implies same_entry(
                    #[trigger] r@[i],
                    post[i],
                ) by {
                    if i < pre.len() {
                        assert(post[i] == pre[i]);
                    } else {
                        let k = i - pre.len();
                        assert(same_entry(
                            r@[flat_entries(self.cats@.take(g as int)).len() + k],
                            self.cats@[g as int].entries@[k],
                        ));
                        assert(post[i] == self.cats@[g as int].entries@[k]);
                    }
                }
            }
            g = g + 1;
        }
        proof {
            assert(self.cats@.take(n as int) =~= self.cats@);
        }
        r
    }

    /// The first category with the given id; the first category overall
    /// where the id names none.
    pub fn entry_from_id(&self, id: usize) -> (r: CatEntry)
        requires
            flat_entries(self.cats@).len() > 0,
        ensures
            ({
                let flat = flat_entries(self.cats@);
                let f = find_by_id(flat, id);
                if f >= 0 {
                    same_entry(r, flat[f])
                } else {
                    same_entry(r, flat[0])
                }
            }),
    {
        let flat = self.flat();
        let n = flat.len();
        let mut i: usize = 0;
        while i < n
            invariant
                n == flat@.len(),
                0 <= i <= n,
                n == flat_entries(self.cats@).len(),
                forall|j: int|
                    0 <= j < flat@.len() ==> same_entry(
                        #[trigger] flat@[j],
                        flat_entries(self.cats@)[j],
                    ),
                forall|j: int| 0 <= j < i ==> (#[trigger] flat_entries(self.cats@)[j]).id != id,
            decreases n - i,
        {
            if flat[i].id == id {
                proof {
                    lemma_find_by_id_is(flat_entries(self.cats@), id, i as int);
                }
                return flat[i].duplicate();
            }
            i = i + 1;
        }
        proof {
            lemma_find_by_id_none(flat_entries(self.cats@), id);
        }
        flat[0].duplicate()
    }

    /// The first category with the given machine name; the first category
    /// overall where the name names none.
    pub fn entry_from_cfg(&self, cfg: &str) -> (r: CatEntry)
        requires
            flat_entries(self.cats@).len() > 0,
        ensures
            ({
                let flat = flat_entries(self.cats@);
                let f = find_by_cfg(flat, cfg@);
                if f >= 0 {
                    same_entry(r, flat[f])
                } else {
                    same_entry(r, flat[0])
                }
            }),
    {
        let flat = self.flat();
        let n = flat.len();
        let mut i: usize = 0;
        while i < n
            invariant
                n == flat@.len(),
                0 <= i <= n,
                n == flat_entries(self.cats@).len(),
                forall|j: int|
                    0 <= j < flat@.len() ==> same_entry(
                        #[trigger] flat@[j],
                        flat_entries(self.cats@)[j],
                    ),
                forall|j: int|
                    0 <= j < i ==> (#[trigger] flat_entries(self.cats@)[j]).cfg@ != cfg@,
            decreases n - i,
        {
            if crate::strutil::str_eq(flat[i].cfg.as_str(), cfg) {
                proof {
                    lemma_find_by_cfg_is(flat_entries(self.cats@), cfg@, i as int);
                }
                return flat[i].duplicate();
            }
            i = i + 1;
        }
        proof {
            lemma_find_by_cfg_none(flat_entries(self.cats@), cfg@);
        }
        flat[0].duplicate()
    }
}

/// Per-adapter configuration, populated lazily at registration.
#[derive(Clone, Debug)]
pub struct SourceConfig {
    pub tgx: Option<crate::torrent_galaxy::TgxConfig>,
}

/// The application configuration the adapters read their defaults from.
#[derive(Clone, Debug)]
pub struct Config {
    pub sources: SourceConfig,
}

/// The adapter registry: one variant per remote content provider.
#[derive(Clone, Copy, Debug, PartialEq, Eq, Structural)]
pub enum Sources {
    TorrentGalaxy,
}

} // verus!
