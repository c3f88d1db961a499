//! The grid-item store: the single owner of all grid-item records.
//!
//! Ids are unique and positive; a new record takes one more than the largest
//! id present (or 1 in an empty store). The store itself is single-threaded:
//! callers share it behind one readers-writer lock, so every write is a whole
//! scan-and-mutate step.

use vstd::prelude::*;
use crate::errors::AppError;

verus! {

/// A stored grid item.
#[derive(Debug)]
pub struct GridItem {
    pub id: u64,
    pub name: String,
    pub description: String,
    pub x: i32,
    pub y: i32,
}

/// The fields of a grid item to create.
#[derive(Debug)]
pub struct CreateGridItem {
    pub name: String,
    pub description: String,
    pub x: i32,
    pub y: i32,
}

/// A partial update: only the fields present are changed.
#[derive(Debug)]
pub struct UpdateGridItem {
    pub name: Option<String>,
    pub description: Option<String>,
    pub x: Option<i32>,
    pub y: Option<i32>,
}

/// No two records share an id.
pub open spec fn ids_unique(s: Seq<GridItem>) -> bool {
    forall|i: int, j: int| 0 <= i < s.len() && 0 <= j < s.len() && i != j ==> s[i].id != s[j].id
}

/// Every id is positive.
pub open spec fn ids_positive(s: Seq<GridItem>) -> bool {
    forall|i: int| 0 <= i < s.len() ==> s[i].id > 0
}

/// Some record carries `id`.
pub open spec fn has_id(s: Seq<GridItem>, id: u64) -> bool {
    exists|i: int| 0 <= i < s.len() && s[i].id == id
}

/// The largest id present, or 0 for no records.
pub open spec fn max_id(s: Seq<GridItem>) -> nat
    decreases s.len(),
{
    if s.len() == 0 {
        0
    } else {
        let m = max_id(s.drop_last());
        if s.last().id > m {
            s.last().id as nat
        } else {
            m
        }
    }
}

/// The record that `create` adds to the records `s`.
pub open spec fn new_item(s: Seq<GridItem>, req: CreateGridItem) -> GridItem {
    GridItem {
        id: (max_id(s) + 1) as u64,
        name: req.name,
        description: req.description,
        x: req.x,
        y: req.y,
    }
}

/// The record `it` with the fields present in `u` replaced.
pub open spec fn patched(it: GridItem, u: UpdateGridItem) -> GridItem {
    GridItem {
        id: it.id,
        name: match u.name {
            Some(n) => n,
            None => it.name,
        },
        description: match u.description {
            Some(d) => d,
            None => it.description,
        },
        x: match u.x {
            Some(x) => x,
            None => it.x,
        },
        y: match u.y {
            Some(y) => y,
            None => it.y,
        },
    }
}

/// An update that carries no field.
pub open spec fn is_empty_update(u: UpdateGridItem) -> bool {
    u.name is None && u.description is None && u.x is None && u.y is None
}

/// Every id is at most `max_id`.
pub proof fn lemma_max_id_bound(s: Seq<GridItem>)
    ensures
        forall|i: int| 0 <= i < s.len() ==> s[i].id <= max_id(s),
    decreases s.len(),
{
    if s.len() > 0 {
        lemma_max_id_bound(s.drop_last());
        assert forall|i: int| 0 <= i < s.len() implies s[i].id <= max_id(s) by {
            if i < s.len() - 1 {
                assert(s[i] == s.drop_last()[i]);
            }
        }
    }
}

/// The records of a store.
pub struct GridStore {
    items: Vec<GridItem>,
}

impl View for GridStore {
    type V = Seq<GridItem>;

    closed spec fn view(&self) -> Seq<GridItem> {
        self.items@
    }
}

impl GridStore {
    /// The store's invariant: ids unique and positive.
    pub open spec fn wf(&self) -> bool {
        ids_unique(self@) && ids_positive(self@)
    }

    /// An empty store.
    pub fn new() -> (r: GridStore)
        ensures
            r@ == Seq::<GridItem>::empty(),
            r.wf(),
    {
        GridStore { items: Vec::new() }
    }

    /// The number of records.
    pub fn len(&self) -> (r: usize)
        ensures
            r == self@.len(),
    {
        self.items.len()
    }

    /// A snapshot of every record, in store order.
    pub fn list(&self) -> (r: Vec<GridItem>)
        ensures
            r@ == self@,
    {
        let mut out: Vec<GridItem> = Vec::new();
        let mut i: usize = 0;
        while i < self.items.len()
            invariant
                i <= self.items@.len(),
                out@ == self.items@.take(i as int),
            decreases self.items@.len() - i,
        {
            out.push(copy_item(&self.items[i]));
            i += 1;
            assert(out@ =~= self.items@.take(i as int));
        }
        assert(self.items@.take(i as int) =~= self.items@);
        out
    }

    /// The position of the record with `id`, if any.
    fn position(&self, id: u64) -> (r: Option<usize>)
        ensures
            match r {
                Some(i) => i < self@.len() && self@[i as int].id == id,
                None => !has_id(self@, id),
            },
    {
        let mut i: usize = 0;
        while i < self.items.len()
            invariant
                i <= self.items@.len(),
                forall|j: int| 0 <= j < i ==> self.items@[j].id != id,
            decreases self.items@.len() - i,
        {
            if self.items[i].id == id {
                return Some(i);
            }
            i += 1;
        }
        None
    }

    /// The record with `id`, if any.
    pub fn get(&self, id: u64) -> (r: Option<GridItem>)
        ensures
            r is Some <==> has_id(self@, id),
            r matches Some(it) ==> it.id == id && self@.contains(it),
    {
        match self.position(id) {
            Some(i) => Some(copy_item(&self.items[i])),
            None => None,
        }
    }

    /// Adds a record with the next id (`max_id + 1`) and returns it. Fails,
    /// leaving the store as it was, only when the largest id is `u64::MAX`.
    pub fn create(&mut self, req: CreateGridItem) -> (r: Result<GridItem, AppError>)
        requires
            old(self).wf(),
        ensures
            final(self).wf(),
            r is Ok <==> max_id(old(self)@) < u64::MAX,
            r matches Ok(it) ==> it == new_item(old(self)@, req),
            r matches Ok(it) ==> final(self)@ == old(self)@.push(it),
            r matches Err(e) ==> e == AppError::GridItemCreationFailed,
            r is Err ==> final(self)@ == old(self)@,
    {
        let mut m: u64 = 0;
        let mut i: usize = 0;
        while i < self.items.len()
            invariant
                i <= self.items@.len(),
                m == max_id(self.items@.take(i as int)),
            decreases self.items@.len() - i,
        {
            proof {
                assert(self.items@.take(i + 1).drop_last() =~= self.items@.take(i as int));
            }
            if self.items[i].id > m {
                m = self.items[i].id;
            }
            i += 1;
        }
        assert(self.items@.take(i as int) =~= self.items@);
        if m == u64::MAX {
            return Err(AppError::GridItemCreationFailed);
        }
        let item = GridItem { id: m + 1, name: req.name, description: req.description, x: req.x, y: req.y };
        let out = copy_item(&item);
        proof {
            lemma_max_id_bound(self@);
        }
        self.items.push(item);
        assert(ids_unique(self@));
        Ok(out)
    }

    /// Applies the fields present in `upd` to the record with `id` and
    /// returns the updated record; `None`, with the store unchanged, when no
    /// record has that id.
    pub fn update(&mut self, id: u64, upd: UpdateGridItem) -> (r: Option<GridItem>)
        requires
            old(self).wf(),
        ensures
            final(self).wf(),
            r is Some <==> has_id(old(self)@, id),
            r is None ==> final(self)@ == old(self)@,
            r matches Some(it) ==> exists|i: int|
                #![trigger old(self)@[i]]
                0 <= i < old(self)@.len() && old(self)@[i].id == id
                    && it == patched(old(self)@[i], upd)
                    && final(self)@ == old(self)@.update(i, it),
            is_empty_update(upd) ==> final(self)@ == old(self)@,
    {
        match self.position(id) {
            None => None,
            Some(i) => {
                let ghost before = self@;
                let cur = &self.items[i];
                let name = match upd.name {
                    Some(n) => n,
                    None => cur.name.clone(),
                };
                let description = match upd.description {
                    Some(d) => d,
                    None => cur.description.clone(),
                };
                let x = match upd.x {
                    Some(x) => x,
                    None => cur.x,
                };
                let y = match upd.y {
                    Some(y) => y,
                    None => cur.y,
                };
                let item = GridItem { id: cur.id, name, description, x, y };
                let out = copy_item(&item);
                self.items.set(i, item);
                proof {
                    assert(out == patched(before[i as int], upd));
                    assert(self@ == before.update(i as int, out));
                    if is_empty_update(upd) {
                        assert(self@ =~= before);
                    }
                }
                Some(out)
            }
        }
    }

    /// Removes the record with `id`; `true` if there was one.
    pub fn delete(&mut self, id: u64) -> (r: bool)
        requires
            old(self).wf(),
        ensures
            final(self).wf(),
            r == has_id(old(self)@, id),
            !has_id(final(self)@, id),
            r ==> exists|i: int|
                #![trigger old(self)@[i]]
                0 <= i < old(self)@.len() && old(self)@[i].id == id
                    && final(self)@ == old(self)@.remove(i),
            !r ==> final(self)@ == old(self)@,
    {
        match self.position(id) {
            None => false,
            Some(i) => {
                let ghost before = self@;
                self.items.remove(i);
                proof {
                    lemma_removed_lacks_id(before, i as int);
                }
                true
            }
        }
    }
}

/// A field-by-field copy of a record.
pub fn copy_item(it: &GridItem) -> (r: GridItem)
    ensures
        r == *it,
{
    GridItem {
        id: it.id,
        name: it.name.clone(),
        description: it.description.clone(),
        x: it.x,
        y: it.y,
    }
}

/// Removing the record at `i` from records with unique ids leaves no record
/// with its id, and keeps the ids unique and positive.
pub proof fn lemma_removed_lacks_id(s: Seq<GridItem>, i: int)
    requires
        ids_unique(s),
        ids_positive(s),
        0 <= i < s.len(),
    ensures
        !has_id(s.remove(i), s[i].id),
        ids_unique(s.remove(i)),
        ids_positive(s.remove(i)),
{
    let t = s.remove(i);
    assert forall|k: int| 0 <= k < t.len() implies t[k].id != s[i].id by {
        if k < i {
            assert(t[k] == s[k]);
        } else {
            assert(t[k] == s[k + 1]);
        }
    }
    assert forall|a: int, b: int| 0 <= a < t.len() && 0 <= b < t.len() && a != b implies t[a].id
        != t[b].id by {
        let sa = if a < i { a } else { a + 1 };
        let sb = if b < i { b } else { b + 1 };
        assert(t[a] == s[sa]);
        assert(t[b] == s[sb]);
    }
    assert forall|k: int| 0 <= k < t.len() implies t[k].id > 0 by {
        if k < i {
            assert(t[k] == s[k]);
        } else {
            assert(t[k] == s[k + 1]);
        }
    }
}

/// The records after the creates `reqs`, one after another, on the records `s`.
pub open spec fn create_all(s: Seq<GridItem>, reqs: Seq<CreateGridItem>) -> Seq<GridItem>
    decreases reqs.len(),
{
    if reqs.len() == 0 {
        s
    } else {
        let t = create_all(s, reqs.drop_last());
        t.push(new_item(t, reqs.last()))
    }
}

/// N creates on an empty store, in whatever order the writers are
/// serialised, give N records whose ids are exactly 1..N, without duplicates
/// or gaps: the k-th create (from 1) gets id k, and each of them succeeds.
pub proof fn lemma_creates_number_from_one(reqs: Seq<CreateGridItem>)
    requires
        reqs.len() < u64::MAX,
    ensures
        create_all(Seq::empty(), reqs).len() == reqs.len(),
        forall|k: int| 0 <= k < reqs.len() ==> #[trigger] create_all(Seq::empty(), reqs)[k].id == k + 1,
        ids_unique(create_all(Seq::empty(), reqs)),
        ids_positive(create_all(Seq::empty(), reqs)),
        max_id(create_all(Seq::empty(), reqs)) == reqs.len(),
    decreases reqs.len(),
{
    if reqs.len() > 0 {
        let prev = reqs.drop_last();
        lemma_creates_number_from_one(prev);
        let t = create_all(Seq::<GridItem>::empty(), prev);
        let u = create_all(Seq::<GridItem>::empty(), reqs);
        assert(u == t.push(new_item(t, reqs.last())));
        assert(u.drop_last() =~= t);
        assert forall|k: int| 0 <= k < reqs.len() implies #[trigger] u[k].id == k + 1 by {
            if k < prev.len() {
                assert(u[k] == t[k]);
            }
        }
    }
}

/// A delete of an id that is present finds it, and leaves no record with that
/// id, so a second delete of the same id finds none.
pub proof fn lemma_delete_twice(s: Seq<GridItem>, i: int)
    requires
        ids_unique(s),
        ids_positive(s),
        0 <= i < s.len(),
    ensures
        has_id(s, s[i].id),
        !has_id(s.remove(i), s[i].id),
{
    lemma_removed_lacks_id(s, i);
}

/// An update that carries no field leaves a record as it was.
pub proof fn lemma_empty_update_keeps(it: GridItem, u: UpdateGridItem)
    requires
        is_empty_update(u),
    ensures
        patched(it, u) == it,
{
}

} // verus!
