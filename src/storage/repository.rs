//! The repository as a sequence of rows kept in ascending id order, the
//! keyset pagination over it, and an in-memory repository.
use vstd::prelude::*;
use vstd::string::StringExecFns;

use crate::cursor::Cursor;
use crate::storage::entity::{SettingsView, Storage, StorageView, ID};
use crate::storage::{option_view, rows_view, InsertDTO, Repository, UpdateDTO};
use crate::{PaginatedData, LIMIT};

verus! {

/// Rows in strictly ascending id order: ids are unique.
pub open spec fn sorted_by_id(rows: Seq<StorageView>) -> bool {
    forall|i: int, j: int| 0 <= i < j < rows.len() ==> rows[i].id < rows[j].id
}

/// From index `i` on, the index of the first row whose id is above `from`.
pub open spec fn skip_from(rows: Seq<StorageView>, from: ID, i: int) -> int
    decreases rows.len() - i,
{
    if i < 0 || i >= rows.len() || rows[i].id > from {
        i
    } else {
        skip_from(rows, from, i + 1)
    }
}

/// Index of the first row whose id is above `from`.
pub open spec fn first_after(rows: Seq<StorageView>, from: ID) -> int {
    skip_from(rows, from, 0)
}

/// Index of the first row of the page that starts after `from`.
pub open spec fn page_start(rows: Seq<StorageView>, from: Option<ID>) -> int {
    match from {
        None => 0,
        Some(f) => first_after(rows, f),
    }
}

/// Index just past the last row of the page that starts after `from`.
pub open spec fn page_end(rows: Seq<StorageView>, from: Option<ID>) -> int {
    let s = page_start(rows, from);
    if s + LIMIT < rows.len() {
        s + LIMIT
    } else {
        rows.len() as int
    }
}

/// The page after `from`: up to `LIMIT` rows, in ascending id order, each
/// with an id above `from`.
pub open spec fn page(rows: Seq<StorageView>, from: Option<ID>) -> Seq<StorageView> {
    rows.subrange(page_start(rows, from), page_end(rows, from))
}

/// The cursor that follows a page: present exactly when the page is full,
/// and then after the page's last row.
pub open spec fn next_cursor(p: Seq<StorageView>) -> Option<Cursor> {
    if p.len() == LIMIT {
        Some(Cursor { last_id: Some(p.last().id) })
    } else {
        None
    }
}

/// Where the row with `id` stands, if there is one.
pub open spec fn position(rows: Seq<StorageView>, id: ID) -> Option<int> {
    let k = first_after(rows, id);
    if 0 < k <= rows.len() && rows[k - 1].id == id {
        Some(k - 1)
    } else {
        None
    }
}

/// The row with `id`, if there is one.
pub open spec fn lookup(rows: Seq<StorageView>, id: ID) -> Option<StorageView> {
    match position(rows, id) {
        Some(i) => Some(rows[i]),
        None => None,
    }
}

/// A row of the given values.
pub open spec fn row_of(id: ID, name: Seq<char>, settings: SettingsView) -> StorageView {
    StorageView { id, name, settings }
}

/// The rows with `row` added in its place in id order.
pub open spec fn inserted(rows: Seq<StorageView>, row: StorageView) -> Seq<StorageView> {
    rows.insert(first_after(rows, row.id), row)
}

/// The rows with the name and settings of the row with `id` replaced; the
/// same rows where none has that id.
pub open spec fn updated(
    rows: Seq<StorageView>,
    id: ID,
    name: Seq<char>,
    settings: SettingsView,
) -> Seq<StorageView> {
    match position(rows, id) {
        Some(i) => rows.update(i, row_of(id, name, settings)),
        None => rows,
    }
}

/// The rows without the row with `id`, if there was one.
pub open spec fn deleted(rows: Seq<StorageView>, id: ID) -> Seq<StorageView> {
    match position(rows, id) {
        Some(i) => rows.remove(i),
        None => rows,
    }
}

/// The rows gathered by listing after `from` and following each cursor
/// until none comes back. On sorted rows every cursor moves forward; the
/// guard on the two page starts only stops the unfolding on rows out of
/// order.
pub open spec fn listing(rows: Seq<StorageView>, from: Option<ID>) -> Seq<StorageView>
    decreases rows.len() - page_start(rows, from),
{
    let p = page(rows, from);
    match next_cursor(p) {
        Some(c) => {
            let s = page_start(rows, from);
            let t = page_start(rows, c.last_id);
            if 0 <= s < t <= rows.len() {
                p + listing(rows, c.last_id)
            } else {
                p
            }
        },
        None => p,
    }
}

proof fn lemma_skip_from(rows: Seq<StorageView>, from: ID, i: int)
    requires
        sorted_by_id(rows),
        0 <= i <= rows.len(),
        forall|j: int| 0 <= j < i ==> rows[j].id <= from,
    ensures
        i <= skip_from(rows, from, i) <= rows.len(),
        forall|j: int| 0 <= j < skip_from(rows, from, i) ==> rows[j].id <= from,
        forall|j: int| skip_from(rows, from, i) <= j < rows.len() ==> rows[j].id > from,
    decreases rows.len() - i,
{
    if i < rows.len() && rows[i].id <= from {
        lemma_skip_from(rows, from, i + 1);
    } else if i < rows.len() {
        assert forall|j: int| i <= j < rows.len() implies rows[j].id > from by {
            if i < j {
                assert(rows[i].id < rows[j].id);
            }
        }
    }
}

/// In sorted rows, `first_after` splits the rows with ids up to `from` from
/// those above it.
pub proof fn lemma_first_after(rows: Seq<StorageView>, from: ID)
    requires
        sorted_by_id(rows),
    ensures
        0 <= first_after(rows, from) <= rows.len(),
        forall|j: int| 0 <= j < first_after(rows, from) ==> rows[j].id <= from,
        forall|j: int| first_after(rows, from) <= j < rows.len() ==> rows[j].id > from,
{
    lemma_skip_from(rows, from, 0);
}

/// Any index that splits sorted rows at `from` is `first_after`.
proof fn lemma_first_after_unique(rows: Seq<StorageView>, from: ID, k: int)
    requires
        sorted_by_id(rows),
        0 <= k <= rows.len(),
        forall|j: int| 0 <= j < k ==> rows[j].id <= from,
        forall|j: int| k <= j < rows.len() ==> rows[j].id > from,
    ensures
        first_after(rows, from) == k,
{
    lemma_first_after(rows, from);
    let f = first_after(rows, from);
    if f < k {
        assert(rows[f].id > from);
    } else if k < f {
        assert(rows[k].id <= from);
    }
}

proof fn lemma_listing_rest(rows: Seq<StorageView>, from: Option<ID>)
    requires
        sorted_by_id(rows),
        0 <= page_start(rows, from) <= rows.len(),
    ensures
        listing(rows, from) == rows.subrange(page_start(rows, from), rows.len() as int),
    decreases rows.len() - page_start(rows, from),
{
    let s = page_start(rows, from);
    let e = page_end(rows, from);
    let p = page(rows, from);
    if p.len() == LIMIT {
        let next = Some(p.last().id);
        assert(p.last() == rows[e - 1]);
        assert forall|j: int| 0 <= j < e implies #[trigger] rows[j].id <= rows[e - 1].id by {
            if j < e - 1 {
                assert(rows[j].id < rows[e - 1].id);
            }
        }
        assert forall|j: int| e <= j < rows.len() implies #[trigger] rows[j].id > rows[e - 1].id by {
            assert(rows[e - 1].id < rows[j].id);
        }
        lemma_first_after_unique(rows, rows[e - 1].id, e);
        assert(page_start(rows, next) == e);
        lemma_listing_rest(rows, next);
        assert(listing(rows, from) == p + listing(rows, next));
        assert(rows.subrange(s, rows.len() as int) =~= p + rows.subrange(e, rows.len() as int));
    } else {
        assert(listing(rows, from) == p);
        assert(p =~= rows.subrange(s, rows.len() as int));
    }
}

/// Listing from the beginning and following each cursor until none comes
/// back yields every row once, in ascending id order, with no row skipped
/// or repeated across page boundaries.
pub proof fn lemma_listing_exhausts(rows: Seq<StorageView>)
    requires
        sorted_by_id(rows),
    ensures
        listing(rows, None) == rows,
{
    lemma_listing_rest(rows, None);
    assert(rows.subrange(0, rows.len() as int) =~= rows);
}

/// Deleting a row a second time changes nothing: deleting twice leaves the
/// same rows as deleting once.
pub proof fn lemma_delete_idempotent(rows: Seq<StorageView>, id: ID)
    requires
        sorted_by_id(rows),
    ensures
        deleted(deleted(rows, id), id) == deleted(rows, id),
        lookup(deleted(rows, id), id) is None,
{
    lemma_first_after(rows, id);
    match position(rows, id) {
        Some(i) => {
            let r = rows.remove(i);
            assert forall|j: int| 0 <= j < i implies r[j].id <= id by {
                assert(rows[j].id < rows[i].id);
            }
            assert forall|j: int| i <= j < r.len() implies r[j].id > id by {
                assert(r[j] == rows[j + 1]);
                assert(rows[i].id < rows[j + 1].id);
            }
            assert(sorted_by_id(r)) by {
                assert forall|a: int, b: int| 0 <= a < b < r.len() implies r[a].id < r[b].id by {
                    let a2 = if a < i { a } else { a + 1 };
                    let b2 = if b < i { b } else { b + 1 };
                    assert(r[a] == rows[a2]);
                    assert(r[b] == rows[b2]);
                }
            }
            lemma_first_after_unique(r, id, i);
            if i > 0 {
                assert(r[i - 1] == rows[i - 1]);
                assert(rows[i - 1].id < rows[i].id);
            }
            assert(position(r, id) is None);
        },
        None => {},
    }
}

proof fn lemma_skip_from_same_ids(a: Seq<StorageView>, b: Seq<StorageView>, from: ID, i: int)
    requires
        a.len() == b.len(),
        forall|j: int| 0 <= j < a.len() ==> a[j].id == b[j].id,
    ensures
        skip_from(a, from, i) == skip_from(b, from, i),
    decreases a.len() - i,
{
    if 0 <= i < a.len() && a[i].id <= from {
        lemma_skip_from_same_ids(a, b, from, i + 1);
    }
}

/// An update replaces the name and settings of the row wholesale: reading
/// the row afterwards gives exactly the new values, and the row keeps its
/// id and place.
pub proof fn lemma_update_replaces(
    rows: Seq<StorageView>,
    id: ID,
    name: Seq<char>,
    settings: SettingsView,
)
    requires
        sorted_by_id(rows),
        lookup(rows, id) is Some,
    ensures
        lookup(updated(rows, id, name, settings), id) == Some(row_of(id, name, settings)),
        sorted_by_id(updated(rows, id, name, settings)),
{
    let i = position(rows, id)->Some_0;
    let u = updated(rows, id, name, settings);
    assert(u == rows.update(i, row_of(id, name, settings)));
    assert forall|j: int| 0 <= j < u.len() implies u[j].id == rows[j].id by {}
    lemma_skip_from_same_ids(u, rows, id, 0);
    assert(position(u, id) == Some(i));
}

/// A row inserted under a free id can be read back, and the rows stay in
/// ascending id order.
pub proof fn lemma_insert_then_lookup(rows: Seq<StorageView>, row: StorageView)
    requires
        sorted_by_id(rows),
        lookup(rows, row.id) is None,
    ensures
        sorted_by_id(inserted(rows, row)),
        lookup(inserted(rows, row), row.id) == Some(row),
{
    lemma_first_after(rows, row.id);
    let k = first_after(rows, row.id);
    let w = inserted(rows, row);
    assert(w == rows.insert(k, row));
    if k > 0 {
        assert(rows[k - 1].id != row.id);
    }
    assert forall|a: int, b: int| 0 <= a < b < w.len() implies w[a].id < w[b].id by {
        if a < k && b > k {
            assert(w[a] == rows[a] && w[b] == rows[b - 1]);
        } else if a == k {
            assert(w[b] == rows[b - 1]);
        } else if b == k {
            assert(w[a] == rows[a]);
            if a < k - 1 {
                assert(rows[a].id < rows[k - 1].id);
            }
        } else if b < k {
            assert(w[a] == rows[a] && w[b] == rows[b]);
        } else {
            assert(w[a] == rows[a - 1] && w[b] == rows[b - 1]);
        }
    }
    assert forall|j: int| 0 <= j < k + 1 implies #[trigger] w[j].id <= row.id by {
        if j < k {
            assert(w[j] == rows[j]);
        }
    }
    assert forall|j: int| k + 1 <= j < w.len() implies #[trigger] w[j].id > row.id by {
        assert(w[j] == rows[j - 1]);
    }
    lemma_first_after_unique(w, row.id, k + 1);
}

/// A page of the given rows, with the cursor that follows them: present
/// exactly when the page is full, after its last row.
pub fn page_of(data: Vec<Storage>) -> (r: PaginatedData<Storage>)
    ensures
        r.data@ == data@,
        r.cursor == next_cursor(rows_view(data@)),
{
    let cursor = if data.len() == LIMIT {
        assert(data@[LIMIT - 1]@ == rows_view(data@)[LIMIT - 1]);
        Some(Cursor { last_id: Some(data[LIMIT - 1].id) })
    } else {
        None
    };
    PaginatedData { data, cursor }
}

/// A repository held in memory: the rows in a vector, in ascending id
/// order.
#[derive(Debug)]
pub struct MemoryRepository {
    rows: Vec<Storage>,
}

impl MemoryRepository {
    #[verifier::type_invariant]
    spec fn inv(&self) -> bool {
        sorted_by_id(rows_view(self.rows@))
    }

    /// An empty repository.
    pub fn new() -> (r: MemoryRepository)
        ensures
            r.rows() == Seq::<StorageView>::empty(),
            r.infallible(),
    {
        let r = MemoryRepository { rows: Vec::new() };
        assert(rows_view(r.rows@) =~= Seq::<StorageView>::empty());
        r
    }

    /// Index of the first row whose id is above `from`.
    fn find_start(&self, from: ID) -> (k: usize)
        ensures
            k == first_after(self.rows(), from),
            k <= self.rows@.len(),
    {
        proof {
            use_type_invariant(self);
        }
        let ghost v = self.rows();
        let n = self.rows.len();
        let mut i: usize = 0;
        while i < n && self.rows[i].id <= from
            invariant
                v == rows_view(self.rows@),
                n == self.rows@.len() == v.len(),
                i <= n,
                skip_from(v, from, i as int) == first_after(v, from),
            decreases n - i,
        {
            assert(v[i as int].id == self.rows@[i as int].id);
            i = i + 1;
        }
        proof {
            if i < n {
                assert(v[i as int].id == self.rows@[i as int].id);
            }
        }
        i
    }
}

impl Repository for MemoryRepository {
    closed spec fn rows(&self) -> Seq<StorageView> {
        rows_view(self.rows@)
    }

    open spec fn infallible(&self) -> bool {
        true
    }

    fn insert(&mut self, dto: &InsertDTO) -> (r: Result<(), String>) {
        proof {
            use_type_invariant(&*self);
        }
        let ghost v = self.rows();
        proof {
            lemma_first_after(v, dto.id);
        }
        let k = self.find_start(dto.id);
        if k > 0 && self.rows[k - 1].id == dto.id {
            assert(position(v, dto.id) == Some(k - 1));
            return Err(String::from_str("a storage with this id already exists"));
        }
        let row = Storage { id: dto.id, name: dto.name.duplicate(), settings: dto.settings.duplicate() };
        proof {
            if k > 0 {
                assert(v[k - 1].id == self.rows@[k - 1].id);
            }
        }
        let mut rows: Vec<Storage> = Vec::new();
        std::mem::swap(&mut rows, &mut self.rows);
        rows.insert(k, row);
        assert(rows_view(rows@) =~= v.insert(k as int, row_of(dto.id, dto.name@, dto.settings@)));
        proof {
            lemma_insert_then_lookup(v, row_of(dto.id, dto.name@, dto.settings@));
        }
        self.rows = rows;
        Ok(())
    }

    fn list(&self, from: Option<ID>) -> (r: Result<PaginatedData<Storage>, String>) {
        proof {
            use_type_invariant(self);
        }
        let ghost v = self.rows();
        let n = self.rows.len();
        let start = match from {
            None => 0,
            Some(f) => {
                proof {
                    lemma_first_after(v, f);
                }
                self.find_start(f)
            },
        };
        let end = if LIMIT < n - start {
            start + LIMIT
        } else {
            n
        };
        let mut data: Vec<Storage> = Vec::new();
        let mut i = start;
        while i < end
            invariant
                v == rows_view(self.rows@),
                start <= i <= end <= n == v.len(),
                rows_view(data@) == v.subrange(start as int, i as int),
            decreases end - i,
        {
            let row = self.rows[i].duplicate();
            let ghost before = data@;
            assert(row@ == v[i as int]);
            data.push(row);
            assert(rows_view(data@) =~= rows_view(before).push(v[i as int]));
            assert(rows_view(data@) =~= v.subrange(start as int, i + 1));
            i = i + 1;
        }
        Ok(page_of(data))
    }

    fn get(&self, id: ID) -> (r: Result<Option<Storage>, String>) {
        proof {
            use_type_invariant(self);
        }
        let ghost v = self.rows();
        proof {
            lemma_first_after(v, id);
        }
        let k = self.find_start(id);
        if k > 0 && self.rows[k - 1].id == id {
            Ok(Some(self.rows[k - 1].duplicate()))
        } else {
            Ok(None)
        }
    }

    fn update(&mut self, id: ID, dto: &UpdateDTO) -> (r: Result<Option<Storage>, String>) {
        proof {
            use_type_invariant(&*self);
        }
        let ghost v = self.rows();
        proof {
            lemma_first_after(v, id);
        }
        let k = self.find_start(id);
        if k > 0 && self.rows[k - 1].id == id {
            let row = Storage { id, name: dto.name.duplicate(), settings: dto.settings.duplicate() };
            let copy = row.duplicate();
            let mut rows: Vec<Storage> = Vec::new();
            std::mem::swap(&mut rows, &mut self.rows);
            rows.set(k - 1, row);
            assert(rows_view(rows@) =~= v.update(k - 1, row_of(id, dto.name@, dto.settings@)));
            proof {
                lemma_update_replaces(v, id, dto.name@, dto.settings@);
            }
            self.rows = rows;
            Ok(Some(copy))
        } else {
            Ok(None)
        }
    }

    fn delete(&mut self, id: ID) -> (r: Result<(), String>) {
        proof {
            use_type_invariant(&*self);
        }
        let ghost v = self.rows();
        proof {
            lemma_first_after(v, id);
        }
        let k = self.find_start(id);
        if k > 0 && self.rows[k - 1].id == id {
            let mut rows: Vec<Storage> = Vec::new();
            std::mem::swap(&mut rows, &mut self.rows);
            rows.remove(k - 1);
            assert(rows_view(rows@) =~= v.remove(k - 1));
            proof {
                let w = v.remove(k - 1);
                assert forall|a: int, b: int| 0 <= a < b < w.len() implies w[a].id < w[b].id by {
                    let a2 = if a < k - 1 { a } else { a + 1 };
                    let b2 = if b < k - 1 { b } else { b + 1 };
                    assert(w[a] == v[a2]);
                    assert(w[b] == v[b2]);
                }
            }
            self.rows = rows;
        }
        Ok(())
    }
}

} // verus!
