//! The notes table: rows in ascending id order, titles unique, every row
//! written with its defaults filled in.

use vstd::prelude::*;
use crate::error::{duplicate_title, storage_fault, NoteError};
use crate::ids::is_v4_id;
use crate::model::{category_or_empty, CreateNoteSchema, NewNote, NoteModel};
use crate::pagination::Pagination;

verus! {

/// Every row's id is below the ids of the rows after it.
pub open spec fn ids_ascending(rows: Seq<NoteModel>) -> bool {
    forall|i: int, j: int| 0 <= i < j < rows.len() ==> #[trigger] rows[i].id < #[trigger] rows[j].id
}

/// No two rows share a title.
pub open spec fn titles_distinct(rows: Seq<NoteModel>) -> bool {
    forall|i: int, j: int|
        0 <= i < rows.len() && 0 <= j < rows.len() && i != j ==> #[trigger] rows[i].title@
            != #[trigger] rows[j].title@
}

/// What the table guarantees of its rows.
pub open spec fn well_formed_rows(rows: Seq<NoteModel>) -> bool {
    &&& ids_ascending(rows)
    &&& titles_distinct(rows)
    &&& forall|i: int| 0 <= i < rows.len() ==> (#[trigger] rows[i]).complete()
}

/// Some row has this title.
pub open spec fn title_taken(rows: Seq<NoteModel>, title: Seq<char>) -> bool {
    exists|i: int| 0 <= i < rows.len() && (#[trigger] rows[i]).title@ == title
}

/// Some row has this id.
pub open spec fn id_taken(rows: Seq<NoteModel>, id: u128) -> bool {
    exists|i: int| 0 <= i < rows.len() && (#[trigger] rows[i]).id == id
}

/// `after` is `before` with `row` added and nothing else changed.
pub open spec fn adds_row(before: Seq<NoteModel>, after: Seq<NoteModel>, row: NoteModel) -> bool {
    &&& after.len() == before.len() + 1
    &&& forall|x: NoteModel| after.contains(x) <==> (before.contains(x) || x == row)
}

/// The rows of a scan that skips `offset` rows and keeps at most `limit`.
pub open spec fn page_of(rows: Seq<NoteModel>, limit: int, offset: int) -> Seq<NoteModel> {
    if offset >= rows.len() {
        Seq::empty()
    } else if offset + limit >= rows.len() {
        rows.subrange(offset, rows.len() as int)
    } else {
        rows.subrange(offset, offset + limit)
    }
}

/// What a scan returns: `None` for a negative window, which the store refuses.
pub open spec fn list_outcome(rows: Seq<NoteModel>, limit: int, offset: int) -> Option<Seq<NoteModel>> {
    if limit < 0 || offset < 0 {
        None
    } else {
        Some(page_of(rows, limit, offset))
    }
}

/// The rows of a scan result, `None` for a failure.
pub open spec fn listed(r: Result<Vec<NoteModel>, NoteError>) -> Option<Seq<NoteModel>> {
    match r {
        Ok(v) => Some(v@),
        Err(_) => None,
    }
}

/// A create request with body `body` at time `now` made `row` and took the
/// table from `before` to `after`.
pub open spec fn created(
    before: Seq<NoteModel>,
    after: Seq<NoteModel>,
    body: CreateNoteSchema,
    now: i64,
    row: NoteModel,
) -> bool {
    &&& row.title@ == body.title@
    &&& row.content@ == body.content@
    &&& row.category matches Some(c) && c@ == category_or_empty(body.category)
    &&& row.published == 0
    &&& row.created_at == Some(now)
    &&& row.updated_at == Some(now)
    &&& !title_taken(before, body.title@)
    &&& !id_taken(before, row.id)
    &&& adds_row(before, after, row)
}

/// Putting `row` at `pos`, between the smaller and the larger ids, keeps
/// the rows well formed and adds exactly that row.
proof fn lemma_insert_sorted(before: Seq<NoteModel>, pos: int, row: NoteModel)
    requires
        well_formed_rows(before),
        0 <= pos <= before.len(),
        forall|k: int| 0 <= k < pos ==> before[k].id < row.id,
        forall|k: int| pos <= k < before.len() ==> before[k].id > row.id,
        !title_taken(before, row.title@),
        row.complete(),
    ensures
        well_formed_rows(before.insert(pos, row)),
        adds_row(before, before.insert(pos, row), row),
{
    let after = before.insert(pos, row);
    before.insert_ensures(pos, row);
    assert forall|x: NoteModel| after.contains(x) <==> (before.contains(x) || x == row) by {
        if after.contains(x) {
            let j = choose|j: int| 0 <= j < after.len() && after[j] == x;
            if j > pos {
                assert(before[j - 1] == x);
            }
        }
        if before.contains(x) {
            let j = choose|j: int| 0 <= j < before.len() && before[j] == x;
            if j >= pos {
                assert(after[j + 1] == x);
            } else {
                assert(after[j] == x);
            }
        }
        if x == row {
            assert(after[pos] == x);
        }
    }
    assert forall|i: int, j: int| 0 <= i < j < after.len() implies #[trigger] after[i].id
        < #[trigger] after[j].id by {
        if j < pos {
        } else if j == pos {
        } else if i < pos {
            assert(after[j] == before[j - 1]);
        } else if i == pos {
            assert(after[j] == before[j - 1]);
        } else {
            assert(after[i] == before[i - 1]);
            assert(after[j] == before[j - 1]);
        }
    }
    assert forall|i: int, j: int|
        0 <= i < after.len() && 0 <= j < after.len() && i != j implies #[trigger] after[i].title@
        != #[trigger] after[j].title@ by {
        if i != pos && j != pos {
            let bi = if i < pos { i } else { i - 1 };
            let bj = if j < pos { j } else { j - 1 };
            assert(after[i] == before[bi]);
            assert(after[j] == before[bj]);
        } else if i == pos {
            let bj = if j < pos { j } else { j - 1 };
            assert(after[j] == before[bj]);
        } else {
            let bi = if i < pos { i } else { i - 1 };
            assert(after[i] == before[bi]);
        }
    }
    assert forall|i: int| 0 <= i < after.len() implies (#[trigger] after[i]).complete() by {
        if i < pos {
        } else if i > pos {
            assert(after[i] == before[i - 1]);
        }
    }
}

/// A table of notes held in memory.
pub struct NoteStore {
    rows: Vec<NoteModel>,
}

impl View for NoteStore {
    type V = Seq<NoteModel>;

    closed spec fn view(&self) -> Seq<NoteModel> {
        self.rows@
    }
}

impl NoteStore {
    /// The table keeps its rows well formed.
    pub open spec fn wf(&self) -> bool {
        well_formed_rows(self@)
    }

    /// An empty table.
    pub fn new() -> (r: NoteStore)
        ensures
            r@ == Seq::<NoteModel>::empty(),
            r.wf(),
    {
        NoteStore { rows: Vec::new() }
    }

    /// The number of rows.
    pub fn len(&self) -> (r: usize)
        ensures
            r == self@.len(),
    {
        self.rows.len()
    }

    /// Scans the table in ascending id order, skipping `offset` rows and
    /// keeping at most `limit`. A negative window is a storage error.
    pub fn list(&self, limit: i64, offset: i128) -> (r: Result<Vec<NoteModel>, NoteError>)
        ensures
            listed(r) == list_outcome(self@, limit as int, offset as int),
            r is Err ==> storage_fault(r),
    {
        let (lim, off) = match (Pagination { limit, offset }).scan_bounds() {
            Some(bounds) => bounds,
            None => {
                return Err(
                    NoteError::StorageError("LIMIT and OFFSET must not be negative".to_owned()),
                );
            },
        };
        let n = self.rows.len();
        let mut out: Vec<NoteModel> = Vec::new();
        if off >= n as u64 {
            assert(out@ =~= page_of(self@, limit as int, offset as int));
            return Ok(out);
        }
        let start = off as usize;
        let end: usize = if lim < (n - start) as u64 {
            start + lim as usize
        } else {
            n
        };
        let mut i: usize = start;
        while i < end
            invariant
                start <= i <= end <= n,
                n == self.rows@.len(),
                out@ =~= self.rows@.subrange(start as int, i as int),
            decreases end - i,
        {
            out.push(self.rows[i].duplicate());
            i = i + 1;
        }
        assert(out@ =~= page_of(self@, limit as int, offset as int));
        Ok(out)
    }

    /// Looks a row up by its id.
    pub fn find_by_id(&self, id: u128) -> (r: Option<NoteModel>)
        ensures
            r is Some <==> id_taken(self@, id),
            r matches Some(row) ==> self@.contains(row) && row.id == id,
    {
        let n = self.rows.len();
        let mut i: usize = 0;
        while i < n
            invariant
                i <= n,
                n == self.rows@.len(),
                forall|k: int| 0 <= k < i ==> self.rows@[k].id != id,
            decreases n - i,
        {
            if self.rows[i].id == id {
                return Some(self.rows[i].duplicate());
            }
            i = i + 1;
        }
        None
    }

    /// Whether some row has this title.
    fn has_title(&self, title: &String) -> (r: bool)
        ensures
            r == title_taken(self@, title@),
    {
        let n = self.rows.len();
        let mut i: usize = 0;
        while i < n
            invariant
                i <= n,
                n == self.rows@.len(),
                forall|k: int| 0 <= k < i ==> self.rows@[k].title@ != title@,
            decreases n - i,
        {
            if self.rows[i].title == *title {
                return true;
            }
            i = i + 1;
        }
        false
    }

    /// Inserts the row for `new` at time `now`, unpublished. A title that is
    /// already taken gives `DuplicateTitle`; an id that is already taken a
    /// `StorageError`. A failed insert leaves the table as it was.
    pub fn insert(&mut self, new: NewNote, now: i64) -> (r: Result<NoteModel, NoteError>)
        requires
            old(self).wf(),
        ensures
            final(self).wf(),
            title_taken(old(self)@, new.title@) ==> duplicate_title(r),
            !title_taken(old(self)@, new.title@) && id_taken(old(self)@, new.id) ==> storage_fault(r),
            !title_taken(old(self)@, new.title@) && !id_taken(old(self)@, new.id) ==> (r matches Ok(
                row) && row == new.row_at(now) && adds_row(old(self)@, final(self)@, row)),
            r is Err ==> final(self)@ == old(self)@,
    {
        if self.has_title(&new.title) {
            return Err(NoteError::DuplicateTitle);
        }
        let n = self.rows.len();
        let mut pos: usize = 0;
        while pos < n && self.rows[pos].id < new.id
            invariant
                pos <= n,
                n == self.rows@.len(),
                forall|k: int| 0 <= k < pos ==> self.rows@[k].id < new.id,
            decreases n - pos,
        {
            pos = pos + 1;
        }
        if pos < n && self.rows[pos].id == new.id {
            return Err(NoteError::StorageError("a note with that id already exists".to_owned()));
        }
        let ghost before = self.rows@;
        proof {
            assert forall|k: int| pos <= k < n implies before[k].id > new.id by {
                if k > pos {
                    assert(before[pos as int].id < before[k].id);
                }
            }
            assert(!id_taken(before, new.id));
        }
        let row = NoteModel {
            id: new.id,
            title: new.title,
            content: new.content,
            category: Some(new.category),
            published: 0,
            created_at: Some(now),
            updated_at: Some(now),
        };
        let copy = row.duplicate();
        proof {
            lemma_insert_sorted(before, pos as int, copy);
        }
        self.rows.insert(pos, row);
        Ok(copy)
    }

    /// Creates a note from a request at time `now`: draws a fresh id, inserts
    /// the row and reads it back by that id. A taken title gives
    /// `DuplicateTitle` and leaves the table as it was; so does any other
    /// failure, reported as `StorageError`.
    pub fn create(&mut self, body: &CreateNoteSchema, now: i64) -> (r: Result<NoteModel, NoteError>)
        requires
            old(self).wf(),
        ensures
            final(self).wf(),
            duplicate_title(r) <==> title_taken(old(self)@, body.title@),
            !title_taken(old(self)@, body.title@) && old(self)@.len() == 0 ==> r is Ok,
            storage_fault(r) ==> exists|i: int|
                0 <= i < old(self)@.len() && is_v4_id(#[trigger] old(self)@[i].id),
            r is Err ==> final(self)@ == old(self)@,
            r matches Ok(row) ==> created(old(self)@, final(self)@, *body, now, row),
    {
        let new = NewNote::from_request(body);
        let id = new.id;
        let ghost new_view = new;
        match self.insert(new, now) {
            Err(e) => Err(e),
            Ok(inserted) => {
                proof {
                    assert(self@.contains(inserted));
                }
                match self.find_by_id(id) {
                    Some(row) => {
                        proof {
                            let i = choose|i: int| 0 <= i < self@.len() && self@[i] == row;
                            let j = choose|j: int| 0 <= j < self@.len() && self@[j] == inserted;
                            if i < j {
                                assert(self@[i].id < self@[j].id);
                            } else if j < i {
                                assert(self@[j].id < self@[i].id);
                            }
                        }
                        Ok(row)
                    },
                    None => {
                        proof {
                            let j = choose|j: int| 0 <= j < self@.len() && self@[j] == inserted;
                            assert(id_taken(self@, id));
                        }
                        Err(NoteError::StorageError("the new note could not be read back".to_owned()))
                    },
                }
            },
        }
    }
}

} // verus!
