//! The envelopes that go back to a client, and the two request-level
//! operations that produce them from the store.

use vstd::prelude::*;
use vstd::string::*;
use crate::error::{duplicate_title, storage_fault, NoteError};
use crate::model::{category_or_empty, filter_db_record, shows, CreateNoteSchema, NoteModel, NoteModelResponse};
use crate::pagination::{requested_limit, requested_offset, FilterOptions};
use crate::ids::is_v4_id;
use crate::store::{created, list_outcome, title_taken, NoteStore};

verus! {

/// HTTP status of a title conflict.
pub const CONFLICT: u16 = 409;

/// HTTP status of a server fault.
pub const INTERNAL_SERVER_ERROR: u16 = 500;

/// `{status: "success", results, notes}` for a list request.
#[derive(Debug)]
pub struct NoteListResponse {
    pub status: String,
    pub results: usize,
    pub notes: Vec<NoteModelResponse>,
}

/// `{status: "success", data: {note}}` for a create request.
#[derive(Debug)]
pub struct CreateNoteResponse {
    pub status: String,
    pub note: NoteModelResponse,
}

/// `{status, message}` sent with an HTTP error status.
#[derive(Debug)]
pub struct ErrorResponse {
    pub code: u16,
    pub status: String,
    pub message: String,
}

/// The message sent back for a title conflict.
pub open spec fn duplicate_message() -> Seq<char> {
    "Note with that title already exists"@
}

/// The views in `notes` show the rows in `rows`, one for one and in order.
pub open spec fn shows_all(notes: Seq<NoteModelResponse>, rows: Seq<NoteModel>) -> bool {
    &&& notes.len() == rows.len()
    &&& forall|i: int| 0 <= i < rows.len() ==> shows(#[trigger] notes[i], rows[i])
}

/// Shapes the rows of a scan into the list envelope.
pub fn list_response(rows: &Vec<NoteModel>) -> (r: NoteListResponse)
    requires
        forall|i: int| 0 <= i < rows@.len() ==> (#[trigger] rows@[i]).complete(),
    ensures
        r.status@ == "success"@,
        r.results == rows@.len(),
        shows_all(r.notes@, rows@),
{
    let mut notes: Vec<NoteModelResponse> = Vec::new();
    let mut i: usize = 0;
    while i < rows.len()
        invariant
            i <= rows@.len(),
            forall|k: int| 0 <= k < rows@.len() ==> (#[trigger] rows@[k]).complete(),
            notes@.len() == i,
            forall|k: int| 0 <= k < i ==> shows(#[trigger] notes@[k], rows@[k]),
        decreases rows@.len() - i,
    {
        notes.push(filter_db_record(&rows[i]));
        i = i + 1;
    }
    NoteListResponse { status: "success".to_owned(), results: notes.len(), notes }
}

/// Shapes a created row into the create envelope.
pub fn create_response(row: &NoteModel) -> (r: CreateNoteResponse)
    requires
        row.complete(),
    ensures
        r.status@ == "success"@,
        shows(r.note, *row),
{
    CreateNoteResponse { status: "success".to_owned(), note: filter_db_record(row) }
}

/// The error envelope: a title conflict is a 409 that says so, any other
/// fault a 500 that carries its cause.
pub fn error_response(e: &NoteError) -> (r: ErrorResponse)
    ensures
        e is DuplicateTitle ==> r.code == CONFLICT && r.status@ == "fail"@ && r.message@
            == duplicate_message(),
        e matches NoteError::StorageError(cause) ==> r.code == INTERNAL_SERVER_ERROR
            && r.status@ == "error"@ && r.message@ == cause@,
{
    match e {
        NoteError::DuplicateTitle => ErrorResponse {
            code: CONFLICT,
            status: "fail".to_owned(),
            message: "Note with that title already exists".to_owned(),
        },
        NoteError::StorageError(cause) => ErrorResponse {
            code: INTERNAL_SERVER_ERROR,
            status: "error".to_owned(),
            message: cause.clone(),
        },
    }
}

/// The prefix of the message sent back for a failed list scan.
pub open spec fn list_failure_prefix() -> Seq<char> {
    "Database error: "@
}

/// The error envelope of a failed list scan: a 500 with status "fail" and
/// the cause after `Database error: `.
pub fn list_failure_response(cause: &str) -> (r: ErrorResponse)
    ensures
        r.code == INTERNAL_SERVER_ERROR,
        r.status@ == "fail"@,
        r.message@ == list_failure_prefix() + cause@,
{
    ErrorResponse {
        code: INTERNAL_SERVER_ERROR,
        status: "fail".to_owned(),
        message: "Database error: ".to_owned().concat(cause),
    }
}

/// Serves a list request: resolves the page, scans the table and shapes
/// the rows. Fails, with a storage error, exactly when the window is negative.
pub fn list_notes(store: &NoteStore, opts: &FilterOptions) -> (r: Result<NoteListResponse, NoteError>)
    requires
        store.wf(),
    ensures
        r is Ok <==> list_outcome(store@, requested_limit(*opts), requested_offset(*opts)) is Some,
        r is Err ==> storage_fault(r),
        r matches Ok(resp) ==> resp.status@ == "success"@ && shows_all(
            resp.notes@,
            list_outcome(store@, requested_limit(*opts), requested_offset(*opts))->0,
        ) && resp.results == resp.notes@.len(),
{
    let page = opts.pagination();
    match store.list(page.limit, page.offset) {
        Ok(rows) => {
            proof {
                assert forall|i: int| 0 <= i < rows@.len() implies (#[trigger] rows@[i]).complete() by {
                    let off = page.offset as int;
                    assert(rows@[i] == store@[off + i]);
                }
            }
            Ok(list_response(&rows))
        },
        Err(e) => Err(e),
    }
}

/// Serves a create request at time `now`: creates the note and shapes it.
/// A taken title gives `DuplicateTitle` and leaves the table unchanged.
pub fn create_note(store: &mut NoteStore, body: &CreateNoteSchema, now: i64) -> (r: Result<
    CreateNoteResponse,
    NoteError,
>)
    requires
        old(store).wf(),
    ensures
        final(store).wf(),
        duplicate_title(r) <==> title_taken(old(store)@, body.title@),
        !title_taken(old(store)@, body.title@) && old(store)@.len() == 0 ==> r is Ok,
        storage_fault(r) ==> exists|i: int|
            0 <= i < old(store)@.len() && is_v4_id(#[trigger] old(store)@[i].id),
        r is Err ==> final(store)@ == old(store)@,
        r matches Ok(resp) ==> resp.status@ == "success"@ && exists|row: NoteModel|
            created(old(store)@, final(store)@, *body, now, row) && shows(resp.note, row),
        r matches Ok(resp) ==> resp.note.title@ == body.title@ && resp.note.content@ == body.content@
            && resp.note.category@ == category_or_empty(body.category) && !resp.note.published,
        body.category is None ==> (r matches Ok(resp) ==> resp.note.category@ == Seq::<char>::empty()),
{
    match store.create(body, now) {
        Ok(row) => Ok(create_response(&row)),
        Err(e) => Err(e),
    }
}

} // verus!
