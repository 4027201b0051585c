//! Properties that tie the store's operations together.

use vstd::prelude::*;
use crate::error::NoteError;
use crate::model::{category_or_empty, shows, CreateNoteSchema, NoteModel, NoteModelResponse};
use crate::pagination::{requested_limit, requested_offset, requested_page, FilterOptions};
use crate::store::{created, ids_ascending, list_outcome, listed, well_formed_rows};

verus! {

/// For a page and a limit of at least one, a list request succeeds with at
/// most `limit` notes, which are the rows at positions
/// `(page - 1) * limit` up to `page * limit` of the table, in ascending id
/// order.
pub proof fn lemma_page_window(rows: Seq<NoteModel>, opts: FilterOptions)
    requires
        well_formed_rows(rows),
        requested_page(opts) >= 1,
        requested_limit(opts) >= 1,
    ensures
        list_outcome(rows, requested_limit(opts), requested_offset(opts)) is Some,
        ({
            let page = list_outcome(rows, requested_limit(opts), requested_offset(opts))->0;
            &&& page.len() <= requested_limit(opts)
            &&& ids_ascending(page)
            &&& forall|k: int|
                0 <= k < page.len() ==> {
                    &&& (#[trigger] page[k]) == rows[requested_offset(opts) + k]
                    &&& requested_offset(opts) <= requested_offset(opts) + k
                        < requested_page(opts) * requested_limit(opts)
                }
        }),
{
    let p = requested_page(opts);
    let l = requested_limit(opts);
    assert((p - 1) * l >= 0) by (nonlinear_arith)
        requires
            p >= 1,
            l >= 1,
    ;
    assert((p - 1) * l + l == p * l) by (nonlinear_arith);
}

/// Two list requests with the same window against the same table return
/// the same rows in the same order, or both fail.
pub proof fn lemma_list_repeatable(
    first_table: Seq<NoteModel>,
    second_table: Seq<NoteModel>,
    limit: int,
    offset: int,
    first: Result<Vec<NoteModel>, NoteError>,
    second: Result<Vec<NoteModel>, NoteError>,
)
    requires
        first_table == second_table,
        listed(first) == list_outcome(first_table, limit, offset),
        listed(second) == list_outcome(second_table, limit, offset),
    ensures
        listed(first) == listed(second),
{
}

/// A note made by a create request is in a scan from the start whose limit
/// covers the table, and its client view has the request's title, content
/// and category, unpublished.
pub proof fn lemma_created_note_is_listed(
    before: Seq<NoteModel>,
    after: Seq<NoteModel>,
    body: CreateNoteSchema,
    now: i64,
    row: NoteModel,
    limit: int,
)
    requires
        created(before, after, body, now, row),
        limit >= after.len(),
    ensures
        list_outcome(after, limit, 0) matches Some(page) && page.contains(row),
        forall|view: NoteModelResponse|
            shows(view, row) ==> {
                &&& view.title@ == body.title@
                &&& view.content@ == body.content@
                &&& view.category@ == category_or_empty(body.category)
                &&& !view.published
            },
{
    assert(after.contains(row));
    assert(after.subrange(0, after.len() as int) =~= after);
}

} // verus!
