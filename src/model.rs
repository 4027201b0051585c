//! Notes as the table holds them, as a create request brings them, and as
//! they are shown to a client.

use vstd::prelude::*;
use crate::ids::{is_v4_id, new_note_id, note_id_text, uuid_text};

verus! {

/// A row of the notes table. The nullable columns are `Option`s; timestamps
/// are seconds since the Unix epoch, and `published` is the stored flag,
/// non-zero meaning true.
#[derive(Debug)]
pub struct NoteModel {
    pub id: u128,
    pub title: String,
    pub content: String,
    pub category: Option<String>,
    pub published: i8,
    pub created_at: Option<i64>,
    pub updated_at: Option<i64>,
}

/// A note as a client sees it: every field present, `published` a boolean.
#[derive(Debug)]
pub struct NoteModelResponse {
    pub id: String,
    pub title: String,
    pub content: String,
    pub category: String,
    pub published: bool,
    pub created_at: i64,
    pub updated_at: i64,
}

/// The body of a create request.
#[derive(Debug)]
pub struct CreateNoteSchema {
    pub title: String,
    pub content: String,
    pub category: Option<String>,
}

/// The values of a row about to be inserted: a fresh id and the request's
/// fields, with an absent category already made empty.
#[derive(Debug)]
pub struct NewNote {
    pub id: u128,
    pub title: String,
    pub content: String,
    pub category: String,
}

/// The category that a create request stores: the empty text when absent.
pub open spec fn category_or_empty(category: Option<String>) -> Seq<char> {
    match category {
        Some(c) => c@,
        None => Seq::empty(),
    }
}

impl NoteModel {
    /// The store filled in the columns that may be null in the table.
    pub open spec fn complete(&self) -> bool {
        &&& self.category is Some
        &&& self.created_at is Some
        &&& self.updated_at is Some
    }

    /// Whether the nullable columns all hold a value.
    pub fn is_complete(&self) -> (r: bool)
        ensures
            r == self.complete(),
    {
        self.category.is_some() && self.created_at.is_some() && self.updated_at.is_some()
    }

    /// A field-by-field copy of the row.
    pub fn duplicate(&self) -> (r: NoteModel)
        ensures
            r == *self,
    {
        let category = match &self.category {
            Some(c) => Some(c.clone()),
            None => None,
        };
        NoteModel {
            id: self.id,
            title: self.title.clone(),
            content: self.content.clone(),
            category,
            published: self.published,
            created_at: self.created_at,
            updated_at: self.updated_at,
        }
    }
}

impl NewNote {
    /// Takes a create request's fields and draws a fresh random id for it.
    pub fn from_request(body: &CreateNoteSchema) -> (r: NewNote)
        ensures
            r.title@ == body.title@,
            r.content@ == body.content@,
            r.category@ == category_or_empty(body.category),
            is_v4_id(r.id),
    {
        let category = match &body.category {
            Some(c) => c.clone(),
            None => String::new(),
        };
        NewNote {
            id: new_note_id(),
            title: body.title.clone(),
            content: body.content.clone(),
            category,
        }
    }

    /// The row that inserting these values at time `now` creates.
    pub open spec fn row_at(self, now: i64) -> NoteModel {
        NoteModel {
            id: self.id,
            title: self.title,
            content: self.content,
            category: Some(self.category),
            published: 0,
            created_at: Some(now),
            updated_at: Some(now),
        }
    }
}

/// The client view of a complete row, field by field.
pub open spec fn shows(view: NoteModelResponse, note: NoteModel) -> bool {
    &&& view.id@ == uuid_text(note.id)
    &&& view.title@ == note.title@
    &&& view.content@ == note.content@
    &&& view.category@ == note.category->0@
    &&& view.published == (note.published != 0)
    &&& view.created_at == note.created_at->0
    &&& view.updated_at == note.updated_at->0
}

/// Shapes a complete row into its client view.
pub fn filter_db_record(note: &NoteModel) -> (r: NoteModelResponse)
    requires
        note.complete(),
    ensures
        shows(r, *note),
{
    let category = match &note.category {
        Some(c) => c.clone(),
        None => String::new(),
    };
    let created_at = match note.created_at {
        Some(t) => t,
        None => 0,
    };
    let updated_at = match note.updated_at {
        Some(t) => t,
        None => 0,
    };
    NoteModelResponse {
        id: note_id_text(note.id),
        title: note.title.clone(),
        content: note.content.clone(),
        category,
        published: note.published != 0,
        created_at,
        updated_at,
    }
}

} // verus!
