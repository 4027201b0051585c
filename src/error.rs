//! The error kinds of the note store, and how a storage message is sorted
//! into them.

use vstd::prelude::*;
use vstd::string::*;

verus! {

/// Why a store operation failed.
#[derive(Debug)]
pub enum NoteError {
    /// Another note already has the requested title.
    DuplicateTitle,
    /// Any other storage fault, with its cause in words.
    StorageError(String),
}

/// The operation failed because the title was taken.
pub open spec fn duplicate_title<T>(r: Result<T, NoteError>) -> bool {
    r matches Err(e) && e is DuplicateTitle
}

/// The operation failed with a storage fault.
pub open spec fn storage_fault<T>(r: Result<T, NoteError>) -> bool {
    r matches Err(e) && e is StorageError
}

/// `needle` occurs in `text` starting at position `i`.
pub open spec fn occurs_at(text: Seq<char>, needle: Seq<char>, i: int) -> bool {
    0 <= i && i + needle.len() <= text.len() && text.subrange(i, i + needle.len()) == needle
}

/// `needle` occurs somewhere in `text`.
pub open spec fn has_substring(text: Seq<char>, needle: Seq<char>) -> bool {
    exists|i: int| occurs_at(text, needle, i)
}

/// The marker by which the database reports a broken unique key.
pub open spec fn duplicate_marker() -> Seq<char> {
    "Duplicate entry"@
}

/// How the database names the unique key on the title, with and without
/// the table's name in front.
pub open spec fn title_key_markers() -> (Seq<char>, Seq<char>) {
    ("for key 'title'"@, "for key 'notes.title'"@)
}

/// The message reports a duplicate on the title key, not on another one.
pub open spec fn reports_duplicate_title(msg: Seq<char>) -> bool {
    &&& has_substring(msg, duplicate_marker())
    &&& (has_substring(msg, title_key_markers().0) || has_substring(msg, title_key_markers().1))
}

/// Whether `needle` occurs in `text` at position `i`, character by character.
fn matches_at(text: &str, needle: &str, i: usize, text_len: usize, needle_len: usize) -> (r: bool)
    requires
        text_len == text@.len(),
        needle_len == needle@.len(),
        i + needle_len <= text_len,
    ensures
        r == occurs_at(text@, needle@, i as int),
{
    let mut j: usize = 0;
    while j < needle_len
        invariant
            text_len == text@.len(),
            needle_len == needle@.len(),
            i + needle_len <= text_len,
            j <= needle_len,
            forall|k: int| 0 <= k < j ==> text@[i + k] == needle@[k],
        decreases needle_len - j,
    {
        if text.get_char(i + j) != needle.get_char(j) {
            assert(text@.subrange(i as int, i + needle_len)[j as int] != needle@[j as int]);
            return false;
        }
        j = j + 1;
    }
    assert(text@.subrange(i as int, i + needle_len) =~= needle@);
    true
}

/// Whether `needle` occurs anywhere in `text`.
pub fn contains_text(text: &str, needle: &str) -> (r: bool)
    ensures
        r == has_substring(text@, needle@),
{
    let text_len = text.unicode_len();
    let needle_len = needle.unicode_len();
    if needle_len > text_len {
        return false;
    }
    let last = text_len - needle_len;
    let mut i: usize = 0;
    loop
        invariant
            text_len == text@.len(),
            needle_len == needle@.len(),
            last == text_len - needle_len,
            i <= last,
            forall|k: int| 0 <= k < i ==> !occurs_at(text@, needle@, k),
        ensures
            forall|k: int| 0 <= k <= last ==> !occurs_at(text@, needle@, k),
        decreases last - i,
    {
        if matches_at(text, needle, i, text_len, needle_len) {
            return true;
        }
        if i == last {
            break;
        }
        i = i + 1;
    }
    assert forall|k: int| !occurs_at(text@, needle@, k) by {
        if 0 <= k <= last {
        }
    }
    false
}

/// Sorts the message of a failed insert: a broken unique key on the title
/// is `DuplicateTitle`; anything else, a duplicate on another key included,
/// is a `StorageError` carrying the message.
pub fn classify_insert_error(msg: &str) -> (r: NoteError)
    ensures
        r is DuplicateTitle <==> reports_duplicate_title(msg@),
        r matches NoteError::StorageError(cause) ==> cause@ == msg@,
{
    if contains_text(msg, "Duplicate entry") && (contains_text(msg, "for key 'title'")
        || contains_text(msg, "for key 'notes.title'")) {
        NoteError::DuplicateTitle
    } else {
        NoteError::StorageError(msg.to_owned())
    }
}

} // verus!
