use notes_api::error::{classify_insert_error, contains_text, NoteError};
use notes_api::model::{filter_db_record, CreateNoteSchema, NewNote, NoteModel};
use notes_api::pagination::{FilterOptions, DEFAULT_LIMIT};
use notes_api::response::{
    create_note, create_response, error_response, list_failure_response, list_notes, list_response,
};
use notes_api::store::NoteStore;

fn body(title: &str, content: &str, category: Option<&str>) -> CreateNoteSchema {
    CreateNoteSchema {
        title: title.to_string(),
        content: content.to_string(),
        category: category.map(|c| c.to_string()),
    }
}

fn page(page: i64, limit: i64) -> FilterOptions {
    FilterOptions { page: Some(page), limit: Some(limit) }
}

fn titles(store: &NoteStore, opts: &FilterOptions) -> Vec<String> {
    list_notes(store, opts).unwrap().notes.into_iter().map(|n| n.title).collect()
}

#[test]
fn pagination_defaults() {
    let p = FilterOptions { page: None, limit: None }.pagination();
    assert_eq!(DEFAULT_LIMIT, 10);
    assert_eq!(p.limit, 10);
    assert_eq!(p.offset, 0);
}

#[test]
fn pagination_offset_of_later_page() {
    let p = page(3, 5).pagination();
    assert_eq!(p.limit, 5);
    assert_eq!(p.offset, 10);
    let p = FilterOptions { page: Some(4), limit: None }.pagination();
    assert_eq!(p.offset, 30);
}

#[test]
fn pagination_page_zero_gives_negative_offset() {
    let p = page(0, 10).pagination();
    assert_eq!(p.offset, -10);
    let p = page(i64::MIN, i64::MAX).pagination();
    assert_eq!(p.offset, (i64::MIN as i128 - 1) * i64::MAX as i128);
}

#[test]
fn empty_table_lists_nothing() {
    let store = NoteStore::new();
    let resp = list_notes(&store, &page(1, 10)).unwrap();
    assert_eq!(resp.status, "success");
    assert_eq!(resp.results, 0);
    assert!(resp.notes.is_empty());
}

#[test]
fn duplicate_title_scenario() {
    let mut store = NoteStore::new();
    assert!(create_note(&mut store, &body("A", "B", None), 100).is_ok());
    let second = create_note(&mut store, &body("A", "C", None), 200);
    assert!(matches!(second, Err(NoteError::DuplicateTitle)));
    let resp = list_notes(&store, &page(1, 10)).unwrap();
    assert_eq!(resp.results, 1);
    assert_eq!(resp.notes[0].title, "A");
    assert_eq!(resp.notes[0].content, "B");
}

#[test]
fn duplicate_title_leaves_existing_row() {
    let mut store = NoteStore::new();
    let first = create_note(&mut store, &body("A", "B", Some("work")), 100).unwrap();
    let err = create_note(&mut store, &body("A", "other", Some("home")), 200).unwrap_err();
    assert!(matches!(err, NoteError::DuplicateTitle));
    assert_eq!(store.len(), 1);
    let listed = list_notes(&store, &page(1, 10)).unwrap();
    let note = &listed.notes[0];
    assert_eq!(note.id, first.note.id);
    assert_eq!(note.content, "B");
    assert_eq!(note.category, "work");
    assert_eq!(note.created_at, 100);
    assert_eq!(note.updated_at, 100);
}

#[test]
fn created_note_round_trips_through_list() {
    let mut store = NoteStore::new();
    create_note(&mut store, &body("first", "one", None), 1).unwrap();
    let made = create_note(&mut store, &body("second", "two", Some("misc")), 2).unwrap();
    create_note(&mut store, &body("third", "three", None), 3).unwrap();
    assert_eq!(made.status, "success");
    let resp = list_notes(&store, &page(1, 100)).unwrap();
    assert_eq!(resp.results, 3);
    let found = resp.notes.iter().find(|n| n.id == made.note.id).unwrap();
    assert_eq!(found.title, "second");
    assert_eq!(found.content, "two");
    assert_eq!(found.category, "misc");
    assert!(!found.published);
    assert_eq!(found.created_at, 2);
}

#[test]
fn omitted_category_is_empty() {
    let mut store = NoteStore::new();
    let made = create_note(&mut store, &body("t", "c", None), 5).unwrap();
    assert_eq!(made.note.category, "");
    let row = store.list(10, 0).unwrap();
    assert_eq!(row[0].category.as_deref(), Some(""));
}

#[test]
fn pages_are_windows_in_ascending_id_order() {
    let mut store = NoteStore::new();
    for i in 0..7 {
        create_note(&mut store, &body(&format!("n{}", i), "x", None), i).unwrap();
    }
    let all = store.list(100, 0).unwrap();
    assert_eq!(all.len(), 7);
    for w in all.windows(2) {
        assert!(w[0].id < w[1].id);
    }
    let second = store.list(3, 3).unwrap();
    assert_eq!(second.len(), 3);
    for k in 0..3 {
        assert_eq!(second[k].id, all[3 + k].id);
    }
    let resp = list_notes(&store, &page(3, 3)).unwrap();
    assert_eq!(resp.results, 1);
    assert_eq!(resp.notes[0].title, all[6].title);
    let resp = list_notes(&store, &page(4, 3)).unwrap();
    assert_eq!(resp.results, 0);
}

#[test]
fn repeated_list_is_identical() {
    let mut store = NoteStore::new();
    for i in 0..4 {
        create_note(&mut store, &body(&format!("k{}", i), "y", None), i).unwrap();
    }
    let a = titles(&store, &page(1, 3));
    let b = titles(&store, &page(1, 3));
    assert_eq!(a, b);
    assert_eq!(a.len(), 3);
}

#[test]
fn zero_limit_lists_nothing() {
    let mut store = NoteStore::new();
    create_note(&mut store, &body("a", "b", None), 0).unwrap();
    assert_eq!(list_notes(&store, &page(1, 0)).unwrap().results, 0);
    assert_eq!(store.list(0, 0).unwrap().len(), 0);
    assert_eq!(store.list(5, 9).unwrap().len(), 0);
}

#[test]
fn negative_window_is_storage_error() {
    let store = NoteStore::new();
    assert!(matches!(list_notes(&store, &page(0, 10)), Err(NoteError::StorageError(_))));
    assert!(matches!(list_notes(&store, &page(1, -1)), Err(NoteError::StorageError(_))));
    assert!(matches!(store.list(-1, 0), Err(NoteError::StorageError(_))));
}

#[test]
fn insert_with_taken_id_is_storage_error() {
    let mut store = NoteStore::new();
    let new = NewNote { id: 7, title: "a".to_string(), content: "b".to_string(), category: String::new() };
    let row = store.insert(new, 1).unwrap();
    assert_eq!(row.id, 7);
    assert_eq!(row.published, 0);
    let again = NewNote { id: 7, title: "z".to_string(), content: "b".to_string(), category: String::new() };
    assert!(matches!(store.insert(again, 2), Err(NoteError::StorageError(_))));
    let dup = NewNote { id: 8, title: "a".to_string(), content: "q".to_string(), category: String::new() };
    assert!(matches!(store.insert(dup, 3), Err(NoteError::DuplicateTitle)));
    assert_eq!(store.len(), 1);
    assert!(store.find_by_id(7).is_some());
    assert!(store.find_by_id(8).is_none());
}

#[test]
fn insert_keeps_ids_sorted() {
    let mut store = NoteStore::new();
    for (id, t) in [(50u128, "c"), (10, "a"), (30, "b"), (70, "d")] {
        let new = NewNote { id, title: t.to_string(), content: String::new(), category: String::new() };
        store.insert(new, 0).unwrap();
    }
    let ids: Vec<u128> = store.list(10, 0).unwrap().iter().map(|r| r.id).collect();
    assert_eq!(ids, vec![10, 30, 50, 70]);
}

#[test]
fn new_note_has_version_four_id() {
    let new = NewNote::from_request(&body("t", "c", Some("k")));
    assert_eq!((new.id >> 76) & 0xf, 4);
    assert_eq!((new.id >> 62) & 0x3, 2);
    assert_eq!(new.category, "k");
    let other = NewNote::from_request(&body("t", "c", None));
    assert_ne!(new.id, other.id);
    assert_eq!(other.category, "");
}

#[test]
fn record_shows_id_as_uuid_text() {
    let note = NoteModel {
        id: 0xa1a2a3a4b1b2c1c2d1d2d3d4d5d6d7d8,
        title: "T".to_string(),
        content: "C".to_string(),
        category: Some("K".to_string()),
        published: 2,
        created_at: Some(11),
        updated_at: Some(12),
    };
    let view = filter_db_record(&note);
    assert_eq!(view.id, "a1a2a3a4-b1b2-c1c2-d1d2-d3d4d5d6d7d8");
    assert_eq!(view.title, "T");
    assert_eq!(view.category, "K");
    assert!(view.published);
    assert_eq!(view.created_at, 11);
    assert_eq!(view.updated_at, 12);
    let created = create_response(&note);
    assert_eq!(created.status, "success");
    assert_eq!(created.note.content, "C");
}

#[test]
fn unpublished_flag_is_false() {
    let note = NoteModel {
        id: 1,
        title: "T".to_string(),
        content: "C".to_string(),
        category: Some(String::new()),
        published: 0,
        created_at: Some(0),
        updated_at: Some(0),
    };
    let resp = list_response(&vec![note]);
    assert_eq!(resp.results, 1);
    assert!(!resp.notes[0].published);
    assert_eq!(resp.notes[0].id, "00000000-0000-0000-0000-000000000001");
}

#[test]
fn classify_duplicate_entry() {
    let e = classify_insert_error("error returned from database: 1062 (23000): Duplicate entry 'A' for key 'notes.title'");
    assert!(matches!(e, NoteError::DuplicateTitle));
}

#[test]
fn classify_other_fault() {
    match classify_insert_error("pool timed out while waiting for an open connection") {
        NoteError::StorageError(cause) => {
            assert_eq!(cause, "pool timed out while waiting for an open connection")
        }
        NoteError::DuplicateTitle => panic!("not a duplicate"),
    }
    assert!(matches!(classify_insert_error("Duplicate"), NoteError::StorageError(_)));
    assert!(matches!(classify_insert_error(""), NoteError::StorageError(_)));
}

#[test]
fn substring_search_edges() {
    assert!(contains_text("abc", ""));
    assert!(contains_text("", ""));
    assert!(!contains_text("", "a"));
    assert!(contains_text("xxDuplicate entry", "Duplicate entry"));
    assert!(contains_text("été à", "é à"));
    assert!(!contains_text("abab", "abb"));
}

#[test]
fn error_envelopes() {
    let conflict = error_response(&NoteError::DuplicateTitle);
    assert_eq!(conflict.code, 409);
    assert_eq!(conflict.status, "fail");
    assert_eq!(conflict.message, "Note with that title already exists");
    let fault = error_response(&NoteError::StorageError("disk gone".to_string()));
    assert_eq!(fault.code, 500);
    assert_eq!(fault.status, "error");
    assert_eq!(fault.message, "disk gone");
}

#[test]
fn scan_bounds_of_windows() {
    assert_eq!(page(2, 5).pagination().scan_bounds(), Some((5, 5)));
    assert_eq!(page(0, 5).pagination().scan_bounds(), None);
    assert_eq!(page(1, -3).pagination().scan_bounds(), None);
    assert_eq!(page(i64::MAX, i64::MAX).pagination().scan_bounds(), Some((i64::MAX as u64, u64::MAX)));
}

#[test]
fn classify_duplicate_on_bare_title_key() {
    let e = classify_insert_error("Duplicate entry 'A' for key 'title'");
    assert!(matches!(e, NoteError::DuplicateTitle));
}

#[test]
fn classify_duplicate_primary_key_is_storage_error() {
    let msg = "error returned from database: 1062 (23000): Duplicate entry '0b4e1a4c-3f5d-4c7e-9a2b-1d2e3f405162' for key 'notes.PRIMARY'";
    match classify_insert_error(msg) {
        NoteError::StorageError(cause) => assert_eq!(cause, msg),
        NoteError::DuplicateTitle => panic!("a primary-key duplicate is not a title conflict"),
    }
    let resp = error_response(&classify_insert_error("Duplicate entry 'x' for key 'PRIMARY'"));
    assert_eq!(resp.code, 500);
    assert_eq!(resp.status, "error");
}

#[test]
fn list_failure_envelope() {
    let r = list_failure_response("connection refused");
    assert_eq!(r.code, 500);
    assert_eq!(r.status, "fail");
    assert_eq!(r.message, "Database error: connection refused");
}

#[test]
fn create_on_empty_table_succeeds() {
    let mut store = NoteStore::new();
    let made = create_note(&mut store, &body("A", "B", None), 9).unwrap();
    assert_eq!(made.status, "success");
    assert_eq!(made.note.title, "A");
    assert_eq!(made.note.content, "B");
    assert_eq!(made.note.category, "");
    assert!(!made.note.published);
    assert_eq!(made.note.id.len(), 36);
    assert_eq!(store.len(), 1);
}
