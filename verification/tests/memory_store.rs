//! The in-process store, exercised through its public operations.

use qa_store::errors::StoreError;
use qa_store::memory::MemoryStore;
use qa_store::record::Question;

fn q(id: u128, text: &str, answer: Option<&str>, source: Option<&str>) -> Question {
    Question {
        id,
        text: text.to_string(),
        answer: answer.map(|a| a.to_string()),
        source: source.map(|s| s.to_string()),
    }
}

#[test]
fn round_trip_create_get() {
    let mut store = MemoryStore::new();
    let created = store.create(q(1, "How?", Some("ignored"), Some("book")));
    assert_eq!(created, Ok(1));
    let got = store.get(1).unwrap();
    assert_eq!(got, q(1, "How?", None, Some("book")));
}

#[test]
fn duplicate_create_reports_conflict_and_keeps_record() {
    let mut store = MemoryStore::new();
    assert_eq!(store.create(q(5, "First?", None, None)), Ok(5));
    assert_eq!(
        store.create(q(5, "Second?", None, Some("elsewhere"))),
        Err(StoreError::Conflict)
    );
    assert_eq!(store.get(5).unwrap(), q(5, "First?", None, None));
    assert_eq!(store.list().len(), 1);
}

#[test]
fn never_created_identifier_is_not_found_everywhere() {
    let mut store = MemoryStore::new();
    assert_eq!(store.get(9), Err(StoreError::NotFound));
    assert_eq!(
        store.replace(9, q(9, "Valid?", None, None)),
        Err(StoreError::NotFound)
    );
    assert_eq!(store.delete(9), Err(StoreError::NotFound));
    assert_eq!(
        store.set_answer(9, "text".to_string()),
        Err(StoreError::NotFound)
    );
}

#[test]
fn create_with_empty_text_is_invalid() {
    let mut store = MemoryStore::new();
    assert_eq!(store.create(q(2, "", None, None)), Err(StoreError::InvalidInput));
    assert_eq!(store.list().len(), 0);
}

#[test]
fn replace_with_empty_text_is_invalid() {
    let mut store = MemoryStore::new();
    assert_eq!(store.create(q(2, "Kept?", None, None)), Ok(2));
    assert_eq!(
        store.replace(2, q(2, "", None, None)),
        Err(StoreError::InvalidInput)
    );
    assert_eq!(store.get(2).unwrap(), q(2, "Kept?", None, None));
}

#[test]
fn answer_then_delete_scenario() {
    let mut store = MemoryStore::new();
    let x = store.create(q(7, "How?", None, None)).unwrap();
    assert_eq!(x, 7);
    assert_eq!(store.set_answer(x, "Like this.".to_string()), Ok(()));
    assert_eq!(store.get(x).unwrap(), q(7, "How?", Some("Like this."), None));
    assert_eq!(store.delete(x), Ok(()));
    assert_eq!(store.get(x), Err(StoreError::NotFound));
}

#[test]
fn replace_with_absent_answer_clears_it() {
    let mut store = MemoryStore::new();
    store.create(q(3, "Old?", None, None)).unwrap();
    store.set_answer(3, "answered".to_string()).unwrap();
    assert_eq!(store.replace(3, q(3, "New?", None, None)), Ok(()));
    assert_eq!(store.get(3).unwrap(), q(3, "New?", None, None));
}

#[test]
fn replace_keeps_the_identifier() {
    let mut store = MemoryStore::new();
    store.create(q(4, "Original?", None, None)).unwrap();
    assert_eq!(
        store.replace(4, q(999, "Renamed?", Some("yes"), None)),
        Ok(())
    );
    assert_eq!(store.get(4).unwrap(), q(4, "Renamed?", Some("yes"), None));
    assert_eq!(store.get(999), Err(StoreError::NotFound));
}

#[test]
fn linearized_answer_writes_leave_the_last_value() {
    let mut store = MemoryStore::new();
    store.create(q(6, "Race?", None, None)).unwrap();
    let texts = ["one", "two", "three", "four"];
    for t in texts {
        assert_eq!(store.set_answer(6, t.to_string()), Ok(()));
    }
    let got = store.get(6).unwrap();
    assert_eq!(got.answer.as_deref(), Some("four"));
    assert!(texts.contains(&got.answer.as_deref().unwrap()));
    assert_eq!(got.text, "Race?");
}

#[test]
fn list_returns_every_record_once() {
    let mut store = MemoryStore::new();
    store.create(q(1, "A?", None, None)).unwrap();
    store.create(q(2, "B?", None, None)).unwrap();
    store.create(q(3, "C?", None, None)).unwrap();
    store.delete(2).unwrap();
    let mut ids: Vec<u128> = store.list().iter().map(|r| r.id).collect();
    ids.sort();
    assert_eq!(ids, vec![1, 3]);
}
