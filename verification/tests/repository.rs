use diesel_repository::{
    affected_to_changed, count_from_engine, CrudRepository, Entry, MemRepository, NewEntry,
    RepoError,
};

fn new_entry(field1: &str, field2: bool) -> NewEntry {
    NewEntry { field1: field1.to_string(), field2 }
}

#[test]
fn test() {
    let mut repository: MemRepository<Entry> = MemRepository::new();
    repository
        .insert_only(new_entry("Hello world", true))
        .unwrap();
    let items = repository.find_all().unwrap();
    assert_eq!(items.first().unwrap().field1, "Hello world");
    let mut item = repository
        .find_by_id(items.first().unwrap().id)
        .unwrap()
        .unwrap();
    assert_eq!(&item, items.first().unwrap());
    item.field2 = false;
    repository.update(&item).unwrap();
    let item = repository.find_by_id(item.id).unwrap().unwrap();
    assert_eq!(item.field2, false);
    assert_eq!(repository.count().unwrap(), 1);
    assert_eq!(repository.delete_by_id(item.id).unwrap(), true);
    assert_eq!(repository.delete(item).unwrap(), false);
    assert_eq!(repository.count().unwrap(), 0);
}

#[test]
fn insert_returns_the_materialized_row() {
    let mut repository: MemRepository<Entry> = MemRepository::new();
    let first = repository.insert(new_entry("a", true)).unwrap();
    let second = repository.insert(new_entry("b", false)).unwrap();
    assert_eq!(first.id, 1);
    assert_eq!(first.field1, "a");
    assert_eq!(first.field2, true);
    assert_eq!(second.id, 2);
    assert_eq!(second.field1, "b");
    assert_eq!(second.field2, false);
}

#[test]
fn round_trip_find_by_id_returns_the_inserted_row() {
    let mut repository: MemRepository<Entry> = MemRepository::new();
    let inserted = repository.insert(new_entry("round trip", true)).unwrap();
    let found = repository.find_by_id(inserted.id).unwrap().unwrap();
    assert_eq!(found, inserted);
}

#[test]
fn absent_key_is_none_and_never_an_error() {
    let mut repository: MemRepository<Entry> = MemRepository::new();
    assert_eq!(repository.find_by_id(42).unwrap(), None);
    repository.insert_only(new_entry("present", false)).unwrap();
    assert_eq!(repository.find_by_id(42).unwrap(), None);
    assert_eq!(repository.find_by_id(0).unwrap(), None);
}

#[test]
fn second_delete_of_a_key_reports_not_deleted() {
    let mut repository: MemRepository<Entry> = MemRepository::new();
    let e = repository.insert(new_entry("once", true)).unwrap();
    assert_eq!(repository.delete_by_id(e.id).unwrap(), true);
    assert_eq!(repository.delete_by_id(e.id).unwrap(), false);
    assert_eq!(repository.delete_by_id(e.id).unwrap(), false);
}

#[test]
fn count_tracks_inserts_and_deletes() {
    let mut repository: MemRepository<Entry> = MemRepository::new();
    assert_eq!(repository.count().unwrap(), 0);
    let a = repository.insert(new_entry("a", true)).unwrap();
    let b = repository.insert(new_entry("b", true)).unwrap();
    repository.insert_only(new_entry("c", false)).unwrap();
    assert_eq!(repository.count().unwrap(), 3);
    assert_eq!(repository.delete(a).unwrap(), true);
    assert_eq!(repository.delete_by_id(b.id).unwrap(), true);
    assert_eq!(repository.count().unwrap(), 1);
}

#[test]
fn find_all_yields_rows_in_insertion_order() {
    let mut repository: MemRepository<Entry> = MemRepository::new();
    repository.insert_only(new_entry("first", true)).unwrap();
    repository.insert_only(new_entry("second", false)).unwrap();
    repository.insert_only(new_entry("third", true)).unwrap();
    let items = repository.find_all().unwrap();
    assert_eq!(items.len(), 3);
    assert_eq!(items[0].field1, "first");
    assert_eq!(items[1].field1, "second");
    assert_eq!(items[2].field1, "third");
    assert_eq!(items[0].id, 1);
    assert_eq!(items[1].id, 2);
    assert_eq!(items[2].id, 3);
}

#[test]
fn update_of_an_absent_key_changes_nothing() {
    let mut repository: MemRepository<Entry> = MemRepository::new();
    repository.insert_only(new_entry("kept", true)).unwrap();
    let ghostly = Entry { id: 99, field1: "nowhere".to_string(), field2: false };
    assert_eq!(repository.update(&ghostly).unwrap(), false);
    assert_eq!(repository.count().unwrap(), 1);
    let kept = repository.find_by_id(1).unwrap().unwrap();
    assert_eq!(kept.field1, "kept");
}

#[test]
fn update_rewrites_exactly_the_addressed_row() {
    let mut repository: MemRepository<Entry> = MemRepository::new();
    let a = repository.insert(new_entry("a", true)).unwrap();
    let b = repository.insert(new_entry("b", true)).unwrap();
    let changed = Entry { id: a.id, field1: "a2".to_string(), field2: false };
    assert_eq!(repository.update(&changed).unwrap(), true);
    let a2 = repository.find_by_id(a.id).unwrap().unwrap();
    assert_eq!(a2.field1, "a2");
    assert_eq!(a2.field2, false);
    let b2 = repository.find_by_id(b.id).unwrap().unwrap();
    assert_eq!(b2, b);
}

#[test]
fn key_sequence_resumes_from_the_given_key() {
    let mut repository: MemRepository<Entry> = MemRepository::with_first_key(40);
    let e = repository.insert(new_entry("resumed", true)).unwrap();
    assert_eq!(e.id, 40);
    let e2 = repository.insert(new_entry("next", true)).unwrap();
    assert_eq!(e2.id, 41);
}

#[test]
fn exhausted_key_space_is_a_constraint_violation() {
    let mut repository: MemRepository<Entry> = MemRepository::with_first_key(i64::MAX);
    let res = repository.insert(new_entry("late", true));
    assert_eq!(res, Err(RepoError::ConstraintViolation));
    assert_eq!(repository.count().unwrap(), 0);
    assert_eq!(
        repository.insert_only(new_entry("late", true)),
        Err(RepoError::ConstraintViolation)
    );
}

#[test]
fn affected_count_zero_and_one_map_to_the_reported_boolean() {
    assert_eq!(affected_to_changed(0), Ok(false));
    assert_eq!(affected_to_changed(1), Ok(true));
}

#[test]
fn affected_count_beyond_one_is_an_invariant_violation() {
    assert_eq!(affected_to_changed(2), Err(RepoError::InvariantViolation));
    assert_eq!(affected_to_changed(usize::MAX), Err(RepoError::InvariantViolation));
}

#[test]
fn engine_count_converts_exactly_or_fails_loudly() {
    assert_eq!(count_from_engine(0), Ok(0));
    assert_eq!(count_from_engine(7), Ok(7));
    assert_eq!(count_from_engine(i64::MAX), Ok(i64::MAX as u64));
    assert_eq!(count_from_engine(-1), Err(RepoError::TypeConversionFailure));
    assert_eq!(count_from_engine(i64::MIN), Err(RepoError::TypeConversionFailure));
}
