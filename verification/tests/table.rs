use service_registry::record::{CreateService, Service};
use service_registry::table::{StorageError, Table};

fn payload(name: &str, link: &str) -> CreateService {
    CreateService { name: name.to_string(), link: link.to_string() }
}

fn row(id: i32, name: &str, link: &str) -> Service {
    Service { id, name: name.to_string(), link: link.to_string() }
}

#[test]
fn new_table_has_no_rows() {
    assert!(Table::new().select_all().is_empty());
}

#[test]
fn insert_gives_out_identifiers_from_one() {
    let mut table = Table::new();
    assert_eq!(table.insert(&payload("a", "http://a")), Ok(row(1, "a", "http://a")));
    assert_eq!(table.insert(&payload("b", "http://b")), Ok(row(2, "b", "http://b")));
    assert_eq!(table.insert(&payload("c", "http://c")), Ok(row(3, "c", "http://c")));
    assert_eq!(
        table.select_all(),
        vec![row(1, "a", "http://a"), row(2, "b", "http://b"), row(3, "c", "http://c")]
    );
}

#[test]
fn insert_refuses_a_name_that_is_taken() {
    let mut table = Table::new();
    table.insert(&payload("a", "http://a")).unwrap();
    assert_eq!(table.insert(&payload("a", "http://other")), Err(StorageError::DuplicateName));
    assert_eq!(table.select_all(), vec![row(1, "a", "http://a")]);
}

#[test]
fn insert_refuses_a_link_that_is_taken() {
    let mut table = Table::new();
    table.insert(&payload("a", "http://a")).unwrap();
    assert_eq!(table.insert(&payload("other", "http://a")), Err(StorageError::DuplicateLink));
    assert_eq!(table.select_all(), vec![row(1, "a", "http://a")]);
}

#[test]
fn insert_reports_the_name_when_both_are_taken() {
    let mut table = Table::new();
    table.insert(&payload("a", "http://a")).unwrap();
    table.insert(&payload("b", "http://b")).unwrap();
    assert_eq!(table.insert(&payload("a", "http://b")), Err(StorageError::DuplicateName));
    assert_eq!(table.insert(&payload("b", "http://a")), Err(StorageError::DuplicateName));
}

#[test]
fn a_refused_insert_uses_up_no_identifier() {
    let mut table = Table::new();
    table.insert(&payload("a", "http://a")).unwrap();
    assert!(table.insert(&payload("a", "http://a")).is_err());
    assert_eq!(table.insert(&payload("b", "http://b")), Ok(row(2, "b", "http://b")));
}

#[test]
fn names_and_links_are_compared_exactly() {
    let mut table = Table::new();
    table.insert(&payload("a", "http://a")).unwrap();
    assert_eq!(table.insert(&payload("A", "http://a/")), Ok(row(2, "A", "http://a/")));
    assert_eq!(table.insert(&payload("", "")), Ok(row(3, "", "")));
    assert_eq!(table.insert(&payload("", "x")), Err(StorageError::DuplicateName));
    assert_eq!(table.insert(&payload("x", "")), Err(StorageError::DuplicateLink));
}

#[test]
fn a_name_may_equal_another_rows_link() {
    let mut table = Table::new();
    table.insert(&payload("a", "b")).unwrap();
    assert_eq!(table.insert(&payload("b", "a")), Ok(row(2, "b", "a")));
}

#[test]
fn delete_removes_the_row_of_that_name_only() {
    let mut table = Table::new();
    table.insert(&payload("a", "http://a")).unwrap();
    table.insert(&payload("b", "http://b")).unwrap();
    table.insert(&payload("c", "http://c")).unwrap();
    assert_eq!(table.delete("b"), 1);
    assert_eq!(table.select_all(), vec![row(1, "a", "http://a"), row(3, "c", "http://c")]);
}

#[test]
fn delete_of_an_absent_name_removes_nothing() {
    let mut table = Table::new();
    table.insert(&payload("a", "http://a")).unwrap();
    assert_eq!(table.delete("http://a"), 0);
    assert_eq!(table.delete("b"), 0);
    assert_eq!(table.select_all(), vec![row(1, "a", "http://a")]);
}

#[test]
fn delete_on_an_empty_table_removes_nothing() {
    let mut table = Table::new();
    assert_eq!(table.delete("a"), 0);
    assert!(table.select_all().is_empty());
}

#[test]
fn a_deleted_identifier_is_not_given_out_again() {
    let mut table = Table::new();
    table.insert(&payload("a", "http://a")).unwrap();
    table.insert(&payload("b", "http://b")).unwrap();
    assert_eq!(table.delete("b"), 1);
    assert_eq!(table.insert(&payload("b", "http://b")), Ok(row(3, "b", "http://b")));
    assert_eq!(table.delete("a"), 1);
    assert_eq!(table.delete("b"), 1);
    assert_eq!(table.insert(&payload("a", "http://a")), Ok(row(4, "a", "http://a")));
}

#[test]
fn a_deleted_name_and_link_are_free_again() {
    let mut table = Table::new();
    table.insert(&payload("a", "http://a")).unwrap();
    assert_eq!(table.delete("a"), 1);
    assert_eq!(table.insert(&payload("z", "http://a")), Ok(row(2, "z", "http://a")));
    assert_eq!(table.insert(&payload("a", "http://z")), Ok(row(3, "a", "http://z")));
}

#[test]
fn table_resumes_after_a_given_identifier() {
    let mut table = Table::with_last_id(41).unwrap();
    assert!(table.select_all().is_empty());
    assert_eq!(table.insert(&payload("a", "http://a")), Ok(row(42, "a", "http://a")));
}

#[test]
fn table_with_last_id_zero_is_a_new_table() {
    let mut table = Table::with_last_id(0).unwrap();
    assert_eq!(table.insert(&payload("a", "http://a")), Ok(row(1, "a", "http://a")));
}

#[test]
fn there_is_no_table_after_a_negative_identifier() {
    assert!(Table::with_last_id(-1).is_none());
    assert!(Table::with_last_id(i32::MIN).is_none());
}

#[test]
fn the_last_identifier_is_given_out_and_then_none() {
    let mut table = Table::with_last_id(i32::MAX - 1).unwrap();
    assert_eq!(table.insert(&payload("a", "http://a")), Ok(row(i32::MAX, "a", "http://a")));
    assert_eq!(
        table.insert(&payload("b", "http://b")),
        Err(StorageError::IdentifiersExhausted)
    );
    assert_eq!(table.select_all(), vec![row(i32::MAX, "a", "http://a")]);
}

#[test]
fn a_duplicate_is_reported_before_exhaustion() {
    let mut table = Table::with_last_id(i32::MAX - 1).unwrap();
    table.insert(&payload("a", "http://a")).unwrap();
    assert_eq!(table.insert(&payload("a", "http://b")), Err(StorageError::DuplicateName));
    assert_eq!(table.insert(&payload("b", "http://a")), Err(StorageError::DuplicateLink));
}

#[test]
fn an_exhausted_table_still_deletes() {
    let mut table = Table::with_last_id(i32::MAX).unwrap();
    assert_eq!(
        table.insert(&payload("a", "http://a")),
        Err(StorageError::IdentifiersExhausted)
    );
    assert_eq!(table.delete("a"), 0);
}

#[test]
fn storage_errors_have_their_texts() {
    assert_eq!(
        StorageError::DuplicateName.message(),
        "duplicate key value violates unique constraint on name"
    );
    assert_eq!(
        StorageError::DuplicateLink.message(),
        "duplicate key value violates unique constraint on link"
    );
    assert_eq!(
        StorageError::IdentifiersExhausted.message(),
        "identifier sequence reached its maximum value"
    );
}

#[test]
fn select_all_hands_out_copies() {
    let mut table = Table::new();
    table.insert(&payload("a", "http://a")).unwrap();
    let mut rows = table.select_all();
    rows[0].name.push('!');
    rows.clear();
    assert_eq!(table.select_all(), vec![row(1, "a", "http://a")]);
}

#[test]
fn clones_of_records_are_equal_to_them() {
    let service = row(5, "a", "http://a");
    assert_eq!(service.clone(), service);
    let request = payload("a", "http://a");
    assert_eq!(request.clone(), request);
}
