//! The credential and record stores, exercised with the real hashing
//! library.

use test_tracker::error::DieselError;
use test_tracker::models::{Completion, Test};
use test_tracker::passwords::{hash_and_salt_password, CredentialStore, NewUserError};
use test_tracker::protocol::{CompletionData, Date, TestData};
use test_tracker::tests_and_completions::RecordStore;

fn test_record(id: i32, subject: &str, owner: &str) -> Test {
    Test {
        id,
        subject: subject.to_string(),
        topic: None,
        date_or_id: "Mock Set 1".to_string(),
        qualification_level: None,
        exam_board: None,
        paper_link: None,
        mark_scheme_link: None,
        comments: None,
        user_id: owner.to_string(),
    }
}

fn completion_record(id: i32, test_id: i32, achieved: i32, total: i32) -> Completion {
    Completion {
        id,
        achieved_mark: achieved,
        total_marks: total,
        date: Some(Date { year: 2019, month: 6, day: 3 }),
        comments: None,
        test_id,
    }
}

#[test]
fn create_then_authenticate_succeeds() {
    let mut store = CredentialStore::new();
    let created = store.add_new_user("Alice", "secret123").expect("creation should succeed");
    assert_eq!(created.username, "alice");
    let authed = store.validate_user("Alice", "secret123").expect("authentication should succeed");
    assert_eq!(authed.username, "alice");
    assert_eq!(authed.id, created.id);
}

#[test]
fn wrong_password_is_invalid_password_not_not_found() {
    let mut store = CredentialStore::new();
    store.add_new_user("alice", "secret123").expect("creation should succeed");
    let res = store.validate_user("alice", "wrong");
    assert_eq!(res, Err(NewUserError::InvalidPassword));
}

#[test]
fn unknown_user_is_not_found() {
    let store = CredentialStore::new();
    let res = store.validate_user("nobody", "whatever");
    assert_eq!(res, Err(NewUserError::DbError(DieselError::NotFound)));
}

#[test]
fn case_folded_duplicate_collides() {
    let mut store = CredentialStore::new();
    store.add_new_user("Bob", "pw1").expect("creation should succeed");
    match store.add_new_user("BOB", "pw2") {
        Err(NewUserError::DbError(DieselError::UniqueViolation(_, details, _))) => {
            assert!(details.expect("details should be present").contains("username"));
        },
        other => panic!("expected a uniqueness violation, got {other:?}"),
    }
    assert_eq!(store.len(), 1);
}

#[test]
fn authentication_is_case_insensitive_on_usernames() {
    let mut store = CredentialStore::new();
    store.add_new_user("CaRoL", "hunter2").expect("creation should succeed");
    let authed = store.validate_user("carol", "hunter2").expect("authentication should succeed");
    assert_eq!(authed.username, "carol");
}

#[test]
fn ids_are_distinct_and_sequential() {
    let mut store = CredentialStore::new();
    let a = store.add_new_user("a", "pw").expect("creation should succeed");
    let b = store.add_new_user("b", "pw").expect("creation should succeed");
    assert_eq!(a.id, "0");
    assert_eq!(b.id, "1");
}

#[test]
fn fresh_salts_give_distinct_hashes() {
    let first = hash_and_salt_password("same password").expect("hashing should succeed");
    let second = hash_and_salt_password("same password").expect("hashing should succeed");
    assert_ne!(first, second);
}

#[test]
fn no_tests_gives_empty_list() {
    let store = RecordStore::new();
    let list = store.get_all_tests_and_completions_for_user("0").expect("query never fails");
    assert!(list.is_empty());
}

#[test]
fn one_test_two_completions_gives_one_group_with_both() {
    let mut store = RecordStore::new();
    assert!(store.insert_test(test_record(1, "Maths", "0")));
    assert!(store.insert_completion(completion_record(1, 1, 40, 80)));
    assert!(store.insert_completion(completion_record(2, 1, 60, 80)));
    let list = store.get_all_tests_and_completions_for_user("0").expect("query never fails");
    assert_eq!(list.len(), 1);
    let (test, completions) = &list[0];
    assert_eq!(test.subject, "Maths");
    assert_eq!(completions.len(), 2);
    let marks: Vec<i32> = completions.iter().map(|c| c.achieved_mark).collect();
    assert!(marks.contains(&40) && marks.contains(&60));
}

#[test]
fn equal_looking_tests_stay_distinct_groups() {
    let mut store = RecordStore::new();
    assert!(store.insert_test(test_record(1, "Maths", "0")));
    assert!(store.insert_test(test_record(2, "Maths", "0")));
    assert!(store.insert_completion(completion_record(1, 1, 10, 20)));
    assert!(store.insert_completion(completion_record(2, 2, 15, 20)));
    let list = store.get_all_tests_and_completions_for_user("0").expect("query never fails");
    assert_eq!(list.len(), 2);
    assert_eq!(list[0].1.len(), 1);
    assert_eq!(list[1].1.len(), 1);
}

#[test]
fn other_users_tests_are_not_returned() {
    let mut store = RecordStore::new();
    assert!(store.insert_test(test_record(1, "Maths", "0")));
    assert!(store.insert_test(test_record(2, "English", "1")));
    let list = store.get_all_tests_and_completions_for_user("1").expect("query never fails");
    assert_eq!(list.len(), 1);
    assert_eq!(list[0].0.subject, "English");
}

#[test]
fn test_with_no_completions_gets_an_empty_group() {
    let mut store = RecordStore::new();
    assert!(store.insert_test(test_record(1, "Maths", "0")));
    let list = store.get_all_tests_and_completions_for_user("0").expect("query never fails");
    assert_eq!(list.len(), 1);
    assert!(list[0].1.is_empty());
}

#[test]
fn bad_insertions_are_refused() {
    let mut store = RecordStore::new();
    assert!(store.insert_test(test_record(1, "Maths", "0")));
    assert!(!store.insert_test(test_record(1, "English", "0")), "duplicate test id");
    assert!(
        !store.insert_completion(completion_record(1, 9, 1, 2)),
        "completion referencing a missing test"
    );
    assert!(store.insert_completion(completion_record(1, 1, 1, 2)));
    assert!(!store.insert_completion(completion_record(1, 1, 1, 2)), "duplicate completion id");
    assert!(!store.insert_completion(completion_record(2, 1, -1, 2)), "negative mark");
    let mut bad_date = completion_record(3, 1, 1, 2);
    bad_date.date = Some(Date { year: 1900, month: 2, day: 29 });
    assert!(!store.insert_completion(bad_date), "1900 was not a leap year");
    let mut leap = completion_record(3, 1, 1, 2);
    leap.date = Some(Date { year: 2000, month: 2, day: 29 });
    assert!(store.insert_completion(leap), "2000 was a leap year");
}

#[test]
fn stored_records_project_to_client_data() {
    let t = test_record(7, "Maths", "0");
    let data = TestData::from(t.clone());
    assert_eq!(data.subject, "Maths");
    assert_eq!(data.date_or_id, t.date_or_id);
    let c = completion_record(3, 7, 40, 80);
    let cd = CompletionData::from(c.clone());
    assert_eq!(cd.achieved_mark, 40);
    assert_eq!(cd.total_marks, 80);
    assert_eq!(cd.date, c.date);
}
