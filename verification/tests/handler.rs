//! The request handler end to end: wire text in, wire text out.

use test_tracker::error::Error;
use test_tracker::handler::{handle_request, no_cors_header};
use test_tracker::decode::decode_server_msg;
use test_tracker::passwords::CredentialStore;
use test_tracker::protocol::ServerToClientMsg;
use test_tracker::tests_and_completions::RecordStore;

#[test]
fn create_then_wrong_then_right_password() {
    let mut cred = CredentialStore::new();
    let rec = RecordStore::new();

    let created = handle_request(
        &mut cred,
        &rec,
        "CreateUser(username:\"Alice\",password:\"secret123\")",
    )
    .expect("a valid request gets a response");
    let alice_id = match decode_server_msg(&created) {
        Some(ServerToClientMsg::AuthenticationResponse(Ok(user))) => {
            assert_eq!(user.username, "alice");
            user.id
        },
        other => panic!("expected a successful authentication response, got {other:?}"),
    };

    let denied = handle_request(
        &mut cred,
        &rec,
        "Authenticate(username:\"ALICE\",password:\"wrong\")",
    )
    .expect("a valid request gets a response");
    match decode_server_msg(&denied) {
        Some(ServerToClientMsg::AuthenticationResponse(Err(Error::InvalidPassword))) => {},
        other => panic!("expected an invalid-password response, got {other:?}"),
    }

    let accepted = handle_request(
        &mut cred,
        &rec,
        "Authenticate(username:\"alice\",password:\"secret123\")",
    )
    .expect("a valid request gets a response");
    match decode_server_msg(&accepted) {
        Some(ServerToClientMsg::AuthenticationResponse(Ok(user))) => {
            assert_eq!(user.username, "alice");
            assert_eq!(user.id, alice_id);
        },
        other => panic!("expected a successful authentication response, got {other:?}"),
    }
}

#[test]
fn no_tests_gives_empty_list_response() {
    let mut cred = CredentialStore::new();
    let rec = RecordStore::new();
    let created = handle_request(
        &mut cred,
        &rec,
        "CreateUser(username:\"Alice\",password:\"secret123\")",
    )
    .expect("a valid request gets a response");
    let alice_id = match decode_server_msg(&created) {
        Some(ServerToClientMsg::AuthenticationResponse(Ok(user))) => user.id,
        other => panic!("expected a successful authentication response, got {other:?}"),
    };
    let body = format!("GetTestsAndCompletions(user_id:\"{alice_id}\")");
    let response = handle_request(&mut cred, &rec, &body).expect("a valid request gets a response");
    assert_eq!(response, "TestsAndCompletionsForUser(Ok([]))");
}

#[test]
fn duplicate_username_travels_as_unique_violation() {
    let mut cred = CredentialStore::new();
    let rec = RecordStore::new();
    handle_request(&mut cred, &rec, "CreateUser(username:\"bob\",password:\"pw\")")
        .expect("a valid request gets a response");
    let second = handle_request(&mut cred, &rec, "CreateUser(username:\"Bob\",password:\"pw\")")
        .expect("a valid request gets a response");
    assert_eq!(
        second,
        "AuthenticationResponse(Err(DatabaseError(UniqueViolation(\
\"duplicate key value violates unique constraint \\\"users_username_key\\\"\",\
Some(\"Key (username) already exists.\"),None))))"
    );
}

#[test]
fn malformed_body_gets_no_response() {
    let mut cred = CredentialStore::new();
    let rec = RecordStore::new();
    assert_eq!(handle_request(&mut cred, &rec, "not a message"), None);
    assert_eq!(handle_request(&mut cred, &rec, ""), None);
}

#[test]
fn cors_header_lets_any_origin_in() {
    let (name, value) = no_cors_header();
    assert_eq!(name, "Access-Control-Allow-Origin");
    assert_eq!(value, "*");
}
