//! Round trips and exact wire text of the message envelopes.

use test_tracker::decode::{decode_client_msg, decode_server_msg, decode_user};
use test_tracker::encode::{encode_client_msg, encode_server_msg, encode_user};
use test_tracker::error::{DieselError, Error};
use test_tracker::protocol::{
    ClientToServerMsg, CompletionData, Date, ServerToClientMsg, TestData, User,
};

fn sample_test_data() -> TestData {
    TestData {
        subject: "Maths".to_string(),
        topic: Some("Statistics".to_string()),
        date_or_id: "Mock Set 1".to_string(),
        qualification_level: Some("A Level".to_string()),
        exam_board: Some("Edexcel".to_string()),
        paper_link: Some("https://example.org/paper.pdf".to_string()),
        mark_scheme_link: None,
        comments: None,
    }
}

fn sample_completion() -> CompletionData {
    CompletionData {
        achieved_mark: 57,
        total_marks: 80,
        date: Some(Date { year: 2019, month: 6, day: 3 }),
        comments: Some("hard paper".to_string()),
    }
}

#[test]
fn authenticate_exact_wire_text() {
    let msg = ClientToServerMsg::Authenticate {
        username: "alice".to_string(),
        password: "secret123".to_string(),
    };
    assert_eq!(
        encode_client_msg(&msg),
        "Authenticate(username:\"alice\",password:\"secret123\")"
    );
}

#[test]
fn create_user_round_trip() {
    let msg = ClientToServerMsg::CreateUser {
        username: "Alice".to_string(),
        password: "secret123".to_string(),
    };
    let text = encode_client_msg(&msg);
    assert_eq!(decode_client_msg(&text), Some(msg));
}

#[test]
fn get_tests_round_trip() {
    let msg = ClientToServerMsg::GetTestsAndCompletions { user_id: "0".to_string() };
    let text = encode_client_msg(&msg);
    assert_eq!(text, "GetTestsAndCompletions(user_id:\"0\")");
    assert_eq!(decode_client_msg(&text), Some(msg));
}

#[test]
fn quotes_and_backslashes_round_trip() {
    let msg = ClientToServerMsg::Authenticate {
        username: "a\"b\\c".to_string(),
        password: "\\\"".to_string(),
    };
    let text = encode_client_msg(&msg);
    assert_eq!(
        text,
        "Authenticate(username:\"a\\\"b\\\\c\",password:\"\\\\\\\"\")"
    );
    assert_eq!(decode_client_msg(&text), Some(msg));
}

#[test]
fn unicode_round_trip() {
    let msg = ClientToServerMsg::CreateUser {
        username: "Ärger und Örtlichkeit".to_string(),
        password: "päßwörd, with punctuation: )(,".to_string(),
    };
    let text = encode_client_msg(&msg);
    assert_eq!(decode_client_msg(&text), Some(msg));
}

#[test]
fn auth_response_ok_round_trip() {
    let msg = ServerToClientMsg::AuthenticationResponse(Ok(User {
        id: "0".to_string(),
        username: "alice".to_string(),
    }));
    let text = encode_server_msg(&msg);
    assert_eq!(
        text,
        "AuthenticationResponse(Ok((id:\"0\",username:\"alice\")))"
    );
    assert_eq!(decode_server_msg(&text), Some(msg));
}

#[test]
fn auth_response_error_arms_round_trip() {
    let errors = vec![
        Error::InvalidPassword,
        Error::HashingError("b64 encoding invalid".to_string()),
        Error::DatabaseError(DieselError::NotFound),
        Error::DatabaseError(DieselError::Other("connection reset".to_string())),
        Error::DatabaseError(DieselError::UniqueViolation(
            "duplicate key value violates unique constraint \"users_username_key\"".to_string(),
            Some("Key (username) already exists.".to_string()),
            None,
        )),
    ];
    for e in errors {
        let msg = ServerToClientMsg::AuthenticationResponse(Err(e));
        let text = encode_server_msg(&msg);
        assert_eq!(decode_server_msg(&text), Some(msg));
    }
}

#[test]
fn invalid_password_exact_wire_text() {
    let msg = ServerToClientMsg::AuthenticationResponse(Err(Error::InvalidPassword));
    assert_eq!(
        encode_server_msg(&msg),
        "AuthenticationResponse(Err(InvalidPassword))"
    );
}

#[test]
fn tests_and_completions_round_trip() {
    let list = vec![
        (sample_test_data(), vec![sample_completion(), CompletionData {
            achieved_mark: 0,
            total_marks: 100,
            date: None,
            comments: None,
        }]),
        (
            TestData {
                subject: "English".to_string(),
                topic: None,
                date_or_id: "Monday 3 June 2019".to_string(),
                qualification_level: None,
                exam_board: None,
                paper_link: None,
                mark_scheme_link: None,
                comments: Some("essay".to_string()),
            },
            vec![],
        ),
    ];
    let msg = ServerToClientMsg::TestsAndCompletionsForUser(Ok(list));
    let text = encode_server_msg(&msg);
    assert_eq!(decode_server_msg(&text), Some(msg));
}

#[test]
fn empty_list_exact_wire_text() {
    let msg = ServerToClientMsg::TestsAndCompletionsForUser(Ok(vec![]));
    assert_eq!(
        encode_server_msg(&msg),
        "TestsAndCompletionsForUser(Ok([]))"
    );
}

#[test]
fn tests_error_arm_round_trip() {
    let msg = ServerToClientMsg::TestsAndCompletionsForUser(Err(Error::DatabaseError(
        DieselError::Other("store unreachable".to_string()),
    )));
    let text = encode_server_msg(&msg);
    assert_eq!(decode_server_msg(&text), Some(msg));
}

#[test]
fn negative_and_extreme_marks_round_trip() {
    let c = CompletionData {
        achieved_mark: i32::MIN,
        total_marks: i32::MAX,
        date: None,
        comments: None,
    };
    let msg = ServerToClientMsg::TestsAndCompletionsForUser(Ok(vec![(sample_test_data(), vec![c])]));
    let text = encode_server_msg(&msg);
    assert!(text.contains("achieved_mark:-2147483648,total_marks:2147483647"));
    assert_eq!(decode_server_msg(&text), Some(msg));
}

#[test]
fn user_storage_round_trip() {
    let u = User { id: "17".to_string(), username: "älice".to_string() };
    let text = encode_user(&u);
    assert_eq!(decode_user(&text), Some(u));
}

#[test]
fn malformed_bodies_rejected() {
    assert_eq!(decode_client_msg(""), None);
    assert_eq!(decode_client_msg("Authenticate(username:\"a\""), None);
    assert_eq!(decode_client_msg("Frobnicate(username:\"a\",password:\"b\")"), None);
    assert_eq!(decode_client_msg("Authenticate(username:\"a\",password:\"b\") "), None);
    assert_eq!(decode_client_msg("Authenticate(username:\"a\",password:\"b\")x"), None);
    assert_eq!(decode_server_msg("AuthenticationResponse(Ok((id:\"0\")))"), None);
}

#[test]
fn out_of_range_numbers_rejected() {
    let text = "TestsAndCompletionsForUser(Ok([((subject:\"s\",topic:None,date_or_id:\"d\",\
qualification_level:None,exam_board:None,paper_link:None,mark_scheme_link:None,comments:None),\
[(achieved_mark:2147483648,total_marks:1,date:None,comments:None)])]))";
    assert_eq!(decode_server_msg(text), None);
    let ok = text.replace("2147483648", "2147483647");
    assert!(decode_server_msg(&ok).is_some());
}

#[test]
fn invalid_dates_rejected() {
    let base = "TestsAndCompletionsForUser(Ok([((subject:\"s\",topic:None,date_or_id:\"d\",\
qualification_level:None,exam_board:None,paper_link:None,mark_scheme_link:None,comments:None),\
[(achieved_mark:1,total_marks:2,date:Some((year:YYYY,month:MM,day:DD)),comments:None)])]))";
    let valid = base.replace("YYYY", "2000").replace("MM", "2").replace("DD", "29");
    assert!(decode_server_msg(&valid).is_some());
    let not_leap = base.replace("YYYY", "1900").replace("MM", "2").replace("DD", "29");
    assert_eq!(decode_server_msg(&not_leap), None);
    let june_31 = base.replace("YYYY", "2019").replace("MM", "6").replace("DD", "31");
    assert_eq!(decode_server_msg(&june_31), None);
    let month_0 = base.replace("YYYY", "2019").replace("MM", "0").replace("DD", "1");
    assert_eq!(decode_server_msg(&month_0), None);
}
