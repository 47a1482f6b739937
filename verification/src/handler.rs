//! The server-side request handler: decode an inbound envelope, dispatch to
//! the stores, encode the response.

use vstd::prelude::*;
use crate::codec::{dec_c2s, dec_s2c, enc_nat, enc_s2c};
use crate::decode::decode_client_msg;
use crate::encode::encode_server_msg;
use crate::error::{DieselErrorV, Error as SharedError, ErrorV};
use crate::models::User;
use crate::passwords::{argon2_verifies, auth_outcome, find_by_username, AuthOutcome, CredentialStore};
use crate::protocol::{
    completions_wf, tacs_wf, ClientToServerMsg, ClientToServerMsgV, CompletionData,
    ServerToClientMsg, ServerToClientMsgV, TestAndCompletionsV, TestData, UserV,
};
use crate::tests_and_completions::{completion_dates_wf, groups_of, lemma_groups_dates_wf, RecordStore};
use crate::text::lower_of;
use crate::models::{Completion, Test};

verus! {

/// The name and value of the header that lets any client origin consume a
/// response.
pub fn no_cors_header() -> (r: (String, String))
    ensures
        r.0@ == "Access-Control-Allow-Origin"@,
        r.1@ == "*"@,
{
    ("Access-Control-Allow-Origin".to_string(), "*".to_string())
}

/// The response envelope that authentication yields for the given store
/// contents and credentials.
pub open spec fn auth_response(
    users: Seq<User>,
    username: Seq<char>,
    password: Seq<char>,
) -> ServerToClientMsgV {
    ServerToClientMsgV::AuthenticationResponse(
        match auth_outcome(users, username, password) {
            AuthOutcome::UnknownUser => Err(ErrorV::DatabaseError(DieselErrorV::NotFound)),
            AuthOutcome::WrongPassword => Err(ErrorV::InvalidPassword),
            AuthOutcome::Authenticated(u) => Ok(UserV { id: u.id@, username: u.username@ }),
        },
    )
}

/// The mathematical shape of the groups that the record-store query yields.
pub open spec fn groups_view(tests: Seq<Test>, cs: Seq<Completion>, uid: Seq<char>) -> Seq<
    TestAndCompletionsV,
> {
    groups_of(tests, cs, uid).map_values(
        |g: (TestData, Seq<CompletionData>)| (g.0@, g.1.map_values(|c: CompletionData| c@)),
    )
}

/// Handle one inbound request body: decode it, run the operation it names
/// against the stores, and encode the response. A malformed body yields
/// nothing and changes nothing; business failures travel inside a response.
pub fn handle_request(cred: &mut CredentialStore, rec: &RecordStore, body: &str) -> (r: Option<
    String,
>)
    ensures
        dec_c2s(body@) is None ==> r is None && final(cred)@ == old(cred)@,
        dec_c2s(body@) is Some ==> r is Some,
        dec_c2s(body@) matches Some(ClientToServerMsgV::Authenticate { username, password })
            ==> ({
            &&& final(cred)@ == old(cred)@
            &&& r matches Some(resp) && resp@ == enc_s2c(
                auth_response(old(cred)@, username, password),
            )
        }),
        dec_c2s(body@) matches Some(ClientToServerMsgV::CreateUser { username, password }) ==> ({
            match find_by_username(old(cred)@, lower_of(username)) {
                Some(_) => {
                    &&& final(cred)@ == old(cred)@
                    &&& r matches Some(resp) && resp@ == enc_s2c(
                        ServerToClientMsgV::AuthenticationResponse(
                            Err(
                                ErrorV::DatabaseError(
                                    DieselErrorV::UniqueViolation(
                                        "duplicate key value violates unique constraint \"users_username_key\""@,
                                        Some("Key (username) already exists."@),
                                        None,
                                    ),
                                ),
                            ),
                        ),
                    )
                },
                None => {
                    ||| ({
                        &&& final(cred)@.len() == old(cred)@.len() + 1
                        &&& final(cred)@.subrange(0, old(cred)@.len() as int) == old(cred)@
                        &&& final(cred)@.last().username@ == lower_of(username)
                        &&& argon2_verifies(password, final(cred)@.last().hashed_password@)
                        &&& r matches Some(resp) && resp@ == enc_s2c(
                            ServerToClientMsgV::AuthenticationResponse(
                                Ok(
                                    UserV {
                                        id: enc_nat(old(cred)@.len()),
                                        username: lower_of(username),
                                    },
                                ),
                            ),
                        )
                    })
                    ||| ({
                        &&& password.len() > 0x3FFF_FFFF
                        &&& final(cred)@ == old(cred)@
                        &&& r matches Some(resp) && (exists|msg: Seq<char>|
                            resp@ == #[trigger] enc_s2c(
                                ServerToClientMsgV::AuthenticationResponse(
                                    Err(ErrorV::HashingError(msg)),
                                ),
                            ))
                    })
                },
            }
        }),
        dec_c2s(body@) matches Some(ClientToServerMsgV::GetTestsAndCompletions { user_id })
            ==> ({
            &&& final(cred)@ == old(cred)@
            &&& r matches Some(resp) && resp@ == enc_s2c(
                ServerToClientMsgV::TestsAndCompletionsForUser(
                    Ok(groups_view(rec@.0, rec@.1, user_id)),
                ),
            )
        }),
{
    match decode_client_msg(body) {
        None => None,
        Some(ClientToServerMsg::Authenticate { username, password }) => {
            let result = cred.validate_user(username.as_str(), password.as_str());
            let response = match result {
                Ok(u) => ServerToClientMsg::AuthenticationResponse(Ok(u)),
                Err(e) => ServerToClientMsg::AuthenticationResponse(
                    Err(SharedError::from(e)),
                ),
            };
            Some(encode_server_msg(&response))
        },
        Some(ClientToServerMsg::CreateUser { username, password }) => {
            let result = cred.add_new_user(username.as_str(), password.as_str());
            let response = match result {
                Ok(u) => ServerToClientMsg::AuthenticationResponse(Ok(u)),
                Err(e) => ServerToClientMsg::AuthenticationResponse(
                    Err(SharedError::from(e)),
                ),
            };
            Some(encode_server_msg(&response))
        },
        Some(ClientToServerMsg::GetTestsAndCompletions { user_id }) => {
            let result = rec.get_all_tests_and_completions_for_user(user_id.as_str());
            let response = match result {
                Ok(list) => {
                    proof {
                        let groups = groups_of(rec@.0, rec@.1, user_id@);
                        let gv = groups_view(rec@.0, rec@.1, user_id@);
                        assert forall|k: int|
                            0 <= k < gv.len() implies list.deep_view()[k] == gv[k] by {
                            assert(list@[k].0 == groups[k].0);
                            assert(list@[k].1@ == groups[k].1);
                            assert(list.deep_view()[k] == list@[k].deep_view());
                            assert(list@[k].deep_view() == (
                                list@[k].0@,
                                list@[k].1.deep_view(),
                            ));
                            assert(list@[k].1.deep_view() =~= groups[k].1.map_values(
                                |c: CompletionData| c@,
                            ));
                        }
                        assert(list.deep_view() =~= gv);
                    }
                    ServerToClientMsg::TestsAndCompletionsForUser(Ok(list))
                },
                Err(e) => ServerToClientMsg::TestsAndCompletionsForUser(
                    Err(SharedError::DatabaseError(e)),
                ),
            };
            Some(encode_server_msg(&response))
        },
    }
}


/// Every date in the groups view names an existing day when the store's
/// dates do.
pub proof fn lemma_groups_view_wf(tests: Seq<Test>, cs: Seq<Completion>, uid: Seq<char>)
    requires
        completion_dates_wf(cs),
    ensures
        tacs_wf(groups_view(tests, cs, uid)),
{
    lemma_groups_dates_wf(tests, cs, uid);
    let groups = groups_of(tests, cs, uid);
    let gv = groups_view(tests, cs, uid);
    assert forall|k: int| 0 <= k < gv.len() implies completions_wf((#[trigger] gv[k]).1) by {
        assert(gv[k] == (groups[k].0@, groups[k].1.map_values(|c: CompletionData| c@)));
        assert forall|j: int|
            0 <= j < gv[k].1.len() implies ((#[trigger] gv[k].1[j]).date matches Some(d)
            ==> d.wf()) by {
            assert(gv[k].1[j] == groups[k].1[j]@);
        }
    }
}

/// Law: every authentication response the handler can produce decodes back
/// on the client to the envelope it encodes.
pub proof fn lemma_auth_response_decodes(
    users: Seq<User>,
    username: Seq<char>,
    password: Seq<char>,
)
    ensures
        dec_s2c(enc_s2c(auth_response(users, username, password))) == Some(
            auth_response(users, username, password),
        ),
{
    crate::roundtrip::lemma_roundtrip_server_msg(auth_response(users, username, password));
}

/// Law: every tests-and-completions response the handler can produce, from a
/// store whose dates name existing days, decodes back on the client to the
/// envelope it encodes.
pub proof fn lemma_get_response_decodes(tests: Seq<Test>, cs: Seq<Completion>, uid: Seq<char>)
    requires
        completion_dates_wf(cs),
    ensures
        ({
            let m = ServerToClientMsgV::TestsAndCompletionsForUser(
                Ok(groups_view(tests, cs, uid)),
            );
            dec_s2c(enc_s2c(m)) == Some(m)
        }),
{
    lemma_groups_view_wf(tests, cs, uid);
    crate::roundtrip::lemma_roundtrip_server_msg(
        ServerToClientMsgV::TestsAndCompletionsForUser(Ok(groups_view(tests, cs, uid))),
    );
}

} // verus!
