//! The client session controller: the state machine that drives the login
//! and main screens, reconciles responses, and decides which effects the
//! surrounding shell must perform — persisting the user, sending requests,
//! surfacing messages.

use vstd::prelude::*;
use crate::codec::{dec_user, enc_error, enc_s2c, enc_user};
use crate::decode::decode_user;
use crate::encode::{encode_error, encode_server_msg, encode_user};
use crate::error::{DieselError, DieselErrorV, Error, ErrorV};
use crate::protocol::{ClientToServerMsg, ServerToClientMsg, TestAndCompletions, User};
use crate::text::{contains_seq, string_contains};

verus! {

/// The key under which the logged-in user is persisted in browser storage.
pub const STORAGE_KEY_USER: &'static str = "testTrackerUser";

/// A message to send to the session controller.
#[derive(Debug)]
pub enum AppMsg {
    /// Manually change or reset the displayed error message.
    ChangeErrorMessage(Option<String>),

    /// An error from the server has occurred. Tell the user.
    SharedError(Error),

    /// An unknown error has occurred, described by the given text. Tell the
    /// user.
    UnknownError(String),

    /// We received an unexpected (but valid) message from the server.
    UnexpectedServerMsg(ServerToClientMsg),

    /// Authenticate a user. The flag reflects the "remember me" checkbox.
    AuthenticateUser(User, bool),

    /// Set the list of tests and completions.
    SetTestsAndCompletionsList(Vec<TestAndCompletions>),
}

/// An outward action the surrounding shell must perform for the controller.
#[derive(Debug, PartialEq)]
pub enum AppEffect {
    /// Store the value under the key in the session-scoped browser store.
    PersistSession(String, String),

    /// Store the value under the key in the durable browser store.
    PersistLocal(String, String),

    /// Send the request to the server.
    SendRequest(ClientToServerMsg),

    /// Show a blocking alert with the given text.
    Alert(String),
}

/// The model for the whole client: which user is logged in, their records,
/// and a possible error message.
pub struct App {
    /// The user that we may or may not have authenticated.
    pub user: Option<User>,

    /// The tests and completions of the user.
    pub tests_and_completions: Vec<TestAndCompletions>,

    /// An optional error message to display.
    pub error_message: Option<String>,
}

impl App {
    /// A fresh model, logged in as the restored user if storage held one.
    pub fn new(restored_user: Option<User>) -> (app: App)
        ensures
            app.user == restored_user,
            app.tests_and_completions@ == Seq::<TestAndCompletions>::empty(),
            app.error_message is None,
    {
        let app = App { user: restored_user, tests_and_completions: Vec::new(), error_message: None };
        proof {
            assert(app.tests_and_completions@ =~= Seq::<TestAndCompletions>::empty());
        }
        app
    }

    /// The request that refreshes the record list, for the logged-in user.
    pub fn refresh_tests_and_completions_list(&self) -> (r: ClientToServerMsg)
        requires
            self.user is Some,
        ensures
            r matches ClientToServerMsg::GetTestsAndCompletions { user_id } && user_id@
                == self.user.unwrap().id@,
    {
        match &self.user {
            Some(user) => ClientToServerMsg::GetTestsAndCompletions { user_id: user.id.clone() },
            None => {
                unreached()
            },
        }
    }

    /// Start the controller: restore a user, and when one was restored,
    /// immediately ask for their records.
    pub fn create(restored_user: Option<User>) -> (r: (App, Option<ClientToServerMsg>))
        ensures
            r.0.user == restored_user,
            r.0.tests_and_completions@ == Seq::<TestAndCompletions>::empty(),
            r.0.error_message is None,
            restored_user matches Some(u) ==> r.1 matches Some(
                ClientToServerMsg::GetTestsAndCompletions { user_id },
            ) && user_id@ == u.id@,
            restored_user is None ==> r.1 is None,
    {
        let app = App::new(restored_user);
        if app.user.is_some() {
            let req = app.refresh_tests_and_completions_list();
            (app, Some(req))
        } else {
            (app, None)
        }
    }

    /// React to one message: update the model and say what the shell must do.
    /// The first component says whether the view changed.
    pub fn update(&mut self, msg: AppMsg) -> (r: (bool, Vec<AppEffect>))
        ensures
            r.0,
            match msg {
                AppMsg::AuthenticateUser(user, remember_me) => {
                    &&& final(self).user == Some(user)
                    &&& final(self).error_message is None
                    &&& final(self).tests_and_completions@ == Seq::<TestAndCompletions>::empty()
                    &&& r.1@.len() == (if remember_me {
                        3int
                    } else {
                        2int
                    })
                    &&& r.1@[0] matches AppEffect::PersistLocal(k, v) && k@ == "testTrackerUser"@
                        && v@ == enc_user(user@)
                    &&& remember_me ==> (r.1@[1] matches AppEffect::PersistSession(k, v) && k@
                        == "testTrackerUser"@ && v@ == enc_user(user@))
                    &&& r.1@.last() matches AppEffect::SendRequest(
                        ClientToServerMsg::GetTestsAndCompletions { user_id },
                    ) && user_id@ == user.id@
                },
                AppMsg::SetTestsAndCompletionsList(list) => {
                    &&& final(self).tests_and_completions == list
                    &&& final(self).user == old(self).user
                    &&& final(self).error_message == old(self).error_message
                    &&& r.1@.len() == 0
                },
                AppMsg::ChangeErrorMessage(m) => {
                    &&& final(self).error_message == m
                    &&& final(self).user == old(self).user
                    &&& final(self).tests_and_completions == old(self).tests_and_completions
                    &&& r.1@.len() == 0
                },
                AppMsg::UnexpectedServerMsg(m) => {
                    &&& final(self).error_message matches Some(t) && t@ == enc_s2c(m@)
                    &&& final(self).user == old(self).user
                    &&& final(self).tests_and_completions == old(self).tests_and_completions
                    &&& r.1@.len() == 0
                },
                AppMsg::SharedError(error) => {
                    &&& final(self).user == old(self).user
                    &&& final(self).tests_and_completions == old(self).tests_and_completions
                    &&& (if invalid_credentials(error@) {
                        &&& final(self).error_message matches Some(t) && t@
                            == "Invalid username or password"@
                        &&& r.1@.len() == 0
                    } else if username_taken(error@) {
                        &&& final(self).error_message matches Some(t) && t@
                            == "Username already taken"@
                        &&& r.1@.len() == 0
                    } else {
                        &&& final(self).error_message == old(self).error_message
                        &&& r.1@.len() == 1
                        &&& r.1@[0] matches AppEffect::Alert(t) && t@ == "Error: "@ + enc_error(
                            error@,
                        )
                    })
                },
                AppMsg::UnknownError(detail) => {
                    &&& final(self).user == old(self).user
                    &&& final(self).tests_and_completions == old(self).tests_and_completions
                    &&& final(self).error_message == old(self).error_message
                    &&& r.1@.len() == 1
                    &&& r.1@[0] matches AppEffect::Alert(t) && t@ == "Unknown error: "@ + detail@
                },
            },
    {
        match msg {
            AppMsg::AuthenticateUser(user, remember_me) => {
                let user_str = encode_user(&user);
                let mut effects: Vec<AppEffect> = Vec::new();
                effects.push(
                    AppEffect::PersistLocal(STORAGE_KEY_USER.to_owned(), user_str.clone()),
                );
                if remember_me {
                    effects.push(
                        AppEffect::PersistSession(STORAGE_KEY_USER.to_owned(), user_str),
                    );
                }
                let request = ClientToServerMsg::GetTestsAndCompletions {
                    user_id: user.id.clone(),
                };
                effects.push(AppEffect::SendRequest(request));
                self.user = Some(user);
                self.error_message = None;
                self.tests_and_completions = Vec::new();
                proof {
                    assert(self.tests_and_completions@ =~= Seq::<TestAndCompletions>::empty());
                }
                (true, effects)
            },
            AppMsg::SetTestsAndCompletionsList(list) => {
                self.tests_and_completions = list;
                (true, Vec::new())
            },
            AppMsg::ChangeErrorMessage(m) => {
                self.error_message = m;
                (true, Vec::new())
            },
            AppMsg::UnexpectedServerMsg(m) => {
                self.error_message = Some(encode_server_msg(&m));
                (true, Vec::new())
            },
            AppMsg::SharedError(error) => {
                if is_invalid_credentials(&error) {
                    self.error_message = Some("Invalid username or password".to_owned());
                    (true, Vec::new())
                } else if is_username_taken(&error) {
                    self.error_message = Some("Username already taken".to_owned());
                    (true, Vec::new())
                } else {
                    let mut text = "Error: ".to_owned();
                    text.append(encode_error(&error).as_str());
                    let mut effects: Vec<AppEffect> = Vec::new();
                    effects.push(AppEffect::Alert(text));
                    (true, effects)
                }
            },
            AppMsg::UnknownError(detail) => {
                let mut text = "Unknown error: ".to_owned();
                text.append(detail.as_str());
                let mut effects: Vec<AppEffect> = Vec::new();
                effects.push(AppEffect::Alert(text));
                (true, effects)
            },
        }
    }
}

/// A failure that means the credentials were wrong: the user was not found,
/// or the password did not match.
pub open spec fn invalid_credentials(e: ErrorV) -> bool {
    ||| e == ErrorV::DatabaseError(DieselErrorV::NotFound)
    ||| e == ErrorV::InvalidPassword
}

/// A uniqueness violation whose details mention the username column.
pub open spec fn username_taken(e: ErrorV) -> bool {
    e matches ErrorV::DatabaseError(DieselErrorV::UniqueViolation(_, d, _)) && d matches Some(dd)
        && contains_seq(dd, "username"@)
}

/// Whether the error means the credentials were wrong.
fn is_invalid_credentials(e: &Error) -> (r: bool)
    ensures
        r == invalid_credentials(e@),
{
    match e {
        Error::DatabaseError(DieselError::NotFound) => true,
        Error::InvalidPassword => true,
        _ => false,
    }
}

/// Whether the error is a uniqueness violation whose details mention the
/// username column.
fn is_username_taken(e: &Error) -> (r: bool)
    ensures
        r == username_taken(e@),
{
    match e {
        Error::DatabaseError(DieselError::UniqueViolation(_, Some(details), _)) => {
            string_contains(details.as_str(), "username")
        },
        _ => false,
    }
}

/// Restore the persisted user: the durable store is tried first, then the
/// session-scoped store.
pub fn get_user(local: Option<&str>, session: Option<&str>) -> (r: Option<User>)
    ensures
        ({
            let l = match local {
                Some(s) => dec_user(s@),
                None => None,
            };
            let se = match session {
                Some(s) => dec_user(s@),
                None => None,
            };
            match l {
                Some(uv) => r matches Some(u) && u@ == uv,
                None => match se {
                    Some(uv) => r matches Some(u) && u@ == uv,
                    None => r is None,
                },
            }
        }),
{
    let from_local = match local {
        Some(s) => decode_user(s),
        None => None,
    };
    if let Some(u) = from_local {
        return Some(u);
    }
    match session {
        Some(s) => decode_user(s),
        None => None,
    }
}


/// Law: the uniqueness violation that user creation produces carries
/// details that mention the username column, so the session controller
/// classifies it as a taken username.
pub proof fn lemma_duplicate_is_username_taken()
    ensures
        username_taken(
            ErrorV::DatabaseError(
                DieselErrorV::UniqueViolation(
                    "duplicate key value violates unique constraint \"users_username_key\""@,
                    Some("Key (username) already exists."@),
                    None,
                ),
            ),
        ),
{
    reveal_strlit("Key (username) already exists.");
    reveal_strlit("username");
    let dd = "Key (username) already exists."@;
    assert(dd.subrange(5, 5 + "username"@.len() as int) =~= "username"@);
}

} // verus!
