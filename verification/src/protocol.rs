//! The message schema shared between the client and server halves: the
//! request and response envelopes, the client-visible data records, and
//! their mathematical views.

use vstd::prelude::*;
use crate::error::{Error, ErrorV};

verus! {

/// A calendar date held as plain year, month and day numbers, covering the
/// years 0 through 9999 (the range that date form inputs produce).
#[derive(Clone, Copy, Debug, PartialEq, Eq, Structural)]
pub struct Date {
    pub year: i32,
    pub month: i32,
    pub day: i32,
}

/// Whether `y` is a leap year of the proleptic Gregorian calendar.
pub open spec fn spec_is_leap_year(y: int) -> bool {
    (y % 4 == 0 && y % 100 != 0) || y % 400 == 0
}

/// The number of days of month `m` in year `y`.
pub open spec fn spec_days_in_month(y: int, m: int) -> int {
    if m == 2 {
        if spec_is_leap_year(y) {
            29
        } else {
            28
        }
    } else if m == 4 || m == 6 || m == 9 || m == 11 {
        30
    } else {
        31
    }
}

impl Date {
    /// A well-formed date names a day that exists in the calendar.
    pub open spec fn wf(self) -> bool {
        &&& 0 <= self.year <= 9999
        &&& 1 <= self.month <= 12
        &&& 1 <= self.day <= spec_days_in_month(self.year as int, self.month as int)
    }
}

/// Whether `y` is a leap year of the proleptic Gregorian calendar.
pub fn is_leap_year(y: i32) -> (r: bool)
    requires
        0 <= y,
    ensures
        r == spec_is_leap_year(y as int),
{
    let u = y as u32;
    (u % 4 == 0 && u % 100 != 0) || u % 400 == 0
}

/// The number of days of month `m` in year `y`.
pub fn days_in_month(y: i32, m: i32) -> (r: i32)
    requires
        0 <= y,
    ensures
        r as int == spec_days_in_month(y as int, m as int),
{
    if m == 2 {
        if is_leap_year(y) {
            29
        } else {
            28
        }
    } else if m == 4 || m == 6 || m == 9 || m == 11 {
        30
    } else {
        31
    }
}

/// Whether this date names a day that exists in the calendar.
pub fn date_is_wf(d: &Date) -> (r: bool)
    ensures
        r == d.wf(),
{
    0 <= d.year && d.year <= 9999 && 1 <= d.month && d.month <= 12 && 1 <= d.day && d.day
        <= days_in_month(d.year, d.month)
}

/// The relevant information about a user: the public projection that omits
/// the stored password hash.
#[derive(Clone, Debug, PartialEq)]
pub struct User {
    /// A unique ID used by the server to identify the user.
    pub id: String,

    /// The user's username, case-folded to lowercase.
    pub username: String,
}

/// The important data of a test.
#[derive(Clone, Debug, PartialEq)]
pub struct TestData {
    /// The subject of the test: maths, English, science, etc.
    pub subject: String,

    /// The topic of the test: statistics, Shakespeare, organic chemistry, etc.
    pub topic: Option<String>,

    /// The date or ID of the test: Monday 3 June 2019, Mock Set 1, etc.
    pub date_or_id: String,

    /// The qualification level of the test: GCSE, A Level, etc.
    pub qualification_level: Option<String>,

    /// The exam board for the test: Edexcel, AQA, OCR, etc.
    pub exam_board: Option<String>,

    /// A link to the paper.
    pub paper_link: Option<String>,

    /// A link to the mark scheme.
    pub mark_scheme_link: Option<String>,

    /// Any extra comments.
    pub comments: Option<String>,
}

/// The important data of a completion of a test.
#[derive(Clone, Debug, PartialEq)]
pub struct CompletionData {
    /// The mark that was actually achieved.
    pub achieved_mark: i32,

    /// The total marks available.
    pub total_marks: i32,

    /// The date of the completion.
    pub date: Option<Date>,

    /// Any extra comments.
    pub comments: Option<String>,
}

/// A tuple containing a test and its completions.
pub type TestAndCompletions = (TestData, Vec<CompletionData>);

/// A message that the client can send to the server.
#[derive(Clone, Debug, PartialEq)]
pub enum ClientToServerMsg {
    /// Authenticate a currently existing user with their username and password.
    Authenticate { username: String, password: String },

    /// Create a new user with the given username and password.
    CreateUser { username: String, password: String },

    /// Get all the tests and completions for each test for the given user.
    GetTestsAndCompletions { user_id: String },
}

/// A message that the server can send to the client.
#[derive(Debug, PartialEq)]
pub enum ServerToClientMsg {
    /// A response to authentication or account creation.
    AuthenticationResponse(Result<User, Error>),

    /// All the tests that the requested user has done, along with all the
    /// completions for each test.
    TestsAndCompletionsForUser(Result<Vec<TestAndCompletions>, Error>),
}

/// The mathematical shape of a [`User`].
pub struct UserV {
    pub id: Seq<char>,
    pub username: Seq<char>,
}

/// The mathematical shape of a [`TestData`].
pub struct TestDataV {
    pub subject: Seq<char>,
    pub topic: Option<Seq<char>>,
    pub date_or_id: Seq<char>,
    pub qualification_level: Option<Seq<char>>,
    pub exam_board: Option<Seq<char>>,
    pub paper_link: Option<Seq<char>>,
    pub mark_scheme_link: Option<Seq<char>>,
    pub comments: Option<Seq<char>>,
}

/// The mathematical shape of a [`CompletionData`].
pub struct CompletionDataV {
    pub achieved_mark: i32,
    pub total_marks: i32,
    pub date: Option<Date>,
    pub comments: Option<Seq<char>>,
}

/// The mathematical shape of a test paired with its completions.
pub type TestAndCompletionsV = (TestDataV, Seq<CompletionDataV>);

/// The mathematical shape of a [`ClientToServerMsg`].
pub enum ClientToServerMsgV {
    Authenticate { username: Seq<char>, password: Seq<char> },
    CreateUser { username: Seq<char>, password: Seq<char> },
    GetTestsAndCompletions { user_id: Seq<char> },
}

/// The mathematical shape of a [`ServerToClientMsg`].
pub enum ServerToClientMsgV {
    AuthenticationResponse(Result<UserV, ErrorV>),
    TestsAndCompletionsForUser(Result<Seq<TestAndCompletionsV>, ErrorV>),
}

impl View for User {
    type V = UserV;

    open spec fn view(&self) -> UserV {
        UserV { id: self.id@, username: self.username@ }
    }
}

impl DeepView for User {
    type V = UserV;

    open spec fn deep_view(&self) -> UserV {
        self.view()
    }
}

impl View for TestData {
    type V = TestDataV;

    open spec fn view(&self) -> TestDataV {
        TestDataV {
            subject: self.subject@,
            topic: self.topic.deep_view(),
            date_or_id: self.date_or_id@,
            qualification_level: self.qualification_level.deep_view(),
            exam_board: self.exam_board.deep_view(),
            paper_link: self.paper_link.deep_view(),
            mark_scheme_link: self.mark_scheme_link.deep_view(),
            comments: self.comments.deep_view(),
        }
    }
}

impl DeepView for TestData {
    type V = TestDataV;

    open spec fn deep_view(&self) -> TestDataV {
        self.view()
    }
}

impl View for CompletionData {
    type V = CompletionDataV;

    open spec fn view(&self) -> CompletionDataV {
        CompletionDataV {
            achieved_mark: self.achieved_mark,
            total_marks: self.total_marks,
            date: self.date,
            comments: self.comments.deep_view(),
        }
    }
}

impl DeepView for CompletionData {
    type V = CompletionDataV;

    open spec fn deep_view(&self) -> CompletionDataV {
        self.view()
    }
}

impl View for ClientToServerMsg {
    type V = ClientToServerMsgV;

    open spec fn view(&self) -> ClientToServerMsgV {
        match self {
            ClientToServerMsg::Authenticate { username, password } => {
                ClientToServerMsgV::Authenticate { username: username@, password: password@ }
            },
            ClientToServerMsg::CreateUser { username, password } => {
                ClientToServerMsgV::CreateUser { username: username@, password: password@ }
            },
            ClientToServerMsg::GetTestsAndCompletions { user_id } => {
                ClientToServerMsgV::GetTestsAndCompletions { user_id: user_id@ }
            },
        }
    }
}

impl DeepView for ClientToServerMsg {
    type V = ClientToServerMsgV;

    open spec fn deep_view(&self) -> ClientToServerMsgV {
        self.view()
    }
}

impl View for ServerToClientMsg {
    type V = ServerToClientMsgV;

    open spec fn view(&self) -> ServerToClientMsgV {
        match self {
            ServerToClientMsg::AuthenticationResponse(res) => {
                ServerToClientMsgV::AuthenticationResponse(
                    match res {
                        Ok(u) => Ok(u@),
                        Err(e) => Err(e@),
                    },
                )
            },
            ServerToClientMsg::TestsAndCompletionsForUser(res) => {
                ServerToClientMsgV::TestsAndCompletionsForUser(
                    match res {
                        Ok(list) => Ok(list.deep_view()),
                        Err(e) => Err(e@),
                    },
                )
            },
        }
    }
}

impl DeepView for ServerToClientMsg {
    type V = ServerToClientMsgV;

    open spec fn deep_view(&self) -> ServerToClientMsgV {
        self.view()
    }
}

/// Every date carried by the completions names a day that exists.
pub open spec fn completions_wf(cs: Seq<CompletionDataV>) -> bool {
    forall|k: int|
        0 <= k < cs.len() ==> ((#[trigger] cs[k]).date matches Some(d) ==> d.wf())
}

/// Every date carried by the list names a day that exists.
pub open spec fn tacs_wf(ts: Seq<TestAndCompletionsV>) -> bool {
    forall|k: int| 0 <= k < ts.len() ==> completions_wf((#[trigger] ts[k]).1)
}

impl ServerToClientMsgV {
    /// Every date carried by the message names a day that exists.
    pub open spec fn wf(self) -> bool {
        match self {
            ServerToClientMsgV::AuthenticationResponse(_) => true,
            ServerToClientMsgV::TestsAndCompletionsForUser(res) => match res {
                Ok(list) => tacs_wf(list),
                Err(_) => true,
            },
        }
    }
}

} // verus!
