//! The stored records of the server's data layer.

use vstd::prelude::*;
use crate::protocol::Date;
use crate::protocol::User as SharedUser;

verus! {

/// A stored user record.
#[derive(Clone, Debug, PartialEq)]
pub struct User {
    /// The ID of the user.
    pub id: String,

    /// The username of the user, case-folded to lowercase.
    pub username: String,

    /// The hashed password of the user, hashed with Argon2id.
    pub hashed_password: String,
}

/// The data needed to insert a user.
#[derive(Clone, Debug, PartialEq)]
pub struct NewUser {
    /// The username of the user, case-folded to lowercase.
    pub username: String,

    /// The hashed password of the user, hashed with Argon2id.
    pub hashed_password: String,
}

/// A stored test record.
#[derive(Clone, Debug, PartialEq)]
pub struct Test {
    /// Unique ID.
    pub id: i32,

    /// The subject of the test: maths, English, science, etc.
    pub subject: String,

    /// The topic of the test: statistics, Shakespeare, organic chemistry, etc.
    pub topic: Option<String>,

    /// The date or ID of the test: Monday 3 June 2019, Mock Set 1, etc.
    pub date_or_id: String,

    /// The qualification level of the test: GCSE, A Level, etc.
    pub qualification_level: Option<String>,

    /// The exam board for the test: Edexcel, AQA, OCR, etc.
    pub exam_board: Option<String>,

    /// A link to the paper.
    pub paper_link: Option<String>,

    /// A link to the mark scheme.
    pub mark_scheme_link: Option<String>,

    /// Any extra comments.
    pub comments: Option<String>,

    /// The ID of the user that owns this test.
    pub user_id: String,
}

/// A stored completion record.
#[derive(Clone, Debug, PartialEq)]
pub struct Completion {
    /// Unique ID.
    pub id: i32,

    /// The mark that was actually achieved.
    pub achieved_mark: i32,

    /// The total marks available.
    pub total_marks: i32,

    /// The date of the completion.
    pub date: Option<Date>,

    /// Any extra comments.
    pub comments: Option<String>,

    /// The ID of the test that this completion belongs to.
    pub test_id: i32,
}

impl From<User> for SharedUser {
    /// The public projection of a stored user: the password hash stays
    /// behind.
    fn from(value: User) -> (r: Self) {
        let User { id, username, .. } = value;
        SharedUser { id, username }
    }
}

impl vstd::std_specs::convert::FromSpecImpl<User> for SharedUser {
    open spec fn obeys_from_spec() -> bool {
        true
    }

    open spec fn from_spec(t: User) -> Self {
        SharedUser { id: t.id, username: t.username }
    }
}

} // verus!
