//! A small study-tracking service: users create accounts and log in, then
//! retrieve the tests they have recorded together with the completions
//! (marks, dates, comments) of each test. The crate holds the shared
//! message schema, a text codec for it, the credential and record stores,
//! the server-side request handler, and the client session state machine.

pub mod codec;
pub mod decode;
pub mod encode;
pub mod error;
pub mod handler;
pub mod login_form;
pub mod models;
pub mod navbar;
pub mod passwords;
pub mod protocol;
pub mod roundtrip;
pub mod session;
pub mod tests_and_completions;
pub mod text;
