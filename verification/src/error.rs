//! The error taxonomy carried inside responses, shared by server and client.

use vstd::prelude::*;

verus! {

/// The error type that both halves of the application exchange on the wire.
#[derive(Clone, Debug, PartialEq)]
pub enum Error {
    /// An error occurred in accessing the store.
    DatabaseError(DieselError),

    /// The given password didn't match.
    InvalidPassword,

    /// An error occurred when trying to hash the user's password.
    HashingError(String),
}

/// An error that comes from the database layer.
#[derive(Clone, Debug, PartialEq)]
pub enum DieselError {
    /// A query that was meant to return something actually returned nothing.
    NotFound,

    /// A duplicate key value violates a uniqueness constraint.
    /// The values are (message, details, hint).
    UniqueViolation(String, Option<String>, Option<String>),

    /// Some other error occurred.
    Other(String),
}

/// The mathematical shape of an [`Error`]: strings become character
/// sequences, so contracts can speak of the contents alone.
pub enum ErrorV {
    DatabaseError(DieselErrorV),
    InvalidPassword,
    HashingError(Seq<char>),
}

/// The mathematical shape of a [`DieselError`].
pub enum DieselErrorV {
    NotFound,
    UniqueViolation(Seq<char>, Option<Seq<char>>, Option<Seq<char>>),
    Other(Seq<char>),
}

impl View for DieselError {
    type V = DieselErrorV;

    open spec fn view(&self) -> DieselErrorV {
        match self {
            DieselError::NotFound => DieselErrorV::NotFound,
            DieselError::UniqueViolation(m, d, h) => DieselErrorV::UniqueViolation(
                m@,
                match d {
                    Some(s) => Some(s@),
                    None => None,
                },
                match h {
                    Some(s) => Some(s@),
                    None => None,
                },
            ),
            DieselError::Other(m) => DieselErrorV::Other(m@),
        }
    }
}

impl DeepView for DieselError {
    type V = DieselErrorV;

    open spec fn deep_view(&self) -> DieselErrorV {
        self.view()
    }
}

impl View for Error {
    type V = ErrorV;

    open spec fn view(&self) -> ErrorV {
        match self {
            Error::DatabaseError(e) => ErrorV::DatabaseError(e@),
            Error::InvalidPassword => ErrorV::InvalidPassword,
            Error::HashingError(m) => ErrorV::HashingError(m@),
        }
    }
}

impl DeepView for Error {
    type V = ErrorV;

    open spec fn deep_view(&self) -> ErrorV {
        self.view()
    }
}

} // verus!
