//! Failures that the account operations report.

use vstd::prelude::*;

verus! {

/// The machine-readable code of a rejected request.
#[derive(Clone, Copy, PartialEq, Eq, Structural, Debug)]
pub enum ErrorKind {
    /// The caller may not do this, or a credential was wrong.
    Forbidden,
    /// The desired identifier is malformed or belongs to another server.
    InvalidUsername,
    /// The desired identifier is already taken.
    UserInUse,
    /// The request carried no JSON body.
    NotJson,
    /// A required field is missing.
    MissingParam,
}

/// An error code together with its human-readable message.
#[derive(Debug, PartialEq, Eq)]
pub struct StandardErrorBody {
    pub kind: ErrorKind,
    pub message: String,
}

impl View for StandardErrorBody {
    type V = (ErrorKind, Seq<char>);

    open spec fn view(&self) -> (ErrorKind, Seq<char>) {
        (self.kind, self.message@)
    }
}

impl Clone for StandardErrorBody {
    fn clone(&self) -> (res: Self)
        ensures
            res == *self,
    {
        StandardErrorBody { kind: self.kind, message: self.message.clone() }
    }
}

/// Why an operation was aborted.
#[derive(Debug, PartialEq, Eq)]
pub enum Error {
    /// The request itself is at fault.
    BadRequest(ErrorKind, String),
    /// The session token names no stored authentication session.
    SessionNotFound,
    /// No verifier is registered for the attempted stage type.
    UnknownStage,
    /// A storage collaborator failed, or answered out of turn.
    Internal(String),
    /// Appending the leave event to `room_id` failed after the rooms in
    /// `left` had already been left; those leaves stay committed.
    LeaveFailed { left: Vec<String>, room_id: String, reason: String },
}

/// The mathematical value of an [`Error`].
pub enum ErrorView {
    BadRequest(ErrorKind, Seq<char>),
    SessionNotFound,
    UnknownStage,
    Internal(Seq<char>),
    LeaveFailed { left: Seq<Seq<char>>, room_id: Seq<char>, reason: Seq<char> },
}

impl View for Error {
    type V = ErrorView;

    open spec fn view(&self) -> ErrorView {
        match self {
            Error::BadRequest(kind, message) => ErrorView::BadRequest(*kind, message@),
            Error::SessionNotFound => ErrorView::SessionNotFound,
            Error::UnknownStage => ErrorView::UnknownStage,
            Error::Internal(reason) => ErrorView::Internal(reason@),
            Error::LeaveFailed { left, room_id, reason } => ErrorView::LeaveFailed {
                left: left.deep_view(),
                room_id: room_id@,
                reason: reason@,
            },
        }
    }
}

} // verus!
