//! Whether a desired user name is valid and free.

use vstd::prelude::*;
use crate::database::{Database, DatabaseView};
use crate::error::{Error, ErrorKind, ErrorView};
use crate::host::{error_of_reply, reply_error, Effect, EffectView, Reply, Step, StepView};
use crate::identifiers::{local_user_id, local_user_id_spec};

verus! {

/// A request to check a desired user name.
#[derive(Debug)]
pub struct AvailabilityRequest {
    pub username: String,
}

/// The answer to an availability check. The name is not reserved by it.
#[derive(Clone, Copy, PartialEq, Eq, Structural, Debug)]
pub struct AvailabilityResponse {
    pub available: bool,
}

impl View for AvailabilityResponse {
    type V = AvailabilityResponse;

    open spec fn view(&self) -> AvailabilityResponse {
        *self
    }
}

/// Where the check stands.
#[derive(Clone, Copy, PartialEq, Eq, Structural, Debug)]
pub enum AvailabilityState {
    Start,
    /// The identity store was asked whether the account exists.
    Checking,
    Finished,
}

/// One step of the check. The name must stand for an account of this server;
/// then the identity store is asked whether that account exists, and the name
/// is available exactly when it does not.
pub open spec fn availability_next(
    db: DatabaseView,
    body: AvailabilityRequest,
    state: AvailabilityState,
    reply: Reply,
) -> (AvailabilityState, StepView<AvailabilityResponse>) {
    match state {
        AvailabilityState::Start => match local_user_id_spec(body.username@, db.server_name) {
            Some(user_id) => (
                AvailabilityState::Checking,
                StepView::Perform(EffectView::UserExists { user_id }),
            ),
            None => (
                AvailabilityState::Finished,
                StepView::Failure(
                    ErrorView::BadRequest(ErrorKind::InvalidUsername, "Username is invalid."@),
                ),
            ),
        },
        AvailabilityState::Checking => match reply {
            Reply::Flag(true) => (
                AvailabilityState::Finished,
                StepView::Failure(
                    ErrorView::BadRequest(
                        ErrorKind::UserInUse,
                        "Desired user ID is already taken."@,
                    ),
                ),
            ),
            Reply::Flag(false) => (
                AvailabilityState::Finished,
                StepView::Success(AvailabilityResponse { available: true }),
            ),
            _ => (AvailabilityState::Finished, StepView::Failure(reply_error(reply))),
        },
        AvailabilityState::Finished => (
            AvailabilityState::Finished,
            StepView::Failure(ErrorView::Internal("unexpected reply"@)),
        ),
    }
}

/// Checks whether a user name is valid and free on this server. The shared
/// state is only read.
pub fn get_register_available_route(
    db: &Database,
    body: &AvailabilityRequest,
    state: AvailabilityState,
    reply: Reply,
) -> (res: (AvailabilityState, Step<AvailabilityResponse>))
    ensures
        (res.0, res.1@) == availability_next(db@, *body, state, reply),
{
    match state {
        AvailabilityState::Start => match local_user_id(
            body.username.as_str(),
            db.globals.server_name.as_str(),
        ) {
            Some(user_id) => (
                AvailabilityState::Checking,
                Step::Perform(Effect::UserExists { user_id }),
            ),
            None => (
                AvailabilityState::Finished,
                Step::Failure(
                    Error::BadRequest(
                        ErrorKind::InvalidUsername,
                        "Username is invalid.".to_owned(),
                    ),
                ),
            ),
        },
        AvailabilityState::Checking => match reply {
            Reply::Flag(true) => (
                AvailabilityState::Finished,
                Step::Failure(
                    Error::BadRequest(
                        ErrorKind::UserInUse,
                        "Desired user ID is already taken.".to_owned(),
                    ),
                ),
            ),
            Reply::Flag(false) => (
                AvailabilityState::Finished,
                Step::Success(AvailabilityResponse { available: true }),
            ),
            other => (AvailabilityState::Finished, Step::Failure(error_of_reply(other))),
        },
        AvailabilityState::Finished => (
            AvailabilityState::Finished,
            Step::Failure(error_of_reply(Reply::Start)),
        ),
    }
}

/// The check changes nothing: whatever the state and the reply, the only
/// thing it ever asks of the host is whether an account exists.
pub proof fn lemma_availability_only_reads(
    db: DatabaseView,
    body: AvailabilityRequest,
    state: AvailabilityState,
    reply: Reply,
)
    ensures
        availability_next(db, body, state, reply).1 matches StepView::Perform(effect)
            ==> effect is UserExists,
{
}

/// Asking again is answered the same way: the answer of a step is a function
/// of the request, the server's name and the reply alone, so an earlier check
/// leaves no trace in a later one.
pub proof fn lemma_availability_is_repeatable(
    db: DatabaseView,
    other: DatabaseView,
    body: AvailabilityRequest,
    state: AvailabilityState,
    reply: Reply,
)
    requires
        db.server_name == other.server_name,
    ensures
        availability_next(db, body, state, reply) == availability_next(other, body, state, reply),
{
}

} // verus!
