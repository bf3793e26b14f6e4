//! Who the caller is.

use vstd::prelude::*;
use crate::error::ErrorView;
use crate::host::{error_of_reply, reply_error, Effect, EffectView, Reply, Step, StepView};

verus! {

/// A request for the caller's own identity.
#[derive(Debug)]
pub struct WhoamiRequest {
    /// The caller, as the transport layer authenticated them.
    pub sender_user: Option<String>,
    pub sender_device: Option<String>,
}

/// The caller's identity.
#[derive(Debug, PartialEq, Eq)]
pub struct WhoamiResponse {
    pub user_id: String,
    pub device_id: Option<String>,
    pub is_guest: bool,
}

/// The mathematical value of a [`WhoamiResponse`].
pub struct WhoamiResponseView {
    pub user_id: Seq<char>,
    pub device_id: Option<Seq<char>>,
    pub is_guest: bool,
}

impl View for WhoamiResponse {
    type V = WhoamiResponseView;

    open spec fn view(&self) -> WhoamiResponseView {
        WhoamiResponseView {
            user_id: self.user_id@,
            device_id: self.device_id.deep_view(),
            is_guest: self.is_guest,
        }
    }
}

/// Where the lookup stands.
#[derive(Clone, Copy, PartialEq, Eq, Structural, Debug)]
pub enum WhoamiState {
    Start,
    /// The identity store was asked for the account's status.
    Looking,
    Finished,
}

/// One step of the lookup: it asks the identity store for the status of the
/// caller's account, and answers with the caller's user id, device and that
/// status.
pub open spec fn whoami_next(body: WhoamiRequest, state: WhoamiState, reply: Reply) -> (
    WhoamiState,
    StepView<WhoamiResponseView>,
) {
    let user_id = body.sender_user->0@;
    match state {
        WhoamiState::Start => (
            WhoamiState::Looking,
            StepView::Perform(EffectView::IsDeactivated { user_id }),
        ),
        WhoamiState::Looking => match reply {
            Reply::Flag(status) => (
                WhoamiState::Finished,
                StepView::Success(
                    WhoamiResponseView {
                        user_id,
                        device_id: body.sender_device.deep_view(),
                        is_guest: status,
                    },
                ),
            ),
            _ => (WhoamiState::Finished, StepView::Failure(reply_error(reply))),
        },
        WhoamiState::Finished => (
            WhoamiState::Finished,
            StepView::Failure(ErrorView::Internal("unexpected reply"@)),
        ),
    }
}

/// Looks up the identity of the authenticated caller.
pub fn whoami_route(body: &WhoamiRequest, state: WhoamiState, reply: Reply) -> (res: (
    WhoamiState,
    Step<WhoamiResponse>,
))
    requires
        body.sender_user is Some,
    ensures
        (res.0, res.1@) == whoami_next(*body, state, reply),
{
    let user_id = match &body.sender_user {
        Some(user_id) => user_id.clone(),
        None => String::new(),
    };
    match state {
        WhoamiState::Start => (
            WhoamiState::Looking,
            Step::Perform(Effect::IsDeactivated { user_id }),
        ),
        WhoamiState::Looking => match reply {
            Reply::Flag(status) => (
                WhoamiState::Finished,
                Step::Success(
                    WhoamiResponse {
                        user_id,
                        device_id: body.sender_device.clone(),
                        is_guest: status,
                    },
                ),
            ),
            other => (WhoamiState::Finished, Step::Failure(error_of_reply(other))),
        },
        WhoamiState::Finished => (
            WhoamiState::Finished,
            Step::Failure(error_of_reply(Reply::Start)),
        ),
    }
}

} // verus!
