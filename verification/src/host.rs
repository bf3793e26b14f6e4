//! What the core asks of its host, and what the host answers.
//!
//! Storage, event building and the admin channel belong to the host. An
//! account operation names the one thing it needs next as an [`Effect`]; the
//! host carries it out and hands the [`Reply`] to the operation's next step.

use vstd::prelude::*;
use crate::error::{Error, ErrorView};
use crate::events::{PduBuilder, PduBuilderView};
use crate::uiaa::{AuthType, UiaaInfo, UiaaInfoView, Verdict};

verus! {

/// One request to a collaborator of the host.
#[derive(Debug, PartialEq, Eq)]
#[allow(inconsistent_fields)]
pub enum Effect {
    /// Identity store: is there an account with this id? Answered by `Flag`.
    UserExists { user_id: String },
    /// Identity store: is this account deactivated? Answered by `Flag`.
    IsDeactivated { user_id: String },
    /// Credential verifier of `stage`: judge `payload` for `user_id`.
    /// Answered by `Verdict`.
    VerifyCredential { stage: AuthType, user_id: String, payload: String },
    /// Identity store: create the account, with a credential or without.
    CreateUser { user_id: String, password: Option<String> },
    /// Identity store: set the account's display name.
    SetDisplayname { user_id: String, displayname: Option<String> },
    /// Account-data store: store `content` as the user's data of `event_type`,
    /// for one room or for all.
    UpdateAccountData { room_id: Option<String>, user_id: String, event_type: String, content: String },
    /// Identity store: register a device with its access token.
    CreateDevice { user_id: String, device_id: String, token: String, initial_device_display_name: Option<String> },
    /// Admin notifier: send a notice. Never fails the operation.
    SendAdminNotice { body: String },
    /// Identity store: how many accounts are there? Answered by `Count`.
    CountUsers,
    /// Grant the account administrative privileges.
    MakeUserAdmin { user_id: String, displayname: String },
    /// Make what was written durable.
    Flush,
    /// Identity store: replace the account's credential.
    SetPassword { user_id: String, password: Option<String> },
    /// Identity store: the ids of the account's devices. Answered by `Names`.
    AllDeviceIds { user_id: String },
    /// Identity store: revoke the device, its token and its metadata.
    RemoveDevice { user_id: String, device_id: String },
    /// Membership store: the rooms the user has joined. Answered by `Names`.
    RoomsJoined { user_id: String },
    /// Membership store: the rooms the user is invited to. Answered by `Names`.
    RoomsInvited { user_id: String },
    /// Suspend until the guard of `room_id` has been released.
    AwaitRoom { room_id: String },
    /// Event-append collaborator: build, authorize and commit the event in
    /// `room_id`. The operation holds the room's guard while this is out.
    BuildAndAppendPdu { pdu: PduBuilder, sender: String, room_id: String },
    /// Identity store: remove the account's devices and credential and mark
    /// it deactivated for good.
    DeactivateAccount { user_id: String },
}

/// The mathematical value of an [`Effect`].
#[allow(inconsistent_fields)]
pub enum EffectView {
    UserExists { user_id: Seq<char> },
    IsDeactivated { user_id: Seq<char> },
    VerifyCredential { stage: AuthType, user_id: Seq<char>, payload: Seq<char> },
    CreateUser { user_id: Seq<char>, password: Option<Seq<char>> },
    SetDisplayname { user_id: Seq<char>, displayname: Option<Seq<char>> },
    UpdateAccountData {
        room_id: Option<Seq<char>>,
        user_id: Seq<char>,
        event_type: Seq<char>,
        content: Seq<char>,
    },
    CreateDevice {
        user_id: Seq<char>,
        device_id: Seq<char>,
        token: Seq<char>,
        initial_device_display_name: Option<Seq<char>>,
    },
    SendAdminNotice { body: Seq<char> },
    CountUsers,
    MakeUserAdmin { user_id: Seq<char>, displayname: Seq<char> },
    Flush,
    SetPassword { user_id: Seq<char>, password: Option<Seq<char>> },
    AllDeviceIds { user_id: Seq<char> },
    RemoveDevice { user_id: Seq<char>, device_id: Seq<char> },
    RoomsJoined { user_id: Seq<char> },
    RoomsInvited { user_id: Seq<char> },
    AwaitRoom { room_id: Seq<char> },
    BuildAndAppendPdu { pdu: PduBuilderView, sender: Seq<char>, room_id: Seq<char> },
    DeactivateAccount { user_id: Seq<char> },
}

impl View for Effect {
    type V = EffectView;

    open spec fn view(&self) -> EffectView {
        match self {
            Effect::UserExists { user_id } => EffectView::UserExists { user_id: user_id@ },
            Effect::IsDeactivated { user_id } => EffectView::IsDeactivated { user_id: user_id@ },
            Effect::VerifyCredential { stage, user_id, payload } => EffectView::VerifyCredential {
                stage: *stage,
                user_id: user_id@,
                payload: payload@,
            },
            Effect::CreateUser { user_id, password } => EffectView::CreateUser {
                user_id: user_id@,
                password: password.deep_view(),
            },
            Effect::SetDisplayname { user_id, displayname } => EffectView::SetDisplayname {
                user_id: user_id@,
                displayname: displayname.deep_view(),
            },
            Effect::UpdateAccountData {
                room_id,
                user_id,
                event_type,
                content,
            } => EffectView::UpdateAccountData {
                room_id: room_id.deep_view(),
                user_id: user_id@,
                event_type: event_type@,
                content: content@,
            },
            Effect::CreateDevice {
                user_id,
                device_id,
                token,
                initial_device_display_name,
            } => EffectView::CreateDevice {
                user_id: user_id@,
                device_id: device_id@,
                token: token@,
                initial_device_display_name: initial_device_display_name.deep_view(),
            },
            Effect::SendAdminNotice { body } => EffectView::SendAdminNotice { body: body@ },
            Effect::CountUsers => EffectView::CountUsers,
            Effect::MakeUserAdmin { user_id, displayname } => EffectView::MakeUserAdmin {
                user_id: user_id@,
                displayname: displayname@,
            },
            Effect::Flush => EffectView::Flush,
            Effect::SetPassword { user_id, password } => EffectView::SetPassword {
                user_id: user_id@,
                password: password.deep_view(),
            },
            Effect::AllDeviceIds { user_id } => EffectView::AllDeviceIds { user_id: user_id@ },
            Effect::RemoveDevice { user_id, device_id } => EffectView::RemoveDevice {
                user_id: user_id@,
                device_id: device_id@,
            },
            Effect::RoomsJoined { user_id } => EffectView::RoomsJoined { user_id: user_id@ },
            Effect::RoomsInvited { user_id } => EffectView::RoomsInvited { user_id: user_id@ },
            Effect::AwaitRoom { room_id } => EffectView::AwaitRoom { room_id: room_id@ },
            Effect::BuildAndAppendPdu { pdu, sender, room_id } => EffectView::BuildAndAppendPdu {
                pdu: pdu@,
                sender: sender@,
                room_id: room_id@,
            },
            Effect::DeactivateAccount { user_id } => EffectView::DeactivateAccount {
                user_id: user_id@,
            },
        }
    }
}

/// What the host hands to a step of an operation.
#[derive(Debug, PartialEq, Eq)]
pub enum Reply {
    /// Nothing yet: the operation begins.
    Start,
    /// The effect was carried out.
    Done,
    /// The collaborator failed, for this reason.
    Failed(String),
    /// The answer to a yes-or-no question.
    Flag(bool),
    /// The answer to `CountUsers`.
    Count(u64),
    /// The answer to a listing.
    Names(Vec<String>),
    /// The answer to `VerifyCredential`.
    Verdict(Verdict),
}

/// Where an operation stands after a step: it needs an effect, or it is over
/// in one of three ways.
#[derive(Debug, PartialEq, Eq)]
pub enum Step<R> {
    /// The host is to carry this out and come back with the reply.
    Perform(Effect),
    /// The operation is done.
    Success(R),
    /// Authentication is not complete. This is no failure: nothing was
    /// changed but the session, and the client is expected to go on from the
    /// challenge.
    Challenge(UiaaInfo),
    /// The operation was aborted.
    Failure(Error),
}

/// The mathematical value of a [`Step`].
pub enum StepView<V> {
    Perform(EffectView),
    Success(V),
    Challenge(UiaaInfoView),
    Failure(ErrorView),
}

impl<R: View> View for Step<R> {
    type V = StepView<R::V>;

    open spec fn view(&self) -> StepView<R::V> {
        match self {
            Step::Perform(effect) => StepView::Perform(effect@),
            Step::Success(response) => StepView::Success(response@),
            Step::Challenge(info) => StepView::Challenge(info@),
            Step::Failure(error) => StepView::Failure(error@),
        }
    }
}

/// The error for a reply that does not let the operation go on: the
/// collaborator's own reason where it failed, and a fixed one where the reply
/// is of the wrong kind.
pub open spec fn reply_error(reply: Reply) -> ErrorView {
    match reply {
        Reply::Failed(reason) => ErrorView::Internal(reason@),
        _ => ErrorView::Internal("unexpected reply"@),
    }
}

/// The error for a reply that does not let the operation go on.
pub fn error_of_reply(reply: Reply) -> (res: Error)
    ensures
        res@ == reply_error(reply),
{
    match reply {
        Reply::Failed(reason) => Error::Internal(reason),
        _ => Error::Internal("unexpected reply".to_owned()),
    }
}

} // verus!
