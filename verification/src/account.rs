//! The account operations: availability check, registration, password change,
//! deactivation, who-am-I and third-party identifiers.
//!
//! Each operation that needs the host is a transition function. It is called
//! first with [`Reply::Start`](crate::host::Reply) and the operation's initial
//! state, and then again with the reply to each effect it asked for and the
//! state it returned, until it returns something other than an effect.

pub mod availability;
pub mod deactivate;
pub mod password;
pub mod register;
pub mod third_party;
pub mod whoami;

use vstd::prelude::*;
use crate::database::Database;
use crate::error::{Error, ErrorKind, ErrorView};
use crate::host::{reply_error, error_of_reply, Effect, EffectView, Reply};
use crate::uiaa::{
    auth_result_view, create_spec, needs_verdict, try_auth_spec, AuthData, AuthFlow, AuthType,
    UiaaInfo, UiaaInfoView, UiaaView, Verdict, VerdictView,
};

verus! {

/// How far the authentication of a request has come.
pub enum Gate {
    /// A verifier has to judge the attempt first.
    Ask(Effect),
    /// Authentication is complete.
    Passed,
    /// Authentication is not complete; the client gets this challenge.
    Challenge(UiaaInfo),
    /// The request is turned down.
    Failure(Error),
}

/// The mathematical value of a [`Gate`].
pub enum GateView {
    Ask(EffectView),
    Passed,
    Challenge(UiaaInfoView),
    Failure(ErrorView),
}

impl View for Gate {
    type V = GateView;

    open spec fn view(&self) -> GateView {
        match self {
            Gate::Ask(effect) => GateView::Ask(effect@),
            Gate::Passed => GateView::Passed,
            Gate::Challenge(info) => GateView::Challenge(info@),
            Gate::Failure(error) => GateView::Failure(error@),
        }
    }
}

/// The challenge that an operation gated by the single stage `stage` opens
/// with: one flow of that one stage, and `session` as the token of the
/// session the challenge would open.
pub open spec fn challenge_for(stage: AuthType, session: Seq<char>) -> UiaaInfoView {
    UiaaInfoView {
        flows: seq![seq![stage]],
        completed: Seq::empty(),
        params: Seq::empty(),
        session: Some(session),
        auth_error: None,
    }
}

/// The challenge that an operation gated by the single stage `stage` opens with.
pub fn challenge(stage: AuthType, session: &str) -> (res: UiaaInfo)
    ensures
        res@ == challenge_for(stage, session@),
{
    let mut stages: Vec<AuthType> = Vec::new();
    stages.push(stage);
    let mut flows: Vec<AuthFlow> = Vec::new();
    flows.push(AuthFlow { stages });
    let mut info = UiaaInfo::new(flows);
    info.session = Some(session.to_owned());
    assert(info@.flows =~= seq![seq![stage]]);
    info
}

/// What an answer of the engine means for the request.
pub open spec fn gate_of_answer(answer: Result<(bool, UiaaInfoView), ErrorView>) -> GateView {
    match answer {
        Ok((true, _)) => GateView::Passed,
        Ok((false, info)) => GateView::Challenge(info),
        Err(error) => GateView::Failure(error),
    }
}

/// The first step of authentication. A request with an attempt whose answer
/// hangs on a verifier asks the host for the verdict; any other attempt is
/// answered by the engine at once. A request without authentication data
/// opens a session and gets its challenge, if it has a JSON body, and is
/// turned down if it has none.
pub open spec fn gate_begin_spec(
    store: UiaaView,
    user_id: Seq<char>,
    device_id: Seq<char>,
    auth: Option<AuthData>,
    json_body: Option<String>,
    template: UiaaInfoView,
) -> (UiaaView, GateView) {
    match auth {
        Some(auth) => if needs_verdict(store, auth@, template) {
            let (stage, payload) = auth@.attempt->0;
            (store, GateView::Ask(EffectView::VerifyCredential { stage, user_id, payload }))
        } else {
            let after = try_auth_spec(
                store,
                user_id,
                device_id,
                auth@,
                template,
                VerdictView::Accepted,
            );
            (after.0, gate_of_answer(after.1))
        },
        None => match json_body {
            Some(json) => {
                let after = create_spec(store, user_id, device_id, template, json@);
                (after.0, GateView::Challenge(after.1))
            },
            None => (store, GateView::Failure(ErrorView::BadRequest(ErrorKind::NotJson, "Not json."@))),
        },
    }
}

/// The second step of authentication: the engine applies the attempt with the
/// verdict that the host came back with.
pub open spec fn gate_finish_spec(
    store: UiaaView,
    user_id: Seq<char>,
    device_id: Seq<char>,
    auth: Option<AuthData>,
    template: UiaaInfoView,
    reply: Reply,
) -> (UiaaView, GateView) {
    match (auth, reply) {
        (Some(auth), Reply::Verdict(verdict)) => {
            let after = try_auth_spec(store, user_id, device_id, auth@, template, verdict@);
            (after.0, gate_of_answer(after.1))
        },
        _ => (store, GateView::Failure(reply_error(reply))),
    }
}

fn gate_of(answer: Result<(bool, UiaaInfo), Error>) -> (res: Gate)
    ensures
        res@ == gate_of_answer(auth_result_view(answer)),
{
    match answer {
        Ok((true, _)) => Gate::Passed,
        Ok((false, info)) => Gate::Challenge(info),
        Err(error) => Gate::Failure(error),
    }
}

/// The first step of authentication for the request of `user_id` on
/// `device_id`, gated by the challenge `template`.
pub fn gate_begin(
    db: &mut Database,
    user_id: &str,
    device_id: &str,
    auth: &Option<AuthData>,
    json_body: &Option<String>,
    template: &UiaaInfo,
) -> (res: Gate)
    requires
        old(db).wf(),
        template.session is Some,
    ensures
        final(db).wf(),
        final(db).globals == old(db).globals,
        (final(db)@.uiaa, res@) == gate_begin_spec(
            old(db)@.uiaa,
            user_id@,
            device_id@,
            *auth,
            *json_body,
            template@,
        ),
{
    match auth {
        Some(auth) => {
            if db.uiaa.needs_verdict(auth, template) {
                match &auth.attempt {
                    Some(attempt) => Gate::Ask(
                        Effect::VerifyCredential {
                            stage: attempt.stage,
                            user_id: user_id.to_owned(),
                            payload: attempt.payload.clone(),
                        },
                    ),
                    None => Gate::Failure(Error::UnknownStage),
                }
            } else {
                gate_of(db.uiaa.try_auth(user_id, device_id, auth, template, &Verdict::Accepted))
            }
        },
        None => match json_body {
            Some(json) => Gate::Challenge(db.uiaa.create(user_id, device_id, template, json.as_str())),
            None => Gate::Failure(Error::BadRequest(ErrorKind::NotJson, "Not json.".to_owned())),
        },
    }
}

/// The second step of authentication, with the host's reply to the question
/// that the first step asked.
pub fn gate_finish(
    db: &mut Database,
    user_id: &str,
    device_id: &str,
    auth: &Option<AuthData>,
    template: &UiaaInfo,
    reply: Reply,
) -> (res: Gate)
    requires
        old(db).wf(),
    ensures
        final(db).wf(),
        final(db).globals == old(db).globals,
        (final(db)@.uiaa, res@) == gate_finish_spec(
            old(db)@.uiaa,
            user_id@,
            device_id@,
            *auth,
            template@,
            reply,
        ),
{
    match (auth, reply) {
        (Some(auth), Reply::Verdict(verdict)) => gate_of(
            db.uiaa.try_auth(user_id, device_id, auth, template, &verdict),
        ),
        (_, reply) => Gate::Failure(error_of_reply(reply)),
    }
}

/// `head`, `user_id` and `tail` in one text: the notice for the admin room.
pub fn notice(head: &str, user_id: &str, tail: &str) -> (res: String)
    ensures
        res@ == head@ + user_id@ + tail@,
{
    let mut text = head.to_owned();
    text.append(user_id);
    text.append(tail);
    text
}

} // verus!
