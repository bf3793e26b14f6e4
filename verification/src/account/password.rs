//! Change of an account's password.

use vstd::prelude::*;
use crate::account::{
    challenge, challenge_for, gate_begin, gate_begin_spec, gate_finish, gate_finish_spec, notice,
    Gate, GateView,
};
use crate::database::{Database, DatabaseView};
use crate::error::{Error, ErrorView};
use crate::host::{error_of_reply, reply_error, Effect, EffectView, Reply, Step, StepView};
use crate::uiaa::{AuthData, AuthType, UiaaInfoView};

verus! {

/// A request to change the caller's password.
#[derive(Debug)]
pub struct ChangePasswordRequest {
    pub new_password: String,
    /// Whether the caller's other devices are to be logged out.
    pub logout_devices: bool,
    pub auth: Option<AuthData>,
    /// The caller, as the transport layer authenticated them.
    pub sender_user: Option<String>,
    pub sender_device: Option<String>,
    /// The request's body as it came, if it was JSON.
    pub json_body: Option<String>,
    /// A random token that the host drew for an authentication session.
    pub fresh_session: String,
}

/// The answer to a successful change of password.
#[derive(Clone, Copy, PartialEq, Eq, Structural, Debug)]
pub struct ChangePasswordResponse {}

impl View for ChangePasswordResponse {
    type V = ChangePasswordResponse;

    open spec fn view(&self) -> ChangePasswordResponse {
        *self
    }
}

/// What the change of password is waiting for.
#[derive(Clone, Copy, PartialEq, Eq, Structural, Debug)]
pub enum PasswordPhase {
    Start,
    /// A verifier's verdict.
    Verifying,
    SettingPassword,
    /// The list of the caller's devices.
    ListingDevices,
    RemovingDevices,
    Flushing,
    Notifying,
    Finished,
}

/// Where a change of password stands.
#[derive(Debug)]
pub struct PasswordState {
    phase: PasswordPhase,
    /// The devices to log out, and how many of them have been dealt with.
    devices: Vec<String>,
    next: usize,
}

/// The mathematical value of a [`PasswordState`].
pub struct PasswordStateView {
    pub phase: PasswordPhase,
    /// The devices that are still to be logged out, in order.
    pub pending: Seq<Seq<char>>,
}

impl View for PasswordState {
    type V = PasswordStateView;

    closed spec fn view(&self) -> PasswordStateView {
        PasswordStateView {
            phase: self.phase,
            pending: if self.next <= self.devices@.len() {
                self.devices.deep_view().skip(self.next as int)
            } else {
                Seq::empty()
            },
        }
    }
}

impl PasswordState {
    /// The state a change of password begins in.
    pub fn new() -> (res: PasswordState)
        ensures
            res@ == start(),
    {
        let res = PasswordState { phase: PasswordPhase::Start, devices: Vec::new(), next: 0 };
        assert(res@.pending =~= Seq::empty());
        res
    }

    /// What the change of password is waiting for.
    pub fn phase(&self) -> (res: PasswordPhase)
        ensures
            res == self@.phase,
    {
        self.phase
    }
}

/// The state a change of password begins in.
pub open spec fn start() -> PasswordStateView {
    PasswordStateView { phase: PasswordPhase::Start, pending: Seq::empty() }
}

/// `state`, over.
pub open spec fn finished(state: PasswordStateView) -> PasswordStateView {
    PasswordStateView { phase: PasswordPhase::Finished, ..state }
}

/// `state`, waiting for something else.
pub open spec fn waiting(state: PasswordStateView, phase: PasswordPhase) -> PasswordStateView {
    PasswordStateView { phase, ..state }
}

/// `ids` without `own`, in the same order.
pub open spec fn without(ids: Seq<Seq<char>>, own: Seq<char>) -> Seq<Seq<char>>
    decreases ids.len(),
{
    if ids.len() == 0 {
        ids
    } else if ids.last() == own {
        without(ids.drop_last(), own)
    } else {
        without(ids.drop_last(), own).push(ids.last())
    }
}

/// The caller.
pub open spec fn sender(body: ChangePasswordRequest) -> Seq<char> {
    body.sender_user->0@
}

/// The challenge that gates a change of password: proof of the password.
pub open spec fn password_challenge(body: ChangePasswordRequest) -> UiaaInfoView {
    challenge_for(AuthType::Password, body.fresh_session@)
}

/// The notice that tells the admin room of the change.
pub open spec fn changed_notice(user_id: Seq<char>) -> Seq<char> {
    "User "@ + user_id + " changed their password."@
}

/// The step that follows from where authentication stands: once it is
/// complete, the new password is stored.
pub open spec fn through_gate(gate: GateView, body: ChangePasswordRequest, state: PasswordStateView) -> (
    PasswordStateView,
    StepView<ChangePasswordResponse>,
) {
    match gate {
        GateView::Ask(effect) => (
            waiting(state, PasswordPhase::Verifying),
            StepView::Perform(effect),
        ),
        GateView::Passed => (
            waiting(state, PasswordPhase::SettingPassword),
            StepView::Perform(
                EffectView::SetPassword {
                    user_id: sender(body),
                    password: Some(body.new_password@),
                },
            ),
        ),
        GateView::Challenge(info) => (finished(state), StepView::Challenge(info)),
        GateView::Failure(error) => (finished(state), StepView::Failure(error)),
    }
}

/// The step that logs out the next device that is still to be logged out, or
/// flushes the store once none is left.
pub open spec fn next_removal(body: ChangePasswordRequest, state: PasswordStateView) -> (
    PasswordStateView,
    StepView<ChangePasswordResponse>,
) {
    if state.pending.len() > 0 {
        (
            PasswordStateView {
                phase: PasswordPhase::RemovingDevices,
                pending: state.pending.skip(1),
            },
            StepView::Perform(
                EffectView::RemoveDevice { user_id: sender(body), device_id: state.pending[0] },
            ),
        )
    } else {
        (waiting(state, PasswordPhase::Flushing), StepView::Perform(EffectView::Flush))
    }
}

/// The step for a reply that does not let the operation go on.
pub open spec fn stop(state: PasswordStateView, reply: Reply) -> (
    PasswordStateView,
    StepView<ChangePasswordResponse>,
) {
    (finished(state), StepView::Failure(reply_error(reply)))
}

/// One step of a change of password: the shared state afterwards, the
/// operation's own state, and what it asks for or ends with.
///
/// In order: the caller proves the password; the new one is stored; if the
/// caller asked for it, every device of theirs but the one that made the
/// request is logged out; the store is flushed; the admin room is told.
pub open spec fn change_password_next(
    db: DatabaseView,
    body: ChangePasswordRequest,
    state: PasswordStateView,
    reply: Reply,
) -> (DatabaseView, PasswordStateView, StepView<ChangePasswordResponse>) {
    match state.phase {
        PasswordPhase::Start => {
            let gate = gate_begin_spec(
                db.uiaa,
                sender(body),
                body.sender_device->0@,
                body.auth,
                body.json_body,
                password_challenge(body),
            );
            let next = through_gate(gate.1, body, state);
            (DatabaseView { uiaa: gate.0, ..db }, next.0, next.1)
        },
        PasswordPhase::Verifying => {
            let gate = gate_finish_spec(
                db.uiaa,
                sender(body),
                body.sender_device->0@,
                body.auth,
                password_challenge(body),
                reply,
            );
            let next = through_gate(gate.1, body, state);
            (DatabaseView { uiaa: gate.0, ..db }, next.0, next.1)
        },
        _ => {
            let next = logout_next(body, state, reply);
            (db, next.0, next.1)
        },
    }
}

/// The steps of a change of password once the caller is authenticated. They
/// leave the shared state alone.
pub open spec fn logout_next(body: ChangePasswordRequest, state: PasswordStateView, reply: Reply) -> (
    PasswordStateView,
    StepView<ChangePasswordResponse>,
) {
    match state.phase {
        PasswordPhase::SettingPassword => match reply {
            Reply::Done => if body.logout_devices {
                (
                    waiting(state, PasswordPhase::ListingDevices),
                    StepView::Perform(EffectView::AllDeviceIds { user_id: sender(body) }),
                )
            } else {
                (waiting(state, PasswordPhase::Flushing), StepView::Perform(EffectView::Flush))
            },
            _ => stop(state, reply),
        },
        PasswordPhase::ListingDevices => match reply {
            Reply::Names(ids) => next_removal(
                body,
                PasswordStateView {
                    pending: without(ids.deep_view(), body.sender_device->0@),
                    ..state
                },
            ),
            _ => stop(state, reply),
        },
        PasswordPhase::RemovingDevices => match reply {
            Reply::Done => next_removal(body, state),
            _ => stop(state, reply),
        },
        PasswordPhase::Flushing => match reply {
            Reply::Done => (
                waiting(state, PasswordPhase::Notifying),
                StepView::Perform(
                    EffectView::SendAdminNotice { body: changed_notice(sender(body)) },
                ),
            ),
            _ => stop(state, reply),
        },
        PasswordPhase::Notifying => (
            finished(state),
            StepView::Success(ChangePasswordResponse {  }),
        ),
        _ => (finished(state), StepView::Failure(ErrorView::Internal("unexpected reply"@))),
    }
}

/// `ids` without `own`, in the same order.
pub fn other_devices(ids: &Vec<String>, own: &String) -> (res: Vec<String>)
    ensures
        res.deep_view() == without(ids.deep_view(), own@),
{
    let mut out: Vec<String> = Vec::new();
    let mut i: usize = 0;
    assert(ids.deep_view().take(0) =~= Seq::empty());
    assert(out.deep_view() =~= Seq::empty());
    while i < ids.len()
        invariant
            i <= ids.len(),
            out.deep_view() == without(ids.deep_view().take(i as int), own@),
        decreases ids.len() - i,
    {
        let ghost before = ids.deep_view().take(i as int);
        let ghost after = ids.deep_view().take(i + 1);
        assert(after.drop_last() =~= before);
        assert(after.last() == ids@[i as int]@);
        if ids[i] != *own {
            let ghost old_out = out.deep_view();
            out.push(ids[i].clone());
            assert(out.deep_view() =~= old_out.push(ids@[i as int]@));
        }
        i += 1;
    }
    assert(ids.deep_view().take(ids.len() as int) =~= ids.deep_view());
    out
}

fn own_user(body: &ChangePasswordRequest) -> (res: String)
    requires
        body.sender_user is Some,
    ensures
        res@ == sender(*body),
{
    match &body.sender_user {
        Some(user_id) => user_id.clone(),
        None => String::new(),
    }
}

fn own_device(body: &ChangePasswordRequest) -> (res: String)
    requires
        body.sender_device is Some,
    ensures
        res@ == body.sender_device->0@,
{
    match &body.sender_device {
        Some(device_id) => device_id.clone(),
        None => String::new(),
    }
}

fn finish(state: PasswordState, step: Step<ChangePasswordResponse>) -> (res: (
    PasswordState,
    Step<ChangePasswordResponse>,
))
    ensures
        res.0@ == finished(state@),
        res.1 == step,
{
    (PasswordState { phase: PasswordPhase::Finished, ..state }, step)
}

fn wait(state: PasswordState, phase: PasswordPhase, effect: Effect) -> (res: (
    PasswordState,
    Step<ChangePasswordResponse>,
))
    ensures
        res.0@ == waiting(state@, phase),
        res.1 == Step::<ChangePasswordResponse>::Perform(effect),
{
    (PasswordState { phase, ..state }, Step::Perform(effect))
}

fn stop_at(state: PasswordState, reply: Reply) -> (res: (
    PasswordState,
    Step<ChangePasswordResponse>,
))
    ensures
        (res.0@, res.1@) == stop(state@, reply),
{
    finish(state, Step::Failure(error_of_reply(reply)))
}

fn pass(gate: Gate, body: &ChangePasswordRequest, state: PasswordState) -> (res: (
    PasswordState,
    Step<ChangePasswordResponse>,
))
    requires
        body.sender_user is Some,
    ensures
        (res.0@, res.1@) == through_gate(gate@, *body, state@),
{
    match gate {
        Gate::Ask(effect) => wait(state, PasswordPhase::Verifying, effect),
        Gate::Passed => {
            let effect = Effect::SetPassword {
                user_id: own_user(body),
                password: Some(body.new_password.clone()),
            };
            wait(state, PasswordPhase::SettingPassword, effect)
        },
        Gate::Challenge(info) => finish(state, Step::Challenge(info)),
        Gate::Failure(error) => finish(state, Step::Failure(error)),
    }
}

fn remove_next(body: &ChangePasswordRequest, state: PasswordState) -> (res: (
    PasswordState,
    Step<ChangePasswordResponse>,
))
    requires
        body.sender_user is Some,
    ensures
        (res.0@, res.1@) == next_removal(*body, state@),
{
    if state.next < state.devices.len() {
        let effect = Effect::RemoveDevice {
            user_id: own_user(body),
            device_id: state.devices[state.next].clone(),
        };
        let ghost pending = state@.pending;
        let after = PasswordState {
            phase: PasswordPhase::RemovingDevices,
            devices: state.devices,
            next: state.next + 1,
        };
        assert(after@.pending =~= pending.skip(1));
        (after, Step::Perform(effect))
    } else {
        wait(state, PasswordPhase::Flushing, Effect::Flush)
    }
}

fn logout_step(body: &ChangePasswordRequest, state: PasswordState, reply: Reply) -> (res: (
    PasswordState,
    Step<ChangePasswordResponse>,
))
    requires
        body.sender_user is Some,
        body.sender_device is Some,
    ensures
        (res.0@, res.1@) == logout_next(*body, state@, reply),
{
    match state.phase {
        PasswordPhase::SettingPassword => match reply {
            Reply::Done => {
                if body.logout_devices {
                    let effect = Effect::AllDeviceIds { user_id: own_user(body) };
                    wait(state, PasswordPhase::ListingDevices, effect)
                } else {
                    wait(state, PasswordPhase::Flushing, Effect::Flush)
                }
            },
            other => stop_at(state, other),
        },
        PasswordPhase::ListingDevices => match reply {
            Reply::Names(ids) => {
                let devices = other_devices(&ids, &own_device(body));
                let listed = PasswordState { phase: state.phase, devices, next: 0 };
                assert(listed@.pending =~= without(ids.deep_view(), body.sender_device->0@));
                remove_next(body, listed)
            },
            other => stop_at(state, other),
        },
        PasswordPhase::RemovingDevices => match reply {
            Reply::Done => remove_next(body, state),
            other => stop_at(state, other),
        },
        PasswordPhase::Flushing => match reply {
            Reply::Done => {
                let user = own_user(body);
                let text = notice("User ", user.as_str(), " changed their password.");
                wait(state, PasswordPhase::Notifying, Effect::SendAdminNotice { body: text })
            },
            other => stop_at(state, other),
        },
        PasswordPhase::Notifying => finish(state, Step::Success(ChangePasswordResponse {  })),
        _ => finish(state, Step::Failure(Error::Internal("unexpected reply".to_owned()))),
    }
}

/// Changes the password of the authenticated caller, one step at a time.
pub fn change_password_route(
    db: &mut Database,
    body: &ChangePasswordRequest,
    state: PasswordState,
    reply: Reply,
) -> (res: (PasswordState, Step<ChangePasswordResponse>))
    requires
        old(db).wf(),
        body.sender_user is Some,
        body.sender_device is Some,
    ensures
        final(db).wf(),
        (final(db)@, res.0@, res.1@) == change_password_next(old(db)@, *body, state@, reply),
{
    match state.phase {
        PasswordPhase::Start => {
            let user = own_user(body);
            let device = own_device(body);
            let template = challenge(AuthType::Password, body.fresh_session.as_str());
            let gate = gate_begin(
                db,
                user.as_str(),
                device.as_str(),
                &body.auth,
                &body.json_body,
                &template,
            );
            pass(gate, body, state)
        },
        PasswordPhase::Verifying => {
            let user = own_user(body);
            let device = own_device(body);
            let template = challenge(AuthType::Password, body.fresh_session.as_str());
            let gate = gate_finish(db, user.as_str(), device.as_str(), &body.auth, &template, reply);
            pass(gate, body, state)
        },
        _ => logout_step(body, state, reply),
    }
}

/// What is logged out is every listed device but the caller's own: a device
/// is among `without(ids, own)` exactly when it is listed and is not `own`.
pub proof fn lemma_without(ids: Seq<Seq<char>>, own: Seq<char>, device: Seq<char>)
    ensures
        without(ids, own).contains(device) <==> ids.contains(device) && device != own,
    decreases ids.len(),
{
    if ids.len() > 0 {
        let rest = ids.drop_last();
        lemma_without(rest, own, device);
        if ids.contains(device) {
            let i = choose|i: int| 0 <= i < ids.len() && ids[i] == device;
            if i < rest.len() {
                assert(rest[i] == device);
            }
        }
        if rest.contains(device) {
            let i = choose|i: int| 0 <= i < rest.len() && rest[i] == device;
            assert(ids[i] == device);
        }
        if ids.last() != own {
            let kept = without(rest, own);
            let all = kept.push(ids.last());
            assert(all[kept.len() as int] == ids.last());
            assert(ids[ids.len() - 1] == ids.last());
            if kept.contains(device) {
                let i = choose|i: int| 0 <= i < kept.len() && kept[i] == device;
                assert(all[i] == device);
            }
            if all.contains(device) {
                let i = choose|i: int| 0 <= i < all.len() && all[i] == device;
                if i < kept.len() {
                    assert(kept[i] == device);
                }
            }
        } else {
            assert(ids[ids.len() - 1] == ids.last());
        }
    }
}

/// The device that made the request is never logged out: the devices still
/// to be logged out are, after the listing, the listed ones without the
/// caller's, and each later step logs out the first of them and keeps the
/// rest.
pub proof fn lemma_own_device_survives(
    db: DatabaseView,
    body: ChangePasswordRequest,
    state: PasswordStateView,
    reply: Reply,
)
    requires
        !state.pending.contains(body.sender_device->0@),
    ensures
        ({
            let next = change_password_next(db, body, state, reply);
            &&& !next.1.pending.contains(body.sender_device->0@)
            &&& next.2 matches StepView::Perform(EffectView::RemoveDevice { user_id, device_id })
                ==> user_id == sender(body) && device_id != body.sender_device->0@
        }),
{
    let own = body.sender_device->0@;
    match (state.phase, reply) {
        (PasswordPhase::ListingDevices, Reply::Names(ids)) => {
            let listed = without(ids.deep_view(), own);
            lemma_without(ids.deep_view(), own, own);
            if listed.len() > 0 {
                assert(listed.contains(listed[0]));
                assert forall|i: int| 0 <= i < listed.skip(1).len() implies listed.skip(1)[i]
                    != own by {
                    assert(listed.contains(listed[i + 1]));
                }
            }
        },
        (PasswordPhase::RemovingDevices, Reply::Done) => {
            if state.pending.len() > 0 {
                assert(state.pending.contains(state.pending[0]));
                assert forall|i: int| 0 <= i < state.pending.skip(1).len() implies state.pending.skip(
                    1,
                )[i] != own by {
                    assert(state.pending.contains(state.pending[i + 1]));
                }
            }
        },
        _ => {},
    }
}

/// Every other device is logged out: the first of the devices still to be
/// logged out is the next to go, and no step but that one drops a device
/// from them.
pub proof fn lemma_other_devices_go(
    db: DatabaseView,
    body: ChangePasswordRequest,
    state: PasswordStateView,
)
    requires
        state.phase == PasswordPhase::RemovingDevices,
        state.pending.len() > 0,
    ensures
        ({
            let next = change_password_next(db, body, state, Reply::Done);
            &&& next.2 == StepView::<ChangePasswordResponse>::Perform(
                EffectView::RemoveDevice { user_id: sender(body), device_id: state.pending[0] },
            )
            &&& next.1.pending == state.pending.skip(1)
            &&& next.1.phase == PasswordPhase::RemovingDevices
        }),
{
}

/// A challenge comes before anything is written: it is returned only by the
/// two steps of authentication, and the new password is stored only by one
/// of those two steps, when it has found authentication complete.
pub proof fn lemma_challenge_precedes_change(
    db: DatabaseView,
    body: ChangePasswordRequest,
    state: PasswordStateView,
    reply: Reply,
)
    ensures
        ({
            let next = change_password_next(db, body, state, reply);
            let authenticating = state.phase == PasswordPhase::Start || state.phase
                == PasswordPhase::Verifying;
            &&& next.2 is Challenge ==> authenticating
            &&& next.2 matches StepView::Perform(effect) ==> (effect is SetPassword
                ==> authenticating)
            &&& !authenticating ==> next.0 == db
        }),
{
}

} // verus!
