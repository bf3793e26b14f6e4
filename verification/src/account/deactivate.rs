//! Deactivation of an account.

use vstd::prelude::*;
use crate::account::{
    challenge, challenge_for, gate_begin, gate_begin_spec, gate_finish, gate_finish_spec, notice,
    Gate, GateView,
};
use crate::database::{Database, DatabaseView};
use crate::error::{Error, ErrorView};
use crate::events::{leave_event, leave_event_spec};
use crate::host::{error_of_reply, reply_error, Effect, EffectView, Reply, Step, StepView};
use crate::serializer::{acquire_spec, is_held, release_spec, RoomGuard};
use crate::uiaa::{AuthData, AuthType, UiaaInfoView};

verus! {

/// A request to deactivate the caller's account.
#[derive(Debug)]
pub struct DeactivateRequest {
    pub auth: Option<AuthData>,
    /// The caller, as the transport layer authenticated them.
    pub sender_user: Option<String>,
    pub sender_device: Option<String>,
    /// The request's body as it came, if it was JSON.
    pub json_body: Option<String>,
    /// A random token that the host drew for an authentication session.
    pub fresh_session: String,
}

/// Whether the account's third-party identifiers were unbound from the
/// identity server.
#[derive(Clone, Copy, PartialEq, Eq, Structural, Debug)]
pub enum ThirdPartyIdRemovalStatus {
    /// The identity server does not support unbinding, or there was nothing
    /// to unbind.
    NoSupport,
    Success,
}

/// The answer to a successful deactivation.
#[derive(Clone, Copy, PartialEq, Eq, Structural, Debug)]
pub struct DeactivateResponse {
    pub id_server_unbind_result: ThirdPartyIdRemovalStatus,
}

impl View for DeactivateResponse {
    type V = DeactivateResponse;

    open spec fn view(&self) -> DeactivateResponse {
        *self
    }
}

/// What the deactivation is waiting for.
#[derive(Clone, Copy, PartialEq, Eq, Structural, Debug)]
pub enum DeactivatePhase {
    Start,
    /// A verifier's verdict.
    Verifying,
    ListingJoined,
    ListingInvited,
    /// The release of the next room's guard.
    Waiting,
    /// The commit of a leave event, with the room's guard held.
    Appending,
    Deactivating,
    Notifying,
    Flushing,
    Finished,
}

/// Where a deactivation stands.
#[derive(Debug)]
pub struct DeactivateState {
    phase: DeactivatePhase,
    rooms: Vec<String>,
    left: usize,
    guard: Option<RoomGuard>,
}

/// The mathematical value of a [`DeactivateState`].
pub struct DeactivateStateView {
    pub phase: DeactivatePhase,
    /// The rooms to leave: the joined ones, then the ones invited to.
    pub rooms: Seq<Seq<char>>,
    /// How many of them have been left.
    pub left: nat,
    /// The room whose guard the operation holds.
    pub guard: Option<Seq<char>>,
}

impl View for DeactivateState {
    type V = DeactivateStateView;

    closed spec fn view(&self) -> DeactivateStateView {
        DeactivateStateView {
            phase: self.phase,
            rooms: self.rooms.deep_view(),
            left: self.left as nat,
            guard: match self.guard {
                Some(guard) => Some(guard.room()),
                None => None,
            },
        }
    }
}

impl DeactivateState {
    /// While a leave event is out, the room it is for is one of the rooms.
    #[verifier::type_invariant]
    spec fn inv(self) -> bool {
        &&& self.phase == DeactivatePhase::Appending ==> self.left < self.rooms@.len()
        &&& self.guard is Some ==> self.phase == DeactivatePhase::Appending
    }

    /// The state a deactivation begins in.
    pub fn new() -> (res: DeactivateState)
        ensures
            res@ == start(),
    {
        let res = DeactivateState {
            phase: DeactivatePhase::Start,
            rooms: Vec::new(),
            left: 0,
            guard: None,
        };
        assert(res@.rooms =~= Seq::empty());
        res
    }

    /// What the deactivation is waiting for.
    pub fn phase(&self) -> (res: DeactivatePhase)
        ensures
            res == self@.phase,
    {
        self.phase
    }

    /// Whether the operation holds the guard of a room.
    pub fn holds_guard(&self) -> (res: bool)
        ensures
            res == self@.guard is Some,
    {
        self.guard.is_some()
    }
}

/// What holds of every state that a deactivation goes through: it holds a
/// guard only while a leave event is out, and that event is for one of the
/// rooms to leave.
pub open spec fn valid(state: DeactivateStateView) -> bool {
    &&& state.guard is Some ==> state.phase == DeactivatePhase::Appending
    &&& state.phase == DeactivatePhase::Appending ==> state.left < state.rooms.len()
}

/// The state a deactivation begins in.
pub open spec fn start() -> DeactivateStateView {
    DeactivateStateView {
        phase: DeactivatePhase::Start,
        rooms: Seq::empty(),
        left: 0,
        guard: None,
    }
}

/// `state`, over.
pub open spec fn finished(state: DeactivateStateView) -> DeactivateStateView {
    DeactivateStateView { phase: DeactivatePhase::Finished, ..state }
}

/// `state`, waiting for something else.
pub open spec fn waiting(state: DeactivateStateView, phase: DeactivatePhase) -> DeactivateStateView {
    DeactivateStateView { phase, ..state }
}

/// The caller.
pub open spec fn sender(body: DeactivateRequest) -> Seq<char> {
    body.sender_user->0@
}

/// The challenge that gates deactivation: proof of the password.
pub open spec fn deactivate_challenge(body: DeactivateRequest) -> UiaaInfoView {
    challenge_for(AuthType::Password, body.fresh_session@)
}

/// The notice that tells the admin room of the deactivation.
pub open spec fn deactivated_notice(user_id: Seq<char>) -> Seq<char> {
    "User "@ + user_id + " deactivated their account."@
}

/// The locks once the operation has given back the guard it holds, if any.
pub open spec fn released(locks: Map<Seq<char>, bool>, guard: Option<Seq<char>>) -> Map<
    Seq<char>,
    bool,
> {
    match guard {
        Some(room) => release_spec(locks, room),
        None => locks,
    }
}

/// The step that follows from where authentication stands: once it is
/// complete, the rooms the caller has joined are listed.
pub open spec fn through_gate(gate: GateView, body: DeactivateRequest, state: DeactivateStateView) -> (
    DeactivateStateView,
    StepView<DeactivateResponse>,
) {
    match gate {
        GateView::Ask(effect) => (
            waiting(state, DeactivatePhase::Verifying),
            StepView::Perform(effect),
        ),
        GateView::Passed => (
            waiting(state, DeactivatePhase::ListingJoined),
            StepView::Perform(EffectView::RoomsJoined { user_id: sender(body) }),
        ),
        GateView::Challenge(info) => (finished(state), StepView::Challenge(info)),
        GateView::Failure(error) => (finished(state), StepView::Failure(error)),
    }
}

/// The step that turns to the next room to leave. With no room left, the
/// account itself is deactivated. Else the room's guard is asked for: if it
/// is granted, the leave event is handed to the host with the guard held, and
/// if not, the operation waits for the room and nothing is changed.
pub open spec fn next_room(db: DatabaseView, body: DeactivateRequest, state: DeactivateStateView) -> (
    DatabaseView,
    DeactivateStateView,
    StepView<DeactivateResponse>,
) {
    if state.left < state.rooms.len() {
        let room = state.rooms[state.left as int];
        let asked = acquire_spec(db.locks, room);
        if asked.1 {
            (
                DatabaseView { locks: asked.0, ..db },
                DeactivateStateView {
                    phase: DeactivatePhase::Appending,
                    guard: Some(room),
                    ..state
                },
                StepView::Perform(
                    EffectView::BuildAndAppendPdu {
                        pdu: leave_event_spec(sender(body)),
                        sender: sender(body),
                        room_id: room,
                    },
                ),
            )
        } else {
            (
                db,
                waiting(state, DeactivatePhase::Waiting),
                StepView::Perform(EffectView::AwaitRoom { room_id: room }),
            )
        }
    } else {
        (
            db,
            waiting(state, DeactivatePhase::Deactivating),
            StepView::Perform(EffectView::DeactivateAccount { user_id: sender(body) }),
        )
    }
}

/// The step for a reply that does not let the operation go on.
pub open spec fn stop(state: DeactivateStateView, reply: Reply) -> (
    DeactivateStateView,
    StepView<DeactivateResponse>,
) {
    (finished(state), StepView::Failure(reply_error(reply)))
}

/// The step that follows the host's attempt to commit a leave event. The
/// guard is given back whatever the reply. A committed leave counts and the
/// next room is turned to; a failed one ends the operation with the rooms
/// left so far and the room that failed.
pub open spec fn after_append(
    db: DatabaseView,
    body: DeactivateRequest,
    state: DeactivateStateView,
    reply: Reply,
) -> (DatabaseView, DeactivateStateView, StepView<DeactivateResponse>) {
    let freed = DatabaseView { locks: released(db.locks, state.guard), ..db };
    let state = DeactivateStateView { guard: None, ..state };
    match reply {
        Reply::Done => next_room(
            freed,
            body,
            DeactivateStateView { left: state.left + 1, ..state },
        ),
        Reply::Failed(reason) => (
            freed,
            finished(state),
            StepView::Failure(
                ErrorView::LeaveFailed {
                    left: state.rooms.take(state.left as int),
                    room_id: state.rooms[state.left as int],
                    reason: reason@,
                },
            ),
        ),
        _ => (freed, finished(state), StepView::Failure(reply_error(reply))),
    }
}

/// One step of a deactivation: the shared state afterwards, the operation's
/// own state, and what it asks for or ends with.
///
/// In order: the caller proves the password; the rooms joined and the rooms
/// invited to are listed; each is left in turn, its guard held from before
/// the leave event is handed over until the host has come back; the account
/// is deactivated; the admin room is told; the store is flushed.
pub open spec fn deactivate_next(
    db: DatabaseView,
    body: DeactivateRequest,
    state: DeactivateStateView,
    reply: Reply,
) -> (DatabaseView, DeactivateStateView, StepView<DeactivateResponse>) {
    match state.phase {
        DeactivatePhase::Start => {
            let gate = gate_begin_spec(
                db.uiaa,
                sender(body),
                body.sender_device->0@,
                body.auth,
                body.json_body,
                deactivate_challenge(body),
            );
            let next = through_gate(gate.1, body, state);
            (DatabaseView { uiaa: gate.0, ..db }, next.0, next.1)
        },
        DeactivatePhase::Verifying => {
            let gate = gate_finish_spec(
                db.uiaa,
                sender(body),
                body.sender_device->0@,
                body.auth,
                deactivate_challenge(body),
                reply,
            );
            let next = through_gate(gate.1, body, state);
            (DatabaseView { uiaa: gate.0, ..db }, next.0, next.1)
        },
        DeactivatePhase::ListingJoined => match reply {
            Reply::Names(rooms) => (
                db,
                DeactivateStateView {
                    phase: DeactivatePhase::ListingInvited,
                    rooms: rooms.deep_view(),
                    left: 0,
                    ..state
                },
                StepView::Perform(EffectView::RoomsInvited { user_id: sender(body) }),
            ),
            _ => {
                let next = stop(state, reply);
                (db, next.0, next.1)
            },
        },
        DeactivatePhase::ListingInvited => match reply {
            Reply::Names(rooms) => next_room(
                db,
                body,
                DeactivateStateView { rooms: state.rooms + rooms.deep_view(), left: 0, ..state },
            ),
            _ => {
                let next = stop(state, reply);
                (db, next.0, next.1)
            },
        },
        DeactivatePhase::Waiting => match reply {
            Reply::Failed(_) => {
                let next = stop(state, reply);
                (db, next.0, next.1)
            },
            _ => next_room(db, body, state),
        },
        DeactivatePhase::Appending => after_append(db, body, state, reply),
        DeactivatePhase::Deactivating => match reply {
            Reply::Done => (
                db,
                waiting(state, DeactivatePhase::Notifying),
                StepView::Perform(
                    EffectView::SendAdminNotice { body: deactivated_notice(sender(body)) },
                ),
            ),
            _ => {
                let next = stop(state, reply);
                (db, next.0, next.1)
            },
        },
        DeactivatePhase::Notifying => (
            db,
            waiting(state, DeactivatePhase::Flushing),
            StepView::Perform(EffectView::Flush),
        ),
        DeactivatePhase::Flushing => match reply {
            Reply::Done => (
                db,
                finished(state),
                StepView::Success(
                    DeactivateResponse {
                        id_server_unbind_result: ThirdPartyIdRemovalStatus::NoSupport,
                    },
                ),
            ),
            _ => {
                let next = stop(state, reply);
                (db, next.0, next.1)
            },
        },
        DeactivatePhase::Finished => (
            db,
            finished(state),
            StepView::Failure(ErrorView::Internal("unexpected reply"@)),
        ),
    }
}

fn own_user(body: &DeactivateRequest) -> (res: String)
    requires
        body.sender_user is Some,
    ensures
        res@ == sender(*body),
{
    match &body.sender_user {
        Some(user_id) => user_id.clone(),
        None => String::new(),
    }
}

fn own_device(body: &DeactivateRequest) -> (res: String)
    requires
        body.sender_device is Some,
    ensures
        res@ == body.sender_device->0@,
{
    match &body.sender_device {
        Some(device_id) => device_id.clone(),
        None => String::new(),
    }
}

fn finish(state: DeactivateState, step: Step<DeactivateResponse>) -> (res: (
    DeactivateState,
    Step<DeactivateResponse>,
))
    requires
        state.guard is None,
    ensures
        res.0@ == finished(state@),
        res.1 == step,
{
    (DeactivateState { phase: DeactivatePhase::Finished, ..state }, step)
}

fn wait(state: DeactivateState, phase: DeactivatePhase, effect: Effect) -> (res: (
    DeactivateState,
    Step<DeactivateResponse>,
))
    requires
        phase != DeactivatePhase::Appending,
        state.guard is None,
    ensures
        res.0@ == waiting(state@, phase),
        res.1 == Step::<DeactivateResponse>::Perform(effect),
{
    (DeactivateState { phase, ..state }, Step::Perform(effect))
}

fn stop_at(state: DeactivateState, reply: Reply) -> (res: (
    DeactivateState,
    Step<DeactivateResponse>,
))
    requires
        state.guard is None,
    ensures
        (res.0@, res.1@) == stop(state@, reply),
{
    finish(state, Step::Failure(error_of_reply(reply)))
}

fn pass(gate: Gate, body: &DeactivateRequest, state: DeactivateState) -> (res: (
    DeactivateState,
    Step<DeactivateResponse>,
))
    requires
        body.sender_user is Some,
        state.guard is None,
    ensures
        (res.0@, res.1@) == through_gate(gate@, *body, state@),
{
    match gate {
        Gate::Ask(effect) => wait(state, DeactivatePhase::Verifying, effect),
        Gate::Passed => {
            let effect = Effect::RoomsJoined { user_id: own_user(body) };
            wait(state, DeactivatePhase::ListingJoined, effect)
        },
        Gate::Challenge(info) => finish(state, Step::Challenge(info)),
        Gate::Failure(error) => finish(state, Step::Failure(error)),
    }
}

/// The first `n` of `names`.
fn first_of(names: &Vec<String>, n: usize) -> (res: Vec<String>)
    requires
        n <= names@.len(),
    ensures
        res.deep_view() == names.deep_view().take(n as int),
{
    let mut out: Vec<String> = Vec::new();
    let mut i: usize = 0;
    while i < n
        invariant
            i <= n <= names@.len(),
            out@.len() == i,
            forall|j: int| 0 <= j < i ==> out@[j]@ == names@[j]@,
        decreases n - i,
    {
        out.push(names[i].clone());
        i += 1;
    }
    assert(out.deep_view() =~= names.deep_view().take(n as int));
    out
}

/// `first` followed by `second`.
fn joined_with(first: Vec<String>, second: Vec<String>) -> (res: Vec<String>)
    ensures
        res.deep_view() == first.deep_view() + second.deep_view(),
{
    let mut out = first;
    let mut rest = second;
    let ghost a = out@;
    let ghost b = rest@;
    out.append(&mut rest);
    assert(out@ == a + b);
    assert(out.deep_view() =~= first.deep_view() + second.deep_view());
    out
}

fn turn_to_next_room(db: &mut Database, body: &DeactivateRequest, state: DeactivateState) -> (res: (
    DeactivateState,
    Step<DeactivateResponse>,
))
    requires
        old(db).wf(),
        body.sender_user is Some,
        state.guard is None,
    ensures
        final(db).wf(),
        (final(db)@, res.0@, res.1@) == next_room(old(db)@, *body, state@),
{
    if state.left < state.rooms.len() {
        let room = state.rooms[state.left].clone();
        assert(room@ == state@.rooms[state@.left as int]);
        match db.globals.roomid_mutex_state.acquire(room.as_str()) {
            Some(guard) => {
                let user = own_user(body);
                let effect = Effect::BuildAndAppendPdu {
                    pdu: leave_event(user.as_str()),
                    sender: user,
                    room_id: room,
                };
                (
                    DeactivateState {
                        phase: DeactivatePhase::Appending,
                        rooms: state.rooms,
                        left: state.left,
                        guard: Some(guard),
                    },
                    Step::Perform(effect),
                )
            },
            None => wait(state, DeactivatePhase::Waiting, Effect::AwaitRoom { room_id: room }),
        }
    } else {
        let effect = Effect::DeactivateAccount { user_id: own_user(body) };
        wait(state, DeactivatePhase::Deactivating, effect)
    }
}

fn release_guard(db: &mut Database, state: DeactivateState) -> (res: DeactivateState)
    requires
        old(db).wf(),
    ensures
        final(db).wf(),
        final(db)@ == (DatabaseView { locks: released(old(db)@.locks, state@.guard), ..old(db)@ }),
        res@ == (DeactivateStateView { guard: None, ..state@ }),
        res.rooms == state.rooms,
        res.left == state.left,
        res.phase == state.phase,
        res.guard is None,
{
    proof {
        use_type_invariant(&state);
    }
    let DeactivateState { phase, rooms, left, guard } = state;
    match guard {
        Some(guard) => {
            db.globals.roomid_mutex_state.release(guard);
        },
        None => {},
    }
    DeactivateState { phase, rooms, left, guard: None }
}

fn append_step(
    db: &mut Database,
    body: &DeactivateRequest,
    state: DeactivateState,
    reply: Reply,
) -> (res: (DeactivateState, Step<DeactivateResponse>))
    requires
        old(db).wf(),
        body.sender_user is Some,
        state.phase == DeactivatePhase::Appending,
    ensures
        final(db).wf(),
        (final(db)@, res.0@, res.1@) == after_append(old(db)@, *body, state@, reply),
{
    proof {
        use_type_invariant(&state);
    }
    let state = release_guard(db, state);
    match reply {
        Reply::Done => {
            let rooms: usize = state.rooms.len();
            assert(state.left < rooms);
            let counted = DeactivateState {
                phase: DeactivatePhase::Waiting,
                rooms: state.rooms,
                left: state.left + 1,
                guard: state.guard,
            };
            turn_to_next_room(db, body, counted)
        },
        Reply::Failed(reason) => {
            let error = Error::LeaveFailed {
                left: first_of(&state.rooms, state.left),
                room_id: state.rooms[state.left].clone(),
                reason,
            };
            finish(state, Step::Failure(error))
        },
        other => stop_at(state, other),
    }
}

/// Deactivates the account of the authenticated caller, one step at a time.
pub fn deactivate_route(
    db: &mut Database,
    body: &DeactivateRequest,
    state: DeactivateState,
    reply: Reply,
) -> (res: (DeactivateState, Step<DeactivateResponse>))
    requires
        old(db).wf(),
        body.sender_user is Some,
        body.sender_device is Some,
    ensures
        final(db).wf(),
        (final(db)@, res.0@, res.1@) == deactivate_next(old(db)@, *body, state@, reply),
        valid(state@),
        valid(res.0@),
{
    proof {
        use_type_invariant(&state);
        lemma_guard_is_held_while_appending(old(db)@, *body, state@, reply);
    }
    match state.phase {
        DeactivatePhase::Start => {
            let user = own_user(body);
            let device = own_device(body);
            let template = challenge(AuthType::Password, body.fresh_session.as_str());
            let gate = gate_begin(
                db,
                user.as_str(),
                device.as_str(),
                &body.auth,
                &body.json_body,
                &template,
            );
            pass(gate, body, state)
        },
        DeactivatePhase::Verifying => {
            let user = own_user(body);
            let device = own_device(body);
            let template = challenge(AuthType::Password, body.fresh_session.as_str());
            let gate = gate_finish(db, user.as_str(), device.as_str(), &body.auth, &template, reply);
            pass(gate, body, state)
        },
        DeactivatePhase::ListingJoined => match reply {
            Reply::Names(rooms) => {
                let effect = Effect::RoomsInvited { user_id: own_user(body) };
                (
                    DeactivateState {
                        phase: DeactivatePhase::ListingInvited,
                        rooms,
                        left: 0,
                        guard: state.guard,
                    },
                    Step::Perform(effect),
                )
            },
            other => stop_at(state, other),
        },
        DeactivatePhase::ListingInvited => match reply {
            Reply::Names(rooms) => {
                let listed = DeactivateState {
                    phase: state.phase,
                    rooms: joined_with(state.rooms, rooms),
                    left: 0,
                    guard: state.guard,
                };
                turn_to_next_room(db, body, listed)
            },
            other => stop_at(state, other),
        },
        DeactivatePhase::Waiting => match reply {
            Reply::Failed(reason) => stop_at(state, Reply::Failed(reason)),
            _ => turn_to_next_room(db, body, state),
        },
        DeactivatePhase::Appending => append_step(db, body, state, reply),
        DeactivatePhase::Deactivating => match reply {
            Reply::Done => {
                let user = own_user(body);
                let text = notice("User ", user.as_str(), " deactivated their account.");
                wait(state, DeactivatePhase::Notifying, Effect::SendAdminNotice { body: text })
            },
            other => stop_at(state, other),
        },
        DeactivatePhase::Notifying => wait(state, DeactivatePhase::Flushing, Effect::Flush),
        DeactivatePhase::Flushing => match reply {
            Reply::Done => finish(
                state,
                Step::Success(
                    DeactivateResponse {
                        id_server_unbind_result: ThirdPartyIdRemovalStatus::NoSupport,
                    },
                ),
            ),
            other => stop_at(state, other),
        },
        DeactivatePhase::Finished => finish(
            state,
            Step::Failure(Error::Internal("unexpected reply".to_owned())),
        ),
    }
}

/// Whether `step` hands an event to the host.
pub open spec fn asks_for_append(step: StepView<DeactivateResponse>) -> bool {
    step matches StepView::Perform(effect) && effect is BuildAndAppendPdu
}

/// Gives up a deactivation that will not be stepped again: the guard it
/// holds, if it holds one, is given back, and nothing else is changed.
pub fn abandon(db: &mut Database, state: DeactivateState)
    requires
        old(db).wf(),
    ensures
        final(db).wf(),
        final(db)@ == (DatabaseView { locks: released(old(db)@.locks, state@.guard), ..old(db)@ }),
{
    let _ = release_guard(db, state);
}

/// The operation holds a guard exactly while a leave event is out: every
/// step from a valid state gives a valid state, and that state holds a guard
/// if and only if the step hands a leave event to the host.
pub proof fn lemma_guard_is_held_while_appending(
    db: DatabaseView,
    body: DeactivateRequest,
    state: DeactivateStateView,
    reply: Reply,
)
    requires
        valid(state),
    ensures
        valid(start()),
        valid(deactivate_next(db, body, state, reply).1),
        deactivate_next(db, body, state, reply).1.guard is Some <==> asks_for_append(
            deactivate_next(db, body, state, reply).2,
        ),
{
}

/// Each leave event is built under the guard of its room. Whenever a step
/// hands an event to the host, the event is the caller's leave, its room is
/// the next of the rooms to leave, the step itself was granted that room's
/// guard, which was not out before, and the guard is out afterwards and held
/// by the operation.
pub proof fn lemma_leave_is_guarded(
    db: DatabaseView,
    body: DeactivateRequest,
    state: DeactivateStateView,
    reply: Reply,
)
    requires
        valid(state),
    ensures
        ({
            let next = deactivate_next(db, body, state, reply);
            next.2 matches StepView::Perform(EffectView::BuildAndAppendPdu { pdu, sender: by, room_id })
                ==> {
                &&& pdu == leave_event_spec(sender(body))
                &&& by == sender(body)
                &&& next.1.left < next.1.rooms.len()
                &&& room_id == next.1.rooms[next.1.left as int]
                &&& next.1.guard == Some(room_id)
                &&& !is_held(released(db.locks, state.guard), room_id)
                &&& is_held(next.0.locks, room_id)
            }
        }),
{
}

/// The guard is given back on every way out of the guarded step: whatever
/// the host replies while a leave event is out, the room's guard is released
/// by the next step, before anything else is done.
pub proof fn lemma_guard_is_given_back(
    db: DatabaseView,
    body: DeactivateRequest,
    state: DeactivateStateView,
    reply: Reply,
)
    requires
        valid(state),
        state.phase == DeactivatePhase::Appending,
        state.guard is Some,
    ensures
        ({
            let room = state.guard->0;
            let next = deactivate_next(db, body, state, reply);
            &&& next.1.guard != Some(room) ==> !is_held(next.0.locks, room)
            &&& next.2 is Failure ==> next.0.locks == release_spec(db.locks, room)
        }),
{
}

/// The rooms are left one at a time and each once: the count of rooms left
/// goes up by one when the host has committed a leave event, and at no other
/// step, and the list of rooms stays as it is once the leaving has begun.
pub proof fn lemma_rooms_are_left_in_turn(
    db: DatabaseView,
    body: DeactivateRequest,
    state: DeactivateStateView,
    reply: Reply,
)
    requires
        valid(state),
        state.phase != DeactivatePhase::ListingJoined,
        state.phase != DeactivatePhase::ListingInvited,
    ensures
        ({
            let next = deactivate_next(db, body, state, reply);
            &&& next.1.rooms == state.rooms
            &&& next.1.left == if state.phase == DeactivatePhase::Appending && reply is Done {
                state.left + 1
            } else {
                state.left
            }
        }),
{
}

/// Deactivation touches no lock but through the guards it takes and gives
/// back, and no session but through the two steps of authentication.
pub proof fn lemma_deactivation_keeps_to_its_rooms(
    db: DatabaseView,
    body: DeactivateRequest,
    state: DeactivateStateView,
    reply: Reply,
    other: Seq<char>,
)
    requires
        valid(state),
        state.guard != Some(other),
        !(deactivate_next(db, body, state, reply).2 matches StepView::Perform(
            EffectView::BuildAndAppendPdu { pdu, sender: by, room_id },
        ) && (room_id == other)),
    ensures
        is_held(deactivate_next(db, body, state, reply).0.locks, other) == is_held(db.locks, other),
        state.phase != DeactivatePhase::Start && state.phase != DeactivatePhase::Verifying
            ==> deactivate_next(db, body, state, reply).0.uiaa == db.uiaa,
{
}

/// A challenge comes before anything is written: it is returned only by the
/// two steps of authentication, and until one of those two steps has found
/// authentication complete, no room is asked for and no lock is touched.
pub proof fn lemma_challenge_precedes_leaving(
    db: DatabaseView,
    body: DeactivateRequest,
    state: DeactivateStateView,
    reply: Reply,
)
    ensures
        ({
            let next = deactivate_next(db, body, state, reply);
            let authenticating = state.phase == DeactivatePhase::Start || state.phase
                == DeactivatePhase::Verifying;
            &&& next.2 is Challenge ==> authenticating
            &&& next.2 matches StepView::Perform(effect) ==> (effect is RoomsJoined
                ==> authenticating)
            &&& authenticating ==> next.0.locks == db.locks
        }),
{
}

} // verus!
