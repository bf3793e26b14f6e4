//! Registration of a new account.

use vstd::prelude::*;
use crate::account::{
    challenge, challenge_for, gate_begin, gate_begin_spec, gate_finish, gate_finish_spec, notice,
    Gate, GateView,
};
use crate::database::{Database, DatabaseView};
use crate::error::{Error, ErrorKind, ErrorView};
use crate::events::{default_push_rules, push_rules_event_type, server_default_push_rules};
use crate::host::{error_of_reply, reply_error, Effect, EffectView, Reply, Step, StepView};
use crate::identifiers::{
    completed_user_id, default_displayname, default_displayname_spec, local_user_id,
    local_user_id_spec, localpart, parse_with_server_name, user_id_localpart,
};
use crate::uiaa::{AuthData, AuthType};

verus! {

/// Whether an account is a guest's or a regular one.
#[derive(Clone, Copy, PartialEq, Eq, Structural, Debug)]
pub enum RegistrationKind {
    Guest,
    User,
}

/// Random strings that the host drew for one request. The core uses each of
/// them at most once; none may be predictable.
#[derive(Debug)]
pub struct FreshStrings {
    /// A localpart for an account that was given no name.
    pub localpart: String,
    /// A token for an authentication session.
    pub session: String,
    /// An id for a device that was given none.
    pub device_id: String,
    /// An access token.
    pub token: String,
}

/// A request to register an account.
#[derive(Debug)]
pub struct RegisterRequest {
    pub password: Option<String>,
    pub username: Option<String>,
    pub device_id: Option<String>,
    pub initial_device_display_name: Option<String>,
    pub auth: Option<AuthData>,
    pub kind: RegistrationKind,
    pub inhibit_login: bool,
    /// Whether the caller is a privileged integration.
    pub from_appservice: bool,
    /// The request's body as it came, if it was JSON.
    pub json_body: Option<String>,
    pub fresh: FreshStrings,
}

/// The answer to a successful registration.
#[derive(Debug, PartialEq, Eq)]
pub struct RegisterResponse {
    pub access_token: Option<String>,
    pub user_id: String,
    pub device_id: Option<String>,
}

/// The mathematical value of a [`RegisterResponse`].
pub struct RegisterResponseView {
    pub access_token: Option<Seq<char>>,
    pub user_id: Seq<char>,
    pub device_id: Option<Seq<char>>,
}

impl View for RegisterResponse {
    type V = RegisterResponseView;

    open spec fn view(&self) -> RegisterResponseView {
        RegisterResponseView {
            access_token: self.access_token.deep_view(),
            user_id: self.user_id@,
            device_id: self.device_id.deep_view(),
        }
    }
}

/// What the registration is waiting for.
#[derive(Clone, Copy, PartialEq, Eq, Structural, Debug)]
pub enum RegisterPhase {
    Start,
    /// Whether the name is taken.
    CheckingName,
    /// A verifier's verdict.
    Verifying,
    CreatingUser,
    SettingDisplayname,
    SeedingAccountData,
    CreatingDevice,
    Notifying,
    /// The number of accounts.
    Counting,
    GrantingAdmin,
    Flushing,
    Finished,
}

/// Where a registration stands.
#[derive(Debug)]
pub struct RegisterState {
    phase: RegisterPhase,
    user_id: String,
    displayname: String,
}

/// The mathematical value of a [`RegisterState`].
pub struct RegisterStateView {
    pub phase: RegisterPhase,
    /// The account being registered, once the name has been accepted.
    pub user_id: Seq<char>,
    /// The display name it starts with.
    pub displayname: Seq<char>,
}

impl View for RegisterState {
    type V = RegisterStateView;

    closed spec fn view(&self) -> RegisterStateView {
        RegisterStateView {
            phase: self.phase,
            user_id: self.user_id@,
            displayname: self.displayname@,
        }
    }
}

impl RegisterState {
    /// The state a registration begins in.
    pub fn new() -> (res: RegisterState)
        ensures
            res@ == start(),
    {
        RegisterState { phase: RegisterPhase::Start, user_id: String::new(), displayname: String::new() }
    }

    /// What the registration is waiting for.
    pub fn phase(&self) -> (res: RegisterPhase)
        ensures
            res == self@.phase,
    {
        self.phase
    }
}

/// The state a registration begins in.
pub open spec fn start() -> RegisterStateView {
    RegisterStateView { phase: RegisterPhase::Start, user_id: Seq::empty(), displayname: Seq::empty() }
}

/// `state`, over.
pub open spec fn finished(state: RegisterStateView) -> RegisterStateView {
    RegisterStateView { phase: RegisterPhase::Finished, ..state }
}

/// `state`, waiting for something else.
pub open spec fn waiting(state: RegisterStateView, phase: RegisterPhase) -> RegisterStateView {
    RegisterStateView { phase, ..state }
}

pub open spec fn is_guest(body: RegisterRequest) -> bool {
    body.kind == RegistrationKind::Guest
}

/// Whether a regular registration came without a user name.
pub open spec fn missing_username(body: RegisterRequest) -> bool {
    !is_guest(body) && body.username is None
}

/// The name the account is registered under: the one supplied, or a random
/// one for a guest and for a request that supplied none.
pub open spec fn desired_name(body: RegisterRequest) -> Seq<char> {
    if is_guest(body) || body.username is None {
        body.fresh.localpart@
    } else {
        body.username->0@
    }
}

/// The user id and first display name of the account to register, or `None`
/// where the desired name is not acceptable on this server.
pub open spec fn new_account(body: RegisterRequest, server_name: Seq<char>) -> Option<
    (Seq<char>, Seq<char>),
> {
    match local_user_id_spec(desired_name(body), server_name) {
        Some(user_id) => match user_id_localpart(user_id) {
            Some(localpart) => Some((user_id, default_displayname_spec(localpart))),
            None => None,
        },
        None => None,
    }
}

/// The identity that authentication sessions of registrations are stored
/// for, since the account does not exist yet: the user with the empty
/// localpart on this server, on the device with the empty id. It is `None`
/// where the server's name admits no user id.
pub open spec fn placeholder_user(server_name: Seq<char>) -> Option<Seq<char>> {
    completed_user_id(""@, server_name)
}

/// The challenge that gates registration: a single acknowledgement stage.
pub open spec fn register_challenge(body: RegisterRequest) -> crate::uiaa::UiaaInfoView {
    challenge_for(AuthType::Dummy, body.fresh.session@)
}

/// The credential the account is created with: none for a guest.
pub open spec fn credential(body: RegisterRequest) -> Option<Seq<char>> {
    if is_guest(body) {
        None
    } else {
        body.password.deep_view()
    }
}

/// The id of the account's first device: the one supplied, or a random one
/// for a guest and for a request that supplied none.
pub open spec fn device_of(body: RegisterRequest) -> Seq<char> {
    if is_guest(body) || body.device_id is None {
        body.fresh.device_id@
    } else {
        body.device_id->0@
    }
}

/// Whether a device is registered with the account: always, but for a guest
/// whose login is inhibited.
pub open spec fn creates_device(body: RegisterRequest) -> bool {
    !(is_guest(body) && body.inhibit_login)
}

/// The answer to a registration that went through: the access token and the
/// device id are left out where login is inhibited.
pub open spec fn response(body: RegisterRequest, user_id: Seq<char>) -> RegisterResponseView {
    RegisterResponseView {
        access_token: if body.inhibit_login {
            None
        } else {
            Some(body.fresh.token@)
        },
        user_id,
        device_id: if body.inhibit_login {
            None
        } else {
            Some(device_of(body))
        },
    }
}

/// The notice that tells the admin room of the new account.
pub open spec fn registered_notice(user_id: Seq<char>) -> Seq<char> {
    "New user "@ + user_id + " registered on this server."@
}

/// The step once authentication is complete: a request that supplied no user
/// name ends here, any other goes on to create the account.
pub open spec fn after_auth(body: RegisterRequest, state: RegisterStateView) -> (
    RegisterStateView,
    StepView<RegisterResponseView>,
) {
    if missing_username(body) {
        (
            finished(state),
            StepView::Failure(
                ErrorView::BadRequest(ErrorKind::MissingParam, "Missing username field."@),
            ),
        )
    } else {
        (
            waiting(state, RegisterPhase::CreatingUser),
            StepView::Perform(
                EffectView::CreateUser { user_id: state.user_id, password: credential(body) },
            ),
        )
    }
}

/// The step that follows from where authentication stands.
pub open spec fn through_gate(gate: GateView, body: RegisterRequest, state: RegisterStateView) -> (
    RegisterStateView,
    StepView<RegisterResponseView>,
) {
    match gate {
        GateView::Ask(effect) => (
            waiting(state, RegisterPhase::Verifying),
            StepView::Perform(effect),
        ),
        GateView::Passed => after_auth(body, state),
        GateView::Challenge(info) => (finished(state), StepView::Challenge(info)),
        GateView::Failure(error) => (finished(state), StepView::Failure(error)),
    }
}

/// The step that sends the admin notice.
pub open spec fn notify(state: RegisterStateView) -> (
    RegisterStateView,
    StepView<RegisterResponseView>,
) {
    (
        waiting(state, RegisterPhase::Notifying),
        StepView::Perform(EffectView::SendAdminNotice { body: registered_notice(state.user_id) }),
    )
}

/// The step for a reply that does not let the registration go on.
pub open spec fn stop(state: RegisterStateView, reply: Reply) -> (
    RegisterStateView,
    StepView<RegisterResponseView>,
) {
    (finished(state), StepView::Failure(reply_error(reply)))
}

/// One step of a registration: the shared state afterwards, the
/// registration's own state, and what it asks for or ends with.
///
/// In order: registration must be enabled, or the caller privileged; the
/// name must be acceptable; the account must not exist; unless the caller is
/// privileged, authentication must be complete; a user name must have been
/// supplied. Then the account is created, its display name set, its default
/// push rules stored, its device registered, the admin room told, the
/// account made an admin if it is the second one on the server, and the
/// store flushed.
pub open spec fn register_next(
    db: DatabaseView,
    body: RegisterRequest,
    state: RegisterStateView,
    reply: Reply,
) -> (DatabaseView, RegisterStateView, StepView<RegisterResponseView>) {
    match state.phase {
        RegisterPhase::Start => if !db.allow_registration && !body.from_appservice {
            (
                db,
                finished(state),
                StepView::Failure(
                    ErrorView::BadRequest(
                        ErrorKind::Forbidden,
                        "Registration has been disabled."@,
                    ),
                ),
            )
        } else {
            match new_account(body, db.server_name) {
                Some((user_id, displayname)) => (
                    db,
                    RegisterStateView { phase: RegisterPhase::CheckingName, user_id, displayname },
                    StepView::Perform(EffectView::UserExists { user_id }),
                ),
                None => (
                    db,
                    finished(state),
                    StepView::Failure(
                        ErrorView::BadRequest(
                            ErrorKind::InvalidUsername,
                            "Username is invalid."@,
                        ),
                    ),
                ),
            }
        },
        RegisterPhase::CheckingName => match reply {
            Reply::Flag(true) => (
                db,
                finished(state),
                StepView::Failure(
                    ErrorView::BadRequest(
                        ErrorKind::UserInUse,
                        "Desired user ID is already taken."@,
                    ),
                ),
            ),
            Reply::Flag(false) => if body.from_appservice {
                let next = after_auth(body, state);
                (db, next.0, next.1)
            } else {
                match placeholder_user(db.server_name) {
                    Some(user) => {
                        let gate = gate_begin_spec(
                            db.uiaa,
                            user,
                            ""@,
                            body.auth,
                            body.json_body,
                            register_challenge(body),
                        );
                        let next = through_gate(gate.1, body, state);
                        (DatabaseView { uiaa: gate.0, ..db }, next.0, next.1)
                    },
                    None => no_placeholder(db, state),
                }
            },
            _ => {
                let next = stop(state, reply);
                (db, next.0, next.1)
            },
        },
        RegisterPhase::Verifying => match placeholder_user(db.server_name) {
            Some(user) => {
                let gate = gate_finish_spec(
                    db.uiaa,
                    user,
                    ""@,
                    body.auth,
                    register_challenge(body),
                    reply,
                );
                let next = through_gate(gate.1, body, state);
                (DatabaseView { uiaa: gate.0, ..db }, next.0, next.1)
            },
            None => no_placeholder(db, state),
        },
        _ => {
            let next = account_next(body, state, reply);
            (db, next.0, next.1)
        },
    }
}

/// The end of a registration on a server whose name admits no user id.
pub open spec fn no_placeholder(db: DatabaseView, state: RegisterStateView) -> (
    DatabaseView,
    RegisterStateView,
    StepView<RegisterResponseView>,
) {
    (db, finished(state), StepView::Failure(ErrorView::Internal("no placeholder identity"@)))
}

/// The steps of a registration from the creation of the account on. They
/// leave the shared state alone.
pub open spec fn account_next(body: RegisterRequest, state: RegisterStateView, reply: Reply) -> (
    RegisterStateView,
    StepView<RegisterResponseView>,
) {
    match state.phase {
        RegisterPhase::CreatingUser => match reply {
            Reply::Done => (
                waiting(state, RegisterPhase::SettingDisplayname),
                StepView::Perform(
                    EffectView::SetDisplayname {
                        user_id: state.user_id,
                        displayname: Some(state.displayname),
                    },
                ),
            ),
            _ => stop(state, reply),
        },
        RegisterPhase::SettingDisplayname => match reply {
            Reply::Done => match default_push_rules(state.user_id) {
                Some(content) => (
                    waiting(state, RegisterPhase::SeedingAccountData),
                    StepView::Perform(
                        EffectView::UpdateAccountData {
                            room_id: None,
                            user_id: state.user_id,
                            event_type: "m.push_rules"@,
                            content,
                        },
                    ),
                ),
                None => (
                    finished(state),
                    StepView::Failure(ErrorView::Internal("no push rules for this user"@)),
                ),
            },
            _ => stop(state, reply),
        },
        RegisterPhase::SeedingAccountData => match reply {
            Reply::Done => if creates_device(body) {
                (
                    waiting(state, RegisterPhase::CreatingDevice),
                    StepView::Perform(
                        EffectView::CreateDevice {
                            user_id: state.user_id,
                            device_id: device_of(body),
                            token: body.fresh.token@,
                            initial_device_display_name: body.initial_device_display_name.deep_view(),
                        },
                    ),
                )
            } else {
                notify(state)
            },
            _ => stop(state, reply),
        },
        RegisterPhase::CreatingDevice => match reply {
            Reply::Done => notify(state),
            _ => stop(state, reply),
        },
        RegisterPhase::Notifying => (
            waiting(state, RegisterPhase::Counting),
            StepView::Perform(EffectView::CountUsers),
        ),
        RegisterPhase::Counting => match reply {
            Reply::Count(accounts) => if accounts == 2 {
                (
                    waiting(state, RegisterPhase::GrantingAdmin),
                    StepView::Perform(
                        EffectView::MakeUserAdmin {
                            user_id: state.user_id,
                            displayname: state.displayname,
                        },
                    ),
                )
            } else {
                (waiting(state, RegisterPhase::Flushing), StepView::Perform(EffectView::Flush))
            },
            _ => stop(state, reply),
        },
        RegisterPhase::GrantingAdmin => match reply {
            Reply::Done => (
                waiting(state, RegisterPhase::Flushing),
                StepView::Perform(EffectView::Flush),
            ),
            _ => stop(state, reply),
        },
        RegisterPhase::Flushing => match reply {
            Reply::Done => (finished(state), StepView::Success(response(body, state.user_id))),
            _ => stop(state, reply),
        },
        _ => (finished(state), StepView::Failure(ErrorView::Internal("unexpected reply"@))),
    }
}

fn finish(state: RegisterState, step: Step<RegisterResponse>) -> (res: (
    RegisterState,
    Step<RegisterResponse>,
))
    ensures
        res.0@ == finished(state@),
        res.1 == step,
{
    (RegisterState { phase: RegisterPhase::Finished, ..state }, step)
}

fn wait(state: RegisterState, phase: RegisterPhase, effect: Effect) -> (res: (
    RegisterState,
    Step<RegisterResponse>,
))
    ensures
        res.0@ == waiting(state@, phase),
        res.1 == Step::<RegisterResponse>::Perform(effect),
{
    (RegisterState { phase, ..state }, Step::Perform(effect))
}

fn stop_at(state: RegisterState, reply: Reply) -> (res: (RegisterState, Step<RegisterResponse>))
    ensures
        (res.0@, res.1@) == stop(state@, reply),
{
    finish(state, Step::Failure(error_of_reply(reply)))
}

fn guest(body: &RegisterRequest) -> (res: bool)
    ensures
        res == is_guest(*body),
{
    match body.kind {
        RegistrationKind::Guest => true,
        RegistrationKind::User => false,
    }
}

fn account_of(body: &RegisterRequest, server_name: &str) -> (res: Option<(String, String)>)
    ensures
        match res {
            Some((user_id, displayname)) => new_account(*body, server_name@) == Some(
                (user_id@, displayname@),
            ),
            None => new_account(*body, server_name@) is None,
        },
{
    let user_id = match (guest(body), &body.username) {
        (false, Some(name)) => local_user_id(name.as_str(), server_name),
        _ => local_user_id(body.fresh.localpart.as_str(), server_name),
    };
    match user_id {
        Some(user_id) => match localpart(user_id.as_str()) {
            Some(localpart) => {
                let displayname = default_displayname(localpart.as_str());
                Some((user_id, displayname))
            },
            None => None,
        },
        None => None,
    }
}

fn proceed(body: &RegisterRequest, state: RegisterState) -> (res: (
    RegisterState,
    Step<RegisterResponse>,
))
    ensures
        (res.0@, res.1@) == after_auth(*body, state@),
{
    if !guest(body) && body.username.is_none() {
        finish(
            state,
            Step::Failure(
                Error::BadRequest(ErrorKind::MissingParam, "Missing username field.".to_owned()),
            ),
        )
    } else {
        let password = if guest(body) {
            None
        } else {
            body.password.clone()
        };
        let user_id = state.user_id.clone();
        wait(state, RegisterPhase::CreatingUser, Effect::CreateUser { user_id, password })
    }
}

fn pass(gate: Gate, body: &RegisterRequest, state: RegisterState) -> (res: (
    RegisterState,
    Step<RegisterResponse>,
))
    ensures
        (res.0@, res.1@) == through_gate(gate@, *body, state@),
{
    match gate {
        Gate::Ask(effect) => wait(state, RegisterPhase::Verifying, effect),
        Gate::Passed => proceed(body, state),
        Gate::Challenge(info) => finish(state, Step::Challenge(info)),
        Gate::Failure(error) => finish(state, Step::Failure(error)),
    }
}

fn tell_admins(state: RegisterState) -> (res: (RegisterState, Step<RegisterResponse>))
    ensures
        (res.0@, res.1@) == notify(state@),
{
    let body = notice("New user ", state.user_id.as_str(), " registered on this server.");
    wait(state, RegisterPhase::Notifying, Effect::SendAdminNotice { body })
}

fn device_id_of(body: &RegisterRequest) -> (res: String)
    ensures
        res@ == device_of(*body),
{
    match (guest(body), &body.device_id) {
        (false, Some(device_id)) => device_id.clone(),
        _ => body.fresh.device_id.clone(),
    }
}

fn respond(body: &RegisterRequest, user_id: String) -> (res: RegisterResponse)
    ensures
        res@ == response(*body, user_id@),
{
    if body.inhibit_login {
        RegisterResponse { access_token: None, user_id, device_id: None }
    } else {
        RegisterResponse {
            access_token: Some(body.fresh.token.clone()),
            user_id,
            device_id: Some(device_id_of(body)),
        }
    }
}

fn placeholder(server_name: &str) -> (res: Option<String>)
    ensures
        res.deep_view() == placeholder_user(server_name@),
{
    parse_with_server_name("", server_name)
}

fn without_placeholder(state: RegisterState) -> (res: (RegisterState, Step<RegisterResponse>))
    ensures
        res.0@ == finished(state@),
        res.1@ == StepView::<RegisterResponseView>::Failure(
            ErrorView::Internal("no placeholder identity"@),
        ),
{
    finish(state, Step::Failure(Error::Internal("no placeholder identity".to_owned())))
}

/// The request to store `rules` as the default push rules of `user_id`:
/// global account data of the type `m.push_rules`. There is none where there
/// are no rules.
pub fn push_rules_effect(user_id: String, rules: Option<String>) -> (res: Option<Effect>)
    ensures
        match rules {
            Some(content) => res matches Some(effect) && effect@ == (EffectView::UpdateAccountData {
                room_id: None,
                user_id: user_id@,
                event_type: "m.push_rules"@,
                content: content@,
            }),
            None => res is None,
        },
{
    match rules {
        Some(content) => Some(
            Effect::UpdateAccountData {
                room_id: None,
                user_id,
                event_type: push_rules_event_type(),
                content,
            },
        ),
        None => None,
    }
}

fn account_step(body: &RegisterRequest, state: RegisterState, reply: Reply) -> (res: (
    RegisterState,
    Step<RegisterResponse>,
))
    ensures
        (res.0@, res.1@) == account_next(*body, state@, reply),
{
    match state.phase {
        RegisterPhase::CreatingUser => match reply {
            Reply::Done => {
                let effect = Effect::SetDisplayname {
                    user_id: state.user_id.clone(),
                    displayname: Some(state.displayname.clone()),
                };
                wait(state, RegisterPhase::SettingDisplayname, effect)
            },
            other => stop_at(state, other),
        },
        RegisterPhase::SettingDisplayname => match reply {
            Reply::Done => match push_rules_effect(
                state.user_id.clone(),
                server_default_push_rules(state.user_id.as_str()),
            ) {
                Some(effect) => wait(state, RegisterPhase::SeedingAccountData, effect),
                None => finish(
                    state,
                    Step::Failure(Error::Internal("no push rules for this user".to_owned())),
                ),
            },
            other => stop_at(state, other),
        },
        RegisterPhase::SeedingAccountData => match reply {
            Reply::Done => {
                if guest(body) && body.inhibit_login {
                    tell_admins(state)
                } else {
                    let effect = Effect::CreateDevice {
                        user_id: state.user_id.clone(),
                        device_id: device_id_of(body),
                        token: body.fresh.token.clone(),
                        initial_device_display_name: body.initial_device_display_name.clone(),
                    };
                    wait(state, RegisterPhase::CreatingDevice, effect)
                }
            },
            other => stop_at(state, other),
        },
        RegisterPhase::CreatingDevice => match reply {
            Reply::Done => tell_admins(state),
            other => stop_at(state, other),
        },
        RegisterPhase::Notifying => wait(state, RegisterPhase::Counting, Effect::CountUsers),
        RegisterPhase::Counting => match reply {
            Reply::Count(accounts) => {
                if accounts == 2 {
                    let effect = Effect::MakeUserAdmin {
                        user_id: state.user_id.clone(),
                        displayname: state.displayname.clone(),
                    };
                    wait(state, RegisterPhase::GrantingAdmin, effect)
                } else {
                    wait(state, RegisterPhase::Flushing, Effect::Flush)
                }
            },
            other => stop_at(state, other),
        },
        RegisterPhase::GrantingAdmin => match reply {
            Reply::Done => wait(state, RegisterPhase::Flushing, Effect::Flush),
            other => stop_at(state, other),
        },
        RegisterPhase::Flushing => match reply {
            Reply::Done => {
                let answer = respond(body, state.user_id.clone());
                finish(state, Step::Success(answer))
            },
            other => stop_at(state, other),
        },
        _ => finish(state, Step::Failure(Error::Internal("unexpected reply".to_owned()))),
    }
}

/// Registers an account on this server, one step at a time.
pub fn register_route(
    db: &mut Database,
    body: &RegisterRequest,
    state: RegisterState,
    reply: Reply,
) -> (res: (RegisterState, Step<RegisterResponse>))
    requires
        old(db).wf(),
    ensures
        final(db).wf(),
        (final(db)@, res.0@, res.1@) == register_next(old(db)@, *body, state@, reply),
{
    match state.phase {
        RegisterPhase::Start => {
            if !db.globals.allow_registration && !body.from_appservice {
                return finish(
                    state,
                    Step::Failure(
                        Error::BadRequest(
                            ErrorKind::Forbidden,
                            "Registration has been disabled.".to_owned(),
                        ),
                    ),
                );
            }
            match account_of(body, db.globals.server_name.as_str()) {
                Some((user_id, displayname)) => {
                    let effect = Effect::UserExists { user_id: user_id.clone() };
                    (
                        RegisterState { phase: RegisterPhase::CheckingName, user_id, displayname },
                        Step::Perform(effect),
                    )
                },
                None => finish(
                    state,
                    Step::Failure(
                        Error::BadRequest(
                            ErrorKind::InvalidUsername,
                            "Username is invalid.".to_owned(),
                        ),
                    ),
                ),
            }
        },
        RegisterPhase::CheckingName => match reply {
            Reply::Flag(true) => finish(
                state,
                Step::Failure(
                    Error::BadRequest(
                        ErrorKind::UserInUse,
                        "Desired user ID is already taken.".to_owned(),
                    ),
                ),
            ),
            Reply::Flag(false) => {
                if body.from_appservice {
                    proceed(body, state)
                } else {
                    match placeholder(db.globals.server_name.as_str()) {
                        Some(user) => {
                            let template = challenge(AuthType::Dummy, body.fresh.session.as_str());
                            let gate = gate_begin(
                                db,
                                user.as_str(),
                                "",
                                &body.auth,
                                &body.json_body,
                                &template,
                            );
                            pass(gate, body, state)
                        },
                        None => without_placeholder(state),
                    }
                }
            },
            other => stop_at(state, other),
        },
        RegisterPhase::Verifying => match placeholder(db.globals.server_name.as_str()) {
            Some(user) => {
                let template = challenge(AuthType::Dummy, body.fresh.session.as_str());
                let gate = gate_finish(db, user.as_str(), "", &body.auth, &template, reply);
                pass(gate, body, state)
            },
            None => without_placeholder(state),
        },
        _ => account_step(body, state, reply),
    }
}

/// While registration is disabled, a caller without privileges is turned
/// down at the first step, whatever the request holds, and the shared state,
/// the sessions among it, stays as it was.
pub proof fn lemma_disabled_registration_is_forbidden(
    db: DatabaseView,
    body: RegisterRequest,
    reply: Reply,
)
    requires
        !db.allow_registration,
        !body.from_appservice,
    ensures
        register_next(db, body, start(), reply) == (
            db,
            finished(start()),
            StepView::<RegisterResponseView>::Failure(
                ErrorView::BadRequest(ErrorKind::Forbidden, "Registration has been disabled."@),
            ),
        ),
{
}

/// A name that is taken is a conflict, whatever the request says of
/// authentication and whatever sessions are stored: the first thing a
/// registration asks the host, if it asks anything, is whether the account
/// exists, and the answer yes ends it with the shared state as it was.
pub proof fn lemma_taken_name_is_conflict(db: DatabaseView, body: RegisterRequest, reply: Reply)
    ensures
        ({
            let first = register_next(db, body, start(), reply);
            first.2 matches StepView::Perform(effect) ==> {
                &&& effect == (EffectView::UserExists { user_id: first.1.user_id })
                &&& first.0 == db
                &&& register_next(first.0, body, first.1, Reply::Flag(true)) == (
                    db,
                    finished(first.1),
                    StepView::<RegisterResponseView>::Failure(
                        ErrorView::BadRequest(
                            ErrorKind::UserInUse,
                            "Desired user ID is already taken."@,
                        ),
                    ),
                )
            }
        }),
{
}

/// An account is made an admin exactly when the identity store counts two
/// accounts right after it was created: the built-in one and this one. No
/// other step of a registration grants anything.
pub proof fn lemma_second_account_becomes_admin(
    db: DatabaseView,
    body: RegisterRequest,
    state: RegisterStateView,
    reply: Reply,
)
    ensures
        register_next(db, body, state, reply).2 matches StepView::Perform(
            EffectView::MakeUserAdmin { user_id, displayname },
        ) ==> state.phase == RegisterPhase::Counting && reply == Reply::Count(2) && user_id
            == state.user_id,
        state.phase == RegisterPhase::Counting && reply == Reply::Count(2) ==> register_next(
            db,
            body,
            state,
            reply,
        ).2 == StepView::<RegisterResponseView>::Perform(
            EffectView::MakeUserAdmin { user_id: state.user_id, displayname: state.displayname },
        ),
{
}

/// A challenge comes before anything is written: it is returned only by the
/// two steps of authentication, and the account is created only by a step
/// that returned none.
pub proof fn lemma_challenge_precedes_account(
    db: DatabaseView,
    body: RegisterRequest,
    state: RegisterStateView,
    reply: Reply,
)
    ensures
        register_next(db, body, state, reply).2 is Challenge ==> state.phase
            == RegisterPhase::CheckingName || state.phase == RegisterPhase::Verifying,
        register_next(db, body, state, reply).2 matches StepView::Perform(effect) ==> (effect
            is CreateUser ==> state.phase == RegisterPhase::CheckingName || state.phase
            == RegisterPhase::Verifying),
        register_next(db, body, state, reply).2 matches StepView::Perform(effect) ==> (effect
            is CreateUser ==> !missing_username(body)),
{
}

} // verus!
