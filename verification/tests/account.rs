use account_core::account::availability::{
    get_register_available_route, AvailabilityRequest, AvailabilityResponse, AvailabilityState,
};
use account_core::account::deactivate::{
    abandon, deactivate_route, DeactivatePhase, DeactivateRequest, DeactivateResponse,
    DeactivateState, ThirdPartyIdRemovalStatus,
};
use account_core::account::password::{
    change_password_route, other_devices, ChangePasswordRequest, ChangePasswordResponse,
    PasswordState,
};
use account_core::account::register::{
    push_rules_effect, register_route, FreshStrings, RegisterPhase, RegisterRequest, RegisterResponse, RegisterState,
    RegistrationKind,
};
use account_core::account::third_party::{third_party_route, ThirdPartyRequest};
use account_core::account::whoami::{whoami_route, WhoamiRequest, WhoamiResponse, WhoamiState};
use account_core::account::{challenge, notice};
use account_core::database::Database;
use account_core::error::{Error, ErrorKind, StandardErrorBody};
use account_core::events::leave_event;
use account_core::host::{error_of_reply, Effect, Reply, Step};
use account_core::uiaa::{AuthData, AuthFlow, AuthType, StageAttempt, Verdict};

const SERVER: &str = "example.org";
const SYSTEM: &str = "@server:example.org";

/// An in-memory stand-in for the collaborators of the core.
struct Host {
    users: Vec<(String, Option<String>)>,
    displaynames: Vec<(String, Option<String>)>,
    account_data: Vec<(String, String, String)>,
    devices: Vec<(String, String, String)>,
    admins: Vec<String>,
    notices: Vec<String>,
    joined: Vec<(String, String)>,
    invited: Vec<(String, String)>,
    events: Vec<(String, String, String)>,
    deactivated: Vec<String>,
    flushes: usize,
    asked: Vec<String>,
    failing_room: Option<String>,
    failing_notices: bool,
    unguarded_appends: usize,
}

impl Host {
    fn new() -> Host {
        Host {
            users: vec![(SYSTEM.to_string(), None)],
            displaynames: vec![],
            account_data: vec![],
            devices: vec![],
            admins: vec![],
            notices: vec![],
            joined: vec![],
            invited: vec![],
            events: vec![],
            deactivated: vec![],
            flushes: 0,
            asked: vec![],
            failing_room: None,
            failing_notices: false,
            unguarded_appends: 0,
        }
    }

    fn with_user(mut self, user_id: &str, password: &str, devices: &[&str]) -> Host {
        self.users.push((user_id.to_string(), Some(password.to_string())));
        for d in devices {
            self.devices.push((user_id.to_string(), d.to_string(), format!("token-{}", d)));
        }
        self
    }

    fn token_is_valid(&self, token: &str) -> bool {
        self.devices.iter().any(|(u, _, t)| t == token && !self.deactivated.contains(u))
    }

    fn perform(&mut self, db: &Database, effect: Effect) -> Reply {
        self.asked.push(format!("{:?}", effect).split(|c| c == ' ' || c == '{').next().unwrap().to_string());
        match effect {
            Effect::UserExists { user_id } => Reply::Flag(self.users.iter().any(|(u, _)| *u == user_id)),
            Effect::IsDeactivated { user_id } => Reply::Flag(self.deactivated.contains(&user_id)),
            Effect::VerifyCredential { stage, user_id, payload } => Reply::Verdict(match stage {
                AuthType::Dummy => Verdict::Accepted,
                AuthType::Password => {
                    if self.users.iter().any(|(u, p)| *u == user_id && *p == Some(payload.clone())) {
                        Verdict::Accepted
                    } else {
                        Verdict::Rejected("Invalid username or password.".to_string())
                    }
                }
                _ => Verdict::Rejected("unsupported".to_string()),
            }),
            Effect::CreateUser { user_id, password } => {
                self.users.push((user_id, password));
                Reply::Done
            }
            Effect::SetDisplayname { user_id, displayname } => {
                self.displaynames.push((user_id, displayname));
                Reply::Done
            }
            Effect::UpdateAccountData { room_id, user_id, event_type, content } => {
                assert_eq!(room_id, None);
                self.account_data.push((user_id, event_type, content));
                Reply::Done
            }
            Effect::CreateDevice { user_id, device_id, token, .. } => {
                self.devices.push((user_id, device_id, token));
                Reply::Done
            }
            Effect::SendAdminNotice { body } => {
                self.notices.push(body);
                if self.failing_notices {
                    Reply::Failed("admin room is gone".to_string())
                } else {
                    Reply::Done
                }
            }
            Effect::CountUsers => Reply::Count(self.users.len() as u64),
            Effect::MakeUserAdmin { user_id, .. } => {
                self.admins.push(user_id);
                Reply::Done
            }
            Effect::Flush => {
                self.flushes += 1;
                Reply::Done
            }
            Effect::SetPassword { user_id, password } => {
                for (u, p) in self.users.iter_mut() {
                    if *u == user_id {
                        *p = password.clone();
                    }
                }
                Reply::Done
            }
            Effect::AllDeviceIds { user_id } => Reply::Names(
                self.devices.iter().filter(|(u, _, _)| *u == user_id).map(|(_, d, _)| d.clone()).collect(),
            ),
            Effect::RemoveDevice { user_id, device_id } => {
                self.devices.retain(|(u, d, _)| !(*u == user_id && *d == device_id));
                Reply::Done
            }
            Effect::RoomsJoined { user_id } => Reply::Names(
                self.joined.iter().filter(|(u, _)| *u == user_id).map(|(_, r)| r.clone()).collect(),
            ),
            Effect::RoomsInvited { user_id } => Reply::Names(
                self.invited.iter().filter(|(u, _)| *u == user_id).map(|(_, r)| r.clone()).collect(),
            ),
            Effect::AwaitRoom { .. } => Reply::Done,
            Effect::BuildAndAppendPdu { pdu, sender, room_id } => {
                if !db.globals.roomid_mutex_state.is_locked(&room_id) {
                    self.unguarded_appends += 1;
                }
                if self.failing_room.as_deref() == Some(room_id.as_str()) {
                    return Reply::Failed("not allowed".to_string());
                }
                assert_eq!(pdu, leave_event(&sender));
                self.joined.retain(|(u, r)| !(*u == sender && *r == room_id));
                self.invited.retain(|(u, r)| !(*u == sender && *r == room_id));
                self.events.push((room_id, sender, pdu.content));
                Reply::Done
            }
            Effect::DeactivateAccount { user_id } => {
                self.devices.retain(|(u, _, _)| *u != user_id);
                for (u, p) in self.users.iter_mut() {
                    if *u == user_id {
                        *p = None;
                    }
                }
                self.deactivated.push(user_id);
                Reply::Done
            }
        }
    }
}

fn database(allow_registration: bool) -> Database {
    Database::new(SERVER, allow_registration, vec![AuthType::Dummy, AuthType::Password])
}

fn fresh() -> FreshStrings {
    FreshStrings {
        localpart: "q7x2m9k4w1".to_string(),
        session: "sess-1".to_string(),
        device_id: "DEVRANDOM".to_string(),
        token: "token-random".to_string(),
    }
}

fn dummy(session: Option<&str>) -> AuthData {
    AuthData {
        session: session.map(|s| s.to_string()),
        attempt: Some(StageAttempt { stage: AuthType::Dummy, payload: String::new() }),
    }
}

fn password(session: Option<&str>, secret: &str) -> AuthData {
    AuthData {
        session: session.map(|s| s.to_string()),
        attempt: Some(StageAttempt { stage: AuthType::Password, payload: secret.to_string() }),
    }
}

fn registration(username: Option<&str>) -> RegisterRequest {
    RegisterRequest {
        password: Some("hunter2".to_string()),
        username: username.map(|s| s.to_string()),
        device_id: None,
        initial_device_display_name: Some("phone".to_string()),
        auth: Some(dummy(None)),
        kind: RegistrationKind::User,
        inhibit_login: false,
        from_appservice: false,
        json_body: Some("{}".to_string()),
        fresh: fresh(),
    }
}

fn bad_request(kind: ErrorKind, message: &str) -> Error {
    Error::BadRequest(kind, message.to_string())
}

fn run_available(db: &Database, host: &mut Host, name: &str) -> Step<AvailabilityResponse> {
    let body = AvailabilityRequest { username: name.to_string() };
    let mut state = AvailabilityState::Start;
    let mut reply = Reply::Start;
    loop {
        let (next, step) = get_register_available_route(db, &body, state, reply);
        state = next;
        match step {
            Step::Perform(effect) => reply = host.perform(db, effect),
            done => {
                assert_eq!(state, AvailabilityState::Finished);
                return done;
            }
        }
    }
}

fn run_register(db: &mut Database, host: &mut Host, body: &RegisterRequest) -> Step<RegisterResponse> {
    let mut state = RegisterState::new();
    let mut reply = Reply::Start;
    loop {
        let (next, step) = register_route(db, body, state, reply);
        state = next;
        match step {
            Step::Perform(effect) => reply = host.perform(db, effect),
            done => {
                assert_eq!(state.phase(), RegisterPhase::Finished);
                return done;
            }
        }
    }
}

fn run_password(db: &mut Database, host: &mut Host, body: &ChangePasswordRequest) -> Step<ChangePasswordResponse> {
    let mut state = PasswordState::new();
    let mut reply = Reply::Start;
    loop {
        let (next, step) = change_password_route(db, body, state, reply);
        state = next;
        match step {
            Step::Perform(effect) => reply = host.perform(db, effect),
            done => return done,
        }
    }
}

fn run_deactivate(db: &mut Database, host: &mut Host, body: &DeactivateRequest) -> Step<DeactivateResponse> {
    let mut state = DeactivateState::new();
    let mut reply = Reply::Start;
    loop {
        let (next, step) = deactivate_route(db, body, state, reply);
        state = next;
        match step {
            Step::Perform(effect) => {
                let appending = matches!(effect, Effect::BuildAndAppendPdu { .. });
                assert_eq!(state.holds_guard(), appending);
                reply = host.perform(db, effect)
            }
            done => {
                assert!(!state.holds_guard());
                assert_eq!(state.phase(), DeactivatePhase::Finished);
                return done;
            }
        }
    }
}

fn password_change(logout_devices: bool, auth: Option<AuthData>) -> ChangePasswordRequest {
    ChangePasswordRequest {
        new_password: "correct horse".to_string(),
        logout_devices,
        auth,
        sender_user: Some("@alice:example.org".to_string()),
        sender_device: Some("d1".to_string()),
        json_body: Some("{\"new_password\":\"correct horse\"}".to_string()),
        fresh_session: "sess-pw".to_string(),
    }
}

fn deactivation(auth: Option<AuthData>) -> DeactivateRequest {
    DeactivateRequest {
        auth,
        sender_user: Some("@alice:example.org".to_string()),
        sender_device: Some("d1".to_string()),
        json_body: Some("{}".to_string()),
        fresh_session: "sess-de".to_string(),
    }
}

#[test]
fn free_name_is_available() {
    let db = database(true);
    let mut host = Host::new();
    assert_eq!(run_available(&db, &mut host, "Alice"), Step::Success(AvailabilityResponse { available: true }));
    assert_eq!(host.asked, vec!["UserExists"]);
}

#[test]
fn taken_name_is_in_use() {
    let db = database(true);
    let mut host = Host::new().with_user("@alice:example.org", "pw", &[]);
    assert_eq!(
        run_available(&db, &mut host, "ALICE"),
        Step::Failure(bad_request(ErrorKind::UserInUse, "Desired user ID is already taken."))
    );
}

#[test]
fn malformed_name_is_invalid_without_asking_the_store() {
    let db = database(true);
    let mut host = Host::new();
    for name in ["al ice", "a:b", "@alice:elsewhere.org", "alice!"] {
        assert_eq!(
            run_available(&db, &mut host, name),
            Step::Failure(bad_request(ErrorKind::InvalidUsername, "Username is invalid."))
        );
    }
    assert!(host.asked.is_empty());
}

#[test]
fn availability_check_can_be_repeated_and_reserves_nothing() {
    let db = database(false);
    let mut host = Host::new();
    for _ in 0..3 {
        assert_eq!(run_available(&db, &mut host, "bob"), Step::Success(AvailabilityResponse { available: true }));
    }
    assert_eq!(host.users.len(), 1);
    assert_eq!(host.asked, vec!["UserExists"; 3]);
    assert_eq!(db.uiaa.session("sess-1"), None);
}

#[test]
fn availability_passes_a_store_failure_on() {
    let db = database(true);
    let body = AvailabilityRequest { username: "bob".to_string() };
    let (state, step) = get_register_available_route(&db, &body, AvailabilityState::Start, Reply::Start);
    assert_eq!(state, AvailabilityState::Checking);
    assert_eq!(step, Step::Perform(Effect::UserExists { user_id: "@bob:example.org".to_string() }));
    let (state, step) =
        get_register_available_route(&db, &body, state, Reply::Failed("disk full".to_string()));
    assert_eq!(state, AvailabilityState::Finished);
    assert_eq!(step, Step::Failure(Error::Internal("disk full".to_string())));
    let (_, step) = get_register_available_route(&db, &body, state, Reply::Done);
    assert_eq!(step, Step::Failure(Error::Internal("unexpected reply".to_string())));
}

#[test]
fn disabled_registration_is_forbidden_before_any_session() {
    let mut db = database(false);
    let mut host = Host::new();
    let mut body = registration(Some("alice"));
    body.auth = None;
    assert_eq!(
        run_register(&mut db, &mut host, &body),
        Step::Failure(bad_request(ErrorKind::Forbidden, "Registration has been disabled."))
    );
    assert!(host.asked.is_empty());
    assert_eq!(db.uiaa.session("sess-1"), None);
    assert_eq!(host.users.len(), 1);
}

#[test]
fn disabled_registration_lets_privileged_callers_in() {
    let mut db = database(false);
    let mut host = Host::new();
    let mut body = registration(Some("bridge"));
    body.from_appservice = true;
    body.auth = None;
    body.json_body = None;
    let step = run_register(&mut db, &mut host, &body);
    assert_eq!(
        step,
        Step::Success(RegisterResponse {
            access_token: Some("token-random".to_string()),
            user_id: "@bridge:example.org".to_string(),
            device_id: Some("DEVRANDOM".to_string()),
        })
    );
    assert!(!host.asked.contains(&"VerifyCredential".to_string()));
}

#[test]
fn taken_name_is_a_conflict_whatever_the_auth() {
    for auth in [None, Some(dummy(None)), Some(dummy(Some("gone"))), Some(password(None, "x"))] {
        let mut db = database(true);
        let mut host = Host::new().with_user("@alice:example.org", "pw", &[]);
        let mut body = registration(Some("Alice"));
        body.auth = auth;
        assert_eq!(
            run_register(&mut db, &mut host, &body),
            Step::Failure(bad_request(ErrorKind::UserInUse, "Desired user ID is already taken."))
        );
        assert_eq!(host.asked, vec!["UserExists"]);
        assert_eq!(db.uiaa.session("sess-1"), None);
    }
}

#[test]
fn invalid_name_is_refused_at_registration() {
    let mut db = database(true);
    let mut host = Host::new();
    assert_eq!(
        run_register(&mut db, &mut host, &registration(Some("no spaces"))),
        Step::Failure(bad_request(ErrorKind::InvalidUsername, "Username is invalid."))
    );
    assert!(host.asked.is_empty());
}

#[test]
fn registration_without_auth_gets_a_challenge_and_no_account() {
    let mut db = database(true);
    let mut host = Host::new();
    let mut body = registration(Some("alice"));
    body.auth = None;
    body.json_body = Some("{\"username\":\"alice\"}".to_string());
    let expected = challenge(AuthType::Dummy, "sess-1");
    assert_eq!(expected.flows, vec![AuthFlow { stages: vec![AuthType::Dummy] }]);
    assert_eq!(run_register(&mut db, &mut host, &body), Step::Challenge(expected.clone()));
    assert_eq!(host.users.len(), 1);
    assert_eq!(host.asked, vec!["UserExists"]);
    assert_eq!(db.uiaa.session("sess-1"), Some(expected));
    assert_eq!(db.uiaa.request("sess-1"), Some("{\"username\":\"alice\"}".to_string()));
}

#[test]
fn registration_without_auth_and_without_json_is_not_json() {
    let mut db = database(true);
    let mut host = Host::new();
    let mut body = registration(Some("alice"));
    body.auth = None;
    body.json_body = None;
    assert_eq!(
        run_register(&mut db, &mut host, &body),
        Step::Failure(bad_request(ErrorKind::NotJson, "Not json."))
    );
    assert_eq!(db.uiaa.session("sess-1"), None);
}

#[test]
fn registration_continues_the_session_of_its_challenge() {
    let mut db = database(true);
    let mut host = Host::new();
    let mut body = registration(Some("alice"));
    body.auth = None;
    assert!(matches!(run_register(&mut db, &mut host, &body), Step::Challenge(_)));
    body.auth = Some(dummy(Some("sess-1")));
    body.fresh.session = "sess-2".to_string();
    assert!(matches!(run_register(&mut db, &mut host, &body), Step::Success(_)));
    assert_eq!(db.uiaa.session("sess-1"), None);
    assert_eq!(db.uiaa.session("sess-2"), None);
}

#[test]
fn registration_with_unknown_session_fails() {
    let mut db = database(true);
    let mut host = Host::new();
    let mut body = registration(Some("alice"));
    body.auth = Some(dummy(Some("never-issued")));
    assert_eq!(run_register(&mut db, &mut host, &body), Step::Failure(Error::SessionNotFound));
    assert_eq!(host.users.len(), 1);
}

#[test]
fn registration_with_unsupported_stage_fails() {
    let mut db = database(true);
    let mut host = Host::new();
    let mut body = registration(Some("alice"));
    body.auth = Some(AuthData {
        session: None,
        attempt: Some(StageAttempt { stage: AuthType::ReCaptcha, payload: String::new() }),
    });
    assert_eq!(run_register(&mut db, &mut host, &body), Step::Failure(Error::UnknownStage));
    assert_eq!(host.users.len(), 1);
}

#[test]
fn wrong_stage_completed_is_still_a_challenge() {
    let mut db = database(true);
    let mut host = Host::new().with_user("@:example.org", "pw", &[]);
    let mut body = registration(Some("alice"));
    body.auth = Some(password(None, "pw"));
    let step = run_register(&mut db, &mut host, &body);
    match step {
        Step::Challenge(info) => {
            assert_eq!(info.completed, vec![AuthType::Password]);
            assert_eq!(info.session, Some("sess-1".to_string()));
        }
        other => panic!("{:?}", other),
    }
    assert_eq!(host.users.len(), 2);
}

#[test]
fn missing_username_fails_only_after_auth() {
    let mut db = database(true);
    let mut host = Host::new();
    let mut body = registration(None);
    body.auth = None;
    assert!(matches!(run_register(&mut db, &mut host, &body), Step::Challenge(_)));
    body.auth = Some(dummy(Some("sess-1")));
    assert_eq!(
        run_register(&mut db, &mut host, &body),
        Step::Failure(bad_request(ErrorKind::MissingParam, "Missing username field."))
    );
    assert_eq!(host.users.len(), 1);
    assert!(!host.asked.contains(&"CreateUser".to_string()));
}

#[test]
fn successful_registration_writes_everything_in_order() {
    let mut db = database(true);
    let mut host = Host::new().with_user("@old:example.org", "pw", &[]);
    let mut body = registration(Some("Alice"));
    body.device_id = Some("MYDEVICE".to_string());
    let step = run_register(&mut db, &mut host, &body);
    assert_eq!(
        step,
        Step::Success(RegisterResponse {
            access_token: Some("token-random".to_string()),
            user_id: "@alice:example.org".to_string(),
            device_id: Some("MYDEVICE".to_string()),
        })
    );
    assert_eq!(
        host.asked,
        vec![
            "UserExists",
            "VerifyCredential",
            "CreateUser",
            "SetDisplayname",
            "UpdateAccountData",
            "CreateDevice",
            "SendAdminNotice",
            "CountUsers",
            "Flush"
        ]
    );
    assert!(host.users.contains(&("@alice:example.org".to_string(), Some("hunter2".to_string()))));
    assert_eq!(
        host.displaynames,
        vec![("@alice:example.org".to_string(), Some("alice \u{26a1}\u{fe0f}".to_string()))]
    );
    assert_eq!(
        host.devices,
        vec![("@alice:example.org".to_string(), "MYDEVICE".to_string(), "token-random".to_string())]
    );
    assert_eq!(host.notices, vec!["New user @alice:example.org registered on this server."]);
    assert!(host.admins.is_empty());
    assert_eq!(host.flushes, 1);
}

#[test]
fn default_push_rules_are_seeded() {
    let mut db = database(true);
    let mut host = Host::new();
    assert!(matches!(run_register(&mut db, &mut host, &registration(Some("alice"))), Step::Success(_)));
    assert_eq!(host.account_data.len(), 1);
    let (user, event_type, content) = &host.account_data[0];
    assert_eq!(user, "@alice:example.org");
    assert_eq!(event_type, "m.push_rules");
    let value: serde_json::Value = serde_json::from_str(content).unwrap();
    assert_eq!(value.get("type").and_then(|t| t.as_str()), Some("m.push_rules"));
    let global = value.get("content").and_then(|c| c.get("global")).unwrap();
    assert!(global.get("override").and_then(|o| o.as_array()).map(|o| !o.is_empty()).unwrap());
    assert!(content.contains("alice"));
}

#[test]
fn first_real_account_becomes_admin_and_the_next_does_not() {
    let mut db = database(true);
    let mut host = Host::new();
    assert!(matches!(run_register(&mut db, &mut host, &registration(Some("alice"))), Step::Success(_)));
    assert_eq!(host.admins, vec!["@alice:example.org"]);
    assert!(host.asked.contains(&"MakeUserAdmin".to_string()));
    let mut second = registration(Some("bob"));
    second.fresh.session = "sess-2".to_string();
    assert!(matches!(run_register(&mut db, &mut host, &second), Step::Success(_)));
    assert_eq!(host.admins, vec!["@alice:example.org"]);
    assert_eq!(host.users.len(), 3);
}

#[test]
fn admin_is_granted_at_a_count_of_two_only() {
    for (count, granted) in [(0u64, false), (1, false), (2, true), (3, false), (u64::MAX, false)] {
        let mut db = database(true);
        let body = registration(Some("alice"));
        let mut state = RegisterState::new();
        let mut reply = Reply::Start;
        let step = loop {
            let (next, step) = register_route(&mut db, &body, state, reply);
            state = next;
            reply = match step {
                Step::Perform(Effect::UserExists { .. }) => Reply::Flag(false),
                Step::Perform(Effect::VerifyCredential { .. }) => Reply::Verdict(Verdict::Accepted),
                Step::Perform(Effect::CountUsers) => {
                    assert_eq!(state.phase(), RegisterPhase::Counting);
                    let (next, step) = register_route(&mut db, &body, state, Reply::Count(count));
                    state = next;
                    break step;
                }
                Step::Perform(_) => Reply::Done,
                other => panic!("{:?}", other),
            };
        };
        let admin = Step::Perform(Effect::MakeUserAdmin {
            user_id: "@alice:example.org".to_string(),
            displayname: "alice \u{26a1}\u{fe0f}".to_string(),
        });
        assert_eq!(step == admin, granted);
        if !granted {
            assert_eq!(step, Step::Perform(Effect::Flush));
            assert_eq!(state.phase(), RegisterPhase::Flushing);
        } else {
            assert_eq!(state.phase(), RegisterPhase::GrantingAdmin);
        }
    }
}

#[test]
fn guest_gets_a_random_name_and_no_password() {
    let mut db = database(true);
    let mut host = Host::new();
    let mut body = registration(Some("ignored"));
    body.kind = RegistrationKind::Guest;
    body.device_id = Some("ALSOIGNORED".to_string());
    let step = run_register(&mut db, &mut host, &body);
    assert_eq!(
        step,
        Step::Success(RegisterResponse {
            access_token: Some("token-random".to_string()),
            user_id: "@q7x2m9k4w1:example.org".to_string(),
            device_id: Some("DEVRANDOM".to_string()),
        })
    );
    assert!(host.users.contains(&("@q7x2m9k4w1:example.org".to_string(), None)));
}

#[test]
fn guest_with_inhibited_login_gets_no_device() {
    let mut db = database(true);
    let mut host = Host::new();
    let mut body = registration(None);
    body.kind = RegistrationKind::Guest;
    body.inhibit_login = true;
    let step = run_register(&mut db, &mut host, &body);
    assert_eq!(
        step,
        Step::Success(RegisterResponse {
            access_token: None,
            user_id: "@q7x2m9k4w1:example.org".to_string(),
            device_id: None,
        })
    );
    assert!(host.devices.is_empty());
    assert!(!host.asked.contains(&"CreateDevice".to_string()));
    assert_eq!(host.notices.len(), 1);
}

#[test]
fn inhibited_login_leaves_token_and_device_out_of_the_answer() {
    let mut db = database(true);
    let mut host = Host::new();
    let mut body = registration(Some("alice"));
    body.inhibit_login = true;
    let step = run_register(&mut db, &mut host, &body);
    assert_eq!(
        step,
        Step::Success(RegisterResponse {
            access_token: None,
            user_id: "@alice:example.org".to_string(),
            device_id: None,
        })
    );
    assert_eq!(host.devices.len(), 1);
}

#[test]
fn failing_admin_notice_does_not_fail_registration() {
    let mut db = database(true);
    let mut host = Host::new();
    host.failing_notices = true;
    assert!(matches!(run_register(&mut db, &mut host, &registration(Some("alice"))), Step::Success(_)));
    assert_eq!(host.notices.len(), 1);
    assert_eq!(host.admins, vec!["@alice:example.org"]);
}

#[test]
fn store_failure_aborts_registration_as_internal() {
    let mut db = database(true);
    let body = registration(Some("alice"));
    let (state, _) = register_route(&mut db, &body, RegisterState::new(), Reply::Start);
    let (state, _) = register_route(&mut db, &body, state, Reply::Flag(false));
    let (state, step) = register_route(&mut db, &body, state, Reply::Verdict(Verdict::Accepted));
    assert!(matches!(step, Step::Perform(Effect::CreateUser { .. })));
    let (state, step) = register_route(&mut db, &body, state, Reply::Failed("disk full".to_string()));
    assert_eq!(step, Step::Failure(Error::Internal("disk full".to_string())));
    assert_eq!(state.phase(), RegisterPhase::Finished);
    let (_, step) = register_route(&mut db, &body, state, Reply::Done);
    assert_eq!(step, Step::Failure(Error::Internal("unexpected reply".to_string())));
}

#[test]
fn reply_of_the_wrong_kind_is_an_internal_error() {
    assert_eq!(error_of_reply(Reply::Count(3)), Error::Internal("unexpected reply".to_string()));
    assert_eq!(error_of_reply(Reply::Failed("why".to_string())), Error::Internal("why".to_string()));
    let mut db = database(true);
    let body = registration(Some("alice"));
    let (state, _) = register_route(&mut db, &body, RegisterState::new(), Reply::Start);
    let (_, step) = register_route(&mut db, &body, state, Reply::Names(vec![]));
    assert_eq!(step, Step::Failure(Error::Internal("unexpected reply".to_string())));
}

#[test]
fn notice_joins_its_parts() {
    assert_eq!(notice("User ", "@a:b", " left."), "User @a:b left.");
    assert_eq!(notice("", "", ""), "");
}

#[test]
fn other_devices_are_all_but_the_own_in_order() {
    let ids: Vec<String> = ["d2", "d1", "d3", "d1"].iter().map(|s| s.to_string()).collect();
    assert_eq!(other_devices(&ids, &"d1".to_string()), vec!["d2", "d3"]);
    assert_eq!(other_devices(&ids, &"d9".to_string()), ids);
    assert_eq!(other_devices(&vec![], &"d1".to_string()), Vec::<String>::new());
}

#[test]
fn password_change_logs_out_every_other_device() {
    let mut db = database(true);
    let mut host = Host::new()
        .with_user("@alice:example.org", "old", &["d1", "d2", "d3"])
        .with_user("@bob:example.org", "pw", &["d2"]);
    let body = password_change(true, Some(password(None, "old")));
    assert_eq!(run_password(&mut db, &mut host, &body), Step::Success(ChangePasswordResponse {}));
    assert!(host.token_is_valid("token-d1"));
    assert!(!host.token_is_valid("token-d3"));
    assert_eq!(
        host.devices,
        vec![
            ("@alice:example.org".to_string(), "d1".to_string(), "token-d1".to_string()),
            ("@bob:example.org".to_string(), "d2".to_string(), "token-d2".to_string()),
        ]
    );
    assert!(host.users.contains(&("@alice:example.org".to_string(), Some("correct horse".to_string()))));
    assert_eq!(
        host.asked,
        vec![
            "VerifyCredential",
            "SetPassword",
            "AllDeviceIds",
            "RemoveDevice",
            "RemoveDevice",
            "Flush",
            "SendAdminNotice"
        ]
    );
    assert_eq!(host.notices, vec!["User @alice:example.org changed their password."]);
}

#[test]
fn password_change_without_logout_keeps_all_devices() {
    let mut db = database(true);
    let mut host = Host::new().with_user("@alice:example.org", "old", &["d1", "d2", "d3"]);
    let body = password_change(false, Some(password(None, "old")));
    assert_eq!(run_password(&mut db, &mut host, &body), Step::Success(ChangePasswordResponse {}));
    assert_eq!(host.devices.len(), 3);
    assert_eq!(host.asked, vec!["VerifyCredential", "SetPassword", "Flush", "SendAdminNotice"]);
}

#[test]
fn wrong_password_is_a_challenge_with_the_error_and_changes_nothing() {
    let mut db = database(true);
    let mut host = Host::new().with_user("@alice:example.org", "old", &["d1", "d2"]);
    let body = password_change(true, Some(password(None, "guess")));
    match run_password(&mut db, &mut host, &body) {
        Step::Challenge(info) => {
            assert_eq!(info.completed, vec![]);
            assert_eq!(info.flows, vec![AuthFlow { stages: vec![AuthType::Password] }]);
            assert_eq!(
                info.auth_error,
                Some(StandardErrorBody {
                    kind: ErrorKind::Forbidden,
                    message: "Invalid username or password.".to_string(),
                })
            );
            assert_eq!(db.uiaa.session("sess-pw"), Some(info));
        }
        other => panic!("{:?}", other),
    }
    assert!(host.users.contains(&("@alice:example.org".to_string(), Some("old".to_string()))));
    assert_eq!(host.devices.len(), 2);
    assert_eq!(host.asked, vec!["VerifyCredential"]);
}

#[test]
fn password_change_without_auth_challenges_or_is_not_json() {
    let mut db = database(true);
    let mut host = Host::new().with_user("@alice:example.org", "old", &["d1"]);
    let mut body = password_change(true, None);
    assert_eq!(
        run_password(&mut db, &mut host, &body),
        Step::Challenge(challenge(AuthType::Password, "sess-pw"))
    );
    body.json_body = None;
    assert_eq!(
        run_password(&mut db, &mut host, &body),
        Step::Failure(bad_request(ErrorKind::NotJson, "Not json."))
    );
    assert!(host.asked.is_empty());
}

#[test]
fn failed_removal_aborts_the_password_change() {
    let mut db = database(true);
    let body = password_change(true, Some(password(None, "old")));
    let (state, _) = change_password_route(&mut db, &body, PasswordState::new(), Reply::Start);
    let (state, _) = change_password_route(&mut db, &body, state, Reply::Verdict(Verdict::Accepted));
    let (state, step) = change_password_route(&mut db, &body, state, Reply::Done);
    assert_eq!(step, Step::Perform(Effect::AllDeviceIds { user_id: "@alice:example.org".to_string() }));
    let ids = vec!["d1".to_string(), "d2".to_string()];
    let (state, step) = change_password_route(&mut db, &body, state, Reply::Names(ids));
    assert_eq!(
        step,
        Step::Perform(Effect::RemoveDevice {
            user_id: "@alice:example.org".to_string(),
            device_id: "d2".to_string()
        })
    );
    let (_, step) = change_password_route(&mut db, &body, state, Reply::Failed("locked".to_string()));
    assert_eq!(step, Step::Failure(Error::Internal("locked".to_string())));
}

#[test]
fn deactivation_leaves_every_room_once_under_its_guard() {
    let mut db = database(true);
    let mut host = Host::new().with_user("@alice:example.org", "pw", &["d1", "d2"]);
    host.joined.push(("@alice:example.org".to_string(), "!r1:example.org".to_string()));
    host.joined.push(("@alice:example.org".to_string(), "!r2:example.org".to_string()));
    host.joined.push(("@bob:example.org".to_string(), "!r1:example.org".to_string()));
    let body = deactivation(Some(password(None, "pw")));
    assert_eq!(
        run_deactivate(&mut db, &mut host, &body),
        Step::Success(DeactivateResponse { id_server_unbind_result: ThirdPartyIdRemovalStatus::NoSupport })
    );
    let leave = "{\"membership\":\"leave\"}".to_string();
    assert_eq!(
        host.events,
        vec![
            ("!r1:example.org".to_string(), "@alice:example.org".to_string(), leave.clone()),
            ("!r2:example.org".to_string(), "@alice:example.org".to_string(), leave),
        ]
    );
    assert_eq!(host.unguarded_appends, 0);
    assert!(!db.globals.roomid_mutex_state.is_locked("!r1:example.org"));
    assert!(!db.globals.roomid_mutex_state.is_locked("!r2:example.org"));
    assert_eq!(host.deactivated, vec!["@alice:example.org"]);
    assert!(!host.token_is_valid("token-d1") && !host.token_is_valid("token-d2"));
    assert!(host.users.contains(&("@alice:example.org".to_string(), None)));
    assert_eq!(host.joined, vec![("@bob:example.org".to_string(), "!r1:example.org".to_string())]);
    assert_eq!(host.notices, vec!["User @alice:example.org deactivated their account."]);
    assert_eq!(
        host.asked,
        vec![
            "VerifyCredential",
            "RoomsJoined",
            "RoomsInvited",
            "BuildAndAppendPdu",
            "BuildAndAppendPdu",
            "DeactivateAccount",
            "SendAdminNotice",
            "Flush"
        ]
    );
}

#[test]
fn deactivation_rejects_invitations_after_joined_rooms() {
    let mut db = database(true);
    let mut host = Host::new().with_user("@alice:example.org", "pw", &["d1"]);
    host.invited.push(("@alice:example.org".to_string(), "!inv:example.org".to_string()));
    host.joined.push(("@alice:example.org".to_string(), "!r1:example.org".to_string()));
    let body = deactivation(Some(password(None, "pw")));
    assert!(matches!(run_deactivate(&mut db, &mut host, &body), Step::Success(_)));
    let rooms: Vec<&str> = host.events.iter().map(|(r, _, _)| r.as_str()).collect();
    assert_eq!(rooms, vec!["!r1:example.org", "!inv:example.org"]);
    assert!(host.invited.is_empty());
}

#[test]
fn deactivation_of_a_user_in_no_room_goes_straight_on() {
    let mut db = database(true);
    let mut host = Host::new().with_user("@alice:example.org", "pw", &["d1"]);
    let body = deactivation(Some(password(None, "pw")));
    assert!(matches!(run_deactivate(&mut db, &mut host, &body), Step::Success(_)));
    assert!(host.events.is_empty());
    assert_eq!(host.deactivated, vec!["@alice:example.org"]);
}

#[test]
fn failed_leave_is_reported_with_the_rooms_already_left() {
    let mut db = database(true);
    let mut host = Host::new().with_user("@alice:example.org", "pw", &["d1"]);
    for room in ["!r1:example.org", "!r2:example.org", "!r3:example.org"] {
        host.joined.push(("@alice:example.org".to_string(), room.to_string()));
    }
    host.failing_room = Some("!r2:example.org".to_string());
    let body = deactivation(Some(password(None, "pw")));
    assert_eq!(
        run_deactivate(&mut db, &mut host, &body),
        Step::Failure(Error::LeaveFailed {
            left: vec!["!r1:example.org".to_string()],
            room_id: "!r2:example.org".to_string(),
            reason: "not allowed".to_string(),
        })
    );
    assert_eq!(host.events.len(), 1);
    assert!(host.deactivated.is_empty());
    assert!(host.token_is_valid("token-d1"));
    assert!(!db.globals.roomid_mutex_state.is_locked("!r1:example.org"));
    assert!(!db.globals.roomid_mutex_state.is_locked("!r2:example.org"));
    assert!(!db.globals.roomid_mutex_state.is_locked("!r3:example.org"));
}

#[test]
fn deactivation_waits_for_a_room_that_is_held() {
    let mut db = database(true);
    let held = db.globals.roomid_mutex_state.acquire("!r1:example.org").unwrap();
    let body = deactivation(Some(password(None, "pw")));
    let (state, _) = deactivate_route(&mut db, &body, DeactivateState::new(), Reply::Start);
    let (state, step) = deactivate_route(&mut db, &body, state, Reply::Verdict(Verdict::Accepted));
    assert_eq!(step, Step::Perform(Effect::RoomsJoined { user_id: "@alice:example.org".to_string() }));
    let (state, step) =
        deactivate_route(&mut db, &body, state, Reply::Names(vec!["!r1:example.org".to_string()]));
    assert_eq!(step, Step::Perform(Effect::RoomsInvited { user_id: "@alice:example.org".to_string() }));
    let (state, step) = deactivate_route(&mut db, &body, state, Reply::Names(vec![]));
    assert_eq!(step, Step::Perform(Effect::AwaitRoom { room_id: "!r1:example.org".to_string() }));
    assert_eq!(state.phase(), DeactivatePhase::Waiting);
    assert!(!state.holds_guard());
    let (state, step) = deactivate_route(&mut db, &body, state, Reply::Done);
    assert_eq!(step, Step::Perform(Effect::AwaitRoom { room_id: "!r1:example.org".to_string() }));
    db.globals.roomid_mutex_state.release(held);
    let (state, step) = deactivate_route(&mut db, &body, state, Reply::Done);
    assert_eq!(
        step,
        Step::Perform(Effect::BuildAndAppendPdu {
            pdu: leave_event("@alice:example.org"),
            sender: "@alice:example.org".to_string(),
            room_id: "!r1:example.org".to_string(),
        })
    );
    assert_eq!(state.phase(), DeactivatePhase::Appending);
    assert!(state.holds_guard());
    assert!(db.globals.roomid_mutex_state.is_locked("!r1:example.org"));
    assert!(db.globals.roomid_mutex_state.acquire("!r1:example.org").is_none());
    let other = db.globals.roomid_mutex_state.acquire("!r2:example.org");
    assert!(other.is_some());
    let (state, step) = deactivate_route(&mut db, &body, state, Reply::Done);
    assert_eq!(step, Step::Perform(Effect::DeactivateAccount { user_id: "@alice:example.org".to_string() }));
    assert!(!state.holds_guard());
    assert!(!db.globals.roomid_mutex_state.is_locked("!r1:example.org"));
    assert!(db.globals.roomid_mutex_state.is_locked("!r2:example.org"));
}

#[test]
fn abandoned_deactivation_gives_its_guard_back() {
    let mut db = database(true);
    let body = deactivation(Some(password(None, "pw")));
    let (state, _) = deactivate_route(&mut db, &body, DeactivateState::new(), Reply::Start);
    let (state, _) = deactivate_route(&mut db, &body, state, Reply::Verdict(Verdict::Accepted));
    let (state, _) = deactivate_route(&mut db, &body, state, Reply::Names(vec!["!r1:example.org".to_string()]));
    let (state, step) = deactivate_route(&mut db, &body, state, Reply::Names(vec![]));
    assert!(matches!(step, Step::Perform(Effect::BuildAndAppendPdu { .. })));
    assert!(db.globals.roomid_mutex_state.is_locked("!r1:example.org"));
    abandon(&mut db, state);
    assert!(!db.globals.roomid_mutex_state.is_locked("!r1:example.org"));
    abandon(&mut db, DeactivateState::new());
}

#[test]
fn deactivation_without_proof_is_a_challenge_and_leaves_nothing() {
    let mut db = database(true);
    let mut host = Host::new().with_user("@alice:example.org", "pw", &["d1"]);
    host.joined.push(("@alice:example.org".to_string(), "!r1:example.org".to_string()));
    assert_eq!(
        run_deactivate(&mut db, &mut host, &deactivation(None)),
        Step::Challenge(challenge(AuthType::Password, "sess-de"))
    );
    assert!(matches!(
        run_deactivate(&mut db, &mut host, &deactivation(Some(password(Some("sess-de"), "wrong")))),
        Step::Challenge(_)
    ));
    assert!(host.events.is_empty() && host.deactivated.is_empty());
    assert!(matches!(
        run_deactivate(&mut db, &mut host, &deactivation(Some(password(Some("sess-de"), "pw")))),
        Step::Success(_)
    ));
    assert_eq!(host.events.len(), 1);
    assert_eq!(db.uiaa.session("sess-de"), None);
}

#[test]
fn whoami_reports_the_caller() {
    let body = WhoamiRequest {
        sender_user: Some("@alice:example.org".to_string()),
        sender_device: Some("d1".to_string()),
    };
    let (state, step) = whoami_route(&body, WhoamiState::Start, Reply::Start);
    assert_eq!(state, WhoamiState::Looking);
    assert_eq!(step, Step::Perform(Effect::IsDeactivated { user_id: "@alice:example.org".to_string() }));
    let (state, step) = whoami_route(&body, state, Reply::Flag(false));
    assert_eq!(state, WhoamiState::Finished);
    assert_eq!(
        step,
        Step::Success(WhoamiResponse {
            user_id: "@alice:example.org".to_string(),
            device_id: Some("d1".to_string()),
            is_guest: false,
        })
    );
    let (_, step) = whoami_route(&body, state, Reply::Flag(false));
    assert_eq!(step, Step::Failure(Error::Internal("unexpected reply".to_string())));
}

#[test]
fn whoami_without_device_and_with_a_failing_store() {
    let body = WhoamiRequest { sender_user: Some("@bridge:example.org".to_string()), sender_device: None };
    let (_, step) = whoami_route(&body, WhoamiState::Looking, Reply::Flag(true));
    assert_eq!(
        step,
        Step::Success(WhoamiResponse {
            user_id: "@bridge:example.org".to_string(),
            device_id: None,
            is_guest: true,
        })
    );
    let (_, step) = whoami_route(&body, WhoamiState::Looking, Reply::Failed("down".to_string()));
    assert_eq!(step, Step::Failure(Error::Internal("down".to_string())));
}

#[test]
fn third_party_identifiers_are_none() {
    let body = ThirdPartyRequest { sender_user: Some("@alice:example.org".to_string()) };
    assert_eq!(third_party_route(&body).threepids, vec![]);
}

#[test]
fn push_rules_are_stored_as_global_account_data() {
    assert_eq!(
        push_rules_effect("@a:example.org".to_string(), Some("{\"k\":1}".to_string())),
        Some(Effect::UpdateAccountData {
            room_id: None,
            user_id: "@a:example.org".to_string(),
            event_type: "m.push_rules".to_string(),
            content: "{\"k\":1}".to_string(),
        })
    );
    assert_eq!(push_rules_effect("@a:example.org".to_string(), None), None);
}
