use account_core::error::{Error, ErrorKind, StandardErrorBody};
use account_core::uiaa::{
    contains_stage, flow_is_covered, is_satisfied, AuthData, AuthFlow, AuthType, StageAttempt, Uiaa,
    UiaaInfo, Verdict,
};

const A: AuthType = AuthType::Password;
const B: AuthType = AuthType::Dummy;
const C: AuthType = AuthType::ReCaptcha;

fn flows(of: &[&[AuthType]]) -> Vec<AuthFlow> {
    of.iter().map(|stages| AuthFlow { stages: stages.to_vec() }).collect()
}

fn template(of: &[&[AuthType]], token: &str) -> UiaaInfo {
    let mut info = UiaaInfo::new(flows(of));
    info.session = Some(token.to_string());
    info
}

fn attempt(session: Option<&str>, stage: AuthType) -> AuthData {
    AuthData {
        session: session.map(|s| s.to_string()),
        attempt: Some(StageAttempt { stage, payload: "secret".to_string() }),
    }
}

fn engine() -> Uiaa {
    Uiaa::new(vec![A, B, C])
}

#[test]
fn single_flow_is_satisfied_by_its_stage_only() {
    let one = flows(&[&[A]]);
    assert!(!is_satisfied(&one, &vec![]));
    assert!(is_satisfied(&one, &vec![A]));
    assert!(!is_satisfied(&one, &vec![C]));
    assert!(is_satisfied(&one, &vec![A, B]));
}

#[test]
fn either_of_two_flows_satisfies() {
    let two = flows(&[&[A, B], &[C]]);
    assert!(!is_satisfied(&two, &vec![]));
    assert!(!is_satisfied(&two, &vec![A]));
    assert!(is_satisfied(&two, &vec![C]));
    assert!(is_satisfied(&two, &vec![A, B]));
    assert!(is_satisfied(&two, &vec![B, A]));
}

#[test]
fn info_reports_satisfaction_of_its_own_fields() {
    let mut info = UiaaInfo::new(flows(&[&[A, B], &[C]]));
    assert!(!info.satisfied());
    info.completed.push(A);
    assert!(!info.satisfied());
    info.completed.push(B);
    assert!(info.satisfied());
}

#[test]
fn no_flow_is_never_satisfied_and_empty_flow_always() {
    assert!(!is_satisfied(&flows(&[]), &vec![A, B, C]));
    assert!(is_satisfied(&flows(&[&[]]), &vec![]));
}

#[test]
fn stage_lookup_and_flow_cover() {
    assert!(contains_stage(&vec![A, B], B));
    assert!(!contains_stage(&vec![A, B], C));
    assert!(flow_is_covered(&AuthFlow { stages: vec![B, A, B] }, &vec![A, B]));
    assert!(!flow_is_covered(&AuthFlow { stages: vec![A, C] }, &vec![A, B]));
}

#[test]
fn new_info_is_empty() {
    let info = UiaaInfo::new(flows(&[&[A]]));
    assert_eq!(info.completed, vec![]);
    assert_eq!(info.params, "");
    assert_eq!(info.session, None);
    assert_eq!(info.auth_error, None);
    assert_eq!(info.flows, flows(&[&[A]]));
}

#[test]
fn create_stores_the_session_and_challenges() {
    let mut uiaa = engine();
    let mut offered = template(&[&[A]], "tok");
    offered.completed.push(A);
    let challenge = uiaa.create("@alice:example.org", "DEV", &offered, "{\"x\":1}");
    assert_eq!(challenge.session, Some("tok".to_string()));
    assert_eq!(challenge.flows, flows(&[&[A]]));
    assert_eq!(challenge.completed, vec![]);
    assert!(!challenge.satisfied());
    assert_eq!(uiaa.session("tok"), Some(challenge));
    assert_eq!(uiaa.request("tok"), Some("{\"x\":1}".to_string()));
    assert_eq!(uiaa.session("other"), None);
    assert_eq!(uiaa.request("other"), None);
}

#[test]
fn unknown_token_is_session_not_found() {
    let mut uiaa = engine();
    let res = uiaa.try_auth("u", "d", &attempt(Some("nope"), A), &template(&[&[A]], "t"), &Verdict::Accepted);
    assert_eq!(res, Err(Error::SessionNotFound));
    assert_eq!(uiaa.session("nope"), None);
    assert_eq!(uiaa.session("t"), None);
}

#[test]
fn no_token_anywhere_is_session_not_found() {
    let mut uiaa = engine();
    let offered = UiaaInfo::new(flows(&[&[A]]));
    let res = uiaa.try_auth("u", "d", &attempt(None, A), &offered, &Verdict::Accepted);
    assert_eq!(res, Err(Error::SessionNotFound));
}

#[test]
fn stage_without_verifier_is_unknown() {
    let mut uiaa = Uiaa::new(vec![A]);
    assert!(uiaa.has_verifier(A));
    assert!(!uiaa.has_verifier(B));
    let res = uiaa.try_auth("u", "d", &attempt(None, B), &template(&[&[B]], "t"), &Verdict::Accepted);
    assert_eq!(res, Err(Error::UnknownStage));
    assert_eq!(uiaa.session("t"), None);
}

#[test]
fn absent_attempt_behaves_as_create() {
    let mut uiaa = engine();
    let probe = AuthData { session: None, attempt: None };
    let res = uiaa.try_auth("u", "d", &probe, &template(&[&[A, B]], "t"), &Verdict::Accepted);
    let (done, info) = res.unwrap();
    assert!(!done);
    assert_eq!(info.session, Some("t".to_string()));
    assert_eq!(info.completed, vec![]);
    assert_eq!(uiaa.session("t"), Some(info));
}

#[test]
fn absent_attempt_on_stored_session_reports_it_unchanged() {
    let mut uiaa = engine();
    uiaa.create("u", "d", &template(&[&[A, B]], "t"), "{}");
    uiaa.try_auth("u", "d", &attempt(Some("t"), A), &template(&[], "x"), &Verdict::Accepted).unwrap();
    let probe = AuthData { session: Some("t".to_string()), attempt: None };
    let (done, info) = uiaa.try_auth("u", "d", &probe, &template(&[], "x"), &Verdict::Accepted).unwrap();
    assert!(!done);
    assert_eq!(info.completed, vec![A]);
    assert_eq!(uiaa.session("t"), Some(info));
    assert_eq!(uiaa.request("t"), Some("{}".to_string()));
    assert_eq!(uiaa.session("x"), None);
}

#[test]
fn rejection_is_recorded_and_changes_nothing_else() {
    let mut uiaa = engine();
    uiaa.create("u", "d", &template(&[&[A, B]], "t"), "{}");
    uiaa.try_auth("u", "d", &attempt(Some("t"), A), &template(&[], "x"), &Verdict::Accepted).unwrap();
    let verdict = Verdict::Rejected("Invalid username or password.".to_string());
    let (done, info) = uiaa.try_auth("u", "d", &attempt(Some("t"), B), &template(&[], "x"), &verdict).unwrap();
    assert!(!done);
    assert_eq!(info.completed, vec![A]);
    assert_eq!(
        info.auth_error,
        Some(StandardErrorBody {
            kind: ErrorKind::Forbidden,
            message: "Invalid username or password.".to_string(),
        })
    );
    assert_eq!(uiaa.session("t"), Some(info));
}

#[test]
fn acceptance_clears_the_last_error() {
    let mut uiaa = engine();
    uiaa.create("u", "d", &template(&[&[A, B]], "t"), "{}");
    let verdict = Verdict::Rejected("no".to_string());
    uiaa.try_auth("u", "d", &attempt(Some("t"), A), &template(&[], "x"), &verdict).unwrap();
    let (done, info) =
        uiaa.try_auth("u", "d", &attempt(Some("t"), A), &template(&[], "x"), &Verdict::Accepted).unwrap();
    assert!(!done);
    assert_eq!(info.auth_error, None);
    assert_eq!(info.completed, vec![A]);
}

#[test]
fn completed_stage_is_not_counted_twice() {
    let mut uiaa = engine();
    uiaa.create("u", "d", &template(&[&[A, B]], "t"), "{}");
    for _ in 0..3 {
        uiaa.try_auth("u", "d", &attempt(Some("t"), A), &template(&[], "x"), &Verdict::Accepted).unwrap();
    }
    assert_eq!(uiaa.session("t").unwrap().completed, vec![A]);
}

#[test]
fn completed_stages_only_grow() {
    let mut uiaa = engine();
    uiaa.create("u", "d", &template(&[&[A, B, C]], "t"), "{}");
    let calls = [
        (A, Verdict::Accepted),
        (B, Verdict::Rejected("no".to_string())),
        (A, Verdict::Rejected("no".to_string())),
        (B, Verdict::Accepted),
        (A, Verdict::Accepted),
    ];
    let mut before: Vec<AuthType> = vec![];
    for (stage, verdict) in calls.iter() {
        uiaa.try_auth("u", "d", &attempt(Some("t"), *stage), &template(&[], "x"), verdict).unwrap();
        let after = uiaa.session("t").unwrap().completed;
        assert!(before.iter().all(|s| after.contains(s)));
        before = after;
    }
    assert_eq!(before, vec![A, B]);
}

#[test]
fn satisfied_session_is_forgotten() {
    let mut uiaa = engine();
    let (done, info) =
        uiaa.try_auth("u", "d", &attempt(None, B), &template(&[&[B]], "t"), &Verdict::Accepted).unwrap();
    assert!(done);
    assert_eq!(info.completed, vec![B]);
    assert_eq!(info.session, Some("t".to_string()));
    assert_eq!(uiaa.session("t"), None);
}

#[test]
fn two_stages_in_either_order_lose_no_update() {
    for (first, second) in [(A, B), (B, A)] {
        let mut uiaa = engine();
        uiaa.create("u", "d", &template(&[&[A, B]], "t"), "{}");
        let (done, _) =
            uiaa.try_auth("u", "d1", &attempt(Some("t"), first), &template(&[], "x"), &Verdict::Accepted).unwrap();
        assert!(!done);
        let (done, info) =
            uiaa.try_auth("u", "d2", &attempt(Some("t"), second), &template(&[], "y"), &Verdict::Accepted).unwrap();
        assert!(done);
        assert!(info.completed.contains(&A) && info.completed.contains(&B));
        assert_eq!(info.completed.len(), 2);
    }
}

#[test]
fn sessions_do_not_touch_each_other() {
    let mut uiaa = engine();
    uiaa.create("u", "d", &template(&[&[A, B]], "one"), "1");
    uiaa.create("v", "e", &template(&[&[A, C]], "two"), "2");
    uiaa.try_auth("u", "d", &attempt(Some("one"), A), &template(&[], "x"), &Verdict::Accepted).unwrap();
    assert_eq!(uiaa.session("one").unwrap().completed, vec![A]);
    assert_eq!(uiaa.session("two").unwrap().completed, vec![]);
    uiaa.remove("one");
    assert_eq!(uiaa.session("one"), None);
    assert_eq!(uiaa.session("two").unwrap().flows, flows(&[&[A, C]]));
    uiaa.remove("missing");
    assert_eq!(uiaa.request("two"), Some("2".to_string()));
}

#[test]
fn verdict_is_needed_only_for_a_resolvable_known_stage() {
    let mut uiaa = Uiaa::new(vec![A]);
    let offered = template(&[&[A]], "t");
    assert!(uiaa.needs_verdict(&attempt(None, A), &offered));
    assert!(!uiaa.needs_verdict(&attempt(None, B), &offered));
    assert!(!uiaa.needs_verdict(&attempt(Some("gone"), A), &offered));
    assert!(!uiaa.needs_verdict(&AuthData { session: None, attempt: None }, &offered));
    assert!(!uiaa.needs_verdict(&attempt(None, A), &UiaaInfo::new(flows(&[&[A]]))));
    uiaa.create("u", "d", &offered, "{}");
    assert!(uiaa.needs_verdict(&attempt(Some("t"), A), &UiaaInfo::new(vec![])));
}
