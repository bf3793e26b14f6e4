//! Interactive multi-stage authentication.

use vstd::prelude::*;
use crate::error::{Error, ErrorKind, ErrorView, StandardErrorBody};

verus! {

/// The type of one authentication stage.
#[derive(Clone, Copy, PartialEq, Eq, Structural, Debug)]
pub enum AuthType {
    Password,
    ReCaptcha,
    EmailIdentity,
    Msisdn,
    Sso,
    Dummy,
    RegistrationToken,
}

/// One acceptable path through authentication: every stage in it must be
/// completed, in any order.
#[derive(Debug, PartialEq, Eq)]
pub struct AuthFlow {
    pub stages: Vec<AuthType>,
}

impl View for AuthFlow {
    type V = Seq<AuthType>;

    open spec fn view(&self) -> Seq<AuthType> {
        self.stages@
    }
}

impl DeepView for AuthFlow {
    type V = Seq<AuthType>;

    open spec fn deep_view(&self) -> Seq<AuthType> {
        self.stages@
    }
}

impl Clone for AuthFlow {
    fn clone(&self) -> (res: Self)
        ensures
            res@ == self@,
    {
        AuthFlow { stages: self.stages.clone() }
    }
}

/// Whether every stage of `flow` occurs in `completed`.
pub open spec fn flow_covered(flow: Seq<AuthType>, completed: Seq<AuthType>) -> bool {
    flow.to_set().subset_of(completed.to_set())
}

/// Whether `completed` covers at least one of `flows` in full.
pub open spec fn satisfied(flows: Seq<Seq<AuthType>>, completed: Seq<AuthType>) -> bool {
    exists|k: int| 0 <= k < flows.len() && flow_covered(#[trigger] flows[k], completed)
}

/// Whether `stage` occurs in `stages`.
pub fn contains_stage(stages: &Vec<AuthType>, stage: AuthType) -> (res: bool)
    ensures
        res == stages@.contains(stage),
{
    let mut i: usize = 0;
    while i < stages.len()
        invariant
            i <= stages.len(),
            forall|j: int| 0 <= j < i ==> stages@[j] != stage,
        decreases stages.len() - i,
    {
        if stages[i] == stage {
            return true;
        }
        i += 1;
    }
    false
}


/// Whether every stage of `flow` has been completed.
pub fn flow_is_covered(flow: &AuthFlow, completed: &Vec<AuthType>) -> (res: bool)
    ensures
        res == flow_covered(flow@, completed@),
{
    let mut i: usize = 0;
    while i < flow.stages.len()
        invariant
            i <= flow.stages.len(),
            forall|j: int| 0 <= j < i ==> completed@.contains(flow.stages@[j]),
        decreases flow.stages.len() - i,
    {
        if !contains_stage(completed, flow.stages[i]) {
            assert(flow@.to_set().contains(flow.stages@[i as int]));
            return false;
        }
        i += 1;
    }
    assert forall|s: AuthType| flow@.to_set().contains(s) implies completed@.to_set().contains(
        s,
    ) by {
        let j = choose|j: int| 0 <= j < flow@.len() && flow@[j] == s;
        assert(completed@.contains(flow.stages@[j]));
    }
    true
}

/// Whether `completed` covers at least one of `flows` in full.
pub fn is_satisfied(flows: &Vec<AuthFlow>, completed: &Vec<AuthType>) -> (res: bool)
    ensures
        res == satisfied(flows.deep_view(), completed@),
{
    let mut k: usize = 0;
    while k < flows.len()
        invariant
            k <= flows.len(),
            forall|j: int| 0 <= j < k ==> !flow_covered(#[trigger] flows.deep_view()[j], completed@),
        decreases flows.len() - k,
    {
        if flow_is_covered(&flows[k], completed) {
            assert(flows.deep_view()[k as int] == flows@[k as int]@);
            return true;
        }
        assert(flows.deep_view()[k as int] == flows@[k as int]@);
        k += 1;
    }
    false
}


/// What a client is told about an authentication in progress.
#[derive(Debug, PartialEq, Eq)]
pub struct UiaaInfo {
    /// The flows on offer; completing any one of them in full is enough.
    pub flows: Vec<AuthFlow>,
    /// The stages completed so far, in the order of their completion.
    pub completed: Vec<AuthType>,
    /// Free-form public parameters of the stages, passed through as they are.
    pub params: String,
    /// The token under which the session is stored.
    pub session: Option<String>,
    /// Why the most recent attempt was turned down, if it was.
    pub auth_error: Option<StandardErrorBody>,
}

/// The mathematical value of a [`UiaaInfo`].
pub struct UiaaInfoView {
    pub flows: Seq<Seq<AuthType>>,
    pub completed: Seq<AuthType>,
    pub params: Seq<char>,
    pub session: Option<Seq<char>>,
    pub auth_error: Option<(ErrorKind, Seq<char>)>,
}

/// The mathematical value of an optional error body.
pub open spec fn error_body_view(e: Option<StandardErrorBody>) -> Option<(ErrorKind, Seq<char>)> {
    match e {
        Some(body) => Some(body@),
        None => None,
    }
}

impl View for UiaaInfo {
    type V = UiaaInfoView;

    open spec fn view(&self) -> UiaaInfoView {
        UiaaInfoView {
            flows: self.flows.deep_view(),
            completed: self.completed@,
            params: self.params@,
            session: self.session.deep_view(),
            auth_error: error_body_view(self.auth_error),
        }
    }
}

/// Copies a list of flows.
pub fn clone_flows(flows: &Vec<AuthFlow>) -> (res: Vec<AuthFlow>)
    ensures
        res.deep_view() == flows.deep_view(),
{
    let mut out: Vec<AuthFlow> = Vec::new();
    let mut i: usize = 0;
    while i < flows.len()
        invariant
            i <= flows.len(),
            out.len() == i,
            forall|j: int| 0 <= j < i ==> out@[j]@ == flows@[j]@,
        decreases flows.len() - i,
    {
        out.push(flows[i].clone());
        i += 1;
    }
    assert(out.deep_view() =~= flows.deep_view());
    out
}

impl Clone for UiaaInfo {
    fn clone(&self) -> (res: Self)
        ensures
            res@ == self@,
    {
        UiaaInfo {
            flows: clone_flows(&self.flows),
            completed: self.completed.clone(),
            params: self.params.clone(),
            session: self.session.clone(),
            auth_error: self.auth_error.clone(),
        }
    }
}

impl UiaaInfo {
    /// A challenge that offers `flows`, with nothing completed and no session yet.
    pub fn new(flows: Vec<AuthFlow>) -> (res: Self)
        ensures
            res@ == (UiaaInfoView {
                flows: flows.deep_view(),
                completed: Seq::empty(),
                params: Seq::empty(),
                session: None,
                auth_error: None,
            }),
    {
        UiaaInfo {
            flows,
            completed: Vec::new(),
            params: String::new(),
            session: None,
            auth_error: None,
        }
    }

    /// Whether the completed stages cover at least one flow in full.
    pub fn satisfied(&self) -> (res: bool)
        ensures
            res == satisfied(self@.flows, self@.completed),
    {
        is_satisfied(&self.flows, &self.completed)
    }
}


/// One attempt at a stage: the stage's type and what its verifier is to judge.
#[derive(Debug, PartialEq, Eq)]
pub struct StageAttempt {
    pub stage: AuthType,
    /// Passed to the verifier as it is; the core never looks inside.
    pub payload: String,
}

/// What a client sends to authenticate: the token of the session it continues,
/// if any, and the stage it attempts, if any.
#[derive(Debug, PartialEq, Eq)]
pub struct AuthData {
    pub session: Option<String>,
    pub attempt: Option<StageAttempt>,
}

/// The mathematical value of an [`AuthData`].
pub struct AuthDataView {
    pub session: Option<Seq<char>>,
    pub attempt: Option<(AuthType, Seq<char>)>,
}

impl View for AuthData {
    type V = AuthDataView;

    open spec fn view(&self) -> AuthDataView {
        AuthDataView {
            session: self.session.deep_view(),
            attempt: match self.attempt {
                Some(a) => Some((a.stage, a.payload@)),
                None => None,
            },
        }
    }
}

/// What a credential verifier said of an attempt.
#[derive(Debug, PartialEq, Eq)]
pub enum Verdict {
    Accepted,
    /// Turned down, with the reason to show the client.
    Rejected(String),
}

/// The mathematical value of a [`Verdict`].
pub enum VerdictView {
    Accepted,
    Rejected(Seq<char>),
}

impl View for Verdict {
    type V = VerdictView;

    open spec fn view(&self) -> VerdictView {
        match self {
            Verdict::Accepted => VerdictView::Accepted,
            Verdict::Rejected(reason) => VerdictView::Rejected(reason@),
        }
    }
}

/// A stored session as the contracts see it.
pub struct SessionView {
    /// The identity the session was opened for.
    pub user_id: Seq<char>,
    pub device_id: Seq<char>,
    /// The challenge as it stands; its `session` is the session's own token.
    pub info: UiaaInfoView,
    /// The request that opened the session, kept for replay.
    pub request: Seq<char>,
}

/// The engine as the contracts see it.
pub struct UiaaView {
    /// The stored sessions by token.
    pub sessions: Map<Seq<char>, SessionView>,
    /// The stage types that have a registered verifier.
    pub verifiers: Set<AuthType>,
}

/// The session that `create` stores under `token`: the flows and parameters
/// of `template`, nothing completed, no error.
pub open spec fn fresh_session(
    user_id: Seq<char>,
    device_id: Seq<char>,
    template: UiaaInfoView,
    token: Seq<char>,
    request: Seq<char>,
) -> SessionView {
    SessionView {
        user_id,
        device_id,
        info: UiaaInfoView {
            flows: template.flows,
            completed: Seq::empty(),
            params: template.params,
            session: Some(token),
            auth_error: None,
        },
        request,
    }
}

/// `completed` with `stage` in it: appended unless it is there already.
pub open spec fn add_stage(completed: Seq<AuthType>, stage: AuthType) -> Seq<AuthType> {
    if completed.contains(stage) {
        completed
    } else {
        completed.push(stage)
    }
}

/// The session an attempt works on, with its token. A token in `auth` names a
/// stored session; without one, a session is opened under the token that
/// `template` carries.
pub open spec fn resolve_session(
    store: UiaaView,
    user_id: Seq<char>,
    device_id: Seq<char>,
    auth: AuthDataView,
    template: UiaaInfoView,
) -> Option<(Seq<char>, SessionView)> {
    match auth.session {
        Some(token) => if store.sessions.contains_key(token) {
            Some((token, store.sessions[token]))
        } else {
            None
        },
        None => match template.session {
            Some(token) => Some(
                (token, fresh_session(user_id, device_id, template, token, Seq::empty())),
            ),
            None => None,
        },
    }
}

/// `session` after its verifier turned an attempt down for `reason`.
pub open spec fn rejected_session(session: SessionView, reason: Seq<char>) -> SessionView {
    SessionView {
        info: UiaaInfoView { auth_error: Some((ErrorKind::Forbidden, reason)), ..session.info },
        ..session
    }
}

/// `session` after its verifier accepted an attempt at `stage`.
pub open spec fn accepted_session(session: SessionView, stage: AuthType) -> SessionView {
    SessionView {
        info: UiaaInfoView {
            completed: add_stage(session.info.completed, stage),
            auth_error: None,
            ..session.info
        },
        ..session
    }
}

/// What one call of [`Uiaa::try_auth`] does: the store afterwards, and the answer.
pub open spec fn try_auth_spec(
    store: UiaaView,
    user_id: Seq<char>,
    device_id: Seq<char>,
    auth: AuthDataView,
    template: UiaaInfoView,
    verdict: VerdictView,
) -> (UiaaView, Result<(bool, UiaaInfoView), ErrorView>) {
    match resolve_session(store, user_id, device_id, auth, template) {
        None => (store, Err(ErrorView::SessionNotFound)),
        Some((token, session)) => {
            match auth.attempt {
                None => (
                    UiaaView { sessions: store.sessions.insert(token, session), ..store },
                    Ok((false, session.info)),
                ),
                Some((stage, _)) => if !store.verifiers.contains(stage) {
                    (store, Err(ErrorView::UnknownStage))
                } else {
                    match verdict {
                        VerdictView::Rejected(reason) => {
                            let after = rejected_session(session, reason);
                            (
                                UiaaView {
                                    sessions: store.sessions.insert(token, after),
                                    ..store
                                },
                                Ok((false, after.info)),
                            )
                        },
                        VerdictView::Accepted => {
                            let after = accepted_session(session, stage);
                            if satisfied(after.info.flows, after.info.completed) {
                                (
                                    UiaaView { sessions: store.sessions.remove(token), ..store },
                                    Ok((true, after.info)),
                                )
                            } else {
                                (
                                    UiaaView {
                                        sessions: store.sessions.insert(token, after),
                                        ..store
                                    },
                                    Ok((false, after.info)),
                                )
                            }
                        },
                    }
                },
            }
        },
    }
}

/// The mathematical value of an answer of [`Uiaa::try_auth`].
pub open spec fn auth_result_view(res: Result<(bool, UiaaInfo), Error>) -> Result<
    (bool, UiaaInfoView),
    ErrorView,
> {
    match res {
        Ok((done, info)) => Ok((done, info@)),
        Err(e) => Err(e@),
    }
}


/// A session as the engine stores it.
struct AuthSession {
    token: String,
    user_id: String,
    device_id: String,
    flows: Vec<AuthFlow>,
    completed: Vec<AuthType>,
    params: String,
    auth_error: Option<StandardErrorBody>,
    request: String,
}

impl View for AuthSession {
    type V = SessionView;

    closed spec fn view(&self) -> SessionView {
        SessionView {
            user_id: self.user_id@,
            device_id: self.device_id@,
            info: UiaaInfoView {
                flows: self.flows.deep_view(),
                completed: self.completed@,
                params: self.params@,
                session: Some(self.token@),
                auth_error: error_body_view(self.auth_error),
            },
            request: self.request@,
        }
    }
}

impl AuthSession {
    fn info(&self) -> (res: UiaaInfo)
        ensures
            res@ == self@.info,
    {
        UiaaInfo {
            flows: clone_flows(&self.flows),
            completed: self.completed.clone(),
            params: self.params.clone(),
            session: Some(self.token.clone()),
            auth_error: self.auth_error.clone(),
        }
    }

    fn copy(&self) -> (res: AuthSession)
        ensures
            res@ == self@,
            res.token@ == self.token@,
    {
        AuthSession {
            token: self.token.clone(),
            user_id: self.user_id.clone(),
            device_id: self.device_id.clone(),
            flows: clone_flows(&self.flows),
            completed: self.completed.clone(),
            params: self.params.clone(),
            auth_error: self.auth_error.clone(),
            request: self.request.clone(),
        }
    }

    fn fresh(user_id: &str, device_id: &str, template: &UiaaInfo, token: &String, request: &str) -> (res:
        AuthSession)
        ensures
            res@ == fresh_session(user_id@, device_id@, template@, token@, request@),
            res.token@ == token@,
    {
        AuthSession {
            token: token.clone(),
            user_id: user_id.to_owned(),
            device_id: device_id.to_owned(),
            flows: clone_flows(&template.flows),
            completed: Vec::new(),
            params: template.params.clone(),
            auth_error: None,
            request: request.to_owned(),
        }
    }
}

/// The interactive-authentication engine: the stored sessions, and the stage
/// types for which the host has a verifier.
pub struct Uiaa {
    sessions: Vec<AuthSession>,
    verifiers: Vec<AuthType>,
}

impl View for Uiaa {
    type V = UiaaView;

    closed spec fn view(&self) -> UiaaView {
        UiaaView {
            sessions: Map::new(
                |token: Seq<char>| self.has(token),
                |token: Seq<char>| self.sessions@[self.find(token)]@,
            ),
            verifiers: self.verifiers@.to_set(),
        }
    }
}

impl Uiaa {
    /// No token is stored twice.
    pub closed spec fn wf(&self) -> bool {
        forall|i: int, j: int|
            0 <= i < j < self.sessions@.len() ==> self.sessions@[i].token@ != self.sessions@[j].token@
    }

    spec fn has(&self, token: Seq<char>) -> bool {
        exists|i: int| 0 <= i < self.sessions@.len() && self.sessions@[i].token@ == token
    }

    spec fn find(&self, token: Seq<char>) -> int {
        choose|i: int| 0 <= i < self.sessions@.len() && self.sessions@[i].token@ == token
    }

    proof fn lemma_find(&self, i: int)
        requires
            self.wf(),
            0 <= i < self.sessions@.len(),
        ensures
            self.has(self.sessions@[i].token@),
            self.find(self.sessions@[i].token@) == i,
    {
        let token = self.sessions@[i].token@;
        let k = self.find(token);
        assert(0 <= k < self.sessions@.len() && self.sessions@[k].token@ == token);
        if k < i {
            assert(self.sessions@[k].token@ != self.sessions@[i].token@);
        }
        if i < k {
            assert(self.sessions@[i].token@ != self.sessions@[k].token@);
        }
    }

    /// An engine with no session, whose host can verify the stages in `verifiers`.
    pub fn new(verifiers: Vec<AuthType>) -> (res: Uiaa)
        ensures
            res.wf(),
            res@.sessions == Map::<Seq<char>, SessionView>::empty(),
            res@.verifiers == verifiers@.to_set(),
    {
        let res = Uiaa { sessions: Vec::new(), verifiers };
        assert(res@.sessions =~= Map::<Seq<char>, SessionView>::empty());
        res
    }

    fn position(&self, token: &String) -> (res: Option<usize>)
        requires
            self.wf(),
        ensures
            match res {
                Some(i) => i < self.sessions@.len() && self.sessions@[i as int].token@ == token@
                    && self@.sessions.contains_key(token@) && self@.sessions[token@]
                    == self.sessions@[i as int]@,
                None => !self@.sessions.contains_key(token@),
            },
    {
        let mut i: usize = 0;
        while i < self.sessions.len()
            invariant
                self.wf(),
                i <= self.sessions@.len(),
                forall|j: int| 0 <= j < i ==> self.sessions@[j].token@ != token@,
            decreases self.sessions@.len() - i,
        {
            if self.sessions[i].token == *token {
                proof {
                    self.lemma_find(i as int);
                }
                return Some(i);
            }
            i += 1;
        }
        None
    }

    fn put(&mut self, session: AuthSession)
        requires
            old(self).wf(),
        ensures
            final(self).wf(),
            final(self)@.sessions == old(self)@.sessions.insert(session.token@, session@),
            final(self)@.verifiers == old(self)@.verifiers,
    {
        let ghost token = session.token@;
        let ghost value = session@;
        match self.position(&session.token) {
            Some(i) => {
                self.sessions.set(i, session);
                assert(self.wf());
                proof {
                    self.lemma_find(i as int);
                }
                assert forall|t: Seq<char>| self.has(t) == (old(self).has(t) || t == token) by {
                    if old(self).has(t) {
                        let k = old(self).find(t);
                        assert(self.sessions@[k].token@ == t);
                    }
                    if self.has(t) {
                        let k = self.find(t);
                        assert(old(self).sessions@[k].token@ == t);
                    }
                }
                assert forall|t: Seq<char>| self.has(t) && t != token implies self.sessions@[self.find(
                    t,
                )]@ == old(self).sessions@[old(self).find(t)]@ by {
                    let k = old(self).find(t);
                    old(self).lemma_find(k);
                    self.lemma_find(k);
                }
            },
            None => {
                self.sessions.push(session);
                let ghost n = old(self).sessions@.len() as int;
                assert(self.wf()) by {
                    assert forall|i: int, j: int| 0 <= i < j < self.sessions@.len() implies self.sessions@[i].token@
                        != self.sessions@[j].token@ by {
                        if j == n {
                            assert(old(self).sessions@[i].token@ == self.sessions@[i].token@);
                            assert(!old(self).has(token));
                        }
                    }
                }
                proof {
                    self.lemma_find(n);
                }
                assert forall|t: Seq<char>| self.has(t) == (old(self).has(t) || t == token) by {
                    if old(self).has(t) {
                        let k = old(self).find(t);
                        assert(self.sessions@[k].token@ == t);
                    }
                    if self.has(t) && t != token {
                        let k = self.find(t);
                        assert(old(self).sessions@[k].token@ == t);
                    }
                }
                assert forall|t: Seq<char>| self.has(t) && t != token implies self.sessions@[self.find(
                    t,
                )]@ == old(self).sessions@[old(self).find(t)]@ by {
                    let k = old(self).find(t);
                    old(self).lemma_find(k);
                    self.lemma_find(k);
                }
            },
        }
        assert(self@.sessions =~= old(self)@.sessions.insert(token, value));
    }

    fn take(&mut self, token: &String)
        requires
            old(self).wf(),
        ensures
            final(self).wf(),
            final(self)@.sessions == old(self)@.sessions.remove(token@),
            final(self)@.verifiers == old(self)@.verifiers,
    {
        match self.position(token) {
            Some(i) => {
                self.sessions.remove(i);
                assert(self.wf());
                assert forall|t: Seq<char>| self.has(t) == (old(self).has(t) && t != token@) by {
                    if old(self).has(t) && t != token@ {
                        let k = old(self).find(t);
                        if k < i {
                            assert(self.sessions@[k].token@ == t);
                        } else {
                            assert(self.sessions@[k - 1].token@ == t);
                        }
                    }
                    if self.has(t) {
                        let k = self.find(t);
                        if k < i {
                            assert(old(self).sessions@[k].token@ == t);
                        } else {
                            assert(old(self).sessions@[k + 1].token@ == t);
                            old(self).lemma_find(k + 1);
                            old(self).lemma_find(i as int);
                        }
                    }
                }
                assert forall|t: Seq<char>| self.has(t) implies self.sessions@[self.find(t)]@ == old(
                    self,
                ).sessions@[old(self).find(t)]@ by {
                    let k = self.find(t);
                    self.lemma_find(k);
                    if k < i {
                        old(self).lemma_find(k);
                    } else {
                        old(self).lemma_find(k + 1);
                    }
                }
                assert(self@.sessions =~= old(self)@.sessions.remove(token@));
            },
            None => {
                assert(self@.sessions =~= old(self)@.sessions.remove(token@));
            },
        }
    }
}


/// What [`Uiaa::create`] does: the store afterwards, and the challenge to
/// answer the client with.
pub open spec fn create_spec(
    store: UiaaView,
    user_id: Seq<char>,
    device_id: Seq<char>,
    template: UiaaInfoView,
    request: Seq<char>,
) -> (UiaaView, UiaaInfoView)
    recommends
        template.session is Some,
{
    let token = template.session->0;
    let session = fresh_session(user_id, device_id, template, token, request);
    (UiaaView { sessions: store.sessions.insert(token, session), ..store }, session.info)
}

impl Uiaa {
    /// Whether the host has a verifier for `stage`.
    pub fn has_verifier(&self, stage: AuthType) -> (res: bool)
        ensures
            res == self@.verifiers.contains(stage),
    {
        contains_stage(&self.verifiers, stage)
    }

    /// The challenge of the session stored under `token`, as it stands.
    pub fn session(&self, token: &str) -> (res: Option<UiaaInfo>)
        requires
            self.wf(),
        ensures
            match res {
                Some(info) => self@.sessions.contains_key(token@) && info@
                    == self@.sessions[token@].info,
                None => !self@.sessions.contains_key(token@),
            },
    {
        let key = token.to_owned();
        match self.position(&key) {
            Some(i) => Some(self.sessions[i].info()),
            None => None,
        }
    }

    /// The request that opened the session stored under `token`.
    pub fn request(&self, token: &str) -> (res: Option<String>)
        requires
            self.wf(),
        ensures
            match res {
                Some(body) => self@.sessions.contains_key(token@) && body@
                    == self@.sessions[token@].request,
                None => !self@.sessions.contains_key(token@),
            },
    {
        let key = token.to_owned();
        match self.position(&key) {
            Some(i) => Some(self.sessions[i].request.clone()),
            None => None,
        }
    }

    /// Opens a session for `user_id` and `device_id` under the token that
    /// `uiaainfo` carries, with the flows and parameters of `uiaainfo`, nothing
    /// completed, and `json_body` kept for replay. A session already stored
    /// under that token is replaced. Returns the challenge for the client: a
    /// fresh session is never satisfied by this call.
    pub fn create(&mut self, user_id: &str, device_id: &str, uiaainfo: &UiaaInfo, json_body: &str) -> (challenge:
        UiaaInfo)
        requires
            old(self).wf(),
            uiaainfo.session is Some,
        ensures
            final(self).wf(),
            (final(self)@, challenge@) == create_spec(
                old(self)@,
                user_id@,
                device_id@,
                uiaainfo@,
                json_body@,
            ),
    {
        match &uiaainfo.session {
            Some(token) => {
                let session = AuthSession::fresh(user_id, device_id, uiaainfo, token, json_body);
                let challenge = session.info();
                self.put(session);
                challenge
            },
            None => uiaainfo.clone(),
        }
    }

    /// Forgets the session stored under `token`, if there is one.
    pub fn remove(&mut self, token: &str)
        requires
            old(self).wf(),
        ensures
            final(self).wf(),
            final(self)@.sessions == old(self)@.sessions.remove(token@),
            final(self)@.verifiers == old(self)@.verifiers,
    {
        let key = token.to_owned();
        self.take(&key);
    }

    /// Applies one attempt to a session, in one step.
    ///
    /// The session is the stored one that `auth` names by token, or, where
    /// `auth` names none, a new one under the token that `uiaainfo` carries.
    /// Without an attempt the session is stored and its challenge returned.
    /// With one, `verdict` is what the stage's verifier said of it: a rejection
    /// is recorded on the session, an acceptance adds the stage to the
    /// completed ones. The answer is `true` exactly when the completed stages
    /// then cover one of the session's flows; the session is forgotten at that
    /// moment, and stored otherwise.
    pub fn try_auth(
        &mut self,
        user_id: &str,
        device_id: &str,
        auth: &AuthData,
        uiaainfo: &UiaaInfo,
        verdict: &Verdict,
    ) -> (res: Result<(bool, UiaaInfo), Error>)
        requires
            old(self).wf(),
        ensures
            final(self).wf(),
            (final(self)@, auth_result_view(res)) == try_auth_spec(
                old(self)@,
                user_id@,
                device_id@,
                auth@,
                uiaainfo@,
                verdict@,
            ),
    {
        let mut session = match &auth.session {
            Some(token) => match self.position(token) {
                Some(i) => self.sessions[i].copy(),
                None => {
                    return Err(Error::SessionNotFound);
                },
            },
            None => match &uiaainfo.session {
                Some(token) => AuthSession::fresh(user_id, device_id, uiaainfo, token, ""),
                None => {
                    return Err(Error::SessionNotFound);
                },
            },
        };
        proof {
            reveal_strlit("");
            assert(""@ =~= Seq::<char>::empty());
        }
        assert(Some((session.token@, session@)) == resolve_session(
            old(self)@,
            user_id@,
            device_id@,
            auth@,
            uiaainfo@,
        ));
        match &auth.attempt {
            None => {
                let info = session.info();
                self.put(session);
                Ok((false, info))
            },
            Some(attempt) => {
                if !self.has_verifier(attempt.stage) {
                    return Err(Error::UnknownStage);
                }
                match verdict {
                    Verdict::Rejected(reason) => {
                        session.auth_error = Some(
                            StandardErrorBody { kind: ErrorKind::Forbidden, message: reason.clone() },
                        );
                        let info = session.info();
                        self.put(session);
                        Ok((false, info))
                    },
                    Verdict::Accepted => {
                        if !contains_stage(&session.completed, attempt.stage) {
                            session.completed.push(attempt.stage);
                        }
                        session.auth_error = None;
                        let info = session.info();
                        if is_satisfied(&session.flows, &session.completed) {
                            self.take(&session.token);
                            Ok((true, info))
                        } else {
                            self.put(session);
                            Ok((false, info))
                        }
                    },
                }
            },
        }
    }
}


/// Whether the answer to an attempt hangs on its verifier: the session it
/// names can be resolved, and its stage has a verifier. In every other case
/// [`try_auth_spec`] gives the same result for every verdict.
pub open spec fn needs_verdict(store: UiaaView, auth: AuthDataView, template: UiaaInfoView) -> bool {
    &&& match auth.session {
        Some(token) => store.sessions.contains_key(token),
        None => template.session is Some,
    }
    &&& auth.attempt matches Some((stage, _)) && store.verifiers.contains(stage)
}

impl Uiaa {
    /// Whether the answer to `auth` hangs on what the verifier of its stage
    /// says.
    pub fn needs_verdict(&self, auth: &AuthData, uiaainfo: &UiaaInfo) -> (res: bool)
        requires
            self.wf(),
        ensures
            res == needs_verdict(self@, auth@, uiaainfo@),
    {
        let resolvable = match &auth.session {
            Some(token) => self.position(token).is_some(),
            None => uiaainfo.session.is_some(),
        };
        let verifiable = match &auth.attempt {
            Some(attempt) => self.has_verifier(attempt.stage),
            None => false,
        };
        resolvable && verifiable
    }
}

/// Where the verifier is not needed, its verdict makes no difference.
pub proof fn lemma_verdict_unused(
    store: UiaaView,
    user_id: Seq<char>,
    device_id: Seq<char>,
    auth: AuthDataView,
    template: UiaaInfoView,
    one: VerdictView,
    other: VerdictView,
)
    requires
        !needs_verdict(store, auth, template),
    ensures
        try_auth_spec(store, user_id, device_id, auth, template, one) == try_auth_spec(
            store,
            user_id,
            device_id,
            auth,
            template,
            other,
        ),
{
}

/// The arguments of one call of [`Uiaa::try_auth`].
pub struct AuthCall {
    pub user_id: Seq<char>,
    pub device_id: Seq<char>,
    pub auth: AuthDataView,
    pub template: UiaaInfoView,
    pub verdict: VerdictView,
}

/// The store after `call`.
pub open spec fn after_call(store: UiaaView, call: AuthCall) -> UiaaView {
    try_auth_spec(store, call.user_id, call.device_id, call.auth, call.template, call.verdict).0
}

/// The store after `calls`, made one after the other.
pub open spec fn after_calls(store: UiaaView, calls: Seq<AuthCall>) -> UiaaView
    decreases calls.len(),
{
    if calls.len() == 0 {
        store
    } else {
        after_calls(after_call(store, calls[0]), calls.drop_first())
    }
}

/// Whether `call` leaves alone the tokens in use: where it opens a session,
/// the token it opens it under is not taken.
pub open spec fn opens_unused_token(store: UiaaView, call: AuthCall) -> bool {
    call.auth.session is None && call.template.session is Some ==> !store.sessions.contains_key(
        call.template.session->0,
    )
}

/// Whether the session under `token` is stored before `calls` and after each
/// of them, and every session they open gets a token that is not in use.
pub open spec fn session_lives(store: UiaaView, calls: Seq<AuthCall>, token: Seq<char>) -> bool
    decreases calls.len(),
{
    &&& store.sessions.contains_key(token)
    &&& calls.len() > 0 ==> {
        &&& opens_unused_token(store, calls[0])
        &&& session_lives(after_call(store, calls[0]), calls.drop_first(), token)
    }
}

/// Every stage of `completed` is still there once `stage` has been added.
pub proof fn lemma_add_stage_keeps(completed: Seq<AuthType>, stage: AuthType)
    ensures
        completed.to_set().subset_of(add_stage(completed, stage).to_set()),
        add_stage(completed, stage).contains(stage),
{
    let after = add_stage(completed, stage);
    if !completed.contains(stage) {
        assert(after[completed.len() as int] == stage);
        assert forall|s: AuthType| completed.contains(s) implies after.contains(s) by {
            let i = choose|i: int| 0 <= i < completed.len() && completed[i] == s;
            assert(after[i] == s);
        }
    }
}

/// One call never takes a completed stage away: a session that is stored
/// before and after the call has every stage afterwards that it had
/// before, with its flows unchanged.
pub proof fn lemma_call_keeps_completed(store: UiaaView, call: AuthCall, token: Seq<char>)
    requires
        opens_unused_token(store, call),
        store.sessions.contains_key(token),
        after_call(store, call).sessions.contains_key(token),
    ensures
        store.sessions[token].info.completed.to_set().subset_of(
            after_call(store, call).sessions[token].info.completed.to_set(),
        ),
        after_call(store, call).sessions[token].info.flows == store.sessions[token].info.flows,
{
    match resolve_session(store, call.user_id, call.device_id, call.auth, call.template) {
        None => {},
        Some((used, session)) => {
            if used == token {
                assert(session == store.sessions[token]);
                match call.auth.attempt {
                    Some((stage, _)) => {
                        lemma_add_stage_keeps(session.info.completed, stage);
                    },
                    None => {},
                }
            }
        },
    }
}

/// Over any sequence of calls, the completed stages of a session only grow.
pub proof fn lemma_completed_is_monotone(store: UiaaView, calls: Seq<AuthCall>, token: Seq<char>)
    requires
        session_lives(store, calls, token),
    ensures
        after_calls(store, calls).sessions.contains_key(token),
        store.sessions[token].info.completed.to_set().subset_of(
            after_calls(store, calls).sessions[token].info.completed.to_set(),
        ),
    decreases calls.len(),
{
    if calls.len() > 0 {
        let next = after_call(store, calls[0]);
        assert(session_lives(next, calls.drop_first(), token));
        lemma_call_keeps_completed(store, calls[0], token);
        lemma_completed_is_monotone(next, calls.drop_first(), token);
    }
}

/// An accepted attempt is answered `true` exactly when the completed stages
/// that the answer reports are a superset of the stages of one of the flows
/// that it reports.
pub proof fn lemma_satisfied_iff_covered(store: UiaaView, call: AuthCall)
    requires
        call.auth.attempt is Some,
        call.verdict is Accepted,
    ensures
        match answer(store, call) {
            Ok((done, info)) => done <==> exists|k: int|
                0 <= k < info.flows.len() && (#[trigger] info.flows[k]).to_set().subset_of(
                    info.completed.to_set(),
                ),
            Err(_) => true,
        },
{
}

/// An accepted attempt at `stage` on the stored session `token`.
pub open spec fn accepted_attempt(token: Seq<char>, stage: AuthType, payload: Seq<char>) -> AuthCall {
    AuthCall {
        user_id: Seq::empty(),
        device_id: Seq::empty(),
        auth: AuthDataView { session: Some(token), attempt: Some((stage, payload)) },
        template: UiaaInfoView {
            flows: Seq::empty(),
            completed: Seq::empty(),
            params: Seq::empty(),
            session: None,
            auth_error: None,
        },
        verdict: VerdictView::Accepted,
    }
}

/// The answer to `call`.
pub open spec fn answer(store: UiaaView, call: AuthCall) -> Result<(bool, UiaaInfoView), ErrorView> {
    try_auth_spec(store, call.user_id, call.device_id, call.auth, call.template, call.verdict).1
}

/// No update is lost: two accepted attempts on one session whose only flow
/// asks for the stages `a` and `b`, one attempt at each, are answered `false`
/// for the first and `true` for the second, with both stages completed,
/// whichever of the two comes first.
pub proof fn lemma_two_stages_in_either_order(
    store: UiaaView,
    token: Seq<char>,
    a: AuthType,
    b: AuthType,
    payload_a: Seq<char>,
    payload_b: Seq<char>,
)
    requires
        a != b,
        store.sessions.contains_key(token),
        store.sessions[token].info.flows == seq![seq![a, b]],
        !store.sessions[token].info.completed.contains(a),
        !store.sessions[token].info.completed.contains(b),
        store.verifiers.contains(a),
        store.verifiers.contains(b),
    ensures
        ({
            let first = accepted_attempt(token, a, payload_a);
            let second = accepted_attempt(token, b, payload_b);
            &&& answer(store, first) matches Ok((done, _)) && !done
            &&& answer(after_call(store, first), second) matches Ok((done, info)) && done
                && info.completed.contains(a) && info.completed.contains(b)
            &&& answer(store, second) matches Ok((done, _)) && !done
            &&& answer(after_call(store, second), first) matches Ok((done, info)) && done
                && info.completed.contains(a) && info.completed.contains(b)
        }),
{
    let flows = seq![seq![a, b]];
    let before = store.sessions[token].info.completed;
    let flow = seq![a, b];
    assert(flow[0] == a && flow[1] == b);
    assert(flow.to_set().contains(a) && flow.to_set().contains(b));
    let with_a = add_stage(before, a);
    let with_b = add_stage(before, b);
    let with_ab = add_stage(with_a, b);
    let with_ba = add_stage(with_b, a);
    assert(with_a == before.push(a));
    assert(with_b == before.push(b));
    assert(!with_a.contains(b)) by {
        if with_a.contains(b) {
            let i = choose|i: int| 0 <= i < with_a.len() && with_a[i] == b;
            if i < before.len() {
                assert(before[i] == b);
            }
        }
    }
    assert(!with_b.contains(a)) by {
        if with_b.contains(a) {
            let i = choose|i: int| 0 <= i < with_b.len() && with_b[i] == a;
            if i < before.len() {
                assert(before[i] == a);
            }
        }
    }
    assert(!satisfied(flows, with_a)) by {
        if satisfied(flows, with_a) {
            let k = choose|k: int| 0 <= k < flows.len() && flow_covered(#[trigger] flows[k], with_a);
            assert(flows[k] == flow);
            assert(with_a.to_set().contains(b));
        }
    }
    assert(!satisfied(flows, with_b)) by {
        if satisfied(flows, with_b) {
            let k = choose|k: int| 0 <= k < flows.len() && flow_covered(#[trigger] flows[k], with_b);
            assert(flows[k] == flow);
            assert(with_b.to_set().contains(a));
        }
    }
    assert(with_ab == with_a.push(b));
    assert(with_ba == with_b.push(a));
    assert(with_ab.contains(a) && with_ab.contains(b)) by {
        assert(with_ab[with_ab.len() - 1] == b);
        assert(with_ab[with_a.len() - 1] == a);
    }
    assert(with_ba.contains(a) && with_ba.contains(b)) by {
        assert(with_ba[with_ba.len() - 1] == a);
        assert(with_ba[with_b.len() - 1] == b);
    }
    assert forall|done: Seq<AuthType>| done.contains(a) && done.contains(b) implies satisfied(
        flows,
        done,
    ) by {
        assert forall|s: AuthType| flow.to_set().contains(s) implies done.to_set().contains(s) by {
            let i = choose|i: int| 0 <= i < flow.len() && flow[i] == s;
        }
        assert(flow_covered(flows[0], done));
    }
}

} // verus!
