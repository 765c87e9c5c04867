//! The sink side of the hub: registration of sinks, and the streams on
//! which a sink answers the calls that the hub relays to it.

use crate::error::ErrorMessage;
use crate::hub_app::{AppRegistry, HubApp, HubAppView};
use crate::hub_session::{AppId, SessionId, SinkId};
use crate::link_authenticator::denied;
use crate::link_hub::LinkHubView;
use crate::proto::{
    AuthResult, AuthResultView, HandleResult, HandleResultView, RegisterRequest,
    RegisterRequestView, RegisterResponse, RegisterResponseView, TRACE_ID,
};
use crate::relay::result_view;
use crate::session_index::{
    evicted_by_add, ids_after_add, ids_of, lemma_without_ends, lemma_without_next,
    lemma_without_none, without,
};
use crate::sink_app::{
    auth_reply_session, handle_reply_session, lookup, unbound_relay, RelayKind, SinkApp,
};
use crate::sink_authenticator::SinkAuthenticator;
use crate::sink_session::{AppSink, AppSinkView, SinkSession, SinkSessionView};
use crate::status::{Status, StatusView};
use crate::tables::{
    index_entries, index_get, index_insert, index_new, index_remove, sink_session_entries,
    sink_sessions_insert, sink_sessions_new, sink_sessions_remove, texts,
};
use dashmap::DashMap;
use vstd::prelude::*;

verus! {

/// The sink side of the hub. The registry of applications is the link
/// side's; every operation that needs it takes it.
pub struct SinkHub<TA: SinkAuthenticator> {
    sinks: DashMap<String, Vec<String>>,
    sessions: DashMap<String, SinkSession>,
    authenticator: TA,
}

/// The sink side of the hub as contracts see it.
pub ghost struct SinkHubView {
    /// For each sink that has sessions, their ids, oldest first.
    pub sinks: Map<Seq<char>, Seq<Seq<char>>>,
    /// The live sessions by id.
    pub sessions: Map<Seq<char>, SinkSessionView>,
    /// Whether registering an unknown application creates it.
    pub allow_create_app: bool,
    /// Whether a sink may hold several sessions at once.
    pub allow_multiple: bool,
    /// Whether a sink's old sessions give way to a new one.
    pub kick_old: bool,
}

impl<TA: SinkAuthenticator> View for SinkHub<TA> {
    type V = SinkHubView;

    closed spec fn view(&self) -> SinkHubView {
        SinkHubView {
            sinks: index_entries(self.sinks),
            sessions: sink_session_entries(self.sessions),
            allow_create_app: self.authenticator.app_creation_allowed(),
            allow_multiple: self.authenticator.multiple_sessions_allowed(),
            kick_old: self.authenticator.old_sessions_kicked(),
        }
    }
}

/// What one stream of a sink remembers between two messages.
#[derive(Debug)]
pub struct SinkStream {
    /// Whether the next message is the stream's first.
    pub is_init: bool,
    /// The sink session that the first message named.
    pub sink_session: Option<SessionId>,
    /// The application that the stream was bound to.
    pub app: Option<AppId>,
}

/// `SinkStream` as contracts see it.
pub ghost struct SinkStreamView {
    pub is_init: bool,
    pub sink_session: Option<Seq<char>>,
    pub app: Option<Seq<char>>,
}

impl View for SinkStream {
    type V = SinkStreamView;

    open spec fn view(&self) -> SinkStreamView {
        SinkStreamView {
            is_init: self.is_init,
            sink_session: match self.sink_session {
                Some(s) => Some(s@),
                None => None,
            },
            app: match self.app {
                Some(a) => Some(a@),
                None => None,
            },
        }
    }
}

impl SinkStream {
    /// The state of a stream on which nothing has arrived yet.
    pub fn new() -> (s: Self)
        ensures
            s@ == (SinkStreamView { is_init: true, sink_session: None, app: None }),
    {
        SinkStream { is_init: true, sink_session: None, app: None }
    }
}

/// Why a stream ends.
#[derive(Clone, Copy, Debug, PartialEq, Eq, Structural)]
pub enum StreamEnd {
    /// The transport reported a failure.
    Failed,
    /// The first message named no live sink session, or one whose
    /// application is not registered.
    InitFailed,
    /// The application of the stream is no relay.
    NotRelay,
    /// A later message named another sink session than the first.
    BadSession,
    /// The message carried no answer.
    Empty,
}

/// What follows from one message on a stream.
#[derive(Clone, Copy, Debug, PartialEq, Eq, Structural)]
pub enum StreamStep {
    /// The message's answer goes into this reply slot; the stream goes on.
    Deliver(u64),
    /// Nobody waits for the message's answer; the stream goes on.
    Dropped,
    /// The stream ends.
    Stop(StreamEnd),
}

/// The session that a message on an auth stream answers, if it answers.
pub open spec fn auth_result_session(msg: AuthResultView) -> Option<Seq<char>> {
    match msg.result {
        Some(reply) => Some(auth_reply_session(reply)),
        None => None,
    }
}

/// The session that a message on a handle stream answers, if it answers.
pub open spec fn handle_result_session(msg: HandleResultView) -> Option<Seq<char>> {
    match msg.result {
        Some(reply) => Some(handle_reply_session(reply)),
        None => None,
    }
}

/// The text of a string that may be absent.
pub open spec fn text_of(s: Option<&String>) -> Option<Seq<char>> {
    match s {
        Some(s) => Some(s@),
        None => None,
    }
}

/// The answer to a sink that was registered.
pub open spec fn register_response(req: RegisterRequestView, session_id: Seq<char>)
    -> RegisterResponseView {
    RegisterResponseView { ord: req.ord, session_id, trace_id: TRACE_ID@, extra: None }
}

impl SinkHubView {
    /// The hub with one more session. Where the sink had sessions and may
    /// hold one only, those leave the store and the sink's list first.
    pub open spec fn add_session(
        self,
        app_id: Seq<char>,
        sink_id: Seq<char>,
        session_id: Seq<char>,
        last_ord: u64,
    ) -> SinkHubView {
        let existing = ids_of(self.sinks, sink_id);
        let sink = AppSinkView { app_id, sink_id, session_id };
        SinkHubView {
            sinks: self.sinks.insert(
                sink_id,
                ids_after_add(existing, self.allow_multiple, session_id),
            ),
            sessions: without(self.sessions, evicted_by_add(existing, self.allow_multiple)).insert(
                session_id,
                SinkSessionView { sink, last_ord },
            ),
            ..self
        }
    }

    /// Whether a sink may bring `app_id`: it is registered, or may be
    /// created.
    pub open spec fn app_admitted(self, apps: Map<Seq<char>, HubAppView>, app_id: Seq<char>)
        -> bool {
        apps.contains_key(app_id) || self.allow_create_app
    }

    /// The registry once a sink has brought `app_id` with `kinds`: an
    /// unknown application that may be created stands there as a relay
    /// with no sink bound.
    pub open spec fn apps_with(
        self,
        apps: Map<Seq<char>, HubAppView>,
        app_id: Seq<char>,
        kinds: Seq<i32>,
    ) -> Map<Seq<char>, HubAppView> {
        if !apps.contains_key(app_id) && self.allow_create_app {
            apps.insert(app_id, HubAppView::Sink(unbound_relay(app_id, kinds)))
        } else {
            apps
        }
    }

    /// Why a registration is turned away before anyone looks at the
    /// credentials, if it is.
    pub open spec fn register_denial(
        self,
        apps: Map<Seq<char>, HubAppView>,
        req: RegisterRequestView,
    ) -> Option<StatusView> {
        if !self.app_admitted(apps, req.app_id) {
            Some(denied(ErrorMessage::INVALID_APP_ID@))
        } else if self.sinks.contains_key(req.sink_id) && !self.allow_multiple && !self.kick_old {
            Some(denied(ErrorMessage::ALREADY_REGISTERED@))
        } else {
            None
        }
    }

    /// How a registration ends, given the authenticator's verdict.
    pub open spec fn register_result(
        self,
        apps: Map<Seq<char>, HubAppView>,
        req: RegisterRequestView,
        verdict: Result<Seq<char>, StatusView>,
    ) -> Result<RegisterResponseView, StatusView> {
        match self.register_denial(apps, req) {
            Some(status) => Err(status),
            None => match verdict {
                Err(status) => Err(status),
                Ok(session_id) => Ok(register_response(req, session_id)),
            },
        }
    }

    /// The hub after a registration, given the authenticator's verdict.
    pub open spec fn after_register(
        self,
        apps: Map<Seq<char>, HubAppView>,
        req: RegisterRequestView,
        verdict: Result<Seq<char>, StatusView>,
    ) -> SinkHubView {
        match self.register_result(apps, req, verdict) {
            Ok(res) => self.add_session(req.app_id, req.sink_id, res.session_id, req.ord),
            Err(_) => self,
        }
    }

    /// The application that a stream talks to: on the first message, the
    /// registered application of the sink session that the message names;
    /// later, the one found then.
    pub open spec fn stream_target(
        self,
        apps: Map<Seq<char>, HubAppView>,
        stream: SinkStreamView,
        sink_session: Seq<char>,
    ) -> Option<Seq<char>> {
        if stream.is_init {
            if self.sessions.contains_key(sink_session) && apps.contains_key(
                self.sessions[sink_session].sink.app_id,
            ) {
                Some(self.sessions[sink_session].sink.app_id)
            } else {
                None
            }
        } else {
            stream.app
        }
    }

    /// Why a message ends its stream, if it does.
    pub open spec fn stream_end(
        self,
        apps: Map<Seq<char>, HubAppView>,
        stream: SinkStreamView,
        sink_session: Seq<char>,
        reply_session: Option<Seq<char>>,
    ) -> Option<StreamEnd> {
        if !stream.is_init && stream.sink_session != Some(sink_session) {
            Some(StreamEnd::BadSession)
        } else {
            match self.stream_target(apps, stream, sink_session) {
                None => Some(StreamEnd::InitFailed),
                Some(app_id) => {
                    if !apps.contains_key(app_id) || !(apps[app_id] is Sink) {
                        Some(StreamEnd::NotRelay)
                    } else if reply_session is None {
                        Some(StreamEnd::Empty)
                    } else {
                        None
                    }
                },
            }
        }
    }

    /// What follows from a message of `sink_session` on a stream of
    /// `kind`, which answers `reply_session` if it answers at all.
    pub open spec fn stream_step(
        self,
        apps: Map<Seq<char>, HubAppView>,
        stream: SinkStreamView,
        kind: RelayKind,
        sink_session: Seq<char>,
        reply_session: Option<Seq<char>>,
    ) -> StreamStep {
        match self.stream_end(apps, stream, sink_session, reply_session) {
            Some(end) => StreamStep::Stop(end),
            None => {
                let app_id = self.stream_target(apps, stream, sink_session).unwrap();
                match lookup(apps[app_id]->Sink_0.pending(kind), reply_session.unwrap()) {
                    Some(slot) => StreamStep::Deliver(slot),
                    None => StreamStep::Dropped,
                }
            },
        }
    }

    /// The registry after a message on a stream: the first message binds
    /// `sender` into the relay, and an answer takes its slot out.
    pub open spec fn apps_after_stream(
        self,
        apps: Map<Seq<char>, HubAppView>,
        stream: SinkStreamView,
        kind: RelayKind,
        sender: u64,
        sink_session: Seq<char>,
        reply_session: Option<Seq<char>>,
    ) -> Map<Seq<char>, HubAppView> {
        let end = self.stream_end(apps, stream, sink_session, reply_session);
        if end is None || end == Some(StreamEnd::Empty) {
            let app_id = self.stream_target(apps, stream, sink_session).unwrap();
            let relay = apps[app_id]->Sink_0;
            let bound = if stream.is_init {
                relay.bound(kind, sender)
            } else {
                relay
            };
            let answered = match reply_session {
                Some(session) => bound.answered(kind, session),
                None => bound,
            };
            apps.insert(app_id, HubAppView::Sink(answered))
        } else {
            apps
        }
    }

    /// What the stream remembers after a message.
    pub open spec fn stream_after(
        self,
        apps: Map<Seq<char>, HubAppView>,
        stream: SinkStreamView,
        sink_session: Seq<char>,
    ) -> SinkStreamView {
        if stream.is_init {
            SinkStreamView {
                is_init: false,
                sink_session: Some(sink_session),
                app: self.stream_target(apps, stream, sink_session),
            }
        } else {
            stream
        }
    }

    /// Every id in a sink's list names a live session of that sink.
    pub open spec fn index_is_live(self) -> bool {
        forall|sink_id: Seq<char>, i: int|
            #![trigger self.sinks[sink_id][i]]
            self.sinks.contains_key(sink_id) && 0 <= i < self.sinks[sink_id].len() ==> {
                &&& self.sessions.contains_key(self.sinks[sink_id][i])
                &&& self.sessions[self.sinks[sink_id][i]].sink.sink_id == sink_id
            }
    }
}

impl<TA: SinkAuthenticator> SinkHub<TA> {
    /// How many relayed auth requests may wait for a sink to read them.
    pub const AUTH_CHANNEL_BUFFER_SIZE: usize = 32;

    /// How many relayed requests may wait for a sink to read them.
    pub const HANDLE_CHANNEL_BUFFER_SIZE: usize = 32;

    /// How many events may wait.
    pub const EVENT_CHANNEL_BUFFER_SIZE: usize = 32;

    /// The authenticator that the hub was made with. No operation of the
    /// hub changes it.
    pub closed spec fn policy(&self) -> TA {
        self.authenticator
    }

    /// The authenticator that the hub was made with.
    pub fn authenticator(&self) -> (authenticator: &TA)
        ensures
            *authenticator == self.policy(),
    {
        &self.authenticator
    }

    /// The three switches in the hub's view are those of its
    /// authenticator.
    pub proof fn lemma_switches_are_the_policys(&self)
        ensures
            self@.allow_create_app == self.policy().app_creation_allowed(),
            self@.allow_multiple == self.policy().multiple_sessions_allowed(),
            self@.kick_old == self.policy().old_sessions_kicked(),
    {
    }

    /// A hub with no sessions.
    pub fn new(authenticator: TA) -> (hub: Self)
        ensures
            hub.policy() == authenticator,
            hub@ == (SinkHubView {
                sinks: Map::empty(),
                sessions: Map::empty(),
                allow_create_app: authenticator.app_creation_allowed(),
                allow_multiple: authenticator.multiple_sessions_allowed(),
                kick_old: authenticator.old_sessions_kicked(),
            }),
    {
        let hub = SinkHub { sinks: index_new(), sessions: sink_sessions_new(), authenticator };
        assert(hub@.sinks =~= Map::empty());
        assert(hub@.sessions =~= Map::empty());
        hub
    }

    /// Registers `app` under `app_id`, in place of what stood there.
    pub fn add_app(&self, apps: &mut AppRegistry, app_id: &str, app: HubApp)
        ensures
            final(apps)@ == old(apps)@.insert(app_id@, app@),
    {
        let _ = apps.insert(AppId(app_id.to_owned()), app);
    }

    /// Whether `app_id` is registered; an unknown id is turned away.
    pub fn get_app(&self, apps: &AppRegistry, app_id: &AppId) -> (r: Result<(), Status>)
        ensures
            r is Ok <==> apps@.contains_key(app_id@),
            r is Err ==> r.unwrap_err()@ == denied(ErrorMessage::INVALID_APP_ID@),
    {
        if apps.contains(app_id) {
            Ok(())
        } else {
            Err(Status::permission_denied(ErrorMessage::INVALID_APP_ID))
        }
    }

    /// Makes sure that an application stands under `app_id`: where none
    /// does and sinks may create applications, a relay for `kinds` with no
    /// sink bound is registered; where they may not, the id is turned away.
    pub fn get_or_add_app(&self, apps: &mut AppRegistry, app_id: &AppId, kinds: &Vec<i32>) -> (r:
        Result<(), Status>)
        ensures
            r is Ok <==> self@.app_admitted(old(apps)@, app_id@),
            r is Err ==> r.unwrap_err()@ == denied(ErrorMessage::INVALID_APP_ID@),
            r is Ok ==> final(apps)@ == self@.apps_with(old(apps)@, app_id@, kinds@),
            r is Err ==> final(apps)@ == old(apps)@,
    {
        if apps.contains(app_id) {
            Ok(())
        } else if self.authenticator.allow_create_app() {
            let app = HubApp::Sink(SinkApp::new(app_id, kinds));
            self.add_app(apps, app_id.0.as_str(), app);
            Ok(())
        } else {
            Err(Status::permission_denied(ErrorMessage::INVALID_APP_ID))
        }
    }

    /// The sink's identity in the session `session_id`; the hub is as
    /// before.
    pub fn get_session(&mut self, session_id: &String) -> (r: Result<AppSink, Status>)
        ensures
            final(self).policy() == old(self).policy(),
            r is Ok <==> old(self)@.sessions.contains_key(session_id@),
            r is Ok ==> r.unwrap()@ == old(self)@.sessions[session_id@].sink,
            r is Err ==> r.unwrap_err()@ == denied(ErrorMessage::INVALID_SESSION_ID@),
            final(self)@ == old(self)@,
    {
        let ghost before = self@;
        match sink_sessions_remove(&mut self.sessions, session_id) {
            None => {
                assert(self@.sessions =~= before.sessions);
                Err(Status::permission_denied(ErrorMessage::INVALID_SESSION_ID))
            },
            Some((key, session)) => {
                let sink = session.sink.clone();
                let _ = sink_sessions_insert(&mut self.sessions, key, session);
                assert(self@.sessions =~= before.sessions);
                Ok(sink)
            },
        }
    }

    /// The ids of the sessions that `sink_id` holds, oldest first.
    pub fn get_sink_session_ids(&self, sink_id: &SinkId) -> (r: Option<Vec<SessionId>>)
        ensures
            r is Some <==> self@.sinks.contains_key(sink_id@),
            r is Some ==> r.unwrap()@.len() == self@.sinks[sink_id@].len(),
            r is Some ==> forall|i: int|
                0 <= i < r.unwrap()@.len() ==> (#[trigger] r.unwrap()@[i])@
                    == self@.sinks[sink_id@][i],
    {
        match index_get(&self.sinks, &sink_id.0) {
            None => None,
            Some(texts_found) => {
                let mut ids: Vec<SessionId> = Vec::new();
                let mut i: usize = 0;
                while i < texts_found.len()
                    invariant
                        0 <= i <= texts_found.len(),
                        ids@.len() == i,
                        forall|j: int| 0 <= j < i ==> (#[trigger] ids@[j])@ == texts_found@[j]@,
                    decreases texts_found.len() - i,
                {
                    ids.push(SessionId(texts_found[i].clone()));
                    i += 1;
                }
                assert forall|j: int| 0 <= j < ids@.len() implies (#[trigger] ids@[j])@
                    == self@.sinks[sink_id@][j] by {
                    assert(texts(texts_found@)[j] == texts_found@[j]@);
                }
                assert(texts(texts_found@).len() == texts_found@.len());
                Some(ids)
            },
        }
    }

    /// Ends the session `session_id`; the sink's list is not touched.
    fn kick_session(&mut self, sink_id: &SinkId, session_id: &SessionId)
        ensures
            final(self).policy() == old(self).policy(),
            final(self)@ == (SinkHubView {
                sessions: old(self)@.sessions.remove(session_id@),
                ..old(self)@
            }),
    {
        let _ = sink_sessions_remove(&mut self.sessions, &session_id.0);
    }

    /// Gives `sink_id` the session `session_id` on `app_id`, whose first
    /// call must present more than `last_ord`. Where the sink had sessions
    /// and may hold one only, they end first.
    pub fn add_session(
        &mut self,
        app_id: &AppId,
        sink_id: &SinkId,
        session_id: &SessionId,
        last_ord: u64,
    )
        ensures
            final(self).policy() == old(self).policy(),
            final(self)@ == old(self)@.add_session(app_id@, sink_id@, session_id@, last_ord),
    {
        let ghost before = self@;
        let allow_multiple = self.authenticator.allow_multiple_sessions();
        match index_remove(&mut self.sinks, &sink_id.0) {
            None => {
                let mut ids: Vec<String> = Vec::new();
                ids.push(session_id.0.clone());
                assert(texts(ids@) =~= seq![session_id@]);
                let _ = index_insert(&mut self.sinks, sink_id.0.clone(), ids);
                proof {
                    lemma_without_none(before.sessions);
                }
            },
            Some((key, mut ids)) => {
                let ghost old_ids = texts(ids@);
                if !allow_multiple {
                    proof {
                        lemma_without_ends(before.sessions, old_ids);
                    }
                    let mut i: usize = 0;
                    while i < ids.len()
                        invariant
                            0 <= i <= ids.len(),
                            old_ids == texts(ids@),
                            self.policy() == old(self).policy(),
                            self@ == (SinkHubView {
                                sinks: before.sinks.remove(sink_id@),
                                sessions: without(before.sessions, old_ids.take(i as int)),
                                ..before
                            }),
                        decreases ids.len() - i,
                    {
                        proof {
                            lemma_without_next(before.sessions, old_ids, i as int);
                            assert(old_ids[i as int] == ids@[i as int]@);
                        }
                        self.kick_session(sink_id, &SessionId(ids[i].clone()));
                        i += 1;
                    }
                    ids.clear();
                } else {
                    proof {
                        lemma_without_none(before.sessions);
                    }
                }
                ids.push(session_id.0.clone());
                assert(texts(ids@) =~= ids_after_add(
                    Some(old_ids),
                    allow_multiple,
                    session_id@,
                ));
                let _ = index_insert(&mut self.sinks, key, ids);
            },
        }
        let sink = AppSink::new(app_id, sink_id, session_id);
        let session = SinkSession::new(sink, last_ord);
        let _ = sink_sessions_insert(&mut self.sessions, session_id.0.clone(), session);
        assert(self@.sinks =~= before.add_session(app_id@, sink_id@, session_id@, last_ord).sinks);
    }

    /// The registration of a sink, once the authenticator has given its
    /// verdict. The application is looked up, or created where that is
    /// allowed, before anything else. A registration that is turned away,
    /// or a verdict against the sink, changes nothing more. Else the sink
    /// gets its session.
    pub fn register_with_verdict(
        &mut self,
        apps: &mut AppRegistry,
        req: &RegisterRequest,
        verdict: Result<SessionId, Status>,
    ) -> (r: Result<RegisterResponse, Status>)
        ensures
            final(self).policy() == old(self).policy(),
            result_view(r) == old(self)@.register_result(old(apps)@, req@, result_view(verdict)),
            final(self)@ == old(self)@.after_register(old(apps)@, req@, result_view(verdict)),
            final(apps)@ == old(self)@.apps_with(old(apps)@, req@.app_id, req@.kinds),
    {
        if let Some(status) = self.check_register(apps, req) {
            return Err(status);
        }
        self.complete_register(req, verdict)
    }

    /// The last part of a registration that the hub did not turn away: a
    /// verdict for the sink gives it its session and its answer; a verdict
    /// against it is handed on and changes nothing.
    fn complete_register(
        &mut self,
        req: &RegisterRequest,
        verdict: Result<SessionId, Status>,
    ) -> (r: Result<RegisterResponse, Status>)
        ensures
            final(self).policy() == old(self).policy(),
            result_view(r) == (match result_view(verdict) {
                Ok(session_id) => Ok(register_response(req@, session_id)),
                Err(status) => Err(status),
            }),
            final(self)@ == (match result_view(verdict) {
                Ok(session_id) => old(self)@.add_session(
                    req@.app_id,
                    req@.sink_id,
                    session_id,
                    req@.ord,
                ),
                Err(_) => old(self)@,
            }),
    {
        let session_id = match verdict {
            Ok(session_id) => session_id,
            Err(status) => {
                return Err(status);
            },
        };
        let app_id = AppId(req.app_id.clone());
        let sink_id = SinkId(req.sink_id.clone());
        self.add_session(&app_id, &sink_id, &session_id, req.ord);
        Ok(RegisterResponse::new(req, &session_id, None))
    }

    /// The first part of a registration: the application is looked up, or
    /// created where that is allowed, and the reason comes back for which
    /// the hub turns the sink away before anyone looks at the credentials,
    /// if it does.
    pub fn check_register(&self, apps: &mut AppRegistry, req: &RegisterRequest) -> (denial: Option<
        Status,
    >)
        ensures
            denial is Some <==> self@.register_denial(old(apps)@, req@) is Some,
            denial is Some ==> denial.unwrap()@ == self@.register_denial(old(apps)@, req@).unwrap(),
            final(apps)@ == self@.apps_with(old(apps)@, req@.app_id, req@.kinds),
    {
        let app_id = AppId(req.app_id.clone());
        match self.get_or_add_app(apps, &app_id, &req.kinds) {
            Err(status) => {
                return Some(status);
            },
            Ok(_) => {},
        }
        if index_get(&self.sinks, &req.sink_id).is_some()
            && !self.authenticator.allow_multiple_sessions()
            && !self.authenticator.kick_old_sessions() {
            return Some(Status::permission_denied(ErrorMessage::ALREADY_REGISTERED));
        }
        None
    }

    /// The registration of a sink. One that the hub turns away ends at
    /// once. Else the authenticator gives its verdict, one that it may give
    /// to this request, and the call goes on as `register_with_verdict`
    /// says for that verdict.
    pub fn register(&mut self, apps: &mut AppRegistry, req: &RegisterRequest) -> (r: Result<
        RegisterResponse,
        Status,
    >)
        ensures
            final(self).policy() == old(self).policy(),
            final(apps)@ == old(self)@.apps_with(old(apps)@, req@.app_id, req@.kinds),
            old(self)@.register_denial(old(apps)@, req@) is Some ==> {
                &&& r is Err
                &&& r.unwrap_err()@ == old(self)@.register_denial(old(apps)@, req@).unwrap()
                &&& final(self)@ == old(self)@
            },
            old(self)@.register_denial(old(apps)@, req@) is None ==> exists|
                verdict: Result<Seq<char>, StatusView>,
            |
                {
                    &&& old(self).policy().may_answer(req@, verdict)
                    &&& result_view(r) == old(self)@.register_result(old(apps)@, req@, verdict)
                    &&& final(self)@ == old(self)@.after_register(old(apps)@, req@, verdict)
                },
    {
        let ghost apps_before = apps@;
        if let Some(status) = self.check_register(apps, req) {
            return Err(status);
        }
        let verdict = self.authenticator.auth(req);
        let ghost verdict_view = result_view(verdict);
        let r = self.complete_register(req, verdict);
        proof {
            assert(old(self).policy().may_answer(req@, verdict_view) && result_view(r) == old(
                self,
            )@.register_result(apps_before, req@, verdict_view) && self@ == old(
                self,
            )@.after_register(apps_before, req@, verdict_view));
        }
        r
    }

    /// One message on a stream of `kind`.
    fn on_result(
        &mut self,
        apps: &mut AppRegistry,
        stream: &mut SinkStream,
        kind: RelayKind,
        sender: u64,
        sink_session: &String,
        reply_session: Option<&String>,
    ) -> (step: StreamStep)
        ensures
            final(self).policy() == old(self).policy(),
            step == old(self)@.stream_step(
                old(apps)@,
                old(stream)@,
                kind,
                sink_session@,
                text_of(reply_session),
            ),
            final(apps)@ == old(self)@.apps_after_stream(
                old(apps)@,
                old(stream)@,
                kind,
                sender,
                sink_session@,
                text_of(reply_session),
            ),
            final(stream)@ == old(self)@.stream_after(old(apps)@, old(stream)@, sink_session@),
            final(self)@ == old(self)@,
    {
        let ghost apps_before = apps@;
        let first = stream.is_init;
        if first {
            stream.is_init = false;
            stream.sink_session = Some(SessionId(sink_session.clone()));
            stream.app = match self.get_session(sink_session) {
                Ok(sink) => {
                    if apps.contains(&sink.app_id) {
                        Some(sink.app_id)
                    } else {
                        None
                    }
                },
                Err(_) => None,
            };
        } else {
            let same = match &stream.sink_session {
                Some(session) => session.0 == *sink_session,
                None => false,
            };
            if !same {
                return StreamStep::Stop(StreamEnd::BadSession);
            }
        }
        let app_id = match &stream.app {
            Some(app_id) => app_id.clone(),
            None => {
                return StreamStep::Stop(StreamEnd::InitFailed);
            },
        };
        match apps.remove(&app_id) {
            None => {
                assert(apps@ =~= apps_before);
                StreamStep::Stop(StreamEnd::NotRelay)
            },
            Some(HubApp::Dummy(app)) => {
                let _ = apps.insert(app_id, HubApp::Dummy(app));
                assert(apps@ =~= apps_before);
                StreamStep::Stop(StreamEnd::NotRelay)
            },
            Some(HubApp::Sink(mut relay)) => {
                if first {
                    relay.set_request_sender(kind, sender);
                }
                let step = match reply_session {
                    None => StreamStep::Stop(StreamEnd::Empty),
                    Some(session) => match relay.notify(kind, session) {
                        Some(slot) => StreamStep::Deliver(slot),
                        None => StreamStep::Dropped,
                    },
                };
                let _ = apps.insert(app_id, HubApp::Sink(relay));
                assert(apps@ =~= old(self)@.apps_after_stream(
                    apps_before,
                    old(stream)@,
                    kind,
                    sender,
                    sink_session@,
                    text_of(reply_session),
                ));
                step
            },
        }
    }

    /// One event on a sink's auth stream, which relays through the channel
    /// `sender`. A failure of the transport ends the stream. The first
    /// message binds `sender` into the relay application of the sink
    /// session that it names; every later message must name the same sink
    /// session. A message that answers takes the reply slot of the session
    /// that it answers out of the relay: `Deliver` says which slot the
    /// caller fills with the answer, `Dropped` that nobody waits.
    pub fn auth(
        &mut self,
        apps: &mut AppRegistry,
        stream: &mut SinkStream,
        sender: u64,
        event: &Result<AuthResult, Status>,
    ) -> (step: StreamStep)
        ensures
            final(self).policy() == old(self).policy(),
            final(self)@ == old(self)@,
            event is Err ==> {
                &&& step == StreamStep::Stop(StreamEnd::Failed)
                &&& final(apps)@ == old(apps)@
                &&& final(stream)@ == old(stream)@
            },
            event is Ok ==> {
                let msg = event->Ok_0@;
                &&& step == old(self)@.stream_step(
                    old(apps)@,
                    old(stream)@,
                    RelayKind::Auth,
                    msg.sink_session,
                    auth_result_session(msg),
                )
                &&& final(apps)@ == old(self)@.apps_after_stream(
                    old(apps)@,
                    old(stream)@,
                    RelayKind::Auth,
                    sender,
                    msg.sink_session,
                    auth_result_session(msg),
                )
                &&& final(stream)@ == old(self)@.stream_after(
                    old(apps)@,
                    old(stream)@,
                    msg.sink_session,
                )
            },
    {
        match event {
            Err(_) => StreamStep::Stop(StreamEnd::Failed),
            Ok(msg) => {
                let reply_session = match &msg.result {
                    Some(crate::proto::AuthReply::Granted(res)) => Some(&res.session_id),
                    Some(crate::proto::AuthReply::Failed(err)) => Some(&err.session_id),
                    None => None,
                };
                self.on_result(
                    apps,
                    stream,
                    RelayKind::Auth,
                    sender,
                    &msg.sink_session,
                    reply_session,
                )
            },
        }
    }

    /// One event on a sink's handle stream; as `auth`, for requests.
    pub fn handle(
        &mut self,
        apps: &mut AppRegistry,
        stream: &mut SinkStream,
        sender: u64,
        event: &Result<HandleResult, Status>,
    ) -> (step: StreamStep)
        ensures
            final(self).policy() == old(self).policy(),
            final(self)@ == old(self)@,
            event is Err ==> {
                &&& step == StreamStep::Stop(StreamEnd::Failed)
                &&& final(apps)@ == old(apps)@
                &&& final(stream)@ == old(stream)@
            },
            event is Ok ==> {
                let msg = event->Ok_0@;
                &&& step == old(self)@.stream_step(
                    old(apps)@,
                    old(stream)@,
                    RelayKind::Handle,
                    msg.sink_session,
                    handle_result_session(msg),
                )
                &&& final(apps)@ == old(self)@.apps_after_stream(
                    old(apps)@,
                    old(stream)@,
                    RelayKind::Handle,
                    sender,
                    msg.sink_session,
                    handle_result_session(msg),
                )
                &&& final(stream)@ == old(self)@.stream_after(
                    old(apps)@,
                    old(stream)@,
                    msg.sink_session,
                )
            },
    {
        match event {
            Err(_) => StreamStep::Stop(StreamEnd::Failed),
            Ok(msg) => {
                let reply_session = match &msg.result {
                    Some(crate::proto::HandleReply::Served(res)) => Some(&res.session_id),
                    Some(crate::proto::HandleReply::Failed(err)) => Some(&err.session_id),
                    None => None,
                };
                self.on_result(
                    apps,
                    stream,
                    RelayKind::Handle,
                    sender,
                    &msg.sink_session,
                    reply_session,
                )
            },
        }
    }

    /// The stream of events that a sink publishes: not served yet.
    pub fn publish(&self) -> (r: Result<(), Status>)
        ensures
            r is Err,
            r.unwrap_err()@ == crate::sink_app::under_construction_status(),
    {
        Err(Status::unimplemented(ErrorMessage::UNDER_CONSTRUCTION))
    }
}

/// Stream identity. Once the first message of a stream has named a sink
/// session, a message that names another ends the stream, and nothing
/// else happens: no application changes, so every reply slot still waits
/// where it waited, and the stream remembers what it remembered.
pub proof fn lemma_other_sink_session_ends_stream(
    hub: SinkHubView,
    apps: Map<Seq<char>, HubAppView>,
    stream: SinkStreamView,
    kind: RelayKind,
    sender: u64,
    sink_session: Seq<char>,
    reply_session: Option<Seq<char>>,
)
    requires
        !stream.is_init,
        stream.sink_session != Some(sink_session),
    ensures
        hub.stream_step(apps, stream, kind, sink_session, reply_session) == StreamStep::Stop(
            StreamEnd::BadSession,
        ),
        hub.apps_after_stream(apps, stream, kind, sender, sink_session, reply_session) == apps,
        hub.stream_after(apps, stream, sink_session) == stream,
{
}

/// The first message of a stream binds it. Where the message names a live
/// sink session whose application is a registered relay, the relay's
/// channel of that kind is `sender` afterwards, whatever was bound before,
/// and the stream remembers the sink session and the application.
pub proof fn lemma_first_message_binds_sender(
    hub: SinkHubView,
    apps: Map<Seq<char>, HubAppView>,
    kind: RelayKind,
    sender: u64,
    sink_session: Seq<char>,
    reply_session: Option<Seq<char>>,
)
    requires
        hub.sessions.contains_key(sink_session),
        apps.contains_key(hub.sessions[sink_session].sink.app_id),
        apps[hub.sessions[sink_session].sink.app_id] is Sink,
    ensures
        ({
            let stream = SinkStreamView { is_init: true, sink_session: None, app: None };
            let app_id = hub.sessions[sink_session].sink.app_id;
            let after = hub.apps_after_stream(
                apps,
                stream,
                kind,
                sender,
                sink_session,
                reply_session,
            );
            &&& after.contains_key(app_id)
            &&& after[app_id] is Sink
            &&& after[app_id]->Sink_0.sender(kind) == Some(sender)
            &&& hub.stream_after(apps, stream, sink_session) == (SinkStreamView {
                is_init: false,
                sink_session: Some(sink_session),
                app: Some(app_id),
            })
            &&& forall|other: Seq<char>|
                other != app_id ==> (after.contains_key(other) <==> apps.contains_key(other)) && (
                apps.contains_key(other) ==> after[other] == apps[other])
        }),
{
}

/// An answer is delivered once. On a bound stream, a message that answers
/// a session for which a slot waits takes that slot out for the caller to
/// fill; after it the relay holds no slot for that session, so the same
/// answer a second time is dropped. No other session's slot is touched.
pub proof fn lemma_answer_is_delivered_once(
    hub: SinkHubView,
    apps: Map<Seq<char>, HubAppView>,
    stream: SinkStreamView,
    kind: RelayKind,
    sender: u64,
    sink_session: Seq<char>,
    session: Seq<char>,
)
    requires
        !stream.is_init,
        stream.sink_session == Some(sink_session),
        stream.app is Some,
        apps.contains_key(stream.app.unwrap()),
        apps[stream.app.unwrap()] is Sink,
        apps[stream.app.unwrap()]->Sink_0.pending(kind).contains_key(session),
    ensures
        ({
            let app_id = stream.app.unwrap();
            let slot = apps[app_id]->Sink_0.pending(kind)[session];
            let after = hub.apps_after_stream(
                apps,
                stream,
                kind,
                sender,
                sink_session,
                Some(session),
            );
            &&& hub.stream_step(apps, stream, kind, sink_session, Some(session))
                == StreamStep::Deliver(slot)
            &&& hub.stream_step(after, stream, kind, sink_session, Some(session))
                == StreamStep::Dropped
            &&& after[app_id]->Sink_0.pending(kind) == apps[app_id]->Sink_0.pending(kind).remove(
                session,
            )
            &&& after[app_id]->Sink_0.sender(kind) == apps[app_id]->Sink_0.sender(kind)
        }),
{
}

/// The index stays live on the sink side: on a hub where every id in a
/// sink's list names a live session of that sink, a new session under an
/// id that the store does not hold yet leaves it so.
pub proof fn lemma_add_sink_session_keeps_index_live(
    hub: SinkHubView,
    app_id: Seq<char>,
    sink_id: Seq<char>,
    session_id: Seq<char>,
    last_ord: u64,
)
    requires
        hub.index_is_live(),
        !hub.sessions.contains_key(session_id),
    ensures
        hub.add_session(app_id, sink_id, session_id, last_ord).index_is_live(),
{
    let after = hub.add_session(app_id, sink_id, session_id, last_ord);
    let existing = ids_of(hub.sinks, sink_id);
    let evicted = evicted_by_add(existing, hub.allow_multiple);
    assert forall|s: Seq<char>, i: int|
        #![trigger after.sinks[s][i]]
        after.sinks.contains_key(s) && 0 <= i < after.sinks[s].len() implies {
        &&& after.sessions.contains_key(after.sinks[s][i])
        &&& after.sessions[after.sinks[s][i]].sink.sink_id == s
    } by {
        let id = after.sinks[s][i];
        if s == sink_id {
            if existing is Some && hub.allow_multiple {
                if i < existing.unwrap().len() {
                    assert(id == hub.sinks[s][i]);
                    lemma_without_none(hub.sessions);
                }
            }
        } else {
            assert(id == hub.sinks[s][i]);
            assert(hub.sessions.contains_key(id));
            if evicted.contains(id) {
                let j = choose|j: int| 0 <= j < evicted.len() && evicted[j] == id;
                assert(hub.sinks[sink_id][j] == id);
            }
        }
    }
}

/// A relayed request from end to end. A request of a live session, in
/// order, whose application is a registered relay with a sink bound,
/// leaves the link side as one message for that sink, which carries the
/// request whole; and when the sink's answer for that session arrives on
/// the stream that is bound to the application, the hub names the very
/// slot that the caller brought.
pub proof fn lemma_request_round_trip(
    link: LinkHubView,
    sink: SinkHubView,
    stream: SinkStreamView,
    sink_session: Seq<char>,
    req: crate::proto::AppRequestView,
    slot: u64,
)
    requires
        link.sessions_are_keyed(),
        link.session_denial(req.session_id, req.ord) is None,
        link.apps.contains_key(link.sessions[req.session_id].link.app_id),
        link.apps[link.sessions[req.session_id].link.app_id] is Sink,
        link.apps[link.sessions[req.session_id].link.app_id]->Sink_0.handle_sender is Some,
        !stream.is_init,
        stream.sink_session == Some(sink_session),
        stream.app == Some(link.sessions[req.session_id].link.app_id),
    ensures
        ({
            let app_id = link.sessions[req.session_id].link.app_id;
            let step = link.handle_step(req, slot);
            let after = link.after_handle(req, slot);
            &&& step is Relay
            &&& step->Relay_0.sender == link.apps[app_id]->Sink_0.handle_sender.unwrap()
            &&& step->Relay_0.message.req == Some(req)
            &&& sink.stream_step(
                after.apps,
                stream,
                RelayKind::Handle,
                sink_session,
                Some(req.session_id),
            ) == StreamStep::Deliver(slot)
        }),
{
}

/// A relayed auth call from end to end. An auth request that the hub does
/// not turn away, for a registered relay with a sink bound, leaves the
/// link side as one message for that sink, which carries the request and
/// the session that the authenticator proposed; and when the sink's
/// answer for that session arrives on the stream that is bound to the
/// application, the hub names the very slot that the caller brought.
pub proof fn lemma_auth_call_round_trip(
    link: LinkHubView,
    sink: SinkHubView,
    stream: SinkStreamView,
    sink_session: Seq<char>,
    req: crate::proto::AuthRequestView,
    hint: Seq<char>,
    slot: u64,
)
    requires
        link.auth_denial(req) is None,
        link.apps.contains_key(req.app_id),
        link.apps[req.app_id] is Sink,
        link.apps[req.app_id]->Sink_0.auth_sender is Some,
        !stream.is_init,
        stream.sink_session == Some(sink_session),
        stream.app == Some(req.app_id),
    ensures
        ({
            let step = link.auth_step(req, slot, Ok(hint));
            let after = link.after_auth(req, slot, Ok(hint));
            &&& step is Relay
            &&& step->Relay_0.sender == link.apps[req.app_id]->Sink_0.auth_sender.unwrap()
            &&& step->Relay_0.message.req == Some(req)
            &&& step->Relay_0.message.link_session == hint
            &&& sink.stream_step(after.apps, stream, RelayKind::Auth, sink_session, Some(hint))
                == StreamStep::Deliver(slot)
        }),
{
}

/// Single-session eviction on the sink side: where a sink may hold one
/// session only and gets two with different ids one after the other, the
/// first is gone once the second is there.
pub proof fn lemma_single_sink_session_eviction(
    hub: SinkHubView,
    sink_id: Seq<char>,
    first: (Seq<char>, Seq<char>, u64),
    second: (Seq<char>, Seq<char>, u64),
)
    requires
        !hub.allow_multiple,
        first.1 != second.1,
    ensures
        ({
            let one = hub.add_session(first.0, sink_id, first.1, first.2);
            let two = one.add_session(second.0, sink_id, second.1, second.2);
            &&& one.sessions.contains_key(first.1)
            &&& !two.sessions.contains_key(first.1)
            &&& two.sessions.contains_key(second.1)
            &&& two.sinks[sink_id] == seq![second.1]
        }),
{
    let one = hub.add_session(first.0, sink_id, first.1, first.2);
    assert(one.sinks[sink_id] == seq![first.1]);
    assert(seq![first.1][0] == first.1);
    assert(seq![first.1].to_set().contains(first.1));
}

} // verus!
