//! The link side of the hub: auth, requests and subscriptions of links.

use crate::error::ErrorMessage;
use crate::hub_app::{AppLink, AppLinkView, AppRegistry, HubApp, HubAppView};
use crate::hub_session::{AppId, LinkId, SessionId};
use crate::link_authenticator::{denied, LinkAuthenticator};
use crate::link_session::{
    new_link_session, ord_accepted, stale_ord_status, LinkSession, LinkSessionView,
};
use crate::proto::{
    AppEvent, AppRequest, AppRequestView, AppResponse, AppResponseView, AppSubscribe, AuthReply,
    AuthReplyView, AuthRequest, AuthRequestView, AuthResponse, AuthResponseView, LinkAppRequest,
    LinkAppRequestView, LinkAuthRequest, LinkAuthRequestView, TRACE_ID,
};
use crate::relay::{result_view, AppStep, AppStepView, RelayReply, RelayReplyView};
use crate::session_index::{
    evicted_by_add, ids_after_add, ids_of, lemma_without_ends, lemma_without_next,
    lemma_without_none, without,
};
use crate::sink_app::{auth_outcome, under_construction_status, EventSource, SinkApp};
use crate::status::{Status, StatusView};
use crate::tables::{
    index_entries, index_get, index_insert, index_new, index_remove, link_session_entries,
    link_sessions_insert, link_sessions_new, link_sessions_remove, texts,
};
use dashmap::DashMap;
use vstd::prelude::*;

verus! {

/// The address that the hub records for a link until the transport tells
/// it the real one.
pub const LINK_ADDRESS: &'static str = "TODO";

/// The link side of the hub.
pub struct LinkHub<TA: LinkAuthenticator> {
    links: DashMap<String, Vec<String>>,
    sessions: DashMap<String, LinkSession>,
    authenticator: TA,
    apps: AppRegistry,
    fallback_app: Option<HubApp>,
}

/// The link side of the hub as contracts see it.
pub ghost struct LinkHubView {
    /// For each link that has sessions, their ids, oldest first.
    pub links: Map<Seq<char>, Seq<Seq<char>>>,
    /// The live sessions by id.
    pub sessions: Map<Seq<char>, LinkSessionView>,
    /// The registered applications by id.
    pub apps: Map<Seq<char>, HubAppView>,
    /// The application that serves the ids that are not registered.
    pub fallback_app: Option<HubAppView>,
    /// Whether a link may hold several sessions at once.
    pub allow_multiple: bool,
    /// Whether a link's old sessions give way to a new one.
    pub kick_old: bool,
}

/// The view of an application that may be absent.
pub open spec fn app_view(app: Option<HubApp>) -> Option<HubAppView> {
    match app {
        Some(a) => Some(a@),
        None => None,
    }
}

impl<TA: LinkAuthenticator> View for LinkHub<TA> {
    type V = LinkHubView;

    closed spec fn view(&self) -> LinkHubView {
        LinkHubView {
            links: index_entries(self.links),
            sessions: link_session_entries(self.sessions),
            apps: self.apps@,
            fallback_app: app_view(self.fallback_app),
            allow_multiple: self.authenticator.multiple_sessions_allowed(),
            kick_old: self.authenticator.old_sessions_kicked(),
        }
    }
}

/// The answer to an auth request of a link that was let in.
pub open spec fn auth_response(req: AuthRequestView, session_id: Seq<char>) -> AuthResponseView {
    AuthResponseView { ord: req.ord, session_id, trace_id: TRACE_ID@, extra: None }
}

/// Which application answered for an id.
#[derive(Clone, Copy, Debug, PartialEq, Eq, Structural)]
pub enum Resolved {
    /// The one that is registered under the id.
    Registered,
    /// The fallback, for want of a registered one.
    Fallback,
}

impl LinkHubView {
    /// The application that serves `app_id`: the registered one, else the
    /// fallback, if there is one.
    pub open spec fn resolve(self, app_id: Seq<char>) -> Option<HubAppView> {
        if self.apps.contains_key(app_id) {
            Some(self.apps[app_id])
        } else {
            self.fallback_app
        }
    }

    /// The hub with `app` in the place of the application that serves
    /// `app_id`.
    pub open spec fn with_resolved(self, app_id: Seq<char>, app: HubAppView) -> LinkHubView {
        if self.apps.contains_key(app_id) {
            LinkHubView { apps: self.apps.insert(app_id, app), ..self }
        } else {
            LinkHubView { fallback_app: Some(app), ..self }
        }
    }

    /// The hub with one more session. Where the link had sessions and may
    /// hold one only, those leave the store and the link's list first.
    pub open spec fn add_session(
        self,
        app_id: Seq<char>,
        link_id: Seq<char>,
        session_id: Seq<char>,
        link_address: Seq<char>,
        last_ord: u64,
    ) -> LinkHubView {
        let existing = ids_of(self.links, link_id);
        let link = AppLinkView { app_id, link_id, session_id, link_address };
        LinkHubView {
            links: self.links.insert(
                link_id,
                ids_after_add(existing, self.allow_multiple, session_id),
            ),
            sessions: without(self.sessions, evicted_by_add(existing, self.allow_multiple)).insert(
                session_id,
                new_link_session(link, last_ord),
            ),
            ..self
        }
    }

    /// Why an auth request is turned away before anyone looks at the
    /// credentials, if it is.
    pub open spec fn auth_denial(self, req: AuthRequestView) -> Option<StatusView> {
        if self.resolve(req.app_id) is None {
            Some(denied(ErrorMessage::INVALID_APP_ID@))
        } else if self.links.contains_key(req.link_id) && !self.allow_multiple && !self.kick_old {
            Some(denied(ErrorMessage::ALREADY_AUTHENTICATED@))
        } else {
            None
        }
    }

    /// What the hub decides on an auth request, given the authenticator's
    /// verdict.
    pub open spec fn auth_step(
        self,
        req: AuthRequestView,
        slot: u64,
        verdict: Result<Seq<char>, StatusView>,
    ) -> AppStepView<AuthResponseView, LinkAuthRequestView> {
        match self.auth_denial(req) {
            Some(status) => AppStepView::Done(Err(status)),
            None => match verdict {
                Err(status) => AppStepView::Done(Err(status)),
                Ok(hint) => match self.resolve(req.app_id).unwrap().auth_step(
                    slot,
                    TRACE_ID@,
                    LINK_ADDRESS@,
                    hint,
                    req,
                ) {
                    AppStepView::Done(Ok(session_id)) => AppStepView::Done(
                        Ok(auth_response(req, session_id)),
                    ),
                    AppStepView::Done(Err(status)) => AppStepView::Done(Err(status)),
                    AppStepView::Relay(call) => AppStepView::Relay(call),
                },
            },
        }
    }

    /// The hub after an auth request, given the authenticator's verdict.
    pub open spec fn after_auth(
        self,
        req: AuthRequestView,
        slot: u64,
        verdict: Result<Seq<char>, StatusView>,
    ) -> LinkHubView {
        if self.auth_denial(req) is Some || verdict is Err {
            self
        } else {
            let hint = verdict->Ok_0;
            let app = self.resolve(req.app_id).unwrap();
            match app.auth_step(slot, TRACE_ID@, LINK_ADDRESS@, hint, req) {
                AppStepView::Done(Ok(session_id)) => self.add_session(
                    req.app_id,
                    req.link_id,
                    session_id,
                    LINK_ADDRESS@,
                    req.ord,
                ),
                AppStepView::Done(Err(_)) => self,
                AppStepView::Relay(_) => self.with_resolved(
                    req.app_id,
                    app.after_auth(slot, hint),
                ),
            }
        }
    }

    /// How a relayed auth call ends for the link.
    pub open spec fn auth_reply(
        self,
        req: AuthRequestView,
        reply: RelayReplyView<AuthReplyView>,
    ) -> Result<AuthResponseView, StatusView> {
        match auth_outcome(reply) {
            Ok(session_id) => Ok(auth_response(req, session_id)),
            Err(status) => Err(status),
        }
    }

    /// The hub after a relayed auth call has ended: with the session that
    /// the sink confirmed, or as before.
    pub open spec fn after_auth_reply(
        self,
        req: AuthRequestView,
        reply: RelayReplyView<AuthReplyView>,
    ) -> LinkHubView {
        match auth_outcome(reply) {
            Ok(session_id) => self.add_session(
                req.app_id,
                req.link_id,
                session_id,
                LINK_ADDRESS@,
                req.ord,
            ),
            Err(_) => self,
        }
    }

    /// Why a call on a session is turned away before it reaches the
    /// application, if it is: the session is unknown, or the call is out
    /// of order.
    pub open spec fn session_denial(self, session_id: Seq<char>, ord: u64) -> Option<StatusView> {
        if !self.sessions.contains_key(session_id) {
            Some(denied(ErrorMessage::INVALID_SESSION_ID@))
        } else if !ord_accepted(self.sessions[session_id].last_ord, ord) {
            Some(stale_ord_status())
        } else {
            None
        }
    }

    /// The hub after the ordering check of a call on a session.
    pub open spec fn after_ord_check(self, session_id: Seq<char>, ord: u64) -> LinkHubView {
        if self.session_denial(session_id, ord) is Some {
            self
        } else {
            LinkHubView {
                sessions: self.sessions.insert(
                    session_id,
                    LinkSessionView { last_ord: ord, ..self.sessions[session_id] },
                ),
                ..self
            }
        }
    }

    /// What the hub decides on a request.
    pub open spec fn handle_step(self, req: AppRequestView, slot: u64) -> AppStepView<
        AppResponseView,
        LinkAppRequestView,
    > {
        match self.session_denial(req.session_id, req.ord) {
            Some(status) => AppStepView::Done(Err(status)),
            None => {
                let link = self.sessions[req.session_id].link;
                match self.resolve(link.app_id) {
                    None => AppStepView::Done(Err(denied(ErrorMessage::INVALID_APP_ID@))),
                    Some(app) => app.handle_step(slot, TRACE_ID@, link, req),
                }
            },
        }
    }

    /// The hub after a request.
    pub open spec fn after_handle(self, req: AppRequestView, slot: u64) -> LinkHubView {
        if self.session_denial(req.session_id, req.ord) is Some {
            self
        } else {
            let link = self.sessions[req.session_id].link;
            let checked = self.after_ord_check(req.session_id, req.ord);
            match self.resolve(link.app_id) {
                None => checked,
                Some(app) => checked.with_resolved(
                    link.app_id,
                    app.after_handle(slot, link.session_id),
                ),
            }
        }
    }

    /// The status with which a subscription ends: no application serves
    /// one yet, so it is the first of the reasons that apply.
    pub open spec fn subscribe_status(self, session_id: Seq<char>, ord: u64) -> StatusView {
        match self.session_denial(session_id, ord) {
            Some(status) => status,
            None => {
                if self.resolve(self.sessions[session_id].link.app_id) is None {
                    denied(ErrorMessage::INVALID_APP_ID@)
                } else {
                    under_construction_status()
                }
            },
        }
    }

    /// Every session stands in the store under its own id.
    pub open spec fn sessions_are_keyed(self) -> bool {
        forall|id: Seq<char>|
            self.sessions.contains_key(id) ==> (#[trigger] self.sessions[id]).link.session_id == id
    }

    /// Every id in a link's list names a live session of that link.
    pub open spec fn index_is_live(self) -> bool {
        forall|link_id: Seq<char>, i: int|
            #![trigger self.links[link_id][i]]
            self.links.contains_key(link_id) && 0 <= i < self.links[link_id].len() ==> {
                &&& self.sessions.contains_key(self.links[link_id][i])
                &&& self.sessions[self.links[link_id][i]].link.link_id == link_id
            }
    }
}

impl<TA: LinkAuthenticator> LinkHub<TA> {
    /// How many events may wait between an application and a subscribed
    /// link.
    pub const EVENT_CHANNEL_BUFFER_SIZE: usize = 16;

    /// The authenticator that the hub was made with. No operation of the
    /// hub changes it.
    pub closed spec fn policy(&self) -> TA {
        self.authenticator
    }

    /// The authenticator that the hub was made with.
    pub fn authenticator(&self) -> (authenticator: &TA)
        ensures
            *authenticator == self.policy(),
    {
        &self.authenticator
    }

    /// The two switches in the hub's view are those of its authenticator.
    pub proof fn lemma_switches_are_the_policys(&self)
        ensures
            self@.allow_multiple == self.policy().multiple_sessions_allowed(),
            self@.kick_old == self.policy().old_sessions_kicked(),
    {
    }

    /// A hub with no sessions and no registered application.
    pub fn new(authenticator: TA, fallback_app: Option<HubApp>) -> (hub: Self)
        ensures
            hub.policy() == authenticator,
            hub@ == (LinkHubView {
                links: Map::empty(),
                sessions: Map::empty(),
                apps: Map::empty(),
                fallback_app: app_view(fallback_app),
                allow_multiple: authenticator.multiple_sessions_allowed(),
                kick_old: authenticator.old_sessions_kicked(),
            }),
    {
        let hub = LinkHub {
            links: index_new(),
            sessions: link_sessions_new(),
            authenticator,
            apps: AppRegistry::new(),
            fallback_app,
        };
        assert(hub@.links =~= Map::empty());
        assert(hub@.sessions =~= Map::empty());
        hub
    }

    /// The registry of applications.
    pub fn get_apps(&self) -> (apps: &AppRegistry)
        ensures
            apps@ == self@.apps,
    {
        &self.apps
    }

    /// The registry of applications, for the sink side to register into.
    pub fn apps_mut(&mut self) -> (apps: &mut AppRegistry)
        ensures
            final(self).policy() == old(self).policy(),
            apps@ == old(self)@.apps,
            final(self)@ == (LinkHubView { apps: final(apps)@, ..old(self)@ }),
    {
        &mut self.apps
    }

    /// Registers `app` under `app_id`, in place of what stood there.
    pub fn add_app(&mut self, app_id: &str, app: HubApp)
        ensures
            final(self).policy() == old(self).policy(),
            final(self)@ == (LinkHubView {
                apps: old(self)@.apps.insert(app_id@, app@),
                ..old(self)@
            }),
    {
        self.apps.insert(AppId(app_id.to_owned()), app);
    }

    /// Which application serves `app_id`: the registered one, else the
    /// fallback; with neither the id is turned away.
    pub fn get_app(&self, app_id: &AppId) -> (r: Result<Resolved, Status>)
        ensures
            r is Ok <==> self@.resolve(app_id@) is Some,
            r is Ok ==> (r.unwrap() == Resolved::Registered <==> self@.apps.contains_key(app_id@)),
            r is Err ==> r.unwrap_err()@ == denied(ErrorMessage::INVALID_APP_ID@),
    {
        if self.apps.contains(app_id) {
            Ok(Resolved::Registered)
        } else if self.fallback_app.is_some() {
            Ok(Resolved::Fallback)
        } else {
            Err(Status::permission_denied(ErrorMessage::INVALID_APP_ID))
        }
    }

    /// The ids of the sessions that `link_id` holds, oldest first.
    pub fn get_link_session_ids(&self, link_id: &LinkId) -> (r: Option<Vec<SessionId>>)
        ensures
            r is Some <==> self@.links.contains_key(link_id@),
            r is Some ==> r.unwrap()@.len() == self@.links[link_id@].len(),
            r is Some ==> forall|i: int|
                0 <= i < r.unwrap()@.len() ==> (#[trigger] r.unwrap()@[i])@
                    == self@.links[link_id@][i],
    {
        match index_get(&self.links, &link_id.0) {
            None => None,
            Some(texts_found) => {
                let mut ids: Vec<SessionId> = Vec::new();
                let mut i: usize = 0;
                while i < texts_found.len()
                    invariant
                        0 <= i <= texts_found.len(),
                        ids@.len() == i,
                        forall|j: int| 0 <= j < i ==> (#[trigger] ids@[j])@ == texts_found@[j]@,
                    decreases texts_found.len() - i,
                {
                    ids.push(SessionId(texts_found[i].clone()));
                    i += 1;
                }
                assert forall|j: int| 0 <= j < ids@.len() implies (#[trigger] ids@[j])@
                    == self@.links[link_id@][j] by {
                    assert(texts(texts_found@)[j] == texts_found@[j]@);
                }
                assert(texts(texts_found@).len() == texts_found@.len());
                Some(ids)
            },
        }
    }

    /// Whether `link_id` holds any session.
    fn has_sessions(&self, link_id: &String) -> (b: bool)
        ensures
            b == self@.links.contains_key(link_id@),
    {
        index_get(&self.links, link_id).is_some()
    }

    /// Ends the session `session_id`; the link's list is not touched.
    fn kick_session(&mut self, link_id: &LinkId, session_id: &SessionId)
        ensures
            final(self).policy() == old(self).policy(),
            final(self)@ == (LinkHubView {
                sessions: old(self)@.sessions.remove(session_id@),
                ..old(self)@
            }),
    {
        let _ = link_sessions_remove(&mut self.sessions, &session_id.0);
    }

    /// Gives `link_id` the session `session_id` on `app_id`, whose first
    /// call must present more than `last_ord`. Where the link had sessions
    /// and may hold one only, they end first.
    pub fn add_session(
        &mut self,
        app_id: &AppId,
        link_id: &LinkId,
        session_id: &SessionId,
        link_address: &str,
        last_ord: u64,
    )
        ensures
            final(self).policy() == old(self).policy(),
            final(self)@ == old(self)@.add_session(
                app_id@,
                link_id@,
                session_id@,
                link_address@,
                last_ord,
            ),
    {
        let ghost before = self@;
        let allow_multiple = self.authenticator.allow_multiple_sessions();
        match index_remove(&mut self.links, &link_id.0) {
            None => {
                let mut ids: Vec<String> = Vec::new();
                ids.push(session_id.0.clone());
                assert(texts(ids@) =~= seq![session_id@]);
                let _ = index_insert(&mut self.links, link_id.0.clone(), ids);
                proof {
                    lemma_without_none(before.sessions);
                }
            },
            Some((key, mut ids)) => {
                let ghost old_ids = texts(ids@);
                if !allow_multiple {
                    proof {
                        lemma_without_ends(before.sessions, old_ids);
                    }
                    let mut i: usize = 0;
                    while i < ids.len()
                        invariant
                            0 <= i <= ids.len(),
                            old_ids == texts(ids@),
                            self.policy() == old(self).policy(),
                            self@ == (LinkHubView {
                                links: before.links.remove(link_id@),
                                sessions: without(before.sessions, old_ids.take(i as int)),
                                ..before
                            }),
                        decreases ids.len() - i,
                    {
                        proof {
                            lemma_without_next(before.sessions, old_ids, i as int);
                            assert(old_ids[i as int] == ids@[i as int]@);
                        }
                        self.kick_session(link_id, &SessionId(ids[i].clone()));
                        i += 1;
                    }
                    ids.clear();
                } else {
                    proof {
                        lemma_without_none(before.sessions);
                    }
                }
                ids.push(session_id.0.clone());
                assert(texts(ids@) =~= ids_after_add(
                    Some(old_ids),
                    allow_multiple,
                    session_id@,
                ));
                let _ = index_insert(&mut self.links, key, ids);
            },
        }
        let link = AppLink::new(app_id, link_id, session_id, link_address);
        let session = LinkSession::new(link, last_ord);
        let _ = link_sessions_insert(&mut self.sessions, session_id.0.clone(), session);
        assert(self@.links =~= before.add_session(
            app_id@,
            link_id@,
            session_id@,
            link_address@,
            last_ord,
        ).links);
    }

    /// The link's identity in the session `session_id`; the hub is as
    /// before.
    pub fn get_session(&mut self, session_id: &String) -> (r: Result<AppLink, Status>)
        ensures
            final(self).policy() == old(self).policy(),
            r is Ok <==> old(self)@.sessions.contains_key(session_id@),
            r is Ok ==> r.unwrap()@ == old(self)@.sessions[session_id@].link,
            r is Err ==> r.unwrap_err()@ == denied(ErrorMessage::INVALID_SESSION_ID@),
            final(self)@ == old(self)@,
    {
        let ghost before = self@;
        match link_sessions_remove(&mut self.sessions, session_id) {
            None => {
                assert(self@.sessions =~= before.sessions);
                Err(Status::permission_denied(ErrorMessage::INVALID_SESSION_ID))
            },
            Some((key, session)) => {
                let link = session.link.clone();
                let _ = link_sessions_insert(&mut self.sessions, key, session);
                assert(self@.sessions =~= before.sessions);
                Ok(link)
            },
        }
    }

    /// Finds the session `session_id` and runs the ordering check on it.
    pub fn check_session_ord(&mut self, session_id: &String, ord: u64) -> (r: Result<
        AppLink,
        Status,
    >)
        ensures
            final(self).policy() == old(self).policy(),
            r is Err <==> old(self)@.session_denial(session_id@, ord) is Some,
            r is Err ==> r.unwrap_err()@ == old(self)@.session_denial(session_id@, ord).unwrap(),
            r is Ok ==> r.unwrap()@ == old(self)@.sessions[session_id@].link,
            final(self)@ == old(self)@.after_ord_check(session_id@, ord),
    {
        let ghost before = self@;
        match link_sessions_remove(&mut self.sessions, session_id) {
            None => {
                assert(self@.sessions =~= before.sessions);
                Err(Status::permission_denied(ErrorMessage::INVALID_SESSION_ID))
            },
            Some((key, mut session)) => {
                let r = LinkSession::check_ord(&mut session, ord);
                let _ = link_sessions_insert(&mut self.sessions, key, session);
                assert(self@.sessions =~= before.after_ord_check(session_id@, ord).sessions);
                r
            },
        }
    }

    /// Why the hub turns `req` away before anyone looks at the
    /// credentials, if it does.
    pub fn check_auth(&self, req: &AuthRequest) -> (denial: Option<Status>)
        ensures
            denial is Some <==> self@.auth_denial(req@) is Some,
            denial is Some ==> denial.unwrap()@ == self@.auth_denial(req@).unwrap(),
    {
        let app_id = AppId(req.app_id.clone());
        match self.get_app(&app_id) {
            Err(status) => {
                return Some(status);
            },
            Ok(_) => {},
        }
        if self.has_sessions(&req.link_id) && !self.authenticator.allow_multiple_sessions()
            && !self.authenticator.kick_old_sessions() {
            return Some(Status::permission_denied(ErrorMessage::ALREADY_AUTHENTICATED));
        }
        None
    }

    /// Hands an auth call to the application that serves `app_id`.
    fn app_auth(&mut self, app_id: &AppId, slot: u64, hint: &str, req: &AuthRequest) -> (step:
        AppStep<SessionId, LinkAuthRequest>)
        requires
            old(self)@.resolve(app_id@) is Some,
        ensures
            final(self).policy() == old(self).policy(),
            step@ == old(self)@.resolve(app_id@).unwrap().auth_step(
                slot,
                TRACE_ID@,
                LINK_ADDRESS@,
                hint@,
                req@,
            ),
            final(self)@ == old(self)@.with_resolved(
                app_id@,
                old(self)@.resolve(app_id@).unwrap().after_auth(slot, hint@),
            ),
    {
        let ghost before = self@;
        match self.apps.remove(app_id) {
            Some(mut app) => {
                let step = app.auth(slot, TRACE_ID, LINK_ADDRESS, hint, req);
                let _ = self.apps.insert(app_id.clone(), app);
                assert(self@.apps =~= before.with_resolved(
                    app_id@,
                    before.resolve(app_id@).unwrap().after_auth(slot, hint@),
                ).apps);
                step
            },
            None => {
                assert(self@.apps =~= before.apps);
                match &mut self.fallback_app {
                    Some(app) => app.auth(slot, TRACE_ID, LINK_ADDRESS, hint, req),
                    None => vstd::pervasive::unreached(),
                }
            },
        }
    }

    /// Hands a request to the application that serves the link's
    /// application id.
    fn app_handle(&mut self, link: &AppLink, slot: u64, req: &AppRequest) -> (step: AppStep<
        AppResponse,
        LinkAppRequest,
    >)
        requires
            old(self)@.resolve(link@.app_id) is Some,
        ensures
            final(self).policy() == old(self).policy(),
            step@ == old(self)@.resolve(link@.app_id).unwrap().handle_step(
                slot,
                TRACE_ID@,
                link@,
                req@,
            ),
            final(self)@ == old(self)@.with_resolved(
                link@.app_id,
                old(self)@.resolve(link@.app_id).unwrap().after_handle(slot, link@.session_id),
            ),
    {
        let ghost before = self@;
        match self.apps.remove(&link.app_id) {
            Some(mut app) => {
                let step = app.handle(slot, TRACE_ID, link, req);
                let _ = self.apps.insert(link.app_id.clone(), app);
                assert(self@.apps =~= before.with_resolved(
                    link@.app_id,
                    before.resolve(link@.app_id).unwrap().after_handle(slot, link@.session_id),
                ).apps);
                step
            },
            None => {
                assert(self@.apps =~= before.apps);
                match &mut self.fallback_app {
                    Some(app) => app.handle(slot, TRACE_ID, link, req),
                    None => vstd::pervasive::unreached(),
                }
            },
        }
    }

    /// Hands a subscription to the application that serves the link's
    /// application id.
    fn app_subscribe(&mut self, link: &AppLink, sub: &AppSubscribe) -> (r: Result<
        EventSource,
        Status,
    >)
        requires
            old(self)@.resolve(link@.app_id) is Some,
        ensures
            final(self).policy() == old(self).policy(),
            r is Err,
            r.unwrap_err()@ == under_construction_status(),
            final(self)@ == old(self)@,
    {
        let ghost before = self@;
        match self.apps.remove(&link.app_id) {
            Some(app) => {
                let r = app.subscribe(TRACE_ID, link, sub);
                let _ = self.apps.insert(link.app_id.clone(), app);
                assert(self@.apps =~= before.apps);
                r
            },
            None => {
                assert(self@.apps =~= before.apps);
                match &self.fallback_app {
                    Some(app) => app.subscribe(TRACE_ID, link, sub),
                    None => vstd::pervasive::unreached(),
                }
            },
        }
    }

    /// The auth call of a link, once the authenticator has given its
    /// verdict. A request that is turned away, or a verdict against the
    /// link, ends the call and changes nothing. Else the application is
    /// asked under the session that the verdict proposes: the echo lets
    /// the link in, and the session is added; a relay takes `slot` and
    /// hands back the message for its sink, to be followed by
    /// `auth_reply`.
    pub fn auth_with_verdict(
        &mut self,
        req: &AuthRequest,
        slot: u64,
        verdict: Result<SessionId, Status>,
    ) -> (step: AppStep<AuthResponse, LinkAuthRequest>)
        ensures
            final(self).policy() == old(self).policy(),
            step@ == old(self)@.auth_step(req@, slot, result_view(verdict)),
            final(self)@ == old(self)@.after_auth(req@, slot, result_view(verdict)),
    {
        let ghost before = self@;
        if let Some(status) = self.check_auth(req) {
            return AppStep::Done(Err(status));
        }
        let hint = match verdict {
            Ok(hint) => hint,
            Err(status) => {
                return AppStep::Done(Err(status));
            },
        };
        let app_id = AppId(req.app_id.clone());
        match self.app_auth(&app_id, slot, hint.0.as_str(), req) {
            AppStep::Done(Ok(session_id)) => {
                proof {
                    assert(self@.apps =~= before.apps);
                    assert(self@ == before);
                }
                let link_id = LinkId(req.link_id.clone());
                self.add_session(&app_id, &link_id, &session_id, LINK_ADDRESS, req.ord);
                AppStep::Done(Ok(AuthResponse::new(req, &session_id)))
            },
            AppStep::Done(Err(status)) => {
                proof {
                    assert(self@.apps =~= before.apps);
                    assert(self@ == before);
                }
                AppStep::Done(Err(status))
            },
            AppStep::Relay(call) => AppStep::Relay(call),
        }
    }

    /// The auth call of a link. A request that the hub turns away ends at
    /// once. Else the authenticator gives its verdict, one that it may give
    /// to this request, and the call goes on as `auth_with_verdict` says
    /// for that verdict.
    pub fn auth(&mut self, req: &AuthRequest, slot: u64) -> (step: AppStep<
        AuthResponse,
        LinkAuthRequest,
    >)
        ensures
            final(self).policy() == old(self).policy(),
            old(self)@.auth_denial(req@) is Some ==> {
                &&& step@ == AppStepView::<AuthResponseView, LinkAuthRequestView>::Done(
                    Err(old(self)@.auth_denial(req@).unwrap()),
                )
                &&& final(self)@ == old(self)@
            },
            old(self)@.auth_denial(req@) is None ==> exists|verdict: Result<Seq<char>, StatusView>|
                {
                    &&& old(self).policy().may_answer(req@, verdict)
                    &&& step@ == old(self)@.auth_step(req@, slot, verdict)
                    &&& final(self)@ == old(self)@.after_auth(req@, slot, verdict)
                },
    {
        if let Some(status) = self.check_auth(req) {
            return AppStep::Done(Err(status));
        }
        let verdict = self.authenticator.auth(req);
        let ghost verdict_view = result_view(verdict);
        let step = self.auth_with_verdict(req, slot, verdict);
        proof {
            assert(old(self).policy().may_answer(req@, verdict_view) && step@ == old(
                self,
            )@.auth_step(req@, slot, verdict_view) && self@ == old(self)@.after_auth(
                req@,
                slot,
                verdict_view,
            ));
        }
        step
    }

    /// The end of a relayed auth call. Where the sink confirmed a session,
    /// the session is added and the link gets its answer; where the sink
    /// refused, the link gets the sink's code, message and details; where
    /// the relay broke, an internal failure.
    pub fn auth_reply(&mut self, req: &AuthRequest, reply: RelayReply<AuthReply>) -> (r: Result<
        AuthResponse,
        Status,
    >)
        ensures
            final(self).policy() == old(self).policy(),
            result_view(r) == old(self)@.auth_reply(req@, reply@),
            final(self)@ == old(self)@.after_auth_reply(req@, reply@),
    {
        match SinkApp::auth_reply(reply) {
            Ok(session_id) => {
                let app_id = AppId(req.app_id.clone());
                let link_id = LinkId(req.link_id.clone());
                self.add_session(&app_id, &link_id, &session_id, LINK_ADDRESS, req.ord);
                Ok(AuthResponse::new(req, &session_id))
            },
            Err(status) => Err(status),
        }
    }

    /// A request of a link. An unknown session or a stale sequence number
    /// ends the call and changes nothing. Else the number is recorded and
    /// the application of the session is asked: the echo answers at once; a
    /// relay takes `slot` and hands back the message for its sink, to be
    /// followed by `handle_reply`.
    pub fn handle(&mut self, req: &AppRequest, slot: u64) -> (step: AppStep<
        AppResponse,
        LinkAppRequest,
    >)
        ensures
            final(self).policy() == old(self).policy(),
            step@ == old(self)@.handle_step(req@, slot),
            final(self)@ == old(self)@.after_handle(req@, slot),
    {
        let link = match self.check_session_ord(&req.session_id, req.ord) {
            Ok(link) => link,
            Err(status) => {
                return AppStep::Done(Err(status));
            },
        };
        match self.get_app(&link.app_id) {
            Err(status) => AppStep::Done(Err(status)),
            Ok(_) => self.app_handle(&link, slot, req),
        }
    }

    /// The end of a relayed request: the sink's answer, the sink's own
    /// failure with its code, message and details, or an internal failure
    /// where the relay broke.
    pub fn handle_reply(&self, reply: RelayReply<crate::proto::HandleReply>) -> (r: Result<
        AppResponse,
        Status,
    >)
        ensures
            result_view(r) == crate::sink_app::handle_outcome(reply@),
    {
        SinkApp::handle_reply(reply)
    }

    /// A subscription of a link. After the same checks as for a request
    /// the application is asked, and no application serves subscriptions
    /// yet: the call always fails, with the first reason that applies.
    pub fn subscribe(&mut self, sub: &AppSubscribe) -> (r: Result<EventSource, Status>)
        ensures
            final(self).policy() == old(self).policy(),
            r is Err,
            r.unwrap_err()@ == old(self)@.subscribe_status(sub.session_id@, sub.ord),
            final(self)@ == old(self)@.after_ord_check(sub.session_id@, sub.ord),
    {
        let link = match self.check_session_ord(&sub.session_id, sub.ord) {
            Ok(link) => link,
            Err(status) => {
                return Err(status);
            },
        };
        match self.get_app(&link.app_id) {
            Err(status) => Err(status),
            Ok(_) => self.app_subscribe(&link, sub),
        }
    }
}

/// What happened in the task that carries events to a subscribed link.
#[derive(Debug)]
pub enum ForwardEvent {
    /// The source gave an event.
    Received(AppEvent),
    /// The source is closed or failed.
    SourceClosed,
    /// The last event went out to the link.
    Sent,
    /// The link is gone.
    SendFailed,
}

/// What the task does next.
#[derive(Debug)]
pub enum ForwardAction {
    /// Wait for the next event of the source.
    Receive,
    /// Send this event to the link.
    Send(AppEvent),
    /// End.
    Stop,
}

/// The next move of the task that carries events to a subscribed link:
/// each event goes out as it came, and the task ends as soon as either
/// side is gone.
pub fn forward_event(event: ForwardEvent) -> (action: ForwardAction)
    ensures
        action == (match event {
            ForwardEvent::Received(e) => ForwardAction::Send(e),
            ForwardEvent::SourceClosed => ForwardAction::Stop,
            ForwardEvent::Sent => ForwardAction::Receive,
            ForwardEvent::SendFailed => ForwardAction::Stop,
        }),
{
    match event {
        ForwardEvent::Received(e) => ForwardAction::Send(e),
        ForwardEvent::SourceClosed => ForwardAction::Stop,
        ForwardEvent::Sent => ForwardAction::Receive,
        ForwardEvent::SendFailed => ForwardAction::Stop,
    }
}

/// Single-session eviction. Where a link may hold one session only and
/// gets two sessions with different ids one after the other, the first is
/// gone once the second is there: the store does not hold it, the link's
/// list names the second alone, and a request on the first is turned away
/// as on an unknown session and changes nothing.
pub proof fn lemma_single_session_eviction(
    hub: LinkHubView,
    link_id: Seq<char>,
    first: (Seq<char>, Seq<char>, Seq<char>, u64),
    second: (Seq<char>, Seq<char>, Seq<char>, u64),
    req: AppRequestView,
    slot: u64,
)
    requires
        !hub.allow_multiple,
        first.1 != second.1,
        req.session_id == first.1,
    ensures
        ({
            let one = hub.add_session(first.0, link_id, first.1, first.2, first.3);
            let two = one.add_session(second.0, link_id, second.1, second.2, second.3);
            &&& one.sessions.contains_key(first.1)
            &&& !two.sessions.contains_key(first.1)
            &&& two.sessions.contains_key(second.1)
            &&& two.links[link_id] == seq![second.1]
            &&& two.handle_step(req, slot) == AppStepView::<
                AppResponseView,
                LinkAppRequestView,
            >::Done(Err(denied(ErrorMessage::INVALID_SESSION_ID@)))
            &&& two.after_handle(req, slot) == two
        }),
{
    let one = hub.add_session(first.0, link_id, first.1, first.2, first.3);
    assert(one.links[link_id] == seq![first.1]);
    assert(seq![first.1][0] == first.1);
    assert(seq![first.1].to_set().contains(first.1));
}

/// Two auth calls of one link that both end with a session, on a hub where
/// a link may hold one session only: if the two session ids differ, the
/// first session is gone after the second call.
pub proof fn lemma_second_auth_evicts_first(
    hub: LinkHubView,
    first: (AuthRequestView, u64, Result<Seq<char>, StatusView>),
    second: (AuthRequestView, u64, Result<Seq<char>, StatusView>),
)
    requires
        !hub.allow_multiple,
        first.0.link_id == second.0.link_id,
        hub.auth_step(first.0, first.1, first.2) is Done,
        hub.auth_step(first.0, first.1, first.2)->Done_0 is Ok,
        hub.after_auth(first.0, first.1, first.2).auth_step(second.0, second.1, second.2) is Done,
        hub.after_auth(first.0, first.1, first.2).auth_step(second.0, second.1, second.2)->Done_0
            is Ok,
        hub.auth_step(first.0, first.1, first.2)->Done_0->Ok_0.session_id != hub.after_auth(
            first.0,
            first.1,
            first.2,
        ).auth_step(second.0, second.1, second.2)->Done_0->Ok_0.session_id,
    ensures
        ({
            let one = hub.after_auth(first.0, first.1, first.2);
            let two = one.after_auth(second.0, second.1, second.2);
            let id_one = hub.auth_step(first.0, first.1, first.2)->Done_0->Ok_0.session_id;
            let id_two = one.auth_step(second.0, second.1, second.2)->Done_0->Ok_0.session_id;
            &&& one.sessions.contains_key(id_one)
            &&& !two.sessions.contains_key(id_one)
            &&& two.sessions.contains_key(id_two)
        }),
{
    let one = hub.after_auth(first.0, first.1, first.2);
    let id_one = hub.auth_step(first.0, first.1, first.2)->Done_0->Ok_0.session_id;
    let id_two = one.auth_step(second.0, second.1, second.2)->Done_0->Ok_0.session_id;
    assert(one == hub.add_session(
        first.0.app_id,
        first.0.link_id,
        id_one,
        LINK_ADDRESS@,
        first.0.ord,
    ));
    assert(one.allow_multiple == hub.allow_multiple);
    let req = AppRequestView { ord: 0, session_id: id_one, kind: 0, data: None };
    lemma_single_session_eviction(
        hub,
        first.0.link_id,
        (first.0.app_id, id_one, LINK_ADDRESS@, first.0.ord),
        (second.0.app_id, id_two, LINK_ADDRESS@, second.0.ord),
        req,
        0,
    );
}

/// Multi-session retention. Where a link may hold several sessions and
/// gets two one after the other, both are in the store afterwards, and
/// the link's list ends with the two, in the order in which they came.
pub proof fn lemma_multi_session_retention(
    hub: LinkHubView,
    link_id: Seq<char>,
    first: (Seq<char>, Seq<char>, Seq<char>, u64),
    second: (Seq<char>, Seq<char>, Seq<char>, u64),
)
    requires
        hub.allow_multiple,
    ensures
        ({
            let one = hub.add_session(first.0, link_id, first.1, first.2, first.3);
            let two = one.add_session(second.0, link_id, second.1, second.2, second.3);
            let held = match ids_of(hub.links, link_id) {
                Some(ids) => ids,
                None => Seq::empty(),
            };
            &&& two.sessions.contains_key(first.1)
            &&& two.sessions.contains_key(second.1)
            &&& two.links[link_id] == held.push(first.1).push(second.1)
            &&& forall|id: Seq<char>| hub.sessions.contains_key(id) ==> two.sessions.contains_key(id)
        }),
{
    let one = hub.add_session(first.0, link_id, first.1, first.2, first.3);
    let two = one.add_session(second.0, link_id, second.1, second.2, second.3);
    lemma_without_none(hub.sessions);
    lemma_without_none(one.sessions);
    let held = match ids_of(hub.links, link_id) {
        Some(ids) => ids,
        None => Seq::empty(),
    };
    assert(one.links[link_id] =~= held.push(first.1));
}

/// The index stays live. On a hub where every id in a link's list names a
/// live session of that link, a new session under an id that the store
/// does not hold yet leaves it so.
pub proof fn lemma_add_session_keeps_index_live(
    hub: LinkHubView,
    app_id: Seq<char>,
    link_id: Seq<char>,
    session_id: Seq<char>,
    link_address: Seq<char>,
    last_ord: u64,
)
    requires
        hub.index_is_live(),
        !hub.sessions.contains_key(session_id),
    ensures
        hub.add_session(app_id, link_id, session_id, link_address, last_ord).index_is_live(),
{
    let after = hub.add_session(app_id, link_id, session_id, link_address, last_ord);
    let existing = ids_of(hub.links, link_id);
    let evicted = evicted_by_add(existing, hub.allow_multiple);
    assert forall|l: Seq<char>, i: int|
        #![trigger after.links[l][i]]
        after.links.contains_key(l) && 0 <= i < after.links[l].len() implies {
        &&& after.sessions.contains_key(after.links[l][i])
        &&& after.sessions[after.links[l][i]].link.link_id == l
    } by {
        let id = after.links[l][i];
        if l == link_id {
            if existing is Some && hub.allow_multiple {
                if i < existing.unwrap().len() {
                    assert(id == hub.links[l][i]);
                    lemma_without_none(hub.sessions);
                }
            }
        } else {
            assert(id == hub.links[l][i]);
            assert(hub.sessions.contains_key(id));
            if evicted.contains(id) {
                let j = choose|j: int| 0 <= j < evicted.len() && evicted[j] == id;
                assert(hub.links[link_id][j] == id);
            }
        }
    }
}

/// Sessions stay under their own ids: a new session and the ordering check
/// leave a store in which every session stands under its own id so.
pub proof fn lemma_sessions_stay_keyed(
    hub: LinkHubView,
    app_id: Seq<char>,
    link_id: Seq<char>,
    session_id: Seq<char>,
    link_address: Seq<char>,
    ord: u64,
)
    requires
        hub.sessions_are_keyed(),
    ensures
        hub.add_session(app_id, link_id, session_id, link_address, ord).sessions_are_keyed(),
        hub.after_ord_check(session_id, ord).sessions_are_keyed(),
{
}

/// A hub that was just made holds no session: its index is live and its
/// sessions are keyed, whatever it was made with.
pub proof fn lemma_empty_hub_is_sound(hub: LinkHubView)
    requires
        hub.links == Map::<Seq<char>, Seq<Seq<char>>>::empty(),
        hub.sessions == Map::<Seq<char>, LinkSessionView>::empty(),
    ensures
        hub.index_is_live(),
        hub.sessions_are_keyed(),
{
}

/// Fallback routing. A request on a session whose application id is not
/// registered is served by the fallback application where there is one,
/// and is turned away as on an unknown application where there is none.
pub proof fn lemma_fallback_routing(hub: LinkHubView, req: AppRequestView, slot: u64)
    requires
        hub.session_denial(req.session_id, req.ord) is None,
        !hub.apps.contains_key(hub.sessions[req.session_id].link.app_id),
    ensures
        hub.fallback_app is Some ==> hub.handle_step(req, slot)
            == hub.fallback_app.unwrap().handle_step(
            slot,
            TRACE_ID@,
            hub.sessions[req.session_id].link,
            req,
        ),
        hub.fallback_app is None ==> hub.handle_step(req, slot) == AppStepView::<
            AppResponseView,
            LinkAppRequestView,
        >::Done(Err(denied(ErrorMessage::INVALID_APP_ID@))),
{
}

/// Fallback routing of auth calls: an auth request for an application id
/// that is not registered reaches the fallback where there is one, and is
/// turned away as for an unknown application where there is none.
pub proof fn lemma_fallback_routing_of_auth(
    hub: LinkHubView,
    req: AuthRequestView,
    slot: u64,
    hint: Seq<char>,
)
    requires
        !hub.apps.contains_key(req.app_id),
        hub.allow_multiple || hub.kick_old || !hub.links.contains_key(req.link_id),
    ensures
        hub.fallback_app == Some(HubAppView::Dummy) ==> hub.auth_step(req, slot, Ok(hint))
            == AppStepView::<AuthResponseView, LinkAuthRequestView>::Done(
            Ok(auth_response(req, hint)),
        ),
        hub.fallback_app is None ==> hub.auth_step(req, slot, Ok(hint)) == AppStepView::<
            AuthResponseView,
            LinkAuthRequestView,
        >::Done(Err(denied(ErrorMessage::INVALID_APP_ID@))),
{
}

/// Correlation of a relayed auth call. On a hub that does not turn the
/// request away and whose application for it is a relay with a sink
/// bound, the call produces one message for that sink's channel, which
/// carries the link's request whole and the proposed session; and the
/// caller's slot then waits in the relay under that session. When the
/// sink's answer comes back, a grant gives the link the session that the
/// sink confirmed, and a refusal gives it the sink's code, message and
/// details.
pub proof fn lemma_auth_round_trip(
    hub: LinkHubView,
    req: AuthRequestView,
    slot: u64,
    hint: Seq<char>,
    granted: crate::proto::AuthResponseView,
    refused: crate::proto::SinkErrorView,
)
    requires
        hub.auth_denial(req) is None,
        hub.resolve(req.app_id).unwrap() is Sink,
        hub.resolve(req.app_id).unwrap()->Sink_0.auth_sender is Some,
    ensures
        ({
            let relay = hub.resolve(req.app_id).unwrap()->Sink_0;
            let step = hub.auth_step(req, slot, Ok(hint));
            let after = hub.after_auth(req, slot, Ok(hint));
            &&& step is Relay
            &&& step->Relay_0.sender == relay.auth_sender.unwrap()
            &&& step->Relay_0.message.req == Some(req)
            &&& step->Relay_0.message.link_session == hint
            &&& after.resolve(req.app_id).unwrap() is Sink
            &&& after.resolve(req.app_id).unwrap()->Sink_0.auth_pending.contains_key(hint)
            &&& after.resolve(req.app_id).unwrap()->Sink_0.auth_pending[hint] == slot
            &&& after.sessions == hub.sessions
            &&& after.auth_reply(req, RelayReplyView::Delivered(AuthReplyView::Granted(granted)))
                == Ok::<AuthResponseView, StatusView>(auth_response(req, granted.session_id))
            &&& after.after_auth_reply(
                req,
                RelayReplyView::Delivered(AuthReplyView::Granted(granted)),
            ).sessions.contains_key(granted.session_id)
            &&& after.auth_reply(req, RelayReplyView::Delivered(AuthReplyView::Failed(refused)))
                == Err::<AuthResponseView, StatusView>(
                StatusView {
                    code: crate::status::Code::of_number(refused.code as int),
                    message: refused.message,
                    details: refused.details,
                },
            )
            &&& after.after_auth_reply(
                req,
                RelayReplyView::Delivered(AuthReplyView::Failed(refused)),
            ) == after
        }),
{
}

/// Orphaned correlation. A request whose application is a relay with no
/// sink bound fails at once with an internal status; no slot is recorded,
/// so nothing is left to wait for a sender that is not there.
pub proof fn lemma_unbound_relay_fails_at_once(hub: LinkHubView, req: AppRequestView, slot: u64)
    requires
        hub.session_denial(req.session_id, req.ord) is None,
        hub.resolve(hub.sessions[req.session_id].link.app_id) is Some,
        hub.resolve(hub.sessions[req.session_id].link.app_id).unwrap() is Sink,
        hub.resolve(hub.sessions[req.session_id].link.app_id).unwrap()->Sink_0.handle_sender
            is None,
    ensures
        hub.handle_step(req, slot) == AppStepView::<AppResponseView, LinkAppRequestView>::Done(
            Err(crate::sink_app::not_bound_status()),
        ),
        crate::sink_app::not_bound_status().code == crate::status::Code::Internal,
        hub.after_handle(req, slot) == hub.after_ord_check(req.session_id, req.ord),
{
    let link = hub.sessions[req.session_id].link;
    let checked = hub.after_ord_check(req.session_id, req.ord);
    let app = hub.resolve(link.app_id).unwrap();
    assert(app.after_handle(slot, link.session_id) == app);
    assert(checked.with_resolved(link.app_id, app).apps =~= checked.apps);
}

} // verus!
