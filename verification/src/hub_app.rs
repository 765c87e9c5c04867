//! Applications: the identity under which a link uses one, the two kinds
//! that the hub knows, and the registry that finds one by its id.

use crate::hub_session::{AppId, LinkId, SessionId};
use crate::proto::{
    clone_payload, AppRequest, AppResponse, AppResponseView, AppSubscribe, AuthRequest,
    LinkAppRequest, LinkAppRequestView, LinkAuthRequest, LinkAuthRequestView, TRACE_ID,
};
use crate::relay::{AppStep, AppStepView, RelayCallView};
use crate::sink_app::{
    lookup, not_bound_status, under_construction_status, EventSource, SinkApp, SinkAppView,
};
use crate::error::ErrorMessage;
use crate::status::Status;
use crate::tables::{app_entries, apps_contains, apps_insert, apps_new, apps_remove};
use dashmap::DashMap;
use vstd::prelude::*;
use vstd::string::StringExecFns;

verus! {

/// One link's session with one application, and the address that the link
/// called from.
#[derive(Debug, PartialEq, Eq, Hash)]
pub struct AppLink {
    pub app_id: AppId,
    pub link_id: LinkId,
    pub session_id: SessionId,
    pub link_address: String,
}

/// `AppLink` as contracts see it.
pub ghost struct AppLinkView {
    pub app_id: Seq<char>,
    pub link_id: Seq<char>,
    pub session_id: Seq<char>,
    pub link_address: Seq<char>,
}

impl View for AppLink {
    type V = AppLinkView;

    open spec fn view(&self) -> AppLinkView {
        AppLinkView {
            app_id: self.app_id@,
            link_id: self.link_id@,
            session_id: self.session_id@,
            link_address: self.link_address@,
        }
    }
}

impl Clone for AppLink {
    fn clone(&self) -> (r: Self)
        ensures
            r@ == self@,
    {
        AppLink {
            app_id: self.app_id.clone(),
            link_id: self.link_id.clone(),
            session_id: self.session_id.clone(),
            link_address: self.link_address.clone(),
        }
    }
}

impl AppLink {
    /// The identity of `link_id` in the session `session_id` on `app_id`.
    pub fn new(app_id: &AppId, link_id: &LinkId, session_id: &SessionId, link_address: &str) -> (r:
        Self)
        ensures
            r@ == (AppLinkView {
                app_id: app_id@,
                link_id: link_id@,
                session_id: session_id@,
                link_address: link_address@,
            }),
    {
        AppLink {
            app_id: app_id.clone(),
            link_id: link_id.clone(),
            session_id: session_id.clone(),
            link_address: link_address.to_owned(),
        }
    }

    /// The four parts, joined by hyphens.
    pub fn describe(&self) -> (s: String)
        ensures
            s@ == self.app_id@ + seq!['-'] + self.link_id@ + seq!['-'] + self.session_id@ + seq![
                '-',
            ] + self.link_address@,
    {
        proof {
            reveal_strlit("-");
            assert("-"@ =~= seq!['-']);
        }
        let mut s = self.app_id.0.clone();
        s = s.concat("-");
        s = s.concat(self.link_id.0.as_str());
        s = s.concat("-");
        s = s.concat(self.session_id.0.as_str());
        s = s.concat("-");
        s = s.concat(self.link_address.as_str());
        s
    }
}

/// The application that answers every request with the request's own
/// payload, and lets every link in under the session it came with.
#[derive(Debug)]
pub struct DummyApp {}

impl DummyApp {
    /// Answers `req` with its own payload.
    pub fn handle(&self, trace_id: &str, link: &AppLink, req: &AppRequest) -> (r: Result<
        AppResponse,
        Status,
    >)
        ensures
            r is Ok,
            r.unwrap()@ == echo_response(req@),
    {
        let data = clone_payload(&req.data);
        Ok(AppResponse::new(req, data))
    }

    /// A subscription to the echo application: nothing serves one yet.
    pub fn subscribe(&self, trace_id: &str, link: &AppLink, sub: &AppSubscribe) -> (r: Result<
        EventSource,
        Status,
    >)
        ensures
            r is Err,
            r.unwrap_err()@ == under_construction_status(),
    {
        Err(Status::unimplemented(ErrorMessage::UNDER_CONSTRUCTION))
    }

    /// Lets the link in under the session that the hub proposes.
    pub fn auth(&self, trace_id: &str, link_address: &str, link_session: &str, req: &AuthRequest)
        -> (r: Result<SessionId, Status>)
        ensures
            r is Ok,
            r.unwrap()@ == link_session@,
    {
        Ok(SessionId(link_session.to_owned()))
    }
}

/// The echo application's answer to a request.
pub open spec fn echo_response(req: crate::proto::AppRequestView) -> AppResponseView {
    AppResponseView {
        ord: req.ord,
        session_id: req.session_id,
        trace_id: TRACE_ID@,
        kind: req.kind,
        data: req.data,
    }
}

/// An application of the hub: the local echo, or a relay to a sink.
#[derive(Debug)]
pub enum HubApp {
    Dummy(DummyApp),
    Sink(SinkApp),
}

/// `HubApp` as contracts see it.
pub ghost enum HubAppView {
    Dummy,
    Sink(SinkAppView),
}

impl View for HubApp {
    type V = HubAppView;

    open spec fn view(&self) -> HubAppView {
        match self {
            HubApp::Dummy(_) => HubAppView::Dummy,
            HubApp::Sink(app) => HubAppView::Sink(app@),
        }
    }
}

impl HubAppView {
    /// The application after an auth call that brought `slot` and proposes
    /// `link_session`.
    pub open spec fn after_auth(self, slot: u64, link_session: Seq<char>) -> HubAppView {
        match self {
            HubAppView::Sink(app) if app.auth_sender is Some => HubAppView::Sink(
                SinkAppView { auth_pending: app.auth_pending.insert(link_session, slot), ..app },
            ),
            _ => self,
        }
    }

    /// What the application decides on an auth call.
    pub open spec fn auth_step(
        self,
        slot: u64,
        trace_id: Seq<char>,
        link_address: Seq<char>,
        link_session: Seq<char>,
        req: crate::proto::AuthRequestView,
    ) -> AppStepView<Seq<char>, LinkAuthRequestView> {
        match self {
            HubAppView::Dummy => AppStepView::Done(Ok(link_session)),
            HubAppView::Sink(app) => match app.auth_sender {
                None => AppStepView::Done(Err(not_bound_status())),
                Some(sender) => AppStepView::Relay(
                    RelayCallView {
                        sender,
                        message: LinkAuthRequestView {
                            trace_id,
                            link_address,
                            link_session,
                            req: Some(req),
                        },
                        displaced: lookup(app.auth_pending, link_session),
                    },
                ),
            },
        }
    }

    /// The application after a request of the session `session_id` that
    /// brought `slot`.
    pub open spec fn after_handle(self, slot: u64, session_id: Seq<char>) -> HubAppView {
        match self {
            HubAppView::Sink(app) if app.handle_sender is Some => HubAppView::Sink(
                SinkAppView { handle_pending: app.handle_pending.insert(session_id, slot), ..app },
            ),
            _ => self,
        }
    }

    /// What the application decides on a request.
    pub open spec fn handle_step(
        self,
        slot: u64,
        trace_id: Seq<char>,
        link: AppLinkView,
        req: crate::proto::AppRequestView,
    ) -> AppStepView<AppResponseView, LinkAppRequestView> {
        match self {
            HubAppView::Dummy => AppStepView::Done(Ok(echo_response(req))),
            HubAppView::Sink(app) => match app.handle_sender {
                None => AppStepView::Done(Err(not_bound_status())),
                Some(sender) => AppStepView::Relay(
                    RelayCallView {
                        sender,
                        message: LinkAppRequestView {
                            trace_id,
                            link_address: link.link_address,
                            req: Some(req),
                        },
                        displaced: lookup(app.handle_pending, link.session_id),
                    },
                ),
            },
        }
    }
}

impl HubApp {
    /// An auth call to this application. The echo lets the link in at once
    /// under the proposed session. A relay with a sink bound records `slot`
    /// and hands the message for the sink back; with none bound it fails.
    pub fn auth(
        &mut self,
        slot: u64,
        trace_id: &str,
        link_address: &str,
        link_session: &str,
        req: &AuthRequest,
    ) -> (step: AppStep<SessionId, LinkAuthRequest>)
        ensures
            step@ == old(self)@.auth_step(slot, trace_id@, link_address@, link_session@, req@),
            final(self)@ == old(self)@.after_auth(slot, link_session@),
    {
        match self {
            HubApp::Dummy(app) => AppStep::Done(
                app.auth(trace_id, link_address, link_session, req),
            ),
            HubApp::Sink(app) => {
                match app.auth(slot, trace_id, link_address, link_session, req) {
                    Ok(call) => AppStep::Relay(call),
                    Err(status) => AppStep::Done(Err(status)),
                }
            },
        }
    }

    /// A request of `link` to this application. The echo answers at once.
    /// A relay with a sink bound records `slot` and hands the message for
    /// the sink back; with none bound it fails.
    pub fn handle(&mut self, slot: u64, trace_id: &str, link: &AppLink, req: &AppRequest) -> (step:
        AppStep<AppResponse, LinkAppRequest>)
        ensures
            step@ == old(self)@.handle_step(slot, trace_id@, link@, req@),
            final(self)@ == old(self)@.after_handle(slot, link@.session_id),
    {
        match self {
            HubApp::Dummy(app) => AppStep::Done(app.handle(trace_id, link, req)),
            HubApp::Sink(app) => {
                match app.handle(slot, trace_id, link, req) {
                    Ok(call) => AppStep::Relay(call),
                    Err(status) => AppStep::Done(Err(status)),
                }
            },
        }
    }

    /// A subscription of `link`: no application serves one yet.
    pub fn subscribe(&self, trace_id: &str, link: &AppLink, sub: &AppSubscribe) -> (r: Result<
        EventSource,
        Status,
    >)
        ensures
            r is Err,
            r.unwrap_err()@ == under_construction_status(),
    {
        match self {
            HubApp::Dummy(app) => app.subscribe(trace_id, link, sub),
            HubApp::Sink(app) => app.subscribe(trace_id, link, sub),
        }
    }
}

/// The registry: at most one application under each id.
#[derive(Debug)]
pub struct AppRegistry {
    apps: DashMap<String, HubApp>,
}

impl View for AppRegistry {
    type V = Map<Seq<char>, HubAppView>;

    closed spec fn view(&self) -> Map<Seq<char>, HubAppView> {
        app_entries(self.apps)
    }
}

impl AppRegistry {
    /// A registry that holds nothing.
    pub fn new() -> (r: Self)
        ensures
            r@ == Map::<Seq<char>, HubAppView>::empty(),
    {
        let r = AppRegistry { apps: apps_new() };
        assert(r@ =~= Map::<Seq<char>, HubAppView>::empty());
        r
    }

    /// Whether an application stands under `app_id`.
    pub fn contains(&self, app_id: &AppId) -> (b: bool)
        ensures
            b == self@.contains_key(app_id@),
    {
        apps_contains(&self.apps, &app_id.0)
    }

    /// Puts `app` under `app_id`, in place of what stood there, which
    /// comes back.
    pub fn insert(&mut self, app_id: AppId, app: HubApp) -> (displaced: Option<HubApp>)
        ensures
            final(self)@ == old(self)@.insert(app_id@, app@),
            displaced is Some <==> old(self)@.contains_key(app_id@),
            displaced is Some ==> displaced.unwrap()@ == old(self)@[app_id@],
    {
        apps_insert(&mut self.apps, app_id.0, app)
    }

    /// Takes out what stands under `app_id`.
    pub fn remove(&mut self, app_id: &AppId) -> (taken: Option<HubApp>)
        ensures
            final(self)@ == old(self)@.remove(app_id@),
            taken is Some <==> old(self)@.contains_key(app_id@),
            taken is Some ==> taken.unwrap()@ == old(self)@[app_id@],
    {
        match apps_remove(&mut self.apps, &app_id.0) {
            Some((_, app)) => Some(app),
            None => None,
        }
    }
}

} // verus!
