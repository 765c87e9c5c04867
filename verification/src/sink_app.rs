//! The relay application: the bridge between a link's call and the stream
//! of the sink that serves the application.
//!
//! It holds, for auth calls and for requests apart, the channel of the sink
//! that bound itself last, and a table from session id to the reply slot
//! that waits for that session's answer.

use crate::error::ErrorMessage;
use crate::hub_app::{AppLink, HubApp};
use crate::hub_session::{AppId, SessionId};
use crate::proto::{
    AppRequest, AppResponse, AppSubscribe, AuthReply, AuthReplyView, AuthRequest, HandleReply,
    HandleReplyView, LinkAppRequest, LinkAppRequestView, LinkAuthRequest, LinkAuthRequestView,
    SinkErrorView,
};
use crate::relay::{result_view, RelayCall, RelayCallView, RelayReply, RelayReplyView};
use crate::status::{Code, Status, StatusView};
use crate::tables::{slot_entries, slots_insert, slots_new, slots_remove};
use dashmap::DashMap;
use vstd::prelude::*;

verus! {

/// The message of the failure that a call meets when no sink is bound.
pub const NOT_BOUND: &'static str = "TODO";

/// The state of a relay application.
#[derive(Debug)]
pub struct SinkApp {
    pub app_id: AppId,
    pub kinds: Vec<i32>,
    auth_request_sender: Option<u64>,
    auth_notifiers: DashMap<String, u64>,
    handle_request_sender: Option<u64>,
    handle_notifiers: DashMap<String, u64>,
}

/// A relay application as contracts see it.
pub ghost struct SinkAppView {
    pub app_id: Seq<char>,
    pub kinds: Seq<i32>,
    /// The channel to the sink's auth stream, once one is bound.
    pub auth_sender: Option<u64>,
    /// The reply slots of the auth calls that wait, by session id.
    pub auth_pending: Map<Seq<char>, u64>,
    /// The channel to the sink's handle stream, once one is bound.
    pub handle_sender: Option<u64>,
    /// The reply slots of the requests that wait, by session id.
    pub handle_pending: Map<Seq<char>, u64>,
}

impl View for SinkApp {
    type V = SinkAppView;

    closed spec fn view(&self) -> SinkAppView {
        SinkAppView {
            app_id: self.app_id@,
            kinds: self.kinds@,
            auth_sender: self.auth_request_sender,
            auth_pending: slot_entries(self.auth_notifiers),
            handle_sender: self.handle_request_sender,
            handle_pending: slot_entries(self.handle_notifiers),
        }
    }
}

/// The two kinds of call that a relay carries, each over a stream of its
/// own.
#[derive(Clone, Copy, Debug, PartialEq, Eq, Structural)]
pub enum RelayKind {
    Auth,
    Handle,
}

impl SinkAppView {
    /// The channel that is bound for calls of `kind`.
    pub open spec fn sender(self, kind: RelayKind) -> Option<u64> {
        match kind {
            RelayKind::Auth => self.auth_sender,
            RelayKind::Handle => self.handle_sender,
        }
    }

    /// The reply slots that wait for answers of `kind`.
    pub open spec fn pending(self, kind: RelayKind) -> Map<Seq<char>, u64> {
        match kind {
            RelayKind::Auth => self.auth_pending,
            RelayKind::Handle => self.handle_pending,
        }
    }

    /// The application with `sender` bound for calls of `kind`.
    pub open spec fn bound(self, kind: RelayKind, sender: u64) -> SinkAppView {
        match kind {
            RelayKind::Auth => SinkAppView { auth_sender: Some(sender), ..self },
            RelayKind::Handle => SinkAppView { handle_sender: Some(sender), ..self },
        }
    }

    /// The application once the answer of `kind` for `session` is in: no
    /// slot waits for it any more.
    pub open spec fn answered(self, kind: RelayKind, session: Seq<char>) -> SinkAppView {
        match kind {
            RelayKind::Auth => SinkAppView {
                auth_pending: self.auth_pending.remove(session),
                ..self
            },
            RelayKind::Handle => SinkAppView {
                handle_pending: self.handle_pending.remove(session),
                ..self
            },
        }
    }
}

/// A relay application to which no sink is bound and on which nothing
/// waits.
pub open spec fn unbound_relay(app_id: Seq<char>, kinds: Seq<i32>) -> SinkAppView {
    SinkAppView {
        app_id,
        kinds,
        auth_sender: None,
        auth_pending: Map::empty(),
        handle_sender: None,
        handle_pending: Map::empty(),
    }
}

/// The status of a call for which no sink is bound.
pub open spec fn not_bound_status() -> StatusView {
    StatusView { code: Code::Internal, message: NOT_BOUND@, details: None }
}

/// The status of a subscription: nothing serves one yet.
pub open spec fn under_construction_status() -> StatusView {
    StatusView {
        code: Code::Unimplemented,
        message: ErrorMessage::UNDER_CONSTRUCTION@,
        details: None,
    }
}

/// The status that carries a sink's own failure to the link: the sink's
/// code, read as a code, and the sink's message and details, untouched.
pub open spec fn sink_failure_status(err: SinkErrorView) -> StatusView {
    StatusView {
        code: Code::of_number(err.code as int),
        message: err.message,
        details: err.details,
    }
}

/// The status of a relay that broke; the text says how.
pub open spec fn broken_relay_status(why: Seq<char>) -> StatusView {
    StatusView { code: Code::Internal, message: why, details: None }
}

/// The session that an auth answer speaks of.
pub open spec fn auth_reply_session(reply: AuthReplyView) -> Seq<char> {
    match reply {
        AuthReplyView::Granted(res) => res.session_id,
        AuthReplyView::Failed(err) => err.session_id,
    }
}

/// The session that an answer to a request speaks of.
pub open spec fn handle_reply_session(reply: HandleReplyView) -> Seq<char> {
    match reply {
        HandleReplyView::Served(res) => res.session_id,
        HandleReplyView::Failed(err) => err.session_id,
    }
}

/// What is in a table under a key, if anything.
pub open spec fn lookup(table: Map<Seq<char>, u64>, key: Seq<char>) -> Option<u64> {
    if table.contains_key(key) {
        Some(table[key])
    } else {
        None
    }
}

/// How a relayed auth call ends for the link, given how the relay ended.
pub open spec fn auth_outcome(reply: RelayReplyView<AuthReplyView>) -> Result<
    Seq<char>,
    StatusView,
> {
    match reply {
        RelayReplyView::Delivered(AuthReplyView::Granted(res)) => Ok(res.session_id),
        RelayReplyView::Delivered(AuthReplyView::Failed(err)) => Err(sink_failure_status(err)),
        RelayReplyView::NotSent(why) => Err(broken_relay_status(why)),
        RelayReplyView::Dropped(why) => Err(broken_relay_status(why)),
    }
}

/// How a relayed request ends for the link, given how the relay ended.
pub open spec fn handle_outcome(reply: RelayReplyView<HandleReplyView>) -> Result<
    crate::proto::AppResponseView,
    StatusView,
> {
    match reply {
        RelayReplyView::Delivered(HandleReplyView::Served(res)) => Ok(res),
        RelayReplyView::Delivered(HandleReplyView::Failed(err)) => Err(sink_failure_status(err)),
        RelayReplyView::NotSent(why) => Err(broken_relay_status(why)),
        RelayReplyView::Dropped(why) => Err(broken_relay_status(why)),
    }
}

impl SinkApp {
    /// A relay application for `app_id` that serves `kinds`; no sink is
    /// bound yet.
    pub fn new(app_id: &AppId, kinds: &Vec<i32>) -> (app: Self)
        ensures
            app@ == unbound_relay(app_id@, kinds@),
    {
        let kinds_copy = kinds.clone();
        assert(kinds_copy@ =~= kinds@);
        let app = SinkApp {
            app_id: app_id.clone(),
            kinds: kinds_copy,
            auth_request_sender: None,
            auth_notifiers: slots_new(),
            handle_request_sender: None,
            handle_notifiers: slots_new(),
        };
        assert(app@.auth_pending =~= Map::empty());
        assert(app@.handle_pending =~= Map::empty());
        app
    }

    /// Whether `app` is a relay application.
    pub fn is_sink_app(app: &HubApp) -> (b: bool)
        ensures
            b == (app is Sink),
    {
        match app {
            HubApp::Sink(_) => true,
            HubApp::Dummy(_) => false,
        }
    }

    /// The relay application that `app` is.
    pub fn as_sink_app(app: &HubApp) -> (sink_app: &SinkApp)
        requires
            app is Sink,
        ensures
            *sink_app == app->Sink_0,
    {
        match app {
            HubApp::Sink(sink_app) => sink_app,
            HubApp::Dummy(_) => vstd::pervasive::unreached(),
        }
    }

    /// Binds the channel of a sink's auth stream; the one bound before, if
    /// any, is forgotten.
    pub fn set_auth_request_sender(&mut self, sender: u64)
        ensures
            final(self)@ == (SinkAppView { auth_sender: Some(sender), ..old(self)@ }),
    {
        self.auth_request_sender = Some(sender);
    }

    /// Binds the channel of a sink's handle stream; the one bound before,
    /// if any, is forgotten.
    pub fn set_handle_request_sender(&mut self, sender: u64)
        ensures
            final(self)@ == (SinkAppView { handle_sender: Some(sender), ..old(self)@ }),
    {
        self.handle_request_sender = Some(sender);
    }

    /// Binds the channel of a sink's stream of `kind`.
    pub fn set_request_sender(&mut self, kind: RelayKind, sender: u64)
        ensures
            final(self)@ == old(self)@.bound(kind, sender),
    {
        match kind {
            RelayKind::Auth => self.set_auth_request_sender(sender),
            RelayKind::Handle => self.set_handle_request_sender(sender),
        }
    }

    /// An answer of `kind` for `session` has arrived: the slot that waits
    /// for it leaves the table and comes back; if none waits, nothing
    /// changes and nothing comes back.
    pub fn notify(&mut self, kind: RelayKind, session: &String) -> (slot: Option<u64>)
        ensures
            slot == lookup(old(self)@.pending(kind), session@),
            final(self)@ == old(self)@.answered(kind, session@),
    {
        let taken = match kind {
            RelayKind::Auth => slots_remove(&mut self.auth_notifiers, session),
            RelayKind::Handle => slots_remove(&mut self.handle_notifiers, session),
        };
        match taken {
            Some((_, slot)) => Some(slot),
            None => None,
        }
    }

    /// A sink's auth answer has arrived. The slot that waits for the
    /// answer's session leaves the table and comes back, for the caller to
    /// fill; if none waits, nothing changes and nothing comes back.
    pub fn notify_auth(&mut self, result: &AuthReply) -> (slot: Option<u64>)
        ensures
            slot == lookup(old(self)@.auth_pending, auth_reply_session(result@)),
            final(self)@ == (SinkAppView {
                auth_pending: old(self)@.auth_pending.remove(auth_reply_session(result@)),
                ..old(self)@
            }),
    {
        match result {
            AuthReply::Granted(res) => self.notify(RelayKind::Auth, &res.session_id),
            AuthReply::Failed(err) => self.notify(RelayKind::Auth, &err.session_id),
        }
    }

    /// A sink's answer to a request has arrived; as `notify_auth`, on the
    /// table of requests.
    pub fn notify_handle(&mut self, result: &HandleReply) -> (slot: Option<u64>)
        ensures
            slot == lookup(old(self)@.handle_pending, handle_reply_session(result@)),
            final(self)@ == (SinkAppView {
                handle_pending: old(self)@.handle_pending.remove(handle_reply_session(result@)),
                ..old(self)@
            }),
    {
        match result {
            HandleReply::Served(res) => self.notify(RelayKind::Handle, &res.session_id),
            HandleReply::Failed(err) => self.notify(RelayKind::Handle, &err.session_id),
        }
    }

    /// Starts a relayed auth call. With no sink bound it fails at once and
    /// changes nothing. Else `slot` waits under `link_session`, in place of
    /// any slot that waited there, and the message for the sink comes back
    /// with the bound channel.
    pub fn auth(
        &mut self,
        slot: u64,
        trace_id: &str,
        link_address: &str,
        link_session: &str,
        req: &AuthRequest,
    ) -> (r: Result<RelayCall<LinkAuthRequest>, Status>)
        ensures
            r is Ok <==> old(self)@.auth_sender is Some,
            r is Err ==> r.unwrap_err()@ == not_bound_status() && final(self)@ == old(self)@,
            r is Ok ==> r.unwrap()@ == (RelayCallView {
                sender: old(self)@.auth_sender.unwrap(),
                message: LinkAuthRequestView {
                    trace_id: trace_id@,
                    link_address: link_address@,
                    link_session: link_session@,
                    req: Some(req@),
                },
                displaced: lookup(old(self)@.auth_pending, link_session@),
            }),
            r is Ok ==> final(self)@ == (SinkAppView {
                auth_pending: old(self)@.auth_pending.insert(link_session@, slot),
                ..old(self)@
            }),
    {
        let sender = match self.auth_request_sender {
            Some(sender) => sender,
            None => {
                return Err(Status::internal(NOT_BOUND));
            },
        };
        let displaced = slots_insert(&mut self.auth_notifiers, link_session.to_owned(), slot);
        Ok(
            RelayCall {
                sender,
                message: LinkAuthRequest::new(trace_id, link_address, link_session, req),
                displaced,
            },
        )
    }

    /// Ends a relayed auth call: the session that the sink confirmed, the
    /// sink's own failure with its code, message and details, or an
    /// internal failure if the relay broke.
    pub fn auth_reply(reply: RelayReply<AuthReply>) -> (r: Result<SessionId, Status>)
        ensures
            result_view(r) == auth_outcome(reply@),
    {
        match reply {
            RelayReply::Delivered(AuthReply::Granted(res)) => Ok(SessionId(res.session_id)),
            RelayReply::Delivered(AuthReply::Failed(err)) => Err(
                Status {
                    code: Code::from_i32(err.code),
                    message: err.message,
                    details: err.details,
                },
            ),
            RelayReply::NotSent(why) => Err(
                Status { code: Code::Internal, message: why, details: None },
            ),
            RelayReply::Dropped(why) => Err(
                Status { code: Code::Internal, message: why, details: None },
            ),
        }
    }

    /// Starts a relayed request of `link`; as `auth`, on the table of
    /// requests and under the link's session.
    pub fn handle(&mut self, slot: u64, trace_id: &str, link: &AppLink, req: &AppRequest) -> (r:
        Result<RelayCall<LinkAppRequest>, Status>)
        ensures
            r is Ok <==> old(self)@.handle_sender is Some,
            r is Err ==> r.unwrap_err()@ == not_bound_status() && final(self)@ == old(self)@,
            r is Ok ==> r.unwrap()@ == (RelayCallView {
                sender: old(self)@.handle_sender.unwrap(),
                message: LinkAppRequestView {
                    trace_id: trace_id@,
                    link_address: link@.link_address,
                    req: Some(req@),
                },
                displaced: lookup(old(self)@.handle_pending, link@.session_id),
            }),
            r is Ok ==> final(self)@ == (SinkAppView {
                handle_pending: old(self)@.handle_pending.insert(link@.session_id, slot),
                ..old(self)@
            }),
    {
        let sender = match self.handle_request_sender {
            Some(sender) => sender,
            None => {
                return Err(Status::internal(NOT_BOUND));
            },
        };
        let displaced = slots_insert(&mut self.handle_notifiers, link.session_id.0.clone(), slot);
        Ok(
            RelayCall {
                sender,
                message: LinkAppRequest::new(trace_id, link.link_address.as_str(), req),
                displaced,
            },
        )
    }

    /// Ends a relayed request: the sink's answer, the sink's own failure
    /// with its code, message and details, or an internal failure if the
    /// relay broke.
    pub fn handle_reply(reply: RelayReply<HandleReply>) -> (r: Result<AppResponse, Status>)
        ensures
            result_view(r) == handle_outcome(reply@),
    {
        match reply {
            RelayReply::Delivered(HandleReply::Served(res)) => Ok(res),
            RelayReply::Delivered(HandleReply::Failed(err)) => Err(
                Status {
                    code: Code::from_i32(err.code),
                    message: err.message,
                    details: err.details,
                },
            ),
            RelayReply::NotSent(why) => Err(
                Status { code: Code::Internal, message: why, details: None },
            ),
            RelayReply::Dropped(why) => Err(
                Status { code: Code::Internal, message: why, details: None },
            ),
        }
    }

    /// A subscription through a relay: nothing serves one yet.
    pub fn subscribe(&self, trace_id: &str, link: &AppLink, sub: &AppSubscribe) -> (r: Result<
        EventSource,
        Status,
    >)
        ensures
            r is Err,
            r.unwrap_err()@ == under_construction_status(),
    {
        Err(Status::unimplemented(ErrorMessage::UNDER_CONSTRUCTION))
    }
}

/// The handle of a source of events for one subscription.
#[derive(Debug, Clone, Copy, PartialEq, Eq, Structural)]
pub struct EventSource {
    pub id: u64,
}

/// A sink's failure reaches the link unchanged: whatever code, message and
/// details the sink reports, the status of the link's call has the code
/// that the sink's number names, and the sink's message and details as
/// they are; so two failures that differ in their details reach the link
/// as different statuses. This holds of auth calls and of requests alike.
pub proof fn lemma_sink_failure_round_trips(err: SinkErrorView, other: SinkErrorView)
    ensures
        auth_outcome(RelayReplyView::Delivered(AuthReplyView::Failed(err))) == Err::<
            Seq<char>,
            StatusView,
        >(sink_failure_status(err)),
        handle_outcome(RelayReplyView::Delivered(HandleReplyView::Failed(err))) == Err::<
            crate::proto::AppResponseView,
            StatusView,
        >(sink_failure_status(err)),
        sink_failure_status(err).code == Code::of_number(err.code as int),
        sink_failure_status(err).message == err.message,
        sink_failure_status(err).details == err.details,
        err.details != other.details ==> sink_failure_status(err) != sink_failure_status(other),
{
}

} // verus!
