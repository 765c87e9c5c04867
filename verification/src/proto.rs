//! The messages of the two services, as plain values.
//!
//! Each message has a view that holds its strings as sequences of characters;
//! contracts speak of the views.

use crate::hub_session::SessionId;
use vstd::prelude::*;

verus! {

/// The trace id that every response carries until tracing is wired in.
pub const TRACE_ID: &'static str = "TODO";

/// An opaque, self-describing payload: a type tag and raw bytes.
#[derive(Debug, PartialEq, Eq)]
pub struct Any {
    pub type_url: String,
    pub value: Vec<u8>,
}

/// `Any` as contracts see it.
pub ghost struct AnyView {
    pub type_url: Seq<char>,
    pub value: Seq<u8>,
}

impl View for Any {
    type V = AnyView;

    open spec fn view(&self) -> AnyView {
        AnyView { type_url: self.type_url@, value: self.value@ }
    }
}

impl Clone for Any {
    fn clone(&self) -> (r: Self)
        ensures
            r@ == self@,
    {
        let value = self.value.clone();
        assert(value@ =~= self.value@);
        Any { type_url: self.type_url.clone(), value }
    }
}

/// The view of a payload that may be absent.
pub open spec fn payload_view(p: Option<Any>) -> Option<AnyView> {
    match p {
        Some(a) => Some(a@),
        None => None,
    }
}

/// A copy of a payload that may be absent.
pub fn clone_payload(p: &Option<Any>) -> (r: Option<Any>)
    ensures
        payload_view(r) == payload_view(*p),
{
    match p {
        Some(a) => Some(a.clone()),
        None => None,
    }
}

/// A link asks to be let in to an application.
#[derive(Debug, PartialEq, Eq)]
pub struct AuthRequest {
    pub ord: u64,
    pub app_id: String,
    pub link_id: String,
    pub token: String,
    pub extra: Option<Any>,
}

/// `AuthRequest` as contracts see it.
pub ghost struct AuthRequestView {
    pub ord: u64,
    pub app_id: Seq<char>,
    pub link_id: Seq<char>,
    pub token: Seq<char>,
    pub extra: Option<AnyView>,
}

impl View for AuthRequest {
    type V = AuthRequestView;

    open spec fn view(&self) -> AuthRequestView {
        AuthRequestView {
            ord: self.ord,
            app_id: self.app_id@,
            link_id: self.link_id@,
            token: self.token@,
            extra: payload_view(self.extra),
        }
    }
}

impl Clone for AuthRequest {
    fn clone(&self) -> (r: Self)
        ensures
            r@ == self@,
    {
        AuthRequest {
            ord: self.ord,
            app_id: self.app_id.clone(),
            link_id: self.link_id.clone(),
            token: self.token.clone(),
            extra: clone_payload(&self.extra),
        }
    }
}

/// The answer to a link that was let in, and to the hub from a sink that
/// confirms a link's session.
#[derive(Debug, PartialEq, Eq)]
pub struct AuthResponse {
    pub ord: u64,
    pub session_id: String,
    pub trace_id: String,
    pub extra: Option<Any>,
}

/// `AuthResponse` as contracts see it.
pub ghost struct AuthResponseView {
    pub ord: u64,
    pub session_id: Seq<char>,
    pub trace_id: Seq<char>,
    pub extra: Option<AnyView>,
}

impl View for AuthResponse {
    type V = AuthResponseView;

    open spec fn view(&self) -> AuthResponseView {
        AuthResponseView {
            ord: self.ord,
            session_id: self.session_id@,
            trace_id: self.trace_id@,
            extra: payload_view(self.extra),
        }
    }
}

impl Clone for AuthResponse {
    fn clone(&self) -> (r: Self)
        ensures
            r@ == self@,
    {
        AuthResponse {
            ord: self.ord,
            session_id: self.session_id.clone(),
            trace_id: self.trace_id.clone(),
            extra: clone_payload(&self.extra),
        }
    }
}

/// A request of a link to its application.
#[derive(Debug, PartialEq, Eq)]
pub struct AppRequest {
    pub ord: u64,
    pub session_id: String,
    pub kind: i32,
    pub data: Option<Any>,
}

/// `AppRequest` as contracts see it.
pub ghost struct AppRequestView {
    pub ord: u64,
    pub session_id: Seq<char>,
    pub kind: i32,
    pub data: Option<AnyView>,
}

impl View for AppRequest {
    type V = AppRequestView;

    open spec fn view(&self) -> AppRequestView {
        AppRequestView {
            ord: self.ord,
            session_id: self.session_id@,
            kind: self.kind,
            data: payload_view(self.data),
        }
    }
}

impl Clone for AppRequest {
    fn clone(&self) -> (r: Self)
        ensures
            r@ == self@,
    {
        AppRequest {
            ord: self.ord,
            session_id: self.session_id.clone(),
            kind: self.kind,
            data: clone_payload(&self.data),
        }
    }
}

/// The application's answer to a request.
#[derive(Debug, PartialEq, Eq)]
pub struct AppResponse {
    pub ord: u64,
    pub session_id: String,
    pub trace_id: String,
    pub kind: i32,
    pub data: Option<Any>,
}

/// `AppResponse` as contracts see it.
pub ghost struct AppResponseView {
    pub ord: u64,
    pub session_id: Seq<char>,
    pub trace_id: Seq<char>,
    pub kind: i32,
    pub data: Option<AnyView>,
}

impl View for AppResponse {
    type V = AppResponseView;

    open spec fn view(&self) -> AppResponseView {
        AppResponseView {
            ord: self.ord,
            session_id: self.session_id@,
            trace_id: self.trace_id@,
            kind: self.kind,
            data: payload_view(self.data),
        }
    }
}

impl Clone for AppResponse {
    fn clone(&self) -> (r: Self)
        ensures
            r@ == self@,
    {
        AppResponse {
            ord: self.ord,
            session_id: self.session_id.clone(),
            trace_id: self.trace_id.clone(),
            kind: self.kind,
            data: clone_payload(&self.data),
        }
    }
}

/// A link asks for the events of one topic.
#[derive(Debug, PartialEq, Eq)]
pub struct AppSubscribe {
    pub ord: u64,
    pub session_id: String,
    pub topic: String,
}

/// One event on its way to a subscribed link.
#[derive(Debug, PartialEq, Eq)]
pub struct AppEvent {
    pub topic: String,
    pub kind: i32,
    pub data: Option<Any>,
}

/// `AppSubscribe` as contracts see it.
pub ghost struct AppSubscribeView {
    pub ord: u64,
    pub session_id: Seq<char>,
    pub topic: Seq<char>,
}

impl View for AppSubscribe {
    type V = AppSubscribeView;

    open spec fn view(&self) -> AppSubscribeView {
        AppSubscribeView { ord: self.ord, session_id: self.session_id@, topic: self.topic@ }
    }
}

impl Clone for AppSubscribe {
    fn clone(&self) -> (r: Self)
        ensures
            r@ == self@,
    {
        AppSubscribe {
            ord: self.ord,
            session_id: self.session_id.clone(),
            topic: self.topic.clone(),
        }
    }
}

/// `AppEvent` as contracts see it.
pub ghost struct AppEventView {
    pub topic: Seq<char>,
    pub kind: i32,
    pub data: Option<AnyView>,
}

impl View for AppEvent {
    type V = AppEventView;

    open spec fn view(&self) -> AppEventView {
        AppEventView { topic: self.topic@, kind: self.kind, data: payload_view(self.data) }
    }
}

impl Clone for AppEvent {
    fn clone(&self) -> (r: Self)
        ensures
            r@ == self@,
    {
        AppEvent { topic: self.topic.clone(), kind: self.kind, data: clone_payload(&self.data) }
    }
}

/// A sink asks to serve an application.
#[derive(Debug, PartialEq, Eq)]
pub struct RegisterRequest {
    pub ord: u64,
    pub app_id: String,
    pub sink_id: String,
    pub token: String,
    pub kinds: Vec<i32>,
    pub extra: Option<Any>,
}

/// `RegisterRequest` as contracts see it.
pub ghost struct RegisterRequestView {
    pub ord: u64,
    pub app_id: Seq<char>,
    pub sink_id: Seq<char>,
    pub token: Seq<char>,
    pub kinds: Seq<i32>,
    pub extra: Option<AnyView>,
}

impl View for RegisterRequest {
    type V = RegisterRequestView;

    open spec fn view(&self) -> RegisterRequestView {
        RegisterRequestView {
            ord: self.ord,
            app_id: self.app_id@,
            sink_id: self.sink_id@,
            token: self.token@,
            kinds: self.kinds@,
            extra: payload_view(self.extra),
        }
    }
}

/// The answer to a sink that was registered.
#[derive(Debug, PartialEq, Eq)]
pub struct RegisterResponse {
    pub ord: u64,
    pub session_id: String,
    pub trace_id: String,
    pub extra: Option<Any>,
}

/// `RegisterResponse` as contracts see it.
pub ghost struct RegisterResponseView {
    pub ord: u64,
    pub session_id: Seq<char>,
    pub trace_id: Seq<char>,
    pub extra: Option<AnyView>,
}

impl View for RegisterResponse {
    type V = RegisterResponseView;

    open spec fn view(&self) -> RegisterResponseView {
        RegisterResponseView {
            ord: self.ord,
            session_id: self.session_id@,
            trace_id: self.trace_id@,
            extra: payload_view(self.extra),
        }
    }
}

/// A link's auth request on its way to a sink.
#[derive(Debug, PartialEq, Eq)]
pub struct LinkAuthRequest {
    pub trace_id: String,
    pub link_address: String,
    pub link_session: String,
    pub req: Option<AuthRequest>,
}

/// `LinkAuthRequest` as contracts see it.
pub ghost struct LinkAuthRequestView {
    pub trace_id: Seq<char>,
    pub link_address: Seq<char>,
    pub link_session: Seq<char>,
    pub req: Option<AuthRequestView>,
}

impl View for LinkAuthRequest {
    type V = LinkAuthRequestView;

    open spec fn view(&self) -> LinkAuthRequestView {
        LinkAuthRequestView {
            trace_id: self.trace_id@,
            link_address: self.link_address@,
            link_session: self.link_session@,
            req: match self.req {
                Some(r) => Some(r@),
                None => None,
            },
        }
    }
}

/// A link's request on its way to a sink.
#[derive(Debug, PartialEq, Eq)]
pub struct LinkAppRequest {
    pub trace_id: String,
    pub link_address: String,
    pub req: Option<AppRequest>,
}

/// `LinkAppRequest` as contracts see it.
pub ghost struct LinkAppRequestView {
    pub trace_id: Seq<char>,
    pub link_address: Seq<char>,
    pub req: Option<AppRequestView>,
}

impl View for LinkAppRequest {
    type V = LinkAppRequestView;

    open spec fn view(&self) -> LinkAppRequestView {
        LinkAppRequestView {
            trace_id: self.trace_id@,
            link_address: self.link_address@,
            req: match self.req {
                Some(r) => Some(r@),
                None => None,
            },
        }
    }
}

/// A failure that a sink reports: code, message and details, which the
/// broker hands on as they are.
#[derive(Debug, PartialEq, Eq)]
pub struct SinkError {
    pub ord: u64,
    pub session_id: String,
    pub trace_id: String,
    pub code: i32,
    pub message: String,
    pub details: Option<Any>,
}

/// `SinkError` as contracts see it.
pub ghost struct SinkErrorView {
    pub ord: u64,
    pub session_id: Seq<char>,
    pub trace_id: Seq<char>,
    pub code: i32,
    pub message: Seq<char>,
    pub details: Option<AnyView>,
}

impl View for SinkError {
    type V = SinkErrorView;

    open spec fn view(&self) -> SinkErrorView {
        SinkErrorView {
            ord: self.ord,
            session_id: self.session_id@,
            trace_id: self.trace_id@,
            code: self.code,
            message: self.message@,
            details: payload_view(self.details),
        }
    }
}

impl Clone for SinkError {
    fn clone(&self) -> (r: Self)
        ensures
            r@ == self@,
    {
        SinkError {
            ord: self.ord,
            session_id: self.session_id.clone(),
            trace_id: self.trace_id.clone(),
            code: self.code,
            message: self.message.clone(),
            details: clone_payload(&self.details),
        }
    }
}

/// The error that says nothing: no session, no code, no message.
pub open spec fn empty_sink_error() -> SinkErrorView {
    SinkErrorView {
        ord: 0,
        session_id: Seq::empty(),
        trace_id: Seq::empty(),
        code: 0,
        message: Seq::empty(),
        details: None,
    }
}

/// What a sink answers to a relayed auth request.
#[derive(Debug, PartialEq, Eq)]
pub enum AuthReply {
    Granted(AuthResponse),
    Failed(SinkError),
}

/// `AuthReply` as contracts see it.
pub ghost enum AuthReplyView {
    Granted(AuthResponseView),
    Failed(SinkErrorView),
}

impl View for AuthReply {
    type V = AuthReplyView;

    open spec fn view(&self) -> AuthReplyView {
        match self {
            AuthReply::Granted(r) => AuthReplyView::Granted(r@),
            AuthReply::Failed(e) => AuthReplyView::Failed(e@),
        }
    }
}

impl Clone for AuthReply {
    fn clone(&self) -> (r: Self)
        ensures
            r@ == self@,
    {
        match self {
            AuthReply::Granted(res) => AuthReply::Granted(res.clone()),
            AuthReply::Failed(err) => AuthReply::Failed(err.clone()),
        }
    }
}

/// What a sink answers to a relayed request.
#[derive(Debug, PartialEq, Eq)]
pub enum HandleReply {
    Served(AppResponse),
    Failed(SinkError),
}

/// `HandleReply` as contracts see it.
pub ghost enum HandleReplyView {
    Served(AppResponseView),
    Failed(SinkErrorView),
}

impl View for HandleReply {
    type V = HandleReplyView;

    open spec fn view(&self) -> HandleReplyView {
        match self {
            HandleReply::Served(r) => HandleReplyView::Served(r@),
            HandleReply::Failed(e) => HandleReplyView::Failed(e@),
        }
    }
}

impl Clone for HandleReply {
    fn clone(&self) -> (r: Self)
        ensures
            r@ == self@,
    {
        match self {
            HandleReply::Served(res) => HandleReply::Served(res.clone()),
            HandleReply::Failed(err) => HandleReply::Failed(err.clone()),
        }
    }
}

/// One message of a sink on its auth stream: the sink's own session and,
/// unless the message is malformed, an answer.
#[derive(Debug, PartialEq, Eq)]
pub struct AuthResult {
    pub sink_session: String,
    pub result: Option<AuthReply>,
}

/// `AuthResult` as contracts see it.
pub ghost struct AuthResultView {
    pub sink_session: Seq<char>,
    pub result: Option<AuthReplyView>,
}

impl View for AuthResult {
    type V = AuthResultView;

    open spec fn view(&self) -> AuthResultView {
        AuthResultView {
            sink_session: self.sink_session@,
            result: match self.result {
                Some(r) => Some(r@),
                None => None,
            },
        }
    }
}

impl Clone for AuthResult {
    fn clone(&self) -> (r: Self)
        ensures
            r@ == self@,
    {
        AuthResult {
            sink_session: self.sink_session.clone(),
            result: match &self.result {
                Some(reply) => Some(reply.clone()),
                None => None,
            },
        }
    }
}

/// One message of a sink on its handle stream.
#[derive(Debug, PartialEq, Eq)]
pub struct HandleResult {
    pub sink_session: String,
    pub result: Option<HandleReply>,
}

/// `HandleResult` as contracts see it.
pub ghost struct HandleResultView {
    pub sink_session: Seq<char>,
    pub result: Option<HandleReplyView>,
}

impl View for HandleResult {
    type V = HandleResultView;

    open spec fn view(&self) -> HandleResultView {
        HandleResultView {
            sink_session: self.sink_session@,
            result: match self.result {
                Some(r) => Some(r@),
                None => None,
            },
        }
    }
}

impl Clone for HandleResult {
    fn clone(&self) -> (r: Self)
        ensures
            r@ == self@,
    {
        HandleResult {
            sink_session: self.sink_session.clone(),
            result: match &self.result {
                Some(reply) => Some(reply.clone()),
                None => None,
            },
        }
    }
}

impl AuthResponse {
    /// The answer to `req` for a link whose session is `session_id`.
    pub fn new(req: &AuthRequest, session_id: &SessionId) -> (r: Self)
        ensures
            r@ == (AuthResponseView {
                ord: req.ord,
                session_id: session_id@,
                trace_id: TRACE_ID@,
                extra: None,
            }),
    {
        AuthResponse {
            ord: req.ord,
            session_id: session_id.0.clone(),
            trace_id: TRACE_ID.to_owned(),
            extra: None,
        }
    }

    /// A sink's confirmation of the session that a relayed auth request
    /// proposes. The relayed message must carry the link's request.
    pub fn confirm(link_req: &LinkAuthRequest) -> (r: Self)
        requires
            link_req.req is Some,
        ensures
            r@ == (AuthResponseView {
                ord: link_req.req.unwrap().ord,
                session_id: link_req.link_session@,
                trace_id: link_req.trace_id@,
                extra: None,
            }),
    {
        let ord = match &link_req.req {
            Some(req) => req.ord,
            None => 0,
        };
        AuthResponse {
            ord,
            session_id: link_req.link_session.clone(),
            trace_id: link_req.trace_id.clone(),
            extra: None,
        }
    }
}

impl AppResponse {
    /// The answer to `req` that carries `data`.
    pub fn new(req: &AppRequest, data: Option<Any>) -> (r: Self)
        ensures
            r@ == (AppResponseView {
                ord: req.ord,
                session_id: req.session_id@,
                trace_id: TRACE_ID@,
                kind: req.kind,
                data: payload_view(data),
            }),
    {
        AppResponse {
            ord: req.ord,
            session_id: req.session_id.clone(),
            trace_id: TRACE_ID.to_owned(),
            kind: req.kind,
            data,
        }
    }
}

impl RegisterResponse {
    /// The answer to `req` for a sink whose session is `session_id`.
    pub fn new(req: &RegisterRequest, session_id: &SessionId, extra: Option<Any>) -> (r: Self)
        ensures
            r@ == (RegisterResponseView {
                ord: req.ord,
                session_id: session_id@,
                trace_id: TRACE_ID@,
                extra: payload_view(extra),
            }),
    {
        RegisterResponse {
            ord: req.ord,
            trace_id: TRACE_ID.to_owned(),
            session_id: session_id.0.clone(),
            extra,
        }
    }
}

impl LinkAuthRequest {
    /// `req` wrapped for the sink, with the session that the hub proposes.
    pub fn new(trace_id: &str, link_address: &str, link_session: &str, req: &AuthRequest) -> (r:
        Self)
        ensures
            r@ == (LinkAuthRequestView {
                trace_id: trace_id@,
                link_address: link_address@,
                link_session: link_session@,
                req: Some(req@),
            }),
    {
        LinkAuthRequest {
            trace_id: trace_id.to_owned(),
            link_address: link_address.to_owned(),
            link_session: link_session.to_owned(),
            req: Some(req.clone()),
        }
    }
}

impl LinkAppRequest {
    /// `req` wrapped for the sink.
    pub fn new(trace_id: &str, link_address: &str, req: &AppRequest) -> (r: Self)
        ensures
            r@ == (LinkAppRequestView {
                trace_id: trace_id@,
                link_address: link_address@,
                req: Some(req@),
            }),
    {
        LinkAppRequest {
            trace_id: trace_id.to_owned(),
            link_address: link_address.to_owned(),
            req: Some(req.clone()),
        }
    }
}

impl SinkError {
    /// A sink's refusal of a relayed auth request, which must carry the
    /// link's request.
    pub fn auth(link_req: &LinkAuthRequest, code: i32, message: &str, details: Option<Any>) -> (r:
        Self)
        requires
            link_req.req is Some,
        ensures
            r@ == (SinkErrorView {
                ord: link_req.req.unwrap().ord,
                session_id: link_req.link_session@,
                trace_id: link_req.trace_id@,
                code,
                message: message@,
                details: payload_view(details),
            }),
    {
        let ord = match &link_req.req {
            Some(req) => req.ord,
            None => 0,
        };
        SinkError {
            ord,
            session_id: link_req.link_session.clone(),
            trace_id: link_req.trace_id.clone(),
            code,
            message: message.to_owned(),
            details,
        }
    }

    /// A sink's failure to serve a relayed request, which must carry the
    /// link's request.
    pub fn app(link_req: &LinkAppRequest, code: i32, message: &str, details: Option<Any>) -> (r:
        Self)
        requires
            link_req.req is Some,
        ensures
            r@ == (SinkErrorView {
                ord: link_req.req.unwrap().ord,
                session_id: link_req.req.unwrap().session_id@,
                trace_id: link_req.trace_id@,
                code,
                message: message@,
                details: payload_view(details),
            }),
    {
        match &link_req.req {
            Some(req) => SinkError {
                ord: req.ord,
                session_id: req.session_id.clone(),
                trace_id: link_req.trace_id.clone(),
                code,
                message: message.to_owned(),
                details,
            },
            None => SinkError::init(),
        }
    }

    /// The empty error with which a sink opens a stream.
    pub fn init() -> (r: Self)
        ensures
            r@ == empty_sink_error(),
    {
        SinkError {
            ord: 0,
            session_id: String::new(),
            trace_id: String::new(),
            code: 0,
            message: String::new(),
            details: None,
        }
    }
}

impl AuthResult {
    /// A sink's message that grants.
    pub fn ok(session_id: &str, res: AuthResponse) -> (r: Self)
        ensures
            r@ == (AuthResultView {
                sink_session: session_id@,
                result: Some(AuthReplyView::Granted(res@)),
            }),
    {
        AuthResult { sink_session: session_id.to_owned(), result: Some(AuthReply::Granted(res)) }
    }

    /// A sink's message that refuses.
    pub fn err(session_id: &str, err: SinkError) -> (r: Self)
        ensures
            r@ == (AuthResultView {
                sink_session: session_id@,
                result: Some(AuthReplyView::Failed(err@)),
            }),
    {
        AuthResult { sink_session: session_id.to_owned(), result: Some(AuthReply::Failed(err)) }
    }

    /// The message with which a registered sink opens its auth stream: the
    /// empty error under the sink's session.
    pub fn init(res: &RegisterResponse) -> (r: Self)
        ensures
            r@ == (AuthResultView {
                sink_session: res.session_id@,
                result: Some(AuthReplyView::Failed(empty_sink_error())),
            }),
    {
        AuthResult::err(res.session_id.as_str(), SinkError::init())
    }
}

impl HandleResult {
    /// A sink's message that answers a request.
    pub fn ok(session_id: &str, res: AppResponse) -> (r: Self)
        ensures
            r@ == (HandleResultView {
                sink_session: session_id@,
                result: Some(HandleReplyView::Served(res@)),
            }),
    {
        HandleResult { sink_session: session_id.to_owned(), result: Some(HandleReply::Served(res)) }
    }

    /// A sink's message that reports a failure.
    pub fn err(session_id: &str, err: SinkError) -> (r: Self)
        ensures
            r@ == (HandleResultView {
                sink_session: session_id@,
                result: Some(HandleReplyView::Failed(err@)),
            }),
    {
        HandleResult { sink_session: session_id.to_owned(), result: Some(HandleReply::Failed(err)) }
    }

    /// The message with which a registered sink opens its handle stream.
    pub fn init(res: &RegisterResponse) -> (r: Self)
        ensures
            r@ == (HandleResultView {
                sink_session: res.session_id@,
                result: Some(HandleReplyView::Failed(empty_sink_error())),
            }),
    {
        HandleResult::err(res.session_id.as_str(), SinkError::init())
    }
}

} // verus!
