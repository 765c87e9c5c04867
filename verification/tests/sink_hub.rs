use edger_hub::error::ErrorMessage;
use edger_hub::hub_app::{AppRegistry, DummyApp, HubApp};
use edger_hub::hub_session::{AppId, SessionId, SinkId};
use edger_hub::link_authenticator::PublicUuidAuthenticator;
use edger_hub::link_hub::LinkHub;
use edger_hub::proto::{
    AppRequest, AppResponse, AuthReply, AuthRequest, AuthResponse, AuthResult, HandleReply,
    HandleResult, LinkAppRequest, LinkAuthRequest, RegisterRequest, RegisterResponse, SinkError,
};
use edger_hub::relay::{AppStep, RelayCall, RelayReply};
use edger_hub::sink_app::SinkApp;
use edger_hub::sink_authenticator::SinkAuthenticator;
use edger_hub::sink_hub::{SinkHub, SinkStream, StreamEnd, StreamStep};
use edger_hub::status::{Code, Status};

const APP: &str = "b1b03254-e344-4e48-9ca4-e7062f219b95";
const SINK: &str = "6ba7b810-9dad-11d1-80b4-00c04fd430c8";
const LINK: &str = "550e8400-e29b-41d4-a716-446655440000";

struct ClosedAuthenticator {}

impl SinkAuthenticator for ClosedAuthenticator {
    fn allow_create_app(&self) -> bool {
        false
    }

    fn allow_multiple_sessions(&self) -> bool {
        false
    }

    fn kick_old_sessions(&self) -> bool {
        false
    }

    fn auth(&self, req: &RegisterRequest) -> Result<SessionId, Status> {
        Ok(SessionId(format!("session-of-{}", req.sink_id)))
    }
}

fn register_request(ord: u64, app_id: &str, sink_id: &str) -> RegisterRequest {
    RegisterRequest {
        ord,
        app_id: app_id.to_owned(),
        sink_id: sink_id.to_owned(),
        token: "sink-token".to_owned(),
        kinds: vec![1],
        extra: None,
    }
}

fn auth_request(ord: u64) -> AuthRequest {
    AuthRequest {
        ord,
        app_id: APP.to_owned(),
        link_id: LINK.to_owned(),
        token: "link-credential".to_owned(),
        extra: None,
    }
}

struct Hubs {
    link: LinkHub<PublicUuidAuthenticator>,
    sink: SinkHub<PublicUuidAuthenticator>,
}

fn hubs() -> Hubs {
    Hubs { link: LinkHub::new(PublicUuidAuthenticator {}, None), sink: SinkHub::new(PublicUuidAuthenticator {}) }
}

fn register(h: &mut Hubs) -> RegisterResponse {
    h.sink.register(h.link.apps_mut(), &register_request(1, APP, SINK)).expect("a uuid is let in")
}

fn relayed_auth(step: AppStep<AuthResponse, LinkAuthRequest>) -> RelayCall<LinkAuthRequest> {
    match step {
        AppStep::Relay(call) => call,
        AppStep::Done(r) => panic!("the relay should take the call, not end it: {:?}", r),
    }
}

fn relayed_handle(step: AppStep<AppResponse, LinkAppRequest>) -> RelayCall<LinkAppRequest> {
    match step {
        AppStep::Relay(call) => call,
        AppStep::Done(r) => panic!("the relay should take the call, not end it: {:?}", r),
    }
}

/// Registers a sink and opens both of its streams, on channels 70 and 71.
fn bound(h: &mut Hubs) -> (RegisterResponse, SinkStream, SinkStream) {
    let reg = register(h);
    let mut auth_stream = SinkStream::new();
    let step = h.sink.auth(h.link.apps_mut(), &mut auth_stream, 70, &Ok(AuthResult::init(&reg)));
    assert_eq!(step, StreamStep::Dropped);
    let mut handle_stream = SinkStream::new();
    let step =
        h.sink.handle(h.link.apps_mut(), &mut handle_stream, 71, &Ok(HandleResult::init(&reg)));
    assert_eq!(step, StreamStep::Dropped);
    (reg, auth_stream, handle_stream)
}

#[test]
fn register_creates_the_relay_and_a_session() {
    let mut h = hubs();
    assert!(!h.link.get_apps().contains(&AppId::from(APP)));
    let res = register(&mut h);
    assert_eq!(res.ord, 1);
    assert_eq!(res.trace_id, "TODO");
    assert_eq!(res.extra, None);
    assert_eq!(res.session_id.len(), 36);
    assert!(h.link.get_apps().contains(&AppId::from(APP)));
    let sink = h.sink.get_session(&res.session_id).expect("the session is live");
    assert_eq!(sink.app_id, AppId::from(APP));
    assert_eq!(sink.sink_id, SinkId::from(SINK));
    assert_eq!(sink.session_id, SessionId(res.session_id.clone()));
    assert_eq!(
        h.sink.get_sink_session_ids(&SinkId::from(SINK)),
        Some(vec![SessionId(res.session_id)])
    );
    match h.link.apps_mut().remove(&AppId::from(APP)) {
        Some(app) => {
            assert!(SinkApp::is_sink_app(&app));
            let relay = SinkApp::as_sink_app(&app);
            assert_eq!(relay.app_id, AppId::from(APP));
            assert_eq!(relay.kinds, vec![1]);
        }
        None => panic!("register creates the application"),
    }
}

#[test]
fn register_turns_away_what_is_no_uuid() {
    let mut h = hubs();
    let err = h.sink.register(h.link.apps_mut(), &register_request(1, APP, "no-uuid")).unwrap_err();
    assert_eq!(err.code, Code::PermissionDenied);
    assert_eq!(err.message, ErrorMessage::INVALID_SINK_ID);
    // the application was created before the credentials were looked at
    assert!(h.link.get_apps().contains(&AppId::from(APP)));
    assert_eq!(h.sink.get_sink_session_ids(&SinkId::from("no-uuid")), None);
}

#[test]
fn register_keeps_a_registered_application() {
    let mut h = hubs();
    h.link.add_app(APP, HubApp::Dummy(DummyApp {}));
    let _ = register(&mut h);
    let app = h.link.apps_mut().remove(&AppId::from(APP)).unwrap();
    assert!(!SinkApp::is_sink_app(&app));
}

#[test]
fn second_register_evicts_the_first_session() {
    let mut h = hubs();
    let first = register(&mut h);
    let second = register(&mut h);
    assert_ne!(first.session_id, second.session_id);
    let err = h.sink.get_session(&first.session_id).unwrap_err();
    assert_eq!(err.code, Code::PermissionDenied);
    assert_eq!(err.message, ErrorMessage::INVALID_SESSION_ID);
    assert!(h.sink.get_session(&second.session_id).is_ok());
}

#[test]
fn a_closed_authenticator_creates_no_application_and_keeps_old_sessions() {
    let mut sink = SinkHub::new(ClosedAuthenticator {});
    let mut apps = AppRegistry::new();
    let err = sink.register(&mut apps, &register_request(1, "app", "sink")).unwrap_err();
    assert_eq!(err.code, Code::PermissionDenied);
    assert_eq!(err.message, ErrorMessage::INVALID_APP_ID);
    assert!(!apps.contains(&AppId::from("app")));
    let err = sink.get_app(&apps, &AppId::from("app")).unwrap_err();
    assert_eq!(err.message, ErrorMessage::INVALID_APP_ID);

    sink.add_app(&mut apps, "app", HubApp::Sink(SinkApp::new(&AppId::from("app"), &vec![2])));
    assert!(sink.get_app(&apps, &AppId::from("app")).is_ok());
    let res = sink.register(&mut apps, &register_request(4, "app", "sink")).unwrap();
    assert_eq!(res.session_id, "session-of-sink");
    assert_eq!(res.ord, 4);
    let err = sink.register(&mut apps, &register_request(5, "app", "sink")).unwrap_err();
    assert_eq!(err.code, Code::PermissionDenied);
    assert_eq!(err.message, ErrorMessage::ALREADY_REGISTERED);
    assert!(sink.get_session(&"session-of-sink".to_owned()).is_ok());
}

#[test]
fn correlation_round_trip_grant() {
    let mut h = hubs();
    let (reg, mut auth_stream, _) = bound(&mut h);
    let req = auth_request(9);

    let call = relayed_auth(h.link.auth(&req, 501));
    assert_eq!(call.sender, 70);
    assert_eq!(call.displaced, None);
    assert_eq!(call.message.trace_id, "TODO");
    assert_eq!(call.message.link_address, "TODO");
    assert_eq!(call.message.link_session.len(), 36);
    let carried = call.message.req.as_ref().expect("the request travels whole");
    assert_eq!(carried.token, "link-credential");
    assert_eq!(carried, &req);

    let answer = AuthResult::ok(&reg.session_id, AuthResponse::confirm(&call.message));
    let step = h.sink.auth(h.link.apps_mut(), &mut auth_stream, 70, &Ok(answer.clone()));
    assert_eq!(step, StreamStep::Deliver(501));

    let reply = match answer.result {
        Some(reply) => reply,
        None => panic!("the answer carries a reply"),
    };
    let res = h.link.auth_reply(&req, RelayReply::Delivered(reply)).expect("granted");
    assert_eq!(res.session_id, call.message.link_session);
    assert_eq!(res.ord, 9);
    assert!(h.link.get_session(&res.session_id).is_ok());
}

#[test]
fn correlation_round_trip_refusal() {
    let mut h = hubs();
    let (reg, mut auth_stream, _) = bound(&mut h);
    let req = auth_request(9);
    let call = relayed_auth(h.link.auth(&req, 502));

    let refusal = SinkError::auth(&call.message, 16, "bad credential", None);
    assert_eq!(refusal.session_id, call.message.link_session);
    assert_eq!(refusal.ord, 9);
    let answer = AuthResult::err(&reg.session_id, refusal);
    let step = h.sink.auth(h.link.apps_mut(), &mut auth_stream, 70, &Ok(answer.clone()));
    assert_eq!(step, StreamStep::Deliver(502));

    let err = h.link.auth_reply(&req, RelayReply::Delivered(answer.result.unwrap())).unwrap_err();
    assert_eq!(err.code, Code::Unauthenticated);
    assert_eq!(err.message, "bad credential");
    assert!(h.link.get_session(&call.message.link_session).is_err());
}

#[test]
fn a_code_that_names_nothing_reaches_the_link_as_unknown() {
    let err = SinkError {
        ord: 0,
        session_id: "s".to_owned(),
        trace_id: String::new(),
        code: 99,
        message: "odd".to_owned(),
        details: None,
    };
    let status = SinkApp::auth_reply(RelayReply::Delivered(AuthReply::Failed(err.clone()))).unwrap_err();
    assert_eq!(status.code, Code::Unknown);
    assert_eq!(status.message, "odd");
    let status =
        SinkApp::handle_reply(RelayReply::Delivered(HandleReply::Failed(err))).unwrap_err();
    assert_eq!(status.code, Code::Unknown);
    assert_eq!(status.message, "odd");
}

#[test]
fn a_broken_relay_is_an_internal_failure() {
    let status = SinkApp::auth_reply(RelayReply::NotSent("channel closed".to_owned())).unwrap_err();
    assert_eq!(status.code, Code::Internal);
    assert_eq!(status.message, "channel closed");
    let status = SinkApp::auth_reply(RelayReply::Dropped("slot dropped".to_owned())).unwrap_err();
    assert_eq!(status.code, Code::Internal);
    assert_eq!(status.message, "slot dropped");
    let status = SinkApp::handle_reply(RelayReply::NotSent("channel closed".to_owned())).unwrap_err();
    assert_eq!(status.code, Code::Internal);
    let status = SinkApp::handle_reply(RelayReply::Dropped("slot dropped".to_owned())).unwrap_err();
    assert_eq!(status.code, Code::Internal);
    assert_eq!(status.message, "slot dropped");
}

#[test]
fn orphaned_correlation_fails_at_once() {
    let mut h = hubs();
    let _reg = register(&mut h);
    // no stream is open: nothing is bound
    match h.link.auth(&auth_request(1), 1) {
        AppStep::Done(Err(status)) => {
            assert_eq!(status.code, Code::Internal);
            assert_eq!(status.message, "TODO");
        }
        other => panic!("no sink is bound, yet: {:?}", other),
    }

    // a link that came in through the echo, whose application then becomes a relay
    let mut link = LinkHub::new(PublicUuidAuthenticator {}, None);
    link.add_app(APP, HubApp::Dummy(DummyApp {}));
    let auth = match link.auth(&auth_request(1), 0) {
        AppStep::Done(Ok(res)) => res,
        other => panic!("the echo lets the link in: {:?}", other),
    };
    link.add_app(APP, HubApp::Sink(SinkApp::new(&AppId::from(APP), &vec![1])));
    let req = AppRequest { ord: 2, session_id: auth.session_id.clone(), kind: 1, data: None };
    match link.handle(&req, 7) {
        AppStep::Done(Err(status)) => {
            assert_eq!(status.code, Code::Internal);
            assert_eq!(status.message, "TODO");
        }
        other => panic!("no sink is bound, yet: {:?}", other),
    }
}

#[test]
fn handle_round_trip() {
    let mut h = hubs();
    let (reg, mut auth_stream, mut handle_stream) = bound(&mut h);
    let auth_req = auth_request(1);
    let call = relayed_auth(h.link.auth(&auth_req, 1));
    let grant = AuthResult::ok(&reg.session_id, AuthResponse::confirm(&call.message));
    assert_eq!(
        h.sink.auth(h.link.apps_mut(), &mut auth_stream, 70, &Ok(grant.clone())),
        StreamStep::Deliver(1)
    );
    let session =
        h.link.auth_reply(&auth_req, RelayReply::Delivered(grant.result.unwrap())).unwrap();

    let req = AppRequest { ord: 2, session_id: session.session_id.clone(), kind: 1, data: None };
    let call = relayed_handle(h.link.handle(&req, 60));
    assert_eq!(call.sender, 71);
    assert_eq!(call.displaced, None);
    assert_eq!(call.message.trace_id, "TODO");
    assert_eq!(call.message.link_address, "TODO");
    assert_eq!(call.message.req.as_ref(), Some(&req));

    let served = AppResponse {
        ord: 2,
        session_id: session.session_id.clone(),
        trace_id: "t".to_owned(),
        kind: 1,
        data: None,
    };
    let answer = HandleResult::ok(&reg.session_id, served.clone());
    assert_eq!(
        h.sink.handle(h.link.apps_mut(), &mut handle_stream, 71, &Ok(answer.clone())),
        StreamStep::Deliver(60)
    );
    // the slot is used up: the same answer again finds nobody
    assert_eq!(
        h.sink.handle(h.link.apps_mut(), &mut handle_stream, 71, &Ok(answer.clone())),
        StreamStep::Dropped
    );
    let res = h.link.handle_reply(RelayReply::Delivered(answer.result.unwrap())).unwrap();
    assert_eq!(res, served);

    // a failure of the sink travels with its code and message
    let req = AppRequest { ord: 3, session_id: session.session_id.clone(), kind: 1, data: None };
    let call = relayed_handle(h.link.handle(&req, 61));
    let failure = SinkError::app(&call.message, 5, "no such thing", None);
    assert_eq!(failure.session_id, session.session_id);
    let answer = HandleResult::err(&reg.session_id, failure);
    assert_eq!(
        h.sink.handle(h.link.apps_mut(), &mut handle_stream, 71, &Ok(answer.clone())),
        StreamStep::Deliver(61)
    );
    let err = h.link.handle_reply(RelayReply::Delivered(answer.result.unwrap())).unwrap_err();
    assert_eq!(err.code, Code::NotFound);
    assert_eq!(err.message, "no such thing");
}

#[test]
fn a_second_call_on_one_session_displaces_the_first_slot() {
    let mut h = hubs();
    let (reg, mut auth_stream, _) = bound(&mut h);
    let mut relay = match h.link.apps_mut().remove(&AppId::from(APP)) {
        Some(HubApp::Sink(relay)) => relay,
        _ => panic!("register creates a relay"),
    };
    let req = auth_request(1);
    let first = relay.auth(11, "t", "a", "session-x", &req).unwrap();
    assert_eq!(first.displaced, None);
    let second = relay.auth(12, "t", "a", "session-x", &req).unwrap();
    assert_eq!(second.displaced, Some(11));
    assert_eq!(second.sender, 70);
    assert_eq!(second.message.link_session, "session-x");
    h.link.add_app(APP, HubApp::Sink(relay));
    let answer = AuthResult::ok(&reg.session_id, AuthResponse::confirm(&second.message));
    assert_eq!(
        h.sink.auth(h.link.apps_mut(), &mut auth_stream, 70, &Ok(answer)),
        StreamStep::Deliver(12)
    );
}

#[test]
fn stream_identity_consistency() {
    let mut h = hubs();
    let (reg, mut auth_stream, _) = bound(&mut h);
    let req = auth_request(1);
    let call = relayed_auth(h.link.auth(&req, 900));

    // a result under another sink session ends the stream
    let intruder = AuthResult::ok("another-sink-session", AuthResponse::confirm(&call.message));
    assert_eq!(
        h.sink.auth(h.link.apps_mut(), &mut auth_stream, 70, &Ok(intruder)),
        StreamStep::Stop(StreamEnd::BadSession)
    );
    assert!(!auth_stream.is_init);
    assert_eq!(auth_stream.sink_session, Some(SessionId(reg.session_id.clone())));
    assert_eq!(auth_stream.app, Some(AppId::from(APP)));

    // the slot still waits: the rightful answer finds it
    let answer = AuthResult::ok(&reg.session_id, AuthResponse::confirm(&call.message));
    assert_eq!(
        h.sink.auth(h.link.apps_mut(), &mut auth_stream, 70, &Ok(answer)),
        StreamStep::Deliver(900)
    );
}

#[test]
fn a_stream_must_open_with_a_live_sink_session() {
    let mut h = hubs();
    let _reg = register(&mut h);
    let mut stream = SinkStream::new();
    let unknown =
        AuthResult { sink_session: "nobody".to_owned(), result: Some(AuthReply::Failed(SinkError::init())) };
    assert_eq!(
        h.sink.auth(h.link.apps_mut(), &mut stream, 70, &Ok(unknown)),
        StreamStep::Stop(StreamEnd::InitFailed)
    );
    assert!(!stream.is_init);
    assert_eq!(stream.app, None);
    // nothing was bound
    match h.link.auth(&auth_request(1), 1) {
        AppStep::Done(Err(status)) => assert_eq!(status.code, Code::Internal),
        other => panic!("nothing is bound: {:?}", other),
    }
}

#[test]
fn a_stream_ends_on_failure_and_on_an_empty_message() {
    let mut h = hubs();
    let (reg, mut auth_stream, mut handle_stream) = bound(&mut h);
    let failure: Result<AuthResult, Status> = Err(Status::internal("transport"));
    assert_eq!(
        h.sink.auth(h.link.apps_mut(), &mut auth_stream, 70, &failure),
        StreamStep::Stop(StreamEnd::Failed)
    );
    let empty = HandleResult { sink_session: reg.session_id.clone(), result: None };
    assert_eq!(
        h.sink.handle(h.link.apps_mut(), &mut handle_stream, 71, &Ok(empty)),
        StreamStep::Stop(StreamEnd::Empty)
    );
}

#[test]
fn a_stream_on_an_application_that_is_no_relay_ends() {
    let mut h = hubs();
    h.link.add_app(APP, HubApp::Dummy(DummyApp {}));
    let reg = register(&mut h);
    let mut stream = SinkStream::new();
    assert_eq!(
        h.sink.auth(h.link.apps_mut(), &mut stream, 70, &Ok(AuthResult::init(&reg))),
        StreamStep::Stop(StreamEnd::NotRelay)
    );
    assert!(h.link.get_apps().contains(&AppId::from(APP)));
}

#[test]
fn the_sink_that_binds_last_gets_the_calls() {
    let mut h = hubs();
    let (reg, _, _) = bound(&mut h);
    let mut later = SinkStream::new();
    assert_eq!(
        h.sink.auth(h.link.apps_mut(), &mut later, 99, &Ok(AuthResult::init(&reg))),
        StreamStep::Dropped
    );
    let call = relayed_auth(h.link.auth(&auth_request(1), 1));
    assert_eq!(call.sender, 99);
}

#[test]
fn publish_is_not_served_yet() {
    let h = hubs();
    let err = h.sink.publish().unwrap_err();
    assert_eq!(err.code, Code::Unimplemented);
    assert_eq!(err.message, ErrorMessage::UNDER_CONSTRUCTION);
}

#[test]
fn notify_takes_the_slot_of_the_session_that_the_answer_names() {
    let mut relay = SinkApp::new(&AppId::from("app"), &vec![1, 2]);
    assert!(relay.auth(1, "t", "a", "s", &auth_request(1)).is_err());
    relay.set_auth_request_sender(5);
    relay.set_handle_request_sender(6);
    assert!(relay.auth(1, "t", "a", "s-1", &auth_request(1)).is_ok());
    assert!(relay.auth(2, "t", "a", "s-2", &auth_request(1)).is_ok());
    let granted = AuthReply::Granted(AuthResponse {
        ord: 1,
        session_id: "s-2".to_owned(),
        trace_id: String::new(),
        extra: None,
    });
    assert_eq!(relay.notify_auth(&granted), Some(2));
    assert_eq!(relay.notify_auth(&granted), None);
    let mut failed = SinkError::init();
    failed.session_id = "s-1".to_owned();
    assert_eq!(relay.notify_auth(&AuthReply::Failed(failed.clone())), Some(1));
    // the two tables are apart
    assert_eq!(relay.notify_handle(&HandleReply::Failed(failed)), None);
}

#[test]
fn a_sinks_failure_keeps_its_details() {
    let details = edger_hub::proto::Any { type_url: "/google.rpc.ErrorInfo".to_owned(), value: vec![8, 1, 18, 0] };
    let with = SinkError {
        ord: 3,
        session_id: "s".to_owned(),
        trace_id: "t".to_owned(),
        code: 9,
        message: "not now".to_owned(),
        details: Some(details.clone()),
    };
    let mut without = with.clone();
    without.details = None;

    let status = SinkApp::handle_reply(RelayReply::Delivered(HandleReply::Failed(with.clone()))).unwrap_err();
    assert_eq!(status.code, Code::FailedPrecondition);
    assert_eq!(status.message, "not now");
    assert_eq!(status.details, Some(details.clone()));
    let status = SinkApp::handle_reply(RelayReply::Delivered(HandleReply::Failed(without.clone()))).unwrap_err();
    assert_eq!(status.code, Code::FailedPrecondition);
    assert_eq!(status.message, "not now");
    assert_eq!(status.details, None);

    let status = SinkApp::auth_reply(RelayReply::Delivered(AuthReply::Failed(with.clone()))).unwrap_err();
    assert_eq!(status.details, Some(details.clone()));
    let status = SinkApp::auth_reply(RelayReply::Delivered(AuthReply::Failed(without))).unwrap_err();
    assert_eq!(status.details, None);

    // a broken relay has no details to give
    let status = SinkApp::handle_reply(RelayReply::Dropped("gone".to_owned())).unwrap_err();
    assert_eq!(status.details, None);
}

#[test]
fn details_travel_through_the_hub_to_the_link() {
    let mut h = hubs();
    let (reg, mut auth_stream, mut handle_stream) = bound(&mut h);
    let details = edger_hub::proto::Any { type_url: "/why".to_owned(), value: vec![1, 2, 3] };

    let req = auth_request(1);
    let call = relayed_auth(h.link.auth(&req, 41));
    let refusal = SinkError::auth(&call.message, 7, "no", Some(details.clone()));
    let answer = AuthResult::err(&reg.session_id, refusal);
    assert_eq!(
        h.sink.auth(h.link.apps_mut(), &mut auth_stream, 70, &Ok(answer.clone())),
        StreamStep::Deliver(41)
    );
    let err = h.link.auth_reply(&req, RelayReply::Delivered(answer.result.unwrap())).unwrap_err();
    assert_eq!(err.code, Code::PermissionDenied);
    assert_eq!(err.message, "no");
    assert_eq!(err.details, Some(details.clone()));

    // let the link in, then fail one of its requests with details
    let call = relayed_auth(h.link.auth(&req, 42));
    let grant = AuthResult::ok(&reg.session_id, AuthResponse::confirm(&call.message));
    assert_eq!(
        h.sink.auth(h.link.apps_mut(), &mut auth_stream, 70, &Ok(grant.clone())),
        StreamStep::Deliver(42)
    );
    let session = h.link.auth_reply(&req, RelayReply::Delivered(grant.result.unwrap())).unwrap();
    let app_req = AppRequest { ord: 2, session_id: session.session_id, kind: 1, data: None };
    let call = relayed_handle(h.link.handle(&app_req, 43));
    let failure = SinkError::app(&call.message, 14, "later", Some(details.clone()));
    let answer = HandleResult::err(&reg.session_id, failure);
    assert_eq!(
        h.sink.handle(h.link.apps_mut(), &mut handle_stream, 71, &Ok(answer.clone())),
        StreamStep::Deliver(43)
    );
    let err = h.link.handle_reply(RelayReply::Delivered(answer.result.unwrap())).unwrap_err();
    assert_eq!(err.code, Code::Unavailable);
    assert_eq!(err.message, "later");
    assert_eq!(err.details, Some(details));
}

#[test]
fn the_hubs_hand_out_their_authenticators() {
    let h = hubs();
    assert!(!edger_hub::link_authenticator::LinkAuthenticator::allow_multiple_sessions(h.link.authenticator()));
    assert!(SinkAuthenticator::allow_create_app(h.sink.authenticator()));
}
