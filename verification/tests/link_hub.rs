use edger_hub::error::ErrorMessage;
use edger_hub::hub_app::{DummyApp, HubApp};
use edger_hub::hub_session::{AppId, LinkId, SessionId};
use edger_hub::link_authenticator::{LinkAuthenticator, PublicUuidAuthenticator};
use edger_hub::link_hub::{forward_event, ForwardAction, ForwardEvent, LinkHub, Resolved};
use edger_hub::proto::{Any, AppEvent, AppRequest, AppSubscribe, AuthRequest, AuthResponse};
use edger_hub::relay::AppStep;
use edger_hub::status::{Code, Status};

const LINK: &str = "550e8400-e29b-41d4-a716-446655440000";
const OTHER_LINK: &str = "6ba7b810-9dad-11d1-80b4-00c04fd430c8";

/// Lets a link hold several sessions; hands out the ids that it was given,
/// one with each call.
struct ManyAuthenticator {
    kick: bool,
    multiple: bool,
    ids: std::cell::RefCell<Vec<&'static str>>,
}

impl ManyAuthenticator {
    fn new(multiple: bool, kick: bool, ids: &[&'static str]) -> Self {
        let mut ids: Vec<&'static str> = ids.to_vec();
        ids.reverse();
        ManyAuthenticator { kick, multiple, ids: std::cell::RefCell::new(ids) }
    }
}

impl LinkAuthenticator for ManyAuthenticator {
    fn allow_multiple_sessions(&self) -> bool {
        self.multiple
    }

    fn kick_old_sessions(&self) -> bool {
        self.kick
    }

    fn auth(&self, _req: &AuthRequest) -> Result<SessionId, Status> {
        match self.ids.borrow_mut().pop() {
            Some(id) => Ok(SessionId::from(id)),
            None => Err(Status::permission_denied("NO_MORE_IDS")),
        }
    }
}

fn auth_request(ord: u64, app_id: &str, link_id: &str) -> AuthRequest {
    AuthRequest {
        ord,
        app_id: app_id.to_owned(),
        link_id: link_id.to_owned(),
        token: "secret-token".to_owned(),
        extra: None,
    }
}

fn app_request(ord: u64, session_id: &str) -> AppRequest {
    AppRequest {
        ord,
        session_id: session_id.to_owned(),
        kind: 3,
        data: Some(Any { type_url: "/echo".to_owned(), value: vec![1, 2, 3] }),
    }
}

fn done_auth(step: AppStep<AuthResponse, edger_hub::proto::LinkAuthRequest>) -> Result<AuthResponse, Status> {
    match step {
        AppStep::Done(r) => r,
        AppStep::Relay(_) => panic!("the echo application relays nothing"),
    }
}

fn done_handle(
    step: AppStep<edger_hub::proto::AppResponse, edger_hub::proto::LinkAppRequest>,
) -> Result<edger_hub::proto::AppResponse, Status> {
    match step {
        AppStep::Done(r) => r,
        AppStep::Relay(_) => panic!("the echo application relays nothing"),
    }
}

fn echo_hub() -> LinkHub<PublicUuidAuthenticator> {
    LinkHub::new(PublicUuidAuthenticator {}, Some(HubApp::Dummy(DummyApp {})))
}

#[test]
fn auth_gives_a_session_and_echoes_the_ord() {
    let mut hub = echo_hub();
    let res = done_auth(hub.auth(&auth_request(5, "any-app", LINK), 0)).expect("a uuid is let in");
    assert_eq!(res.ord, 5);
    assert_eq!(res.trace_id, "TODO");
    assert_eq!(res.extra, None);
    assert_eq!(res.session_id.len(), 36);
    assert!(uuid::Uuid::parse_str(&res.session_id).is_ok());
    let link = hub.get_session(&res.session_id).expect("the session is live");
    assert_eq!(link.app_id, AppId::from("any-app"));
    assert_eq!(link.link_id, LinkId::from(LINK));
    assert_eq!(link.session_id, SessionId(res.session_id.clone()));
    assert_eq!(link.link_address, "TODO");
    assert_eq!(hub.get_link_session_ids(&LinkId::from(LINK)), Some(vec![SessionId(res.session_id)]));
    assert_eq!(hub.get_link_session_ids(&LinkId::from(OTHER_LINK)), None);
}

#[test]
fn auth_turns_away_what_is_no_uuid() {
    let mut hub = echo_hub();
    let err = done_auth(hub.auth(&auth_request(1, "app", "not-a-uuid"), 0)).unwrap_err();
    assert_eq!(err.code, Code::PermissionDenied);
    assert_eq!(err.message, ErrorMessage::INVALID_LINK_ID);
    assert_eq!(hub.get_link_session_ids(&LinkId::from("not-a-uuid")), None);
}

#[test]
fn single_session_eviction() {
    let mut hub = echo_hub();
    let first = done_auth(hub.auth(&auth_request(1, "app", LINK), 0)).unwrap();
    let second = done_auth(hub.auth(&auth_request(1, "app", LINK), 0)).unwrap();
    assert_ne!(first.session_id, second.session_id);
    let err = done_handle(hub.handle(&app_request(2, &first.session_id), 0)).unwrap_err();
    assert_eq!(err.code, Code::PermissionDenied);
    assert_eq!(err.message, ErrorMessage::INVALID_SESSION_ID);
    assert!(done_handle(hub.handle(&app_request(2, &second.session_id), 0)).is_ok());
    assert_eq!(
        hub.get_link_session_ids(&LinkId::from(LINK)),
        Some(vec![SessionId(second.session_id)])
    );
}

#[test]
fn eviction_touches_no_other_link() {
    let mut hub = echo_hub();
    let other = done_auth(hub.auth(&auth_request(1, "app", OTHER_LINK), 0)).unwrap();
    let _first = done_auth(hub.auth(&auth_request(1, "app", LINK), 0)).unwrap();
    let _second = done_auth(hub.auth(&auth_request(1, "app", LINK), 0)).unwrap();
    assert!(hub.get_session(&other.session_id).is_ok());
}

#[test]
fn multi_session_retention() {
    let auth = ManyAuthenticator::new(true, true, &["s-1", "s-2"]);
    let mut hub = LinkHub::new(auth, Some(HubApp::Dummy(DummyApp {})));
    let first = done_auth(hub.auth(&auth_request(1, "app", "link"), 0)).unwrap();
    let second = done_auth(hub.auth(&auth_request(1, "app", "link"), 0)).unwrap();
    assert_eq!(first.session_id, "s-1");
    assert_eq!(second.session_id, "s-2");
    assert!(done_handle(hub.handle(&app_request(2, "s-1"), 0)).is_ok());
    assert!(done_handle(hub.handle(&app_request(2, "s-2"), 0)).is_ok());
    assert_eq!(
        hub.get_link_session_ids(&LinkId::from("link")),
        Some(vec![SessionId::from("s-1"), SessionId::from("s-2")])
    );
}

#[test]
fn second_auth_is_refused_where_old_sessions_stay() {
    let auth = ManyAuthenticator::new(false, false, &["s-1", "s-2"]);
    let mut hub = LinkHub::new(auth, Some(HubApp::Dummy(DummyApp {})));
    assert!(done_auth(hub.auth(&auth_request(1, "app", "link"), 0)).is_ok());
    let err = done_auth(hub.auth(&auth_request(1, "app", "link"), 0)).unwrap_err();
    assert_eq!(err.code, Code::PermissionDenied);
    assert_eq!(err.message, ErrorMessage::ALREADY_AUTHENTICATED);
    assert!(hub.get_session(&"s-1".to_owned()).is_ok());
    assert!(done_auth(hub.auth(&auth_request(1, "app", "other"), 0)).is_ok());
}

#[test]
fn the_authenticators_refusal_reaches_the_link() {
    let auth = ManyAuthenticator::new(false, true, &[]);
    let mut hub = LinkHub::new(auth, Some(HubApp::Dummy(DummyApp {})));
    let err = done_auth(hub.auth(&auth_request(1, "app", "link"), 0)).unwrap_err();
    assert_eq!(err.code, Code::PermissionDenied);
    assert_eq!(err.message, "NO_MORE_IDS");
    assert_eq!(hub.get_link_session_ids(&LinkId::from("link")), None);
}

#[test]
fn fallback_serves_an_unregistered_app() {
    let mut hub = echo_hub();
    assert_eq!(hub.get_app(&AppId::from("nobody")).unwrap(), Resolved::Fallback);
    let auth = done_auth(hub.auth(&auth_request(1, "nobody", LINK), 0)).unwrap();
    let req = app_request(2, &auth.session_id);
    let res = done_handle(hub.handle(&req, 0)).expect("the fallback echoes");
    assert_eq!(res.ord, 2);
    assert_eq!(res.session_id, auth.session_id);
    assert_eq!(res.trace_id, "TODO");
    assert_eq!(res.kind, 3);
    assert_eq!(res.data, req.data);
}

#[test]
fn without_fallback_an_unregistered_app_is_unknown() {
    let mut hub: LinkHub<PublicUuidAuthenticator> = LinkHub::new(PublicUuidAuthenticator {}, None);
    let err = hub.get_app(&AppId::from("nobody")).unwrap_err();
    assert_eq!(err.code, Code::PermissionDenied);
    assert_eq!(err.message, ErrorMessage::INVALID_APP_ID);
    let err = done_auth(hub.auth(&auth_request(1, "nobody", LINK), 0)).unwrap_err();
    assert_eq!(err.code, Code::PermissionDenied);
    assert_eq!(err.message, ErrorMessage::INVALID_APP_ID);

    hub.add_app("known", HubApp::Dummy(DummyApp {}));
    assert_eq!(hub.get_app(&AppId::from("known")).unwrap(), Resolved::Registered);
    let auth = done_auth(hub.auth(&auth_request(1, "known", LINK), 0)).unwrap();
    assert!(hub.apps_mut().remove(&AppId::from("known")).is_some());
    let err = done_handle(hub.handle(&app_request(2, &auth.session_id), 0)).unwrap_err();
    assert_eq!(err.code, Code::PermissionDenied);
    assert_eq!(err.message, ErrorMessage::INVALID_APP_ID);
}

#[test]
fn handle_checks_the_order() {
    let mut hub = echo_hub();
    let auth = done_auth(hub.auth(&auth_request(10, "app", LINK), 0)).unwrap();
    let err = done_handle(hub.handle(&app_request(10, &auth.session_id), 0)).unwrap_err();
    assert_eq!(err.code, Code::Aborted);
    assert_eq!(err.message, ErrorMessage::INVALID_ORD);
    assert!(done_handle(hub.handle(&app_request(11, &auth.session_id), 0)).is_ok());
    assert!(done_handle(hub.handle(&app_request(12, &auth.session_id), 0)).is_ok());
    let err = done_handle(hub.handle(&app_request(12, &auth.session_id), 0)).unwrap_err();
    assert_eq!(err.code, Code::Aborted);
    let err = done_handle(hub.handle(&app_request(3, &auth.session_id), 0)).unwrap_err();
    assert_eq!(err.code, Code::Aborted);
    assert!(done_handle(hub.handle(&app_request(u64::MAX, &auth.session_id), 0)).is_ok());
    let err = done_handle(hub.handle(&app_request(u64::MAX, &auth.session_id), 0)).unwrap_err();
    assert_eq!(err.code, Code::Aborted);
}

#[test]
fn check_session_ord_gives_the_owner() {
    let mut hub = echo_hub();
    let auth = done_auth(hub.auth(&auth_request(0, "app", LINK), 0)).unwrap();
    let link = hub.check_session_ord(&auth.session_id, 1).unwrap();
    assert_eq!(link.link_id, LinkId::from(LINK));
    assert_eq!(link.app_id, AppId::from("app"));
    let err = hub.check_session_ord(&"unknown".to_owned(), 1).unwrap_err();
    assert_eq!(err.code, Code::PermissionDenied);
    assert_eq!(err.message, ErrorMessage::INVALID_SESSION_ID);
}

#[test]
fn subscribe_is_not_served_yet() {
    let mut hub = echo_hub();
    let auth = done_auth(hub.auth(&auth_request(0, "app", LINK), 0)).unwrap();
    let sub = AppSubscribe { ord: 1, session_id: auth.session_id.clone(), topic: "news".to_owned() };
    let err = hub.subscribe(&sub).unwrap_err();
    assert_eq!(err.code, Code::Unimplemented);
    assert_eq!(err.message, ErrorMessage::UNDER_CONSTRUCTION);
    // the ordering check has run: the same ord is stale now
    let err = hub.subscribe(&sub).unwrap_err();
    assert_eq!(err.code, Code::Aborted);
    let unknown = AppSubscribe { ord: 1, session_id: "unknown".to_owned(), topic: "news".to_owned() };
    let err = hub.subscribe(&unknown).unwrap_err();
    assert_eq!(err.code, Code::PermissionDenied);
    assert_eq!(err.message, ErrorMessage::INVALID_SESSION_ID);
}

#[test]
fn events_are_forwarded_until_a_side_is_gone() {
    let event = AppEvent { topic: "news".to_owned(), kind: 1, data: None };
    match forward_event(ForwardEvent::Received(event)) {
        ForwardAction::Send(e) => assert_eq!(e.topic, "news"),
        other => panic!("an event goes out, not {:?}", other),
    }
    assert!(matches!(forward_event(ForwardEvent::Sent), ForwardAction::Receive));
    assert!(matches!(forward_event(ForwardEvent::SourceClosed), ForwardAction::Stop));
    assert!(matches!(forward_event(ForwardEvent::SendFailed), ForwardAction::Stop));
}

#[test]
fn a_registered_app_goes_before_the_fallback() {
    let mut hub = echo_hub();
    hub.add_app("known", HubApp::Dummy(DummyApp {}));
    assert_eq!(hub.get_app(&AppId::from("known")).unwrap(), Resolved::Registered);
    assert_eq!(hub.get_app(&AppId::from("other")).unwrap(), Resolved::Fallback);
    assert!(hub.get_apps().contains(&AppId::from("known")));
    assert!(!hub.get_apps().contains(&AppId::from("other")));
}
