use edger_hub::hub_app::AppLink;
use edger_hub::hub_session::{AppId, LinkId, SessionId};
use edger_hub::link_session::LinkSession;
use edger_hub::status::Code;

fn session(last_ord: u64) -> LinkSession {
    let link = AppLink::new(&AppId::from("app"), &LinkId::from("link"), &SessionId::from("s"), "addr");
    LinkSession::new(link, last_ord)
}

#[test]
fn rising_ords_are_all_accepted() {
    let mut s = session(1);
    for ord in [2u64, 3, 10, 11, 500] {
        let link = LinkSession::check_ord(&mut s, ord).expect("in order");
        assert_eq!(link.session_id, SessionId::from("s"));
        assert_eq!(s.last_ord, ord);
    }
}

#[test]
fn stale_ord_is_aborted_and_keeps_last_ord() {
    let mut s = session(7);
    let err = LinkSession::check_ord(&mut s, 7).unwrap_err();
    assert_eq!(err.code, Code::Aborted);
    assert_eq!(err.message, "INVALID_ORD");
    assert_eq!(s.last_ord, 7);
    let err = LinkSession::check_ord(&mut s, 3).unwrap_err();
    assert_eq!(err.code, Code::Aborted);
    assert_eq!(s.last_ord, 7);
    assert!(LinkSession::check_ord(&mut s, 8).is_ok());
    assert_eq!(s.last_ord, 8);
}
