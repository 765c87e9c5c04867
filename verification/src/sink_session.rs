//! A sink's session and the check that keeps its calls in order.

use crate::error::ErrorMessage;
use crate::hub_session::{AppId, SessionId, SinkId};
use crate::link_session::{last_ord_after, ord_accepted, stale_ord_status};
use crate::status::Status;
use vstd::prelude::*;
use vstd::string::StringExecFns;

verus! {

/// One sink's session with the application that it serves.
#[derive(Debug, PartialEq, Eq, Hash)]
pub struct AppSink {
    pub app_id: AppId,
    pub sink_id: SinkId,
    pub session_id: SessionId,
}

/// `AppSink` as contracts see it.
pub ghost struct AppSinkView {
    pub app_id: Seq<char>,
    pub sink_id: Seq<char>,
    pub session_id: Seq<char>,
}

impl View for AppSink {
    type V = AppSinkView;

    open spec fn view(&self) -> AppSinkView {
        AppSinkView { app_id: self.app_id@, sink_id: self.sink_id@, session_id: self.session_id@ }
    }
}

impl Clone for AppSink {
    fn clone(&self) -> (r: Self)
        ensures
            r@ == self@,
    {
        AppSink {
            app_id: self.app_id.clone(),
            sink_id: self.sink_id.clone(),
            session_id: self.session_id.clone(),
        }
    }
}

impl AppSink {
    /// The identity of `sink_id` in the session `session_id` on `app_id`.
    pub fn new(app_id: &AppId, sink_id: &SinkId, session_id: &SessionId) -> (r: Self)
        ensures
            r@ == (AppSinkView { app_id: app_id@, sink_id: sink_id@, session_id: session_id@ }),
    {
        AppSink {
            app_id: app_id.clone(),
            sink_id: sink_id.clone(),
            session_id: session_id.clone(),
        }
    }

    /// The three parts, joined by hyphens.
    pub fn describe(&self) -> (s: String)
        ensures
            s@ == self.app_id@ + seq!['-'] + self.sink_id@ + seq!['-'] + self.session_id@,
    {
        proof {
            reveal_strlit("-");
            assert("-"@ =~= seq!['-']);
        }
        let mut s = self.app_id.0.clone();
        s = s.concat("-");
        s = s.concat(self.sink_id.0.as_str());
        s = s.concat("-");
        s = s.concat(self.session_id.0.as_str());
        s
    }
}

/// The state of one sink's session: who it belongs to and the last sequence
/// number that was accepted.
#[derive(Debug)]
pub struct SinkSession {
    pub sink: AppSink,
    pub last_ord: u64,
}

/// `SinkSession` as contracts see it.
pub ghost struct SinkSessionView {
    pub sink: AppSinkView,
    pub last_ord: u64,
}

impl View for SinkSession {
    type V = SinkSessionView;

    open spec fn view(&self) -> SinkSessionView {
        SinkSessionView { sink: self.sink@, last_ord: self.last_ord }
    }
}

impl SinkSession {
    /// A session of `sink` whose first call must present more than
    /// `last_ord`.
    pub fn new(sink: AppSink, last_ord: u64) -> (s: Self)
        ensures
            s@ == (SinkSessionView { sink: sink@, last_ord }),
    {
        SinkSession { sink, last_ord }
    }

    /// Who the session belongs to, and the last accepted number.
    pub fn read_sink_last_ord(x: &SinkSession) -> (r: (AppSink, u64))
        ensures
            r.0@ == x.sink@,
            r.1 == x.last_ord,
    {
        (x.sink.clone(), x.last_ord)
    }

    /// Makes `ord` the last accepted number; nothing else changes.
    pub fn update_last_ord(x: &mut SinkSession, ord: u64)
        ensures
            final(x)@ == (SinkSessionView { last_ord: ord, ..old(x)@ }),
    {
        x.last_ord = ord;
    }

    /// The ordering check, as for a link's session: a number above the last
    /// accepted one is let through and becomes the last accepted one; any
    /// other is turned away as stale and leaves the session as it was.
    pub fn check_ord(session: &mut SinkSession, ord: u64) -> (r: Result<AppSink, Status>)
        ensures
            r is Ok <==> ord_accepted(old(session).last_ord, ord),
            r is Ok ==> r.unwrap()@ == old(session).sink@,
            r is Err ==> r.unwrap_err()@ == stale_ord_status(),
            final(session)@ == (SinkSessionView {
                last_ord: last_ord_after(old(session).last_ord, ord),
                ..old(session)@
            }),
    {
        let (sink, last_ord) = SinkSession::read_sink_last_ord(session);
        if ord <= last_ord {
            return Err(Status::aborted(ErrorMessage::INVALID_ORD));
        }
        SinkSession::update_last_ord(session, ord);
        Ok(sink)
    }
}

} // verus!
