//! Who may come in as a sink, and under which session.

use crate::error::ErrorMessage;
use crate::hub_session::SessionId;
use crate::link_authenticator::{
    admit_by_uuid, denied, uuid_text_accepted, uuid_verdict, PublicUuidAuthenticator,
};
use crate::proto::{RegisterRequest, RegisterRequestView};
use crate::relay::result_view;
use crate::status::{Status, StatusView};
use vstd::prelude::*;

verus! {

/// The policy of the sink side: as for links, and whether a sink may bring
/// an application that the registry does not know yet.
pub trait SinkAuthenticator {
    /// Whether registering an unknown application creates it. It does
    /// unless the implementation says otherwise.
    open spec fn app_creation_allowed(&self) -> bool {
        true
    }

    /// Whether one sink may hold several sessions at once. Not unless the
    /// implementation says so.
    open spec fn multiple_sessions_allowed(&self) -> bool {
        false
    }

    /// Whether a sink's older sessions give way to a new one where only one
    /// is allowed. They do unless the implementation says otherwise.
    open spec fn old_sessions_kicked(&self) -> bool {
        true
    }

    fn allow_create_app(&self) -> (b: bool)
        ensures
            b == self.app_creation_allowed(),
    ;

    fn allow_multiple_sessions(&self) -> (b: bool)
        ensures
            b == self.multiple_sessions_allowed(),
    ;

    fn kick_old_sessions(&self) -> (b: bool)
        ensures
            b == self.old_sessions_kicked(),
    ;

    /// Whether `verdict` is an answer that this authenticator may give to
    /// `req`: the session id under which the sink is let in, or the status
    /// with which it is turned away. Any answer, unless the implementation
    /// says more.
    open spec fn may_answer(
        &self,
        req: RegisterRequestView,
        verdict: Result<Seq<char>, StatusView>,
    ) -> bool {
        true
    }

    /// Lets the party of `req` in under the session id that comes back, or
    /// says why not.
    fn auth(&self, req: &RegisterRequest) -> (r: Result<SessionId, Status>)
        ensures
            self.may_answer(req@, result_view(r)),
    ;
}

impl SinkAuthenticator for PublicUuidAuthenticator {
    fn allow_create_app(&self) -> (b: bool) {
        true
    }

    fn allow_multiple_sessions(&self) -> (b: bool) {
        false
    }

    fn kick_old_sessions(&self) -> (b: bool) {
        true
    }

    open spec fn may_answer(
        &self,
        req: RegisterRequestView,
        verdict: Result<Seq<char>, StatusView>,
    ) -> bool {
        uuid_verdict(req.sink_id, ErrorMessage::INVALID_SINK_ID@, verdict)
    }

    fn auth(&self, req: &RegisterRequest) -> (r: Result<SessionId, Status>)
        ensures
            r is Ok <==> uuid_text_accepted(req.sink_id@),
            r is Ok ==> r.unwrap()@.len() == 36,
            r is Err ==> r.unwrap_err()@ == denied(ErrorMessage::INVALID_SINK_ID@),
    {
        admit_by_uuid(req.sink_id.as_str(), ErrorMessage::INVALID_SINK_ID)
    }
}

} // verus!
