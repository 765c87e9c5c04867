//! Who may come in as a link, and under which session.

use crate::error::ErrorMessage;
use crate::hub_session::SessionId;
use crate::proto::{AuthRequest, AuthRequestView};
use crate::relay::result_view;
use crate::status::{Code, Status, StatusView};
use vstd::prelude::*;

verus! {

/// The policy of the link side. An implementation answers one question
/// with each call of `auth`: is this party let in, and under which session
/// id. The two switches say what happens to a link that comes a second
/// time.
pub trait LinkAuthenticator {
    /// Whether one link may hold several sessions at once. Not unless the
    /// implementation says so.
    open spec fn multiple_sessions_allowed(&self) -> bool {
        false
    }

    /// Whether a link's older sessions give way to a new one where only one
    /// is allowed. They do unless the implementation says otherwise.
    open spec fn old_sessions_kicked(&self) -> bool {
        true
    }

    fn allow_multiple_sessions(&self) -> (b: bool)
        ensures
            b == self.multiple_sessions_allowed(),
    ;

    fn kick_old_sessions(&self) -> (b: bool)
        ensures
            b == self.old_sessions_kicked(),
    ;

    /// Whether `verdict` is an answer that this authenticator may give to
    /// `req`: the session id under which the party is let in, or the
    /// status with which it is turned away. Any answer, unless the
    /// implementation says more.
    open spec fn may_answer(
        &self,
        req: AuthRequestView,
        verdict: Result<Seq<char>, StatusView>,
    ) -> bool {
        true
    }

    /// Lets the party of `req` in under the session id that comes back, or
    /// says why not.
    fn auth(&self, req: &AuthRequest) -> (r: Result<SessionId, Status>)
        ensures
            self.may_answer(req@, result_view(r)),
    ;
}

/// Whether `uuid::Uuid::parse_str` reads `text` as a UUID.
pub uninterp spec fn uuid_text_accepted(text: Seq<char>) -> bool;

/// `uuid::Uuid::parse_str`: whether `text` is a UUID in one of the forms
/// that the crate reads.
#[verifier::external_body]
pub(crate) fn is_uuid_text(text: &str) -> (accepted: bool)
    ensures
        accepted == uuid_text_accepted(text@),
{
    uuid::Uuid::parse_str(text).is_ok()
}

/// `uuid::Uuid::new_v4`, printed: a random UUID in the hyphenated form,
/// which is 36 characters long. Fails only where the system has no source
/// of randomness.
#[verifier::external_body]
pub(crate) fn random_uuid_text() -> (text: String)
    ensures
        text@.len() == 36,
{
    uuid::Uuid::new_v4().to_string()
}

/// The status of a party that is turned away with `message`.
pub open spec fn denied(message: Seq<char>) -> StatusView {
    StatusView { code: Code::PermissionDenied, message, details: None }
}

/// The verdict on a party, once it is known whether its identity reads as
/// a UUID: the session `token` if it does, a denial with `message` if not.
pub fn verdict(accepted: bool, token: String, message: &str) -> (r: Result<SessionId, Status>)
    ensures
        r is Ok <==> accepted,
        r is Ok ==> r.unwrap()@ == token@,
        r is Err ==> r.unwrap_err()@ == denied(message@),
{
    if accepted {
        Ok(SessionId(token))
    } else {
        Err(Status::permission_denied(message))
    }
}

/// What the authenticator that asks for a UUID may answer to a party that
/// names itself `identity`: a session id of 36 characters if the identity
/// reads as a UUID, a denial with `message` if not.
pub open spec fn uuid_verdict(
    identity: Seq<char>,
    message: Seq<char>,
    verdict: Result<Seq<char>, StatusView>,
) -> bool {
    match verdict {
        Ok(session_id) => uuid_text_accepted(identity) && session_id.len() == 36,
        Err(status) => !uuid_text_accepted(identity) && status == denied(message),
    }
}

/// Lets in whoever names itself by a UUID, under a fresh random session
/// id, and turns everyone else away with `message`.
pub fn admit_by_uuid(identity: &str, message: &str) -> (r: Result<SessionId, Status>)
    ensures
        r is Ok <==> uuid_text_accepted(identity@),
        r is Ok ==> r.unwrap()@.len() == 36,
        r is Err ==> r.unwrap_err()@ == denied(message@),
        uuid_verdict(identity@, message@, result_view(r)),
{
    if is_uuid_text(identity) {
        verdict(true, random_uuid_text(), message)
    } else {
        verdict(false, String::new(), message)
    }
}

/// The authenticator that asks for nothing but a UUID as identity. It
/// allows one session for each party, and a newcomer pushes the old one
/// out.
#[derive(Debug)]
pub struct PublicUuidAuthenticator {}

impl LinkAuthenticator for PublicUuidAuthenticator {
    fn allow_multiple_sessions(&self) -> (b: bool) {
        false
    }

    fn kick_old_sessions(&self) -> (b: bool) {
        true
    }

    open spec fn may_answer(
        &self,
        req: AuthRequestView,
        verdict: Result<Seq<char>, StatusView>,
    ) -> bool {
        uuid_verdict(req.link_id, ErrorMessage::INVALID_LINK_ID@, verdict)
    }

    fn auth(&self, req: &AuthRequest) -> (r: Result<SessionId, Status>)
        ensures
            r is Ok <==> uuid_text_accepted(req.link_id@),
            r is Ok ==> r.unwrap()@.len() == 36,
            r is Err ==> r.unwrap_err()@ == denied(ErrorMessage::INVALID_LINK_ID@),
    {
        admit_by_uuid(req.link_id.as_str(), ErrorMessage::INVALID_LINK_ID)
    }
}

} // verus!
