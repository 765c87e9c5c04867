//! A link's session and the check that keeps its calls in order.

use crate::error::ErrorMessage;
use crate::hub_app::{AppLink, AppLinkView};
use crate::proto::AppRequest;
use crate::status::{Code, Status, StatusView};
use std::collections::{HashMap, HashSet};
use vstd::prelude::*;

verus! {

/// The state of one link's session: who it belongs to, the last sequence
/// number that was accepted, the topics subscribed to and the requests that
/// wait for an answer.
#[derive(Debug)]
pub struct LinkSession {
    pub link: AppLink,
    pub last_ord: u64,
    pub subscriptions: HashSet<String>,
    pub pending_requests: HashMap<u64, AppRequest>,
}

/// `LinkSession` as contracts see it.
pub ghost struct LinkSessionView {
    pub link: AppLinkView,
    pub last_ord: u64,
    pub subscriptions: Set<String>,
    pub pending_requests: Map<u64, AppRequest>,
}

impl View for LinkSession {
    type V = LinkSessionView;

    open spec fn view(&self) -> LinkSessionView {
        LinkSessionView {
            link: self.link@,
            last_ord: self.last_ord,
            subscriptions: self.subscriptions@,
            pending_requests: self.pending_requests@,
        }
    }
}

/// Whether a call that presents `ord` is in order after `last_ord`.
pub open spec fn ord_accepted(last_ord: u64, ord: u64) -> bool {
    ord > last_ord
}

/// The last accepted number after a call that presented `ord`.
pub open spec fn last_ord_after(last_ord: u64, ord: u64) -> u64 {
    if ord_accepted(last_ord, ord) {
        ord
    } else {
        last_ord
    }
}

/// The last accepted number after calls that presented `ords`, one after
/// the other.
pub open spec fn last_ord_after_all(last_ord: u64, ords: Seq<u64>) -> u64
    decreases ords.len(),
{
    if ords.len() == 0 {
        last_ord
    } else {
        last_ord_after(last_ord_after_all(last_ord, ords.drop_last()), ords.last())
    }
}

/// The status of a call whose sequence number is stale.
pub open spec fn stale_ord_status() -> StatusView {
    StatusView { code: Code::Aborted, message: ErrorMessage::INVALID_ORD@, details: None }
}

/// A new session as the view sees it.
pub open spec fn new_link_session(link: AppLinkView, last_ord: u64) -> LinkSessionView {
    LinkSessionView {
        link,
        last_ord,
        subscriptions: Set::empty(),
        pending_requests: Map::empty(),
    }
}

impl LinkSession {
    /// A session of `link` whose first call must present more than
    /// `last_ord`.
    pub fn new(link: AppLink, last_ord: u64) -> (s: Self)
        ensures
            s@ == new_link_session(link@, last_ord),
    {
        LinkSession { link, last_ord, subscriptions: HashSet::new(), pending_requests: HashMap::new() }
    }

    /// Who the session belongs to, and the last accepted number.
    pub fn read_link_last_ord(x: &LinkSession) -> (r: (AppLink, u64))
        ensures
            r.0@ == x.link@,
            r.1 == x.last_ord,
    {
        (x.link.clone(), x.last_ord)
    }

    /// Makes `ord` the last accepted number; nothing else changes.
    pub fn update_last_ord(x: &mut LinkSession, ord: u64)
        ensures
            final(x)@ == (LinkSessionView { last_ord: ord, ..old(x)@ }),
    {
        x.last_ord = ord;
    }

    /// The ordering check. A call that presents more than the last accepted
    /// number is let through, its number becomes the last accepted one, and
    /// the session's owner comes back. Any other call is turned away as
    /// stale and leaves the session as it was.
    pub fn check_ord(session: &mut LinkSession, ord: u64) -> (r: Result<AppLink, Status>)
        ensures
            r is Ok <==> ord_accepted(old(session).last_ord, ord),
            r is Ok ==> r.unwrap()@ == old(session).link@,
            r is Err ==> r.unwrap_err()@ == stale_ord_status(),
            final(session)@ == (LinkSessionView {
                last_ord: last_ord_after(old(session).last_ord, ord),
                ..old(session)@
            }),
    {
        let (link, last_ord) = LinkSession::read_link_last_ord(session);
        if ord <= last_ord {
            return Err(Status::aborted(ErrorMessage::INVALID_ORD));
        }
        LinkSession::update_last_ord(session, ord);
        Ok(link)
    }
}

/// After calls that presented `ords` in rising order, the last of them
/// being accepted, the last accepted number is the last of `ords`.
proof fn lemma_last_ord_of_rising(last_ord: u64, ords: Seq<u64>)
    requires
        ords.len() > 0,
        last_ord < ords[0],
        forall|i: int, j: int| 0 <= i < j < ords.len() ==> ords[i] < ords[j],
    ensures
        last_ord_after_all(last_ord, ords) == ords.last(),
    decreases ords.len(),
{
    let init = ords.drop_last();
    if init.len() > 0 {
        assert(init[0] == ords[0]);
        assert forall|i: int, j: int| 0 <= i < j < init.len() implies init[i] < init[j] by {
            assert(init[i] == ords[i] && init[j] == ords[j]);
        }
        lemma_last_ord_of_rising(last_ord, init);
        assert(init.last() == ords[ords.len() - 2]);
    } else {
        assert(last_ord_after_all(last_ord, init) == last_ord);
        assert(ords.last() == ords[0]);
    }
}

/// Monotonic ordering: on a session whose last accepted number is
/// `last_ord`, calls that present numbers in strictly rising order, the
/// first above `last_ord`, are all accepted, each in the state that the
/// calls before it left; and the session ends with the last of them.
pub proof fn lemma_rising_ords_all_accepted(last_ord: u64, ords: Seq<u64>)
    requires
        ords.len() > 0 ==> last_ord < ords[0],
        forall|i: int, j: int| 0 <= i < j < ords.len() ==> ords[i] < ords[j],
    ensures
        forall|k: int|
            0 <= k < ords.len() ==> ord_accepted(
                last_ord_after_all(last_ord, #[trigger] ords.take(k)),
                ords[k],
            ),
        ords.len() > 0 ==> last_ord_after_all(last_ord, ords) == ords.last(),
{
    assert forall|k: int| 0 <= k < ords.len() implies ord_accepted(
        last_ord_after_all(last_ord, #[trigger] ords.take(k)),
        ords[k],
    ) by {
        let prefix = ords.take(k);
        if k > 0 {
            assert(prefix[0] == ords[0]);
            assert forall|i: int, j: int| 0 <= i < j < prefix.len() implies prefix[i]
                < prefix[j] by {
                assert(prefix[i] == ords[i] && prefix[j] == ords[j]);
            }
            lemma_last_ord_of_rising(last_ord, prefix);
            assert(prefix.last() == ords[k - 1]);
        } else {
            assert(last_ord_after_all(last_ord, prefix) == last_ord);
        }
    }
    if ords.len() > 0 {
        lemma_last_ord_of_rising(last_ord, ords);
    }
}

/// A stale call changes nothing: whatever `ord` at or below the last
/// accepted number is presented, that number stays.
pub proof fn lemma_stale_ord_keeps_last(last_ord: u64, ord: u64)
    requires
        ord <= last_ord,
    ensures
        !ord_accepted(last_ord, ord),
        last_ord_after(last_ord, ord) == last_ord,
{
}

} // verus!
