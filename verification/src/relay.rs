//! What passes between the broker and the task that talks to a sink.
//!
//! The broker never waits. Where a call has to go to a sink, it records the
//! reply slot that the caller brought, and hands back a `RelayCall`: the
//! channel to send on and the message to send. The caller sends, waits on
//! its slot, and comes back with a `RelayReply`.

use crate::status::{Status, StatusView};
use vstd::prelude::*;

verus! {

/// A message for a sink, the channel that leads to it, and the reply slot
/// that this call pushed out of the table, if there was one: whoever waits
/// on that slot will get no answer.
#[derive(Debug)]
pub struct RelayCall<M> {
    pub sender: u64,
    pub message: M,
    pub displaced: Option<u64>,
}

/// `RelayCall` as contracts see it.
pub ghost struct RelayCallView<MV> {
    pub sender: u64,
    pub message: MV,
    pub displaced: Option<u64>,
}

impl<M: View> View for RelayCall<M> {
    type V = RelayCallView<M::V>;

    open spec fn view(&self) -> RelayCallView<M::V> {
        RelayCallView { sender: self.sender, message: self.message@, displaced: self.displaced }
    }
}

/// How a relayed call ended for the one who waited on the slot.
#[derive(Debug)]
pub enum RelayReply<R> {
    /// The sink answered.
    Delivered(R),
    /// The message could not be put on the channel; the text says why.
    NotSent(String),
    /// The slot was dropped before an answer came; the text says so.
    Dropped(String),
}

/// `RelayReply` as contracts see it.
pub ghost enum RelayReplyView<RV> {
    Delivered(RV),
    NotSent(Seq<char>),
    Dropped(Seq<char>),
}

impl<R: View> View for RelayReply<R> {
    type V = RelayReplyView<R::V>;

    open spec fn view(&self) -> RelayReplyView<R::V> {
        match self {
            RelayReply::Delivered(r) => RelayReplyView::Delivered(r@),
            RelayReply::NotSent(m) => RelayReplyView::NotSent(m@),
            RelayReply::Dropped(m) => RelayReplyView::Dropped(m@),
        }
    }
}

/// The view of a call's result.
pub open spec fn result_view<T: View>(r: Result<T, Status>) -> Result<T::V, StatusView> {
    match r {
        Ok(t) => Ok(t@),
        Err(e) => Err(e@),
    }
}

/// What an entry point decided: the call is over, or it goes to a sink.
#[derive(Debug)]
pub enum AppStep<T, M> {
    Done(Result<T, Status>),
    Relay(RelayCall<M>),
}

/// `AppStep` as contracts see it.
pub ghost enum AppStepView<TV, MV> {
    Done(Result<TV, StatusView>),
    Relay(RelayCallView<MV>),
}

impl<T: View, M: View> View for AppStep<T, M> {
    type V = AppStepView<T::V, M::V>;

    open spec fn view(&self) -> AppStepView<T::V, M::V> {
        match self {
            AppStep::Done(r) => AppStepView::Done(result_view(*r)),
            AppStep::Relay(c) => AppStepView::Relay(c@),
        }
    }
}

} // verus!
