//! Identities: of a link, of a sink, of a session and of an application.
//! Each wraps a string and is equal to another of its kind exactly when the
//! strings are; none converts into another.

use vstd::prelude::*;
use vstd::std_specs::convert::FromSpecImpl;

verus! {

/// The identity of a link, a front-end caller.
#[derive(Debug, PartialEq, Eq, Hash)]
pub struct LinkId(pub String);

/// The identity of a session.
#[derive(Debug, PartialEq, Eq, Hash)]
pub struct SessionId(pub String);

/// The identity of a sink, a back-end worker.
#[derive(Debug, PartialEq, Eq, Hash)]
pub struct SinkId(pub String);

/// The identity of an application.
#[derive(Debug, PartialEq, Eq, Hash)]
pub struct AppId(pub String);

impl View for LinkId {
    type V = Seq<char>;

    open spec fn view(&self) -> Seq<char> {
        self.0@
    }
}

impl View for SessionId {
    type V = Seq<char>;

    open spec fn view(&self) -> Seq<char> {
        self.0@
    }
}

impl View for SinkId {
    type V = Seq<char>;

    open spec fn view(&self) -> Seq<char> {
        self.0@
    }
}

impl View for AppId {
    type V = Seq<char>;

    open spec fn view(&self) -> Seq<char> {
        self.0@
    }
}

impl Clone for LinkId {
    fn clone(&self) -> (r: Self)
        ensures
            r@ == self@,
    {
        LinkId(self.0.clone())
    }
}

impl Clone for SessionId {
    fn clone(&self) -> (r: Self)
        ensures
            r@ == self@,
    {
        SessionId(self.0.clone())
    }
}

impl Clone for SinkId {
    fn clone(&self) -> (r: Self)
        ensures
            r@ == self@,
    {
        SinkId(self.0.clone())
    }
}

impl Clone for AppId {
    fn clone(&self) -> (r: Self)
        ensures
            r@ == self@,
    {
        AppId(self.0.clone())
    }
}

impl From<&str> for LinkId {
    fn from(v: &str) -> (r: Self)
        ensures
            r@ == v@,
    {
        LinkId(v.to_owned())
    }
}

impl FromSpecImpl<&str> for LinkId {
    open spec fn obeys_from_spec() -> bool {
        false
    }

    open spec fn from_spec(v: &str) -> Self {
        arbitrary()
    }
}

impl From<&str> for SessionId {
    fn from(v: &str) -> (r: Self)
        ensures
            r@ == v@,
    {
        SessionId(v.to_owned())
    }
}

impl FromSpecImpl<&str> for SessionId {
    open spec fn obeys_from_spec() -> bool {
        false
    }

    open spec fn from_spec(v: &str) -> Self {
        arbitrary()
    }
}

impl From<&str> for SinkId {
    fn from(v: &str) -> (r: Self)
        ensures
            r@ == v@,
    {
        SinkId(v.to_owned())
    }
}

impl FromSpecImpl<&str> for SinkId {
    open spec fn obeys_from_spec() -> bool {
        false
    }

    open spec fn from_spec(v: &str) -> Self {
        arbitrary()
    }
}

impl From<&str> for AppId {
    fn from(v: &str) -> (r: Self)
        ensures
            r@ == v@,
    {
        AppId(v.to_owned())
    }
}

impl FromSpecImpl<&str> for AppId {
    open spec fn obeys_from_spec() -> bool {
        false
    }

    open spec fn from_spec(v: &str) -> Self {
        arbitrary()
    }
}

impl LinkId {
    /// Whether the two name the same link.
    pub fn same(&self, other: &LinkId) -> (b: bool)
        ensures
            b == (self@ == other@),
    {
        self.0 == other.0
    }
}

impl SessionId {
    /// Whether the two name the same session.
    pub fn same(&self, other: &SessionId) -> (b: bool)
        ensures
            b == (self@ == other@),
    {
        self.0 == other.0
    }
}

impl SinkId {
    /// Whether the two name the same sink.
    pub fn same(&self, other: &SinkId) -> (b: bool)
        ensures
            b == (self@ == other@),
    {
        self.0 == other.0
    }
}

impl AppId {
    /// Whether the two name the same application.
    pub fn same(&self, other: &AppId) -> (b: bool)
        ensures
            b == (self@ == other@),
    {
        self.0 == other.0
    }
}

} // verus!
