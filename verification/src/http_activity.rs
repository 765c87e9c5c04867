//! The record of one HTTP exchange as the proxy side captures it: plain
//! values, ready to be stored.

use vstd::prelude::*;

verus! {

/// The body of a captured message.
#[derive(Debug, PartialEq, Eq)]
pub enum HttpBody {
    Empty,
    Text(String),
    Bytes(Vec<u8>),
}

/// The target of a captured request, in its parts.
#[derive(Debug, PartialEq, Eq)]
pub struct HttpUri {
    pub schema: Option<String>,
    pub host: Option<String>,
    pub port: Option<u16>,
    pub path: String,
    pub query: Option<String>,
}

/// The text of a string that may be absent.
pub open spec fn text_view(s: Option<String>) -> Option<Seq<char>> {
    match s {
        Some(s) => Some(s@),
        None => None,
    }
}

/// `HttpUri` as contracts see it.
pub ghost struct HttpUriView {
    pub schema: Option<Seq<char>>,
    pub host: Option<Seq<char>>,
    pub port: Option<u16>,
    pub path: Seq<char>,
    pub query: Option<Seq<char>>,
}

impl View for HttpUri {
    type V = HttpUriView;

    open spec fn view(&self) -> HttpUriView {
        HttpUriView {
            schema: text_view(self.schema),
            host: text_view(self.host),
            port: self.port,
            path: self.path@,
            query: text_view(self.query),
        }
    }
}

/// Why a captured exchange has no response.
#[derive(Debug, PartialEq, Eq)]
pub enum HttpError {
    Timeout,
    Http { source: String },
}

impl HttpError {
    /// Whether the exchange timed out.
    #[must_use]
    pub fn is_timeout(&self) -> (b: bool)
        ensures
            b == (self is Timeout),
    {
        match self {
            HttpError::Timeout => true,
            HttpError::Http { .. } => false,
        }
    }

    /// Whether the exchange failed in the HTTP layer.
    #[must_use]
    pub fn is_http(&self) -> (b: bool)
        ensures
            b == (self is Http),
    {
        match self {
            HttpError::Timeout => false,
            HttpError::Http { .. } => true,
        }
    }

    /// What the HTTP layer reported, if the exchange failed there.
    pub fn as_http(&self) -> (r: Option<&String>)
        ensures
            r is Some <==> self is Http,
            r is Some ==> *r.unwrap() == self->source,
    {
        match self {
            HttpError::Http { source } => Some(source),
            HttpError::Timeout => None,
        }
    }
}

} // verus!
