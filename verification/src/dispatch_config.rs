//! What a dispatch rule can decide for a request: drop it, pass it on
//! directly, or send it through an upstream proxy.

use vstd::prelude::*;
use vstd::string::StringExecFns;

verus! {

/// The protocol that an upstream proxy speaks.
#[derive(Clone, Copy, Debug, PartialEq, Eq, Hash, Structural)]
pub enum ProxyKind {
    Http,
    Https,
    Socks5,
}

impl ProxyKind {
    /// The scheme of the protocol, as it stands in a proxy's address.
    pub open spec fn scheme(self) -> Seq<char> {
        match self {
            ProxyKind::Http => "http"@,
            ProxyKind::Https => "https"@,
            ProxyKind::Socks5 => "socks5"@,
        }
    }

    /// The scheme of the protocol, as it stands in a proxy's address.
    pub fn protocol(&self) -> (s: String)
        ensures
            s@ == self.scheme(),
    {
        match self {
            ProxyKind::Http => "http".to_owned(),
            ProxyKind::Https => "https".to_owned(),
            ProxyKind::Socks5 => "socks5".to_owned(),
        }
    }
}

/// The character of a decimal digit.
pub open spec fn digit_char(d: nat) -> char {
    if d == 0 {
        '0'
    } else if d == 1 {
        '1'
    } else if d == 2 {
        '2'
    } else if d == 3 {
        '3'
    } else if d == 4 {
        '4'
    } else if d == 5 {
        '5'
    } else if d == 6 {
        '6'
    } else if d == 7 {
        '7'
    } else if d == 8 {
        '8'
    } else {
        '9'
    }
}

/// A number in decimal, without leading zeros.
pub open spec fn decimal(n: nat) -> Seq<char>
    decreases n,
{
    if n < 10 {
        seq![digit_char(n)]
    } else {
        decimal(n / 10).push(digit_char(n % 10))
    }
}

/// The text of one decimal digit.
fn digit_text(d: u16) -> (s: &'static str)
    requires
        d < 10,
    ensures
        s@ == seq![digit_char(d as nat)],
{
    proof {
        reveal_strlit("0");
        reveal_strlit("1");
        reveal_strlit("2");
        reveal_strlit("3");
        reveal_strlit("4");
        reveal_strlit("5");
        reveal_strlit("6");
        reveal_strlit("7");
        reveal_strlit("8");
        reveal_strlit("9");
    }
    let s = match d {
        0 => "0",
        1 => "1",
        2 => "2",
        3 => "3",
        4 => "4",
        5 => "5",
        6 => "6",
        7 => "7",
        8 => "8",
        _ => "9",
    };
    assert(s@ =~= seq![digit_char(d as nat)]);
    s
}

/// A port number in decimal.
pub fn decimal_text(n: u16) -> (s: String)
    ensures
        s@ == decimal(n as nat),
    decreases n,
{
    if n < 10 {
        digit_text(n).to_owned()
    } else {
        let mut s = decimal_text(n / 10);
        s.append(digit_text(n % 10));
        assert(s@ =~= decimal(n as nat));
        s
    }
}

/// An upstream proxy. Two proxies are the same proxy when kind, host and
/// port agree; the credentials do not count.
pub struct Proxy {
    pub kind: ProxyKind,
    pub host: String,
    pub port: u16,
    pub username: Option<String>,
    pub password: Option<String>,
}

/// What makes a proxy the proxy it is.
pub ghost struct ProxyView {
    pub kind: ProxyKind,
    pub host: Seq<char>,
    pub port: u16,
}

impl View for Proxy {
    type V = ProxyView;

    open spec fn view(&self) -> ProxyView {
        ProxyView { kind: self.kind, host: self.host@, port: self.port }
    }
}

impl ProxyView {
    /// The address of the proxy: scheme, host and port.
    pub open spec fn address(self) -> Seq<char> {
        self.kind.scheme() + "://"@ + self.host + ":"@ + decimal(self.port as nat)
    }
}

impl Proxy {
    /// A proxy of `kind` at `host` and `port`, without credentials.
    fn plain(kind: ProxyKind, host: &str, port: u16) -> (p: Proxy)
        ensures
            p@ == (ProxyView { kind, host: host@, port }),
            p.username is None,
            p.password is None,
    {
        Proxy { kind, host: host.to_owned(), port, username: None, password: None }
    }

    /// An HTTP proxy without credentials.
    pub fn http(host: &str, port: u16) -> (p: Proxy)
        ensures
            p@ == (ProxyView { kind: ProxyKind::Http, host: host@, port }),
            p.username is None,
            p.password is None,
    {
        Proxy::plain(ProxyKind::Http, host, port)
    }

    /// An HTTPS proxy without credentials.
    pub fn https(host: &str, port: u16) -> (p: Proxy)
        ensures
            p@ == (ProxyView { kind: ProxyKind::Https, host: host@, port }),
            p.username is None,
            p.password is None,
    {
        Proxy::plain(ProxyKind::Https, host, port)
    }

    /// A SOCKS5 proxy without credentials.
    pub fn socks5(host: &str, port: u16) -> (p: Proxy)
        ensures
            p@ == (ProxyView { kind: ProxyKind::Socks5, host: host@, port }),
            p.username is None,
            p.password is None,
    {
        Proxy::plain(ProxyKind::Socks5, host, port)
    }

    /// The address of the proxy, as a client is configured with it.
    pub fn proxy_scheme(&self) -> (s: String)
        ensures
            s@ == self@.address(),
    {
        let mut s = self.kind.protocol();
        s.append("://");
        s.append(self.host.as_str());
        s.append(":");
        s.append(decimal_text(self.port).as_str());
        s
    }

    /// Whether the two are the same proxy.
    pub fn same(&self, other: &Proxy) -> (b: bool)
        ensures
            b == (self@ == other@),
    {
        self.kind == other.kind && self.host == other.host && self.port == other.port
    }
}

/// What is done with a request.
pub enum Action {
    /// The request is not sent on.
    Drop,
    /// The request is sent on directly.
    Pass,
    /// The request is sent on through the proxy.
    Proxy(Proxy),
}

/// `Action` as contracts see it.
pub ghost enum ActionView {
    Drop,
    Pass,
    Proxy(ProxyView),
}

impl View for Action {
    type V = ActionView;

    open spec fn view(&self) -> ActionView {
        match self {
            Action::Drop => ActionView::Drop,
            Action::Pass => ActionView::Pass,
            Action::Proxy(p) => ActionView::Proxy(p@),
        }
    }
}

impl Action {
    /// Whether the two are the same action.
    pub fn same(&self, other: &Action) -> (b: bool)
        ensures
            b == (self@ == other@),
    {
        match (self, other) {
            (Action::Drop, Action::Drop) => true,
            (Action::Pass, Action::Pass) => true,
            (Action::Proxy(p), Action::Proxy(q)) => p.same(q),
            _ => false,
        }
    }
}

} // verus!
