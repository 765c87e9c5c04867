//! The rules of the dispatcher: which requests a pattern takes in, and
//! which action the first rule that takes a request in decides for it.

use crate::dispatch_config::{Action, Proxy};
use crate::globs::{
    all_portable, builder_add, builder_build, builder_globs, builder_new, glob_parses,
    glob_set_builds, glob_set_matches, portable, set_globs, set_is_match,
};
use crate::http_activity::{HttpUri, HttpUriView};
use crate::tables::texts;
use globset::GlobSet;
use vstd::prelude::*;

verus! {

/// Why a pattern cannot be made.
#[derive(Clone, Copy, Debug, PartialEq, Eq, Structural)]
pub enum PatternError {
    /// One of the texts is no glob.
    InvalidGlob,
    /// The globs cannot be compiled into one matcher.
    Matcher,
}

/// Whether each of `patterns` is a glob.
pub open spec fn all_parse(patterns: Seq<Seq<char>>) -> bool {
    forall|i: int| 0 <= i < patterns.len() ==> glob_parses(#[trigger] patterns[i])
}

/// How the making of a matcher from `patterns` ends.
pub open spec fn matcher_outcome(patterns: Seq<Seq<char>>) -> Result<(), PatternError> {
    if !all_parse(patterns) {
        Err(PatternError::InvalidGlob)
    } else if !glob_set_builds(patterns) {
        Err(PatternError::Matcher)
    } else {
        Ok(())
    }
}

/// A pattern over requests: globs for the host, and, where given, the
/// ports and globs for the path.
pub struct Pattern {
    hosts: Vec<String>,
    ports: Option<Vec<u16>>,
    paths: Option<Vec<String>>,
    hosts_matcher: GlobSet,
    paths_matcher: Option<GlobSet>,
}

/// What a pattern was made from.
pub ghost struct PatternView {
    pub hosts: Seq<Seq<char>>,
    pub ports: Option<Seq<u16>>,
    pub paths: Option<Seq<Seq<char>>>,
}

impl PatternView {
    /// What a request must have for the pattern whatever the globs say: a
    /// host, and, where the pattern names ports, one of those ports.
    pub open spec fn admits(self, uri: HttpUriView) -> bool {
        &&& uri.host is Some
        &&& self.ports is Some ==> uri.port is Some && self.ports.unwrap().contains(
            uri.port.unwrap(),
        )
    }

    /// Whether the pattern takes the request in: it admits it, a host glob
    /// matches the host, and, where the pattern has path globs, one of
    /// them matches the path.
    pub open spec fn matches(self, uri: HttpUriView) -> bool {
        &&& self.admits(uri)
        &&& glob_set_matches(self.hosts, uri.host.unwrap())
        &&& self.paths is Some ==> glob_set_matches(self.paths.unwrap(), uri.path)
    }

    /// Whether the globs and the texts of the request read alike on every
    /// platform.
    pub open spec fn portable_for(self, uri: HttpUriView) -> bool {
        &&& all_portable(self.hosts)
        &&& uri.host is Some ==> portable(uri.host.unwrap())
        &&& self.paths is Some ==> all_portable(self.paths.unwrap()) && portable(uri.path)
    }

    /// How the making of a pattern from these parts ends.
    pub open spec fn outcome(self) -> Result<(), PatternError> {
        match matcher_outcome(self.hosts) {
            Err(e) => Err(e),
            Ok(()) => match self.paths {
                Some(paths) => matcher_outcome(paths),
                None => Ok(()),
            },
        }
    }

    /// Whether all the globs of these parts read alike on every platform.
    pub open spec fn portable_globs(self) -> bool {
        &&& all_portable(self.hosts)
        &&& self.paths is Some ==> all_portable(self.paths.unwrap())
    }
}

/// The view of a list of ports that may be absent.
pub open spec fn ports_view(ports: Option<Vec<u16>>) -> Option<Seq<u16>> {
    match ports {
        Some(p) => Some(p@),
        None => None,
    }
}

/// The texts of a list of strings that may be absent.
pub open spec fn texts_view(list: Option<Vec<String>>) -> Option<Seq<Seq<char>>> {
    match list {
        Some(l) => Some(texts(l@)),
        None => None,
    }
}

impl View for Pattern {
    type V = PatternView;

    closed spec fn view(&self) -> PatternView {
        PatternView {
            hosts: texts(self.hosts@),
            ports: ports_view(self.ports),
            paths: texts_view(self.paths),
        }
    }
}

impl Pattern {
    /// The matchers are those of the globs.
    #[verifier::type_invariant]
    spec fn matchers_fit(self) -> bool {
        &&& set_globs(self.hosts_matcher) == texts(self.hosts@)
        &&& match (self.paths, self.paths_matcher) {
            (Some(paths), Some(matcher)) => set_globs(matcher) == texts(paths@),
            (None, None) => true,
            _ => false,
        }
    }

    /// The matcher of a list of globs.
    fn build_matcher(patterns: &Vec<String>) -> (r: Result<GlobSet, PatternError>)
        ensures
            r is Ok ==> set_globs(r.unwrap()) == texts(patterns@),
            all_portable(texts(patterns@)) ==> (match r {
                Ok(_) => matcher_outcome(texts(patterns@)) is Ok,
                Err(e) => matcher_outcome(texts(patterns@)) == Err::<(), PatternError>(e),
            }),
    {
        let mut builder = builder_new();
        let mut i: usize = 0;
        let ghost all = texts(patterns@);
        while i < patterns.len()
            invariant
                0 <= i <= patterns.len(),
                all == texts(patterns@),
                builder_globs(builder) == all.take(i as int),
                all_portable(all) ==> all_parse(all.take(i as int)),
            decreases patterns.len() - i,
        {
            assert(all[i as int] == patterns@[i as int]@);
            if !builder_add(&mut builder, patterns[i].as_str()) {
                proof {
                    if all_portable(all) {
                        assert(portable(all[i as int]));
                        assert(!glob_parses(all[i as int]));
                    }
                }
                return Err(PatternError::InvalidGlob);
            }
            proof {
                assert(all.take(i as int).push(all[i as int]) =~= all.take(i as int + 1));
                if all_portable(all) {
                    assert(portable(all[i as int]));
                    assert forall|j: int| 0 <= j < i + 1 implies glob_parses(
                        #[trigger] all.take(i as int + 1)[j],
                    ) by {
                        if j < i {
                            assert(all.take(i as int)[j] == all.take(i as int + 1)[j]);
                        }
                    }
                }
            }
            i += 1;
        }
        assert(all.take(i as int) =~= all);
        match builder_build(&builder) {
            Some(set) => Ok(set),
            None => Err(PatternError::Matcher),
        }
    }

    /// A pattern of these host globs, ports and path globs. It cannot be
    /// made where a text is no glob or the globs cannot be compiled; the
    /// host globs are tried first.
    pub fn new(hosts: Vec<String>, ports: Option<Vec<u16>>, paths: Option<Vec<String>>) -> (r:
        Result<Pattern, PatternError>)
        ensures
            r is Ok ==> r.unwrap()@ == (PatternView {
                hosts: texts(hosts@),
                ports: ports_view(ports),
                paths: texts_view(paths),
            }),
            (PatternView {
                hosts: texts(hosts@),
                ports: ports_view(ports),
                paths: texts_view(paths),
            }).portable_globs() ==> (match r {
                Ok(_) => (PatternView {
                    hosts: texts(hosts@),
                    ports: ports_view(ports),
                    paths: texts_view(paths),
                }).outcome() is Ok,
                Err(e) => (PatternView {
                    hosts: texts(hosts@),
                    ports: ports_view(ports),
                    paths: texts_view(paths),
                }).outcome() == Err::<(), PatternError>(e),
            }),
    {
        let hosts_matcher = match Pattern::build_matcher(&hosts) {
            Ok(matcher) => matcher,
            Err(e) => {
                return Err(e);
            },
        };
        let paths_matcher = match &paths {
            Some(list) => match Pattern::build_matcher(list) {
                Ok(matcher) => Some(matcher),
                Err(e) => {
                    return Err(e);
                },
            },
            None => None,
        };
        Ok(Pattern { hosts, ports, paths, hosts_matcher, paths_matcher })
    }

    /// The host globs.
    pub fn hosts(&self) -> (hosts: &Vec<String>)
        ensures
            texts(hosts@) == self@.hosts,
    {
        &self.hosts
    }

    /// The ports, where the pattern names any.
    pub fn ports(&self) -> (ports: &Option<Vec<u16>>)
        ensures
            ports_view(*ports) == self@.ports,
    {
        &self.ports
    }

    /// The path globs, where the pattern has any.
    pub fn paths(&self) -> (paths: &Option<Vec<String>>)
        ensures
            texts_view(*paths) == self@.paths,
    {
        &self.paths
    }

    /// Whether `port` is among `ports`.
    fn has_port(ports: &Vec<u16>, port: u16) -> (b: bool)
        ensures
            b == ports@.contains(port),
    {
        let mut i: usize = 0;
        while i < ports.len()
            invariant
                0 <= i <= ports.len(),
                forall|j: int| 0 <= j < i ==> ports@[j] != port,
            decreases ports.len() - i,
        {
            if ports[i] == port {
                return true;
            }
            i += 1;
        }
        false
    }

    /// Whether the pattern takes in a request for `uri`. A request without
    /// a host, or, where the pattern names ports, without one of those
    /// ports, is never taken in; for the rest the globs decide.
    pub fn is_match_uri(&self, uri: &HttpUri) -> (b: bool)
        ensures
            b ==> self@.admits(uri@),
            self@.portable_for(uri@) ==> b == self@.matches(uri@),
    {
        proof {
            use_type_invariant(self);
        }
        let host = match &uri.host {
            Some(host) => host,
            None => {
                return false;
            },
        };
        if !set_is_match(&self.hosts_matcher, host.as_str()) {
            return false;
        }
        if let Some(ports) = &self.ports {
            let port = match uri.port {
                Some(port) => port,
                None => {
                    return false;
                },
            };
            if !Pattern::has_port(ports, port) {
                return false;
            }
        }
        if let Some(paths_matcher) = &self.paths_matcher {
            if !set_is_match(paths_matcher, uri.path.as_str()) {
                return false;
            }
        }
        true
    }

    /// Whether the pattern takes in a request for `url`; as `is_match_uri`,
    /// for a target that was read from a URL.
    pub fn is_match_url(&self, url: &HttpUri) -> (b: bool)
        ensures
            b ==> self@.admits(url@),
            self@.portable_for(url@) ==> b == self@.matches(url@),
    {
        self.is_match_uri(url)
    }
}

/// A pattern and what is done with the requests that it takes in.
pub struct Rule {
    pub pattern: Pattern,
    pub action: Action,
}

impl Rule {
    /// The rule's action, if the rule takes in a request for `uri`.
    pub fn action_uri(&self, uri: &HttpUri) -> (r: Option<&Action>)
        ensures
            r is Some ==> *r.unwrap() == self.action && self.pattern@.admits(uri@),
            self.pattern@.portable_for(uri@) ==> (r is Some <==> self.pattern@.matches(uri@)),
    {
        if self.pattern.is_match_uri(uri) {
            Some(&self.action)
        } else {
            None
        }
    }

    /// The rule's action, if the rule takes in a request for `url`.
    pub fn action_url(&self, url: &HttpUri) -> (r: Option<&Action>)
        ensures
            r is Some ==> *r.unwrap() == self.action && self.pattern@.admits(url@),
            self.pattern@.portable_for(url@) ==> (r is Some <==> self.pattern@.matches(url@)),
    {
        self.action_uri(url)
    }
}

/// The configuration of the dispatcher: the proxies that it may use, its
/// rules in the order in which they are tried, and the action for the
/// requests that no rule takes in.
pub struct Config {
    pub proxies: Vec<Proxy>,
    pub rules: Vec<Rule>,
    pub fallback: Action,
}

/// The action of the first of `rules` that takes the request in, from
/// `from` on; `fallback` if none does.
pub open spec fn chosen_action(rules: Seq<Rule>, fallback: Action, uri: HttpUriView, from: int)
    -> Action
    decreases rules.len() - from,
{
    if from < 0 || from >= rules.len() {
        fallback
    } else if rules[from].pattern@.matches(uri) {
        rules[from].action
    } else {
        chosen_action(rules, fallback, uri, from + 1)
    }
}

/// Whether the globs of all `rules` and the texts of the request read
/// alike on every platform.
pub open spec fn rules_portable_for(rules: Seq<Rule>, uri: HttpUriView) -> bool {
    forall|i: int| 0 <= i < rules.len() ==> (#[trigger] rules[i]).pattern@.portable_for(uri)
}

impl Config {
    /// The action for a request for `uri`: that of the first rule that
    /// takes the request in, else the fallback.
    pub fn action_uri(&self, uri: &HttpUri) -> (action: &Action)
        ensures
            *action == self.fallback || exists|i: int|
                0 <= i < self.rules@.len() && *action == (#[trigger] self.rules@[i]).action
                    && self.rules@[i].pattern@.admits(uri@),
            rules_portable_for(self.rules@, uri@) ==> *action == chosen_action(
                self.rules@,
                self.fallback,
                uri@,
                0,
            ),
    {
        let mut i: usize = 0;
        while i < self.rules.len()
            invariant
                0 <= i <= self.rules.len(),
                rules_portable_for(self.rules@, uri@) ==> chosen_action(
                    self.rules@,
                    self.fallback,
                    uri@,
                    0,
                ) == chosen_action(self.rules@, self.fallback, uri@, i as int),
            decreases self.rules.len() - i,
        {
            if let Some(action) = self.rules[i].action_uri(uri) {
                return action;
            }
            i += 1;
        }
        &self.fallback
    }

    /// The action for a request for `url`; as `action_uri`.
    pub fn action_url(&self, url: &HttpUri) -> (action: &Action)
        ensures
            *action == self.fallback || exists|i: int|
                0 <= i < self.rules@.len() && *action == (#[trigger] self.rules@[i]).action
                    && self.rules@[i].pattern@.admits(url@),
            rules_portable_for(self.rules@, url@) ==> *action == chosen_action(
                self.rules@,
                self.fallback,
                url@,
                0,
            ),
    {
        self.action_uri(url)
    }
}

} // verus!
