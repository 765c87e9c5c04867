use edger_hub::dispatch_config::{decimal_text, Action, Proxy, ProxyKind};
use edger_hub::dispatch_rules::{Config, Pattern, PatternError, Rule};
use edger_hub::http_activity::HttpUri;

fn uri(host: Option<&str>, port: Option<u16>, path: &str) -> HttpUri {
    HttpUri {
        schema: Some("https".to_owned()),
        host: host.map(|h| h.to_owned()),
        port,
        path: path.to_owned(),
        query: None,
    }
}

fn strings(list: &[&str]) -> Vec<String> {
    list.iter().map(|s| s.to_string()).collect()
}

fn pattern(hosts: &[&str], ports: Option<Vec<u16>>, paths: Option<&[&str]>) -> Pattern {
    match Pattern::new(strings(hosts), ports, paths.map(strings)) {
        Ok(p) => p,
        Err(e) => panic!("failed to create pattern: {:?}", e),
    }
}

#[test]
fn ports_are_written_in_decimal() {
    assert_eq!(decimal_text(0), "0");
    assert_eq!(decimal_text(7), "7");
    assert_eq!(decimal_text(10), "10");
    assert_eq!(decimal_text(443), "443");
    assert_eq!(decimal_text(29002), "29002");
    assert_eq!(decimal_text(u16::MAX), "65535");
    for n in [1u16, 9, 99, 100, 101, 8080, 60000] {
        assert_eq!(decimal_text(n), n.to_string());
    }
}

#[test]
fn a_proxy_has_an_address() {
    let p = Proxy::http("10.0.1.6", 29002);
    assert_eq!(p.kind, ProxyKind::Http);
    assert_eq!(p.host, "10.0.1.6");
    assert_eq!(p.port, 29002);
    assert_eq!(p.username, None);
    assert_eq!(p.password, None);
    assert_eq!(p.proxy_scheme(), "http://10.0.1.6:29002");
    assert_eq!(Proxy::https("proxy.example.org", 443).proxy_scheme(), "https://proxy.example.org:443");
    assert_eq!(Proxy::socks5("10.0.1.6", 29001).proxy_scheme(), "socks5://10.0.1.6:29001");
    assert_eq!(Proxy::socks5("h", 0).proxy_scheme(), "socks5://h:0");
}

#[test]
fn credentials_do_not_make_another_proxy() {
    let plain = Proxy::http("h", 1);
    let mut with_credentials = Proxy::http("h", 1);
    with_credentials.username = Some("user".to_owned());
    with_credentials.password = Some("secret".to_owned());
    assert!(plain.same(&with_credentials));
    assert!(!plain.same(&Proxy::https("h", 1)));
    assert!(!plain.same(&Proxy::http("i", 1)));
    assert!(!plain.same(&Proxy::http("h", 2)));
    assert!(Action::Proxy(plain).same(&Action::Proxy(with_credentials)));
    assert!(Action::Drop.same(&Action::Drop));
    assert!(Action::Pass.same(&Action::Pass));
    assert!(!Action::Drop.same(&Action::Pass));
    assert!(!Action::Pass.same(&Action::Proxy(Proxy::http("h", 1))));
}

#[test]
fn a_pattern_needs_a_host() {
    let p = pattern(&["*"], None, None);
    assert!(!p.is_match_uri(&uri(None, Some(80), "/")));
    assert!(p.is_match_uri(&uri(Some("example.org"), None, "/")));
}

#[test]
fn host_globs_decide() {
    let p = pattern(&["*.example.org", "localhost"], None, None);
    assert_eq!(p.hosts(), &strings(&["*.example.org", "localhost"]));
    assert_eq!(p.ports(), &None);
    assert_eq!(p.paths(), &None);
    assert!(p.is_match_uri(&uri(Some("www.example.org"), None, "/")));
    assert!(p.is_match_uri(&uri(Some("localhost"), Some(8080), "/any/path")));
    assert!(!p.is_match_uri(&uri(Some("example.com"), None, "/")));
    assert!(!p.is_match_uri(&uri(Some("localhost.example.com"), None, "/")));
    assert!(p.is_match_url(&uri(Some("a.example.org"), None, "/")));
    assert!(!p.is_match_url(&uri(Some("example.com"), None, "/")));
}

#[test]
fn a_pattern_without_host_globs_matches_nothing() {
    let p = pattern(&[], None, None);
    assert!(!p.is_match_uri(&uri(Some("example.org"), None, "/")));
}

#[test]
fn ports_must_be_named() {
    let p = pattern(&["*"], Some(vec![80, 8080]), None);
    assert_eq!(p.ports(), &Some(vec![80, 8080]));
    assert!(p.is_match_uri(&uri(Some("h"), Some(80), "/")));
    assert!(p.is_match_uri(&uri(Some("h"), Some(8080), "/")));
    assert!(!p.is_match_uri(&uri(Some("h"), Some(443), "/")));
    assert!(!p.is_match_uri(&uri(Some("h"), None, "/")));
    let none = pattern(&["*"], Some(Vec::new()), None);
    assert!(!none.is_match_uri(&uri(Some("h"), Some(80), "/")));
}

#[test]
fn path_globs_decide() {
    let p = pattern(&["*"], None, Some(&["/api/*", "/static/**/*.css"]));
    assert_eq!(p.paths(), &Some(strings(&["/api/*", "/static/**/*.css"])));
    assert!(p.is_match_uri(&uri(Some("h"), None, "/api/users")));
    assert!(p.is_match_uri(&uri(Some("h"), None, "/static/a/b/site.css")));
    assert!(!p.is_match_uri(&uri(Some("h"), None, "/index.html")));
    assert!(!p.is_match_uri(&uri(Some("h"), None, "/static/a/b/site.js")));
}

#[test]
fn what_is_no_glob_makes_no_pattern() {
    let err = Pattern::new(strings(&["ok", "{unclosed"]), None, None).err();
    assert_eq!(err, Some(PatternError::InvalidGlob));
    let err = Pattern::new(strings(&["ok"]), None, Some(strings(&["[z-a]"]))).err();
    assert_eq!(err, Some(PatternError::InvalidGlob));
    assert!(Pattern::new(strings(&["ok"]), None, Some(strings(&["[a-z]"]))).is_ok());
}

#[test]
fn the_first_rule_that_matches_decides() {
    let config = Config {
        proxies: vec![Proxy::http("10.0.1.6", 29002)],
        rules: vec![
            Rule { pattern: pattern(&["ads.*"], None, None), action: Action::Drop },
            Rule {
                pattern: pattern(&["*.example.org"], Some(vec![443]), None),
                action: Action::Proxy(Proxy::http("10.0.1.6", 29002)),
            },
            Rule { pattern: pattern(&["*.example.org"], None, None), action: Action::Pass },
            Rule { pattern: pattern(&["ads.example.org"], None, None), action: Action::Pass },
        ],
        fallback: Action::Proxy(Proxy::socks5("10.0.1.6", 29001)),
    };
    assert!(config.action_uri(&uri(Some("ads.example.org"), Some(443), "/")).same(&Action::Drop));
    assert!(config
        .action_uri(&uri(Some("www.example.org"), Some(443), "/"))
        .same(&Action::Proxy(Proxy::http("10.0.1.6", 29002))));
    assert!(config.action_uri(&uri(Some("www.example.org"), Some(80), "/")).same(&Action::Pass));
    assert!(config.action_url(&uri(Some("www.example.org"), None, "/")).same(&Action::Pass));
    assert!(config
        .action_uri(&uri(Some("example.com"), Some(443), "/"))
        .same(&Action::Proxy(Proxy::socks5("10.0.1.6", 29001))));
    assert!(config
        .action_url(&uri(None, None, "/"))
        .same(&Action::Proxy(Proxy::socks5("10.0.1.6", 29001))));

    let rule = &config.rules[1];
    assert!(rule.action_uri(&uri(Some("a.example.org"), Some(443), "/")).is_some());
    assert!(rule.action_uri(&uri(Some("a.example.org"), Some(80), "/")).is_none());
    assert!(rule.action_url(&uri(Some("a.example.com"), Some(443), "/")).is_none());
}

#[test]
fn without_rules_the_fallback_decides() {
    let config = Config { proxies: Vec::new(), rules: Vec::new(), fallback: Action::Pass };
    assert!(config.action_uri(&uri(Some("h"), None, "/")).same(&Action::Pass));
}
