use proxer::config::{Auth, AuthCredentials, ProxyConfig, Rules};
use proxer::routing::{
    find_matching_proxy, first_enabled_proxy, is_host_allowed, scan_rules, HostCache,
};

fn rule(name: &str, enabled: bool, filters: &[(&str, &[&str])]) -> ProxyConfig {
    ProxyConfig {
        name: name.to_string(),
        enabled,
        scheme: "HTTP".to_string(),
        host: "10.0.0.1".to_string(),
        port: 8080,
        auth: Auth {
            credentials: AuthCredentials { username: String::new(), password: String::new() },
            token: String::new(),
        },
        rules: filters
            .iter()
            .map(|(n, hosts)| Rules {
                name: n.to_string(),
                hosts: hosts.iter().map(|h| h.to_string()).collect(),
            })
            .collect(),
    }
}

fn allowed(pattern: &str, host: &str) -> bool {
    is_host_allowed(host, &[pattern.to_string()])
}

#[test]
fn star_matches_any_subdomain() {
    assert!(allowed("*.example.com", "api.example.com"));
    assert!(allowed("*.example.com", "a.b.example.com"));
}

#[test]
fn star_pattern_is_anchored() {
    assert!(!allowed("*.example.com", "example.com"));
    assert!(!allowed("*.example.com", "api.example.com.evil.com"));
}

#[test]
fn question_mark_matches_one_character() {
    assert!(allowed("a?c.org", "abc.org"));
    assert!(!allowed("a?c.org", "ac.org"));
    assert!(!allowed("a?c.org", "abbc.org"));
}

#[test]
fn literal_pattern_is_exact_and_case_sensitive() {
    assert!(allowed("example.com", "example.com"));
    assert!(!allowed("example.com", "Example.com"));
    assert!(!allowed("example.com", "example.co"));
}

#[test]
fn star_alone_matches_everything() {
    assert!(allowed("*", ""));
    assert!(allowed("*", "anything.at.all"));
    assert!(allowed("**", "x"));
}

#[test]
fn empty_pattern_matches_only_empty_host() {
    assert!(allowed("", ""));
    assert!(!allowed("", "a"));
}

#[test]
fn host_allowed_by_any_pattern_of_the_list() {
    let list = vec!["*.a.com".to_string(), "b.org".to_string()];
    assert!(is_host_allowed("b.org", &list));
    assert!(is_host_allowed("x.a.com", &list));
    assert!(!is_host_allowed("c.net", &list));
    assert!(!is_host_allowed("b.org", &[]));
}

#[test]
fn cache_add_contains_get() {
    let mut cache = HostCache::new();
    assert!(!cache.contains("a.com"));
    assert_eq!(cache.get("a.com"), None);
    cache.add("a.com".to_string(), 1, 2);
    assert!(cache.contains("a.com"));
    assert_eq!(cache.get("a.com"), Some((1, 2)));
    assert!(!cache.contains("A.com"));
    cache.add("a.com".to_string(), 3, 0);
    assert_eq!(cache.get("a.com"), Some((3, 0)));
    cache.add("b.com".to_string(), 0, 0);
    assert_eq!(cache.get("b.com"), Some((0, 0)));
    assert_eq!(cache.get("a.com"), Some((3, 0)));
}

#[test]
fn first_rule_then_first_filter_wins() {
    let rules = vec![
        rule("one", true, &[("f1", &["x.org"]), ("f2", &["*.example.com"]), ("f3", &["*"])]),
        rule("two", true, &[("g1", &["*.example.com"])]),
    ];
    assert_eq!(scan_rules(&rules, "shop.example.com"), Some((0, 1)));
    let mut cache = HostCache::new();
    let (cfg, filter) = find_matching_proxy(&mut cache, &rules, "shop.example.com").unwrap();
    assert_eq!(cfg.name, "one");
    assert_eq!(filter, "f2");
    assert_eq!(cache.get("shop.example.com"), Some((0, 1)));
}

#[test]
fn disabled_rule_is_skipped() {
    let rules = vec![
        rule("off", false, &[("f", &["*.example.com"])]),
        rule("on", true, &[("g", &["*.example.com"])]),
    ];
    let mut cache = HostCache::new();
    let (cfg, filter) = find_matching_proxy(&mut cache, &rules, "a.example.com").unwrap();
    assert_eq!(cfg.name, "on");
    assert_eq!(filter, "g");
}

#[test]
fn only_disabled_match_gives_none() {
    let rules = vec![rule("off", false, &[("f", &["*.example.com"])])];
    let mut cache = HostCache::new();
    assert!(find_matching_proxy(&mut cache, &rules, "a.example.com").is_none());
    assert!(!cache.contains("a.example.com"));
}

#[test]
fn unmatched_host_gives_none_and_is_not_cached() {
    let rules = vec![rule("one", true, &[("f", &["*.example.com"])])];
    let mut cache = HostCache::new();
    assert!(find_matching_proxy(&mut cache, &rules, "other.org").is_none());
    assert!(!cache.contains("other.org"));
    assert_eq!(scan_rules(&rules, "other.org"), None);
}

#[test]
fn repeated_resolution_is_stable() {
    let rules = vec![
        rule("one", true, &[("f", &["a.*"])]),
        rule("two", true, &[("g", &["*.com"])]),
    ];
    let mut cache = HostCache::new();
    let first = find_matching_proxy(&mut cache, &rules, "b.com").map(|(c, f)| (c.name.clone(), f));
    let second = find_matching_proxy(&mut cache, &rules, "b.com").map(|(c, f)| (c.name.clone(), f));
    let third = find_matching_proxy(&mut cache, &rules, "b.com").map(|(c, f)| (c.name.clone(), f));
    assert_eq!(first, Some(("two".to_string(), "g".to_string())));
    assert_eq!(first, second);
    assert_eq!(second, third);
    assert_eq!(scan_rules(&rules, "b.com"), Some((1, 0)));
}

#[test]
fn cached_route_is_used_on_hit() {
    let rules = vec![
        rule("one", true, &[("f", &["*.com"])]),
        rule("two", true, &[("g", &["*.com"])]),
    ];
    let mut cache = HostCache::new();
    cache.add("b.com".to_string(), 1, 0);
    let (cfg, filter) = find_matching_proxy(&mut cache, &rules, "b.com").unwrap();
    assert_eq!(cfg.name, "two");
    assert_eq!(filter, "g");
}

#[test]
fn first_enabled_proxy_index() {
    let rules = vec![
        rule("a", false, &[]),
        rule("b", true, &[]),
        rule("c", true, &[]),
    ];
    assert_eq!(first_enabled_proxy(&rules), Some(1));
    assert_eq!(first_enabled_proxy(&rules[..1]), None);
    assert_eq!(first_enabled_proxy(&[]), None);
}
