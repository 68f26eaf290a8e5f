use vstd::prelude::*;
use wildmatch::WildMatch;

use crate::config::{ProxyConfig, Rules};

verus! {

/// Shell-style wildcard matching of a whole host: `*` stands for any run of
/// characters (also an empty one), `?` for exactly one character, and every
/// other character for itself.
pub open spec fn glob_matches(p: Seq<char>, h: Seq<char>) -> bool
    decreases p.len() + h.len(),
{
    if p.len() == 0 {
        h.len() == 0
    } else if p[0] == '*' {
        glob_matches(p.drop_first(), h) || (h.len() > 0 && glob_matches(p, h.drop_first()))
    } else {
        h.len() > 0 && (p[0] == '?' || p[0] == h[0]) && glob_matches(
            p.drop_first(),
            h.drop_first(),
        )
    }
}

/// The pattern read as an anchored regular expression in which `*` is `.*`
/// and `?` is `.`: a `*` takes any prefix of the host, a `?` any one
/// character, and every other character itself.
pub open spec fn regex_matches(p: Seq<char>, h: Seq<char>) -> bool
    decreases p.len(),
{
    if p.len() == 0 {
        h.len() == 0
    } else if p[0] == '*' {
        exists|k: int| 0 <= k <= h.len() && regex_matches(p.drop_first(), #[trigger] h.skip(k))
    } else {
        h.len() > 0 && (p[0] == '?' || p[0] == h[0]) && regex_matches(p.drop_first(), h.drop_first())
    }
}

/// Wildcard matching is exactly matching of the anchored regular expression
/// obtained by reading `*` as `.*` and `?` as `.`.
pub proof fn lemma_glob_is_anchored_regex(p: Seq<char>, h: Seq<char>)
    ensures
        glob_matches(p, h) == regex_matches(p, h),
    decreases p.len(), h.len(),
{
    if p.len() == 0 {
    } else if p[0] == '*' {
        let q = p.drop_first();
        lemma_glob_is_anchored_regex(q, h);
        if h.len() > 0 {
            lemma_glob_is_anchored_regex(p, h.drop_first());
        }
        if glob_matches(p, h) {
            if glob_matches(q, h) {
                assert(h.skip(0) =~= h);
            } else {
                let t = h.drop_first();
                assert(regex_matches(p, t));
                let k2 = choose|k2: int| 0 <= k2 <= t.len() && regex_matches(q, #[trigger] t.skip(k2));
                assert(t.skip(k2) =~= h.skip(k2 + 1));
            }
        }
        if regex_matches(p, h) {
            let k = choose|k: int| 0 <= k <= h.len() && regex_matches(q, #[trigger] h.skip(k));
            if k == 0 {
                assert(h.skip(0) =~= h);
            } else {
                let t = h.drop_first();
                assert(t.skip(k - 1) =~= h.skip(k));
                assert(regex_matches(p, t));
            }
        }
    } else if h.len() > 0 {
        lemma_glob_is_anchored_regex(p.drop_first(), h.drop_first());
    }
}

/// Relies on `wildmatch::WildMatch::new` and `WildMatch::matches`: the
/// pattern applies to the entire input, `?` matches exactly one character,
/// `*` any number of characters, and no escapes exist.
#[verifier::external_body]
fn wildcard_matches(pattern: &str, host: &str) -> (r: bool)
    ensures
        r == glob_matches(pattern@, host@),
{
    WildMatch::new(pattern).matches(host)
}

/// Some pattern of the list matches the host.
pub open spec fn host_allowed(host: Seq<char>, patterns: Seq<String>) -> bool {
    exists|k: int| 0 <= k < patterns.len() && glob_matches(#[trigger] patterns[k]@, host)
}

/// Whether any of `allowed_hosts` matches `req_host`.
pub fn is_host_allowed(req_host: &str, allowed_hosts: &[String]) -> (r: bool)
    ensures
        r == host_allowed(req_host@, allowed_hosts@),
{
    let mut k: usize = 0;
    while k < allowed_hosts.len()
        invariant
            0 <= k <= allowed_hosts@.len(),
            forall|i: int| 0 <= i < k ==> !glob_matches(#[trigger] allowed_hosts@[i]@, req_host@),
        decreases allowed_hosts@.len() - k,
    {
        if wildcard_matches(allowed_hosts[k].as_str(), req_host) {
            return true;
        }
        k += 1;
    }
    false
}


/// The rule is enabled and one of its filters matches the host.
pub open spec fn rule_applies(rule: ProxyConfig, host: Seq<char>) -> bool {
    rule.enabled && exists|j: int|
        0 <= j < rule.rules@.len() && host_allowed(host, #[trigger] rule.rules@[j].hosts@)
}

/// Rule `i` is the first enabled rule whose filters match the host, and `j`
/// is the first of its filters that does.
pub open spec fn is_first_match(rules: Seq<ProxyConfig>, host: Seq<char>, i: int, j: int) -> bool {
    &&& 0 <= i < rules.len()
    &&& rules[i].enabled
    &&& 0 <= j < rules[i].rules@.len()
    &&& host_allowed(host, rules[i].rules@[j].hosts@)
    &&& forall|i2: int| 0 <= i2 < i ==> !rule_applies(#[trigger] rules[i2], host)
    &&& forall|j2: int|
        0 <= j2 < j ==> !host_allowed(host, #[trigger] rules[i].rules@[j2].hosts@)
}

/// No enabled rule has a filter that matches the host.
pub open spec fn no_route(rules: Seq<ProxyConfig>, host: Seq<char>) -> bool {
    forall|i: int| 0 <= i < rules.len() ==> !rule_applies(#[trigger] rules[i], host)
}

/// Every cached host maps to its first match in `rules`.
pub open spec fn cache_consistent(
    cache: Map<Seq<char>, (usize, usize)>,
    rules: Seq<ProxyConfig>,
) -> bool {
    forall|h: Seq<char>| #[trigger]
        cache.contains_key(h) ==> is_first_match(rules, h, cache[h].0 as int, cache[h].1 as int)
}

/// Index of the first filter of `filters` that matches `host`, if any.
fn first_matching_filter(filters: &Vec<Rules>, host: &str) -> (r: Option<usize>)
    ensures
        match r {
            Some(j) => j < filters@.len() && host_allowed(host@, filters@[j as int].hosts@)
                && forall|j2: int|
                0 <= j2 < j ==> !host_allowed(host@, #[trigger] filters@[j2].hosts@),
            None => forall|j2: int|
                0 <= j2 < filters@.len() ==> !host_allowed(host@, #[trigger] filters@[j2].hosts@),
        },
{
    let mut j: usize = 0;
    while j < filters.len()
        invariant
            0 <= j <= filters@.len(),
            forall|j2: int| 0 <= j2 < j ==> !host_allowed(host@, #[trigger] filters@[j2].hosts@),
        decreases filters@.len() - j,
    {
        if is_host_allowed(host, filters[j].hosts.as_slice()) {
            return Some(j);
        }
        j += 1;
    }
    None
}

/// Scans `rules` in order, skipping disabled ones, and returns the indices
/// of the first rule and filter that match `host`.
pub fn scan_rules(rules: &[ProxyConfig], host: &str) -> (r: Option<(usize, usize)>)
    ensures
        match r {
            Some((i, j)) => is_first_match(rules@, host@, i as int, j as int),
            None => no_route(rules@, host@),
        },
{
    let mut i: usize = 0;
    while i < rules.len()
        invariant
            0 <= i <= rules@.len(),
            forall|i2: int| 0 <= i2 < i ==> !rule_applies(#[trigger] rules@[i2], host@),
        decreases rules@.len() - i,
    {
        if rules[i].enabled {
            match first_matching_filter(&rules[i].rules, host) {
                Some(j) => {
                    return Some((i, j));
                },
                None => {},
            }
        }
        i += 1;
    }
    None
}

/// Index of the first enabled rule, whose upstream is the one probed for
/// latency.
pub fn first_enabled_proxy(proxy_config: &[ProxyConfig]) -> (r: Option<usize>)
    ensures
        match r {
            Some(i) => i < proxy_config@.len() && proxy_config@[i as int].enabled && forall|k: int|
                0 <= k < i ==> !(#[trigger] proxy_config@[k]).enabled,
            None => forall|k: int| 0 <= k < proxy_config@.len() ==> !(#[trigger] proxy_config@[k]).enabled,
        },
{
    let mut i: usize = 0;
    while i < proxy_config.len()
        invariant
            0 <= i <= proxy_config@.len(),
            forall|k: int| 0 <= k < i ==> !(#[trigger] proxy_config@[k]).enabled,
        decreases proxy_config@.len() - i,
    {
        if proxy_config[i].enabled {
            return Some(i);
        }
        i += 1;
    }
    None
}

/// A memo of resolved routes: request host to (rule index, filter index).
pub struct HostCache {
    entries: Vec<(String, usize, usize)>,
    index: Ghost<Map<Seq<char>, (usize, usize)>>,
}

impl View for HostCache {
    type V = Map<Seq<char>, (usize, usize)>;

    closed spec fn view(&self) -> Map<Seq<char>, (usize, usize)> {
        self.index@
    }
}

impl HostCache {
    /// The entry list holds each host once, and the map is exactly what it holds.
    pub closed spec fn wf(&self) -> bool {
        &&& forall|a: int, b: int|
            0 <= a < self.entries@.len() && 0 <= b < self.entries@.len()
                && #[trigger] self.entries@[a].0@ == #[trigger] self.entries@[b].0@ ==> a == b
        &&& forall|a: int|
            0 <= a < self.entries@.len() ==> #[trigger] self.index@.contains_key(
                self.entries@[a].0@,
            ) && self.index@[self.entries@[a].0@] == (self.entries@[a].1, self.entries@[a].2)
        &&& forall|h: Seq<char>| #[trigger]
            self.index@.contains_key(h) ==> exists|a: int|
                0 <= a < self.entries@.len() && #[trigger] self.entries@[a].0@ == h
    }

    /// An empty cache.
    pub fn new() -> (r: HostCache)
        ensures
            r.wf(),
            r@ == Map::<Seq<char>, (usize, usize)>::empty(),
    {
        HostCache { entries: Vec::new(), index: Ghost(Map::empty()) }
    }

    /// Position of `host` in the entry list.
    fn position(&self, host: &str) -> (r: Option<usize>)
        requires
            self.wf(),
        ensures
            match r {
                Some(a) => a < self.entries@.len() && self.entries@[a as int].0@ == host@,
                None => !self@.contains_key(host@),
            },
    {
        let key = String::from_str(host);
        let mut a: usize = 0;
        while a < self.entries.len()
            invariant
                self.wf(),
                key@ == host@,
                0 <= a <= self.entries@.len(),
                forall|b: int| 0 <= b < a ==> #[trigger] self.entries@[b].0@ != host@,
            decreases self.entries@.len() - a,
        {
            if self.entries[a].0 == key {
                return Some(a);
            }
            a += 1;
        }
        None
    }

    /// Records that `host` resolves to rule `config_index`, filter `filter_index`.
    pub fn add(&mut self, host: String, config_index: usize, filter_index: usize)
        requires
            old(self).wf(),
        ensures
            final(self).wf(),
            final(self)@ == old(self)@.insert(host@, (config_index, filter_index)),
    {
        let ghost key = host@;
        let ghost before = self.entries@;
        let pos = self.position(host.as_str());
        assert forall|a: int| 0 <= a < before.len() implies self.index@.contains_key(
            #[trigger] before[a].0@,
        ) && self.index@[before[a].0@] == (before[a].1, before[a].2) by {
            assert(self.entries@[a] == before[a]);
            assert(self.index@.contains_key(self.entries@[a].0@));
        }
        match pos {
            Some(a) => {
                self.entries.remove(a);
            },
            None => {},
        }
        let ghost mid = self.entries@;
        assert forall|b: int| 0 <= b < mid.len() implies mid[b].0@ != key
            && self.index@.contains_key(#[trigger] mid[b].0@) && self.index@[mid[b].0@] == (
            mid[b].1,
            mid[b].2,
        ) by {
            match pos {
                Some(a) => {
                    if b >= a {
                        assert(mid[b] == before[b + 1]);
                        assert(before[b + 1].0@ != before[a as int].0@);
                    } else {
                        assert(mid[b] == before[b]);
                        assert(before[b].0@ != before[a as int].0@);
                    }
                },
                None => {},
            }
        }
        assert forall|h: Seq<char>| #[trigger]
            self.index@.contains_key(h) && h != key implies exists|b: int|
                0 <= b < mid.len() && #[trigger] mid[b].0@ == h by {
            let c = choose|c: int| 0 <= c < before.len() && #[trigger] before[c].0@ == h;
            match pos {
                Some(a) => {
                    if c < a {
                        assert(mid[c].0@ == h);
                    } else {
                        assert(c != a);
                        assert(mid[c - 1].0@ == h);
                    }
                },
                None => {
                    assert(mid[c].0@ == h);
                },
            }
        }
        self.entries.push((host, config_index, filter_index));
        self.index = Ghost(self.index@.insert(key, (config_index, filter_index)));
        assert forall|a: int, b: int|
            0 <= a < self.entries@.len() && 0 <= b < self.entries@.len()
                && #[trigger] self.entries@[a].0@ == #[trigger] self.entries@[b].0@ implies a == b by {
            if a < mid.len() && b < mid.len() {
                assert(mid[a].0@ == mid[b].0@);
                match pos {
                    Some(p) => {
                        let a0 = if a >= p { a + 1 } else { a };
                        let b0 = if b >= p { b + 1 } else { b };
                        assert(before[a0] == mid[a]);
                        assert(before[b0] == mid[b]);
                    },
                    None => {
                        assert(before[a] == mid[a]);
                        assert(before[b] == mid[b]);
                    },
                }
            } else if a < mid.len() {
                assert(mid[a].0@ != key);
            } else if b < mid.len() {
                assert(mid[b].0@ != key);
            }
        }
        assert forall|a: int| 0 <= a < self.entries@.len() implies #[trigger] self.index@.contains_key(
                self.entries@[a].0@,
            ) && self.index@[self.entries@[a].0@] == (self.entries@[a].1, self.entries@[a].2) by {
            if a < mid.len() {
                assert(self.entries@[a] == mid[a]);
            }
        }
        assert forall|h: Seq<char>| #[trigger]
            self.index@.contains_key(h) implies exists|b: int|
                0 <= b < self.entries@.len() && #[trigger] self.entries@[b].0@ == h by {
            if h == key {
                assert(self.entries@[mid.len() as int].0@ == h);
            } else {
                let b = choose|b: int| 0 <= b < mid.len() && #[trigger] mid[b].0@ == h;
                assert(self.entries@[b].0@ == h);
            }
        }
    }

    /// Whether `host` has a cached route.
    pub fn contains(&self, host: &str) -> (r: bool)
        requires
            self.wf(),
        ensures
            r == self@.contains_key(host@),
    {
        self.position(host).is_some()
    }

    /// The cached route of `host`, if any.
    pub fn get(&self, host: &str) -> (r: Option<(usize, usize)>)
        requires
            self.wf(),
        ensures
            match r {
                Some(v) => self@.contains_key(host@) && self@[host@] == v,
                None => !self@.contains_key(host@),
            },
    {
        match self.position(host) {
            Some(a) => {
                assert(self.index@.contains_key(self.entries@[a as int].0@));
                Some((self.entries[a].1, self.entries[a].2))
            },
            None => None,
        }
    }
}

/// Resolves `req_host` to the first enabled rule, in list order, with a
/// filter that matches it, and the name of that filter. A cached route is
/// returned without a scan; a route found by a scan is added to the cache.
pub fn find_matching_proxy<'a>(
    cache: &mut HostCache,
    proxy_config: &'a [ProxyConfig],
    req_host: &str,
) -> (r: Option<(&'a ProxyConfig, String)>)
    requires
        old(cache).wf(),
        cache_consistent(old(cache)@, proxy_config@),
    ensures
        final(cache).wf(),
        cache_consistent(final(cache)@, proxy_config@),
        match r {
            Some((cfg, filter_name)) => exists|i: int, j: int|
                is_first_match(proxy_config@, req_host@, i, j) && *cfg == proxy_config@[i]
                    && filter_name@ == proxy_config@[i].rules@[j].name@,
            None => no_route(proxy_config@, req_host@),
        },
        r is Some ==> final(cache)@.contains_key(req_host@),
        old(cache)@.submap_of(final(cache)@),
        forall|h: Seq<char>| #[trigger]
            final(cache)@.contains_key(h) ==> old(cache)@.contains_key(h) || h == req_host@,
{
    match cache.get(req_host) {
        Some((ci, fi)) => {
            let cfg = &proxy_config[ci];
            let filter_name = cfg.rules[fi].name.clone();
            return Some((cfg, filter_name));
        },
        None => {},
    }
    match scan_rules(proxy_config, req_host) {
        Some((i, j)) => {
            let ghost before = cache@;
            cache.add(String::from_str(req_host), i, j);
            assert forall|h: Seq<char>| #[trigger]
                cache@.contains_key(h) implies is_first_match(
                proxy_config@,
                h,
                cache@[h].0 as int,
                cache@[h].1 as int,
            ) by {
                if h != req_host@ {
                    assert(before.contains_key(h));
                }
            }
            let cfg = &proxy_config[i];
            Some((cfg, cfg.rules[j].name.clone()))
        },
        None => None,
    }
}

/// A host has at most one first match: every lookup of the same host in the
/// same rule list, through a consistent cache or by a fresh scan, yields the
/// same rule and filter, and a cached route is exactly the scanned one.
pub proof fn lemma_route_stable(
    rules: Seq<ProxyConfig>,
    host: Seq<char>,
    i1: int,
    j1: int,
    i2: int,
    j2: int,
)
    requires
        is_first_match(rules, host, i1, j1),
        is_first_match(rules, host, i2, j2),
    ensures
        i1 == i2,
        j1 == j2,
{
    if i1 < i2 {
        assert(rule_applies(rules[i1], host));
    } else if i2 < i1 {
        assert(rule_applies(rules[i2], host));
    } else if j1 < j2 {
        assert(host_allowed(host, rules[i1].rules@[j1].hosts@));
    } else if j2 < j1 {
        assert(host_allowed(host, rules[i2].rules@[j2].hosts@));
    }
}

/// A cache kept consistent with the rules answers every cached host with
/// its first match, so a cache hit and a scan agree.
pub proof fn lemma_cache_hit_is_scan(
    cache: Map<Seq<char>, (usize, usize)>,
    rules: Seq<ProxyConfig>,
    host: Seq<char>,
    i: int,
    j: int,
)
    requires
        cache_consistent(cache, rules),
        cache.contains_key(host),
        is_first_match(rules, host, i, j),
    ensures
        cache[host].0 as int == i,
        cache[host].1 as int == j,
{
    lemma_route_stable(rules, host, cache[host].0 as int, cache[host].1 as int, i, j);
}

/// A disabled rule never takes part in routing: removing it from the list
/// leaves every host routed to the same rule (at its shifted position) and
/// filter, and leaves unrouted hosts unrouted.
pub proof fn lemma_disabled_rule_skipped(rules: Seq<ProxyConfig>, host: Seq<char>, d: int)
    requires
        0 <= d < rules.len(),
        !rules[d].enabled,
    ensures
        no_route(rules, host) == no_route(rules.remove(d), host),
        forall|i: int, j: int| #[trigger]
            is_first_match(rules, host, i, j) ==> i != d && is_first_match(
                rules.remove(d),
                host,
                if i < d {
                    i
                } else {
                    i - 1
                },
                j,
            ),
        forall|i: int, j: int| #[trigger]
            is_first_match(rules.remove(d), host, i, j) ==> is_first_match(
                rules,
                host,
                if i < d {
                    i
                } else {
                    i + 1
                },
                j,
            ),
{
    let rest = rules.remove(d);
    assert(!rule_applies(rules[d], host));
    assert forall|k: int| 0 <= k < rest.len() implies #[trigger] rest[k] == rules[if k < d {
        k
    } else {
        k + 1
    }] by {}
    if no_route(rules, host) {
        assert forall|k: int| 0 <= k < rest.len() implies !rule_applies(#[trigger] rest[k], host) by {
            if k >= d {
                assert(rest[k] == rules[k + 1]);
            }
        }
    }
    if no_route(rest, host) {
        assert forall|k: int| 0 <= k < rules.len() implies !rule_applies(#[trigger] rules[k], host) by {
            if k < d {
                assert(rest[k] == rules[k]);
            } else if k > d {
                assert(rest[k - 1] == rules[k]);
            }
        }
    }
    assert forall|i: int, j: int| #[trigger] is_first_match(rules, host, i, j) implies i != d
        && is_first_match(
        rest,
        host,
        if i < d {
            i
        } else {
            i - 1
        },
        j,
    ) by {
        let i2 = if i < d {
            i
        } else {
            i - 1
        };
        assert(rest[i2] == rules[i]);
        assert forall|k: int| 0 <= k < i2 implies !rule_applies(#[trigger] rest[k], host) by {
            if k >= d {
                assert(rest[k] == rules[k + 1]);
            } else {
                assert(rest[k] == rules[k]);
            }
        }
    }
    assert forall|i: int, j: int| #[trigger] is_first_match(rest, host, i, j) implies is_first_match(
        rules,
        host,
        if i < d {
            i
        } else {
            i + 1
        },
        j,
    ) by {
        let i2 = if i < d {
            i
        } else {
            i + 1
        };
        assert(rest[i] == rules[i2]);
        assert forall|k: int| 0 <= k < i2 implies !rule_applies(#[trigger] rules[k], host) by {
            if k < d {
                assert(rest[k] == rules[k]);
            } else if k > d {
                assert(rest[k - 1] == rules[k]);
            }
        }
    }
}

} // verus!
