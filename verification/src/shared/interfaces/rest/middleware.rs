//! The decisions of the HTTP middleware: rate limits per path, the admin-panel origin lock,
//! and which address a request is counted against. The key store, the limiter and the
//! parsing of IP addresses sit around them.

use crate::text::{
    ascii_lowercase, contains, ends_with, is_trimmed, is_white_space, lemma_trimmed_fixed,
    seq_contains, seq_ends_with, seq_starts_with, split_by, split_on, starts_with, str_equal,
    strip_trailing, texts, to_ascii_lowercase, trim, trim_end_char, trimmed, ascii_lower_char,
    lemma_split_on_nonempty,
};
use vstd::prelude::*;
use vstd::string::*;

verus! {

/// An origin as compared: trimmed, without trailing slashes, ASCII-lowercased.
pub open spec fn normalized_origin(origin: Seq<char>) -> Seq<char> {
    ascii_lowercase(strip_trailing(trimmed(origin), '/'))
}

/// Normalizes an origin for comparison.
pub fn normalize_origin(origin: &str) -> (r: String)
    ensures
        r@ == normalized_origin(origin@),
{
    let t = trim(origin);
    let s = trim_end_char(t.as_str(), '/');
    to_ascii_lowercase(s.as_str())
}

/// Normalizing an origin that comes out without surrounding white space a second time
/// changes nothing.
pub proof fn lemma_normalize_origin_idempotent(origin: Seq<char>)
    requires
        is_trimmed(normalized_origin(origin)),
    ensures
        normalized_origin(normalized_origin(origin)) == normalized_origin(origin),
{
    let v = normalized_origin(origin);
    let u = strip_trailing(trimmed(origin), '/');
    lemma_strip_trailing_last(trimmed(origin), '/');
    lemma_trimmed_fixed(v);
    if v.len() > 0 {
        assert(v.last() == ascii_lower_char(u.last()));
        assert(v.last() != '/');
    }
    assert(strip_trailing(v, '/') == v);
    assert(ascii_lowercase(v) =~= v) by {
        assert forall|i: int| 0 <= i < v.len() implies #[trigger] ascii_lowercase(v)[i] == v[i] by {
            assert(v[i] == ascii_lower_char(u[i]));
        }
    }
}

/// After stripping, the text does not end with the stripped character.
pub proof fn lemma_strip_trailing_last(s: Seq<char>, c: char)
    ensures
        strip_trailing(s, c).len() == 0 || strip_trailing(s, c).last() != c,
    decreases s.len(),
{
    if s.len() > 0 && s.last() == c {
        lemma_strip_trailing_last(s.drop_last(), c);
    }
}

/// The normalized origin, when it is not empty.
pub open spec fn nonempty_origin(p: Seq<char>) -> Option<Seq<char>> {
    if normalized_origin(p).len() > 0 {
        Some(normalized_origin(p))
    } else {
        None
    }
}

/// The admin-panel origins of a comma-separated setting, normalized, blank ones dropped.
pub open spec fn admin_origins_text(raw: Seq<char>) -> Seq<Seq<char>> {
    split_on(raw, ',').filter_map(|p: Seq<char>| nonempty_origin(p))
}

/// Reads the admin-panel origins of a comma-separated setting.
pub fn parse_admin_origins(raw: &str) -> (origins: Vec<String>)
    ensures
        texts(origins@) == admin_origins_text(raw@),
{
    let parts = split_by(raw, ',');
    let ghost pv = texts(parts@);
    let mut out: Vec<String> = Vec::new();
    let mut i: usize = 0;
    assert(pv.subrange(0, 0) =~= Seq::<Seq<char>>::empty());
    while i < parts.len()
        invariant
            i <= parts.len(),
            pv == texts(parts@),
            pv == split_on(raw@, ','),
            texts(out@) == pv.subrange(0, i as int).filter_map(|p: Seq<char>| nonempty_origin(p)),
        decreases parts.len() - i,
    {
        let n = normalize_origin(parts[i].as_str());
        let ghost sub = pv.subrange(0, i + 1);
        assert(sub.drop_last() =~= pv.subrange(0, i as int));
        assert(sub.last() == parts@[i as int]@);
        if !n.as_str().is_empty() {
            out.push(n);
        }
        assert(texts(out@) =~= sub.filter_map(|p: Seq<char>| nonempty_origin(p)));
        i = i + 1;
    }
    assert(pv.subrange(0, parts.len() as int) =~= pv);
    out
}

/// A privileged request passes only with an `Origin` that, normalized, is one of the
/// allowed origins.
pub fn origin_allowed(origin: Option<&str>, allowed: &Vec<String>) -> (b: bool)
    ensures
        b == (origin is Some && exists|i: int|
            0 <= i < allowed@.len() && #[trigger] allowed@[i]@ == normalized_origin(origin->0@)),
{
    if origin.is_none() {
        return false;
    }
    let o = origin.unwrap();
    let n = normalize_origin(o);
    let mut i: usize = 0;
    while i < allowed.len()
        invariant
            i <= allowed.len(),
            n@ == normalized_origin(o@),
            origin == Some(o),
            forall|j: int| 0 <= j < i ==> #[trigger] allowed@[j]@ != n@,
        decreases allowed.len() - i,
    {
        if str_equal(allowed[i].as_str(), n.as_str()) {
            assert(allowed@[i as int]@ == n@);
            return true;
        }
        i = i + 1;
    }
    false
}

/// The address a request is counted against. Behind a trusted proxy the forwarded address
/// (`cf-connecting-ip` first, then `x-forwarded-for`) is believed; otherwise the peer's own;
/// without a peer address, `unknown`.
pub open spec fn client_ip_text(
    remote_ip: Option<Seq<char>>,
    remote_trusted: bool,
    cf_ip: Option<Seq<char>>,
    forwarded_ip: Option<Seq<char>>,
) -> Seq<char> {
    match remote_ip {
        None => "unknown"@,
        Some(ip) => if remote_trusted {
            match cf_ip {
                Some(c) => c,
                None => match forwarded_ip {
                    Some(f) => f,
                    None => ip,
                },
            }
        } else {
            ip
        },
    }
}

/// The text of an optional string slice.
pub open spec fn opt_str(s: Option<&str>) -> Option<Seq<char>> {
    match s {
        Some(v) => Some(v@),
        None => None,
    }
}

/// Chooses the address a request is counted against; the addresses come already parsed.
pub fn choose_client_ip(
    remote_ip: Option<&str>,
    remote_trusted: bool,
    cf_ip: Option<&str>,
    forwarded_ip: Option<&str>,
) -> (ip: String)
    ensures
        ip@ == client_ip_text(opt_str(remote_ip), remote_trusted, opt_str(cf_ip), opt_str(forwarded_ip)),
{
    match remote_ip {
        None => String::from_str("unknown"),
        Some(ip) => {
            if remote_trusted {
                if let Some(c) = cf_ip {
                    return String::from_str(c);
                }
                if let Some(f) = forwarded_ip {
                    return String::from_str(f);
                }
            }
            String::from_str(ip)
        },
    }
}

/// The candidate address of an `x-forwarded-for` header: its first entry, trimmed.
pub fn forwarded_for_candidate(header: &str) -> (c: String)
    ensures
        c@ == trimmed(split_on(header@, ',')[0]),
{
    let parts = split_by(header, ',');
    proof {
        lemma_split_on_nonempty(header@, ',');
    }
    assert(texts(parts@)[0] == parts@[0]@);
    trim(parts[0].as_str())
}

/// A token bucket: its key, its size, and its refill rate in tokens per second, in
/// ten-thousandths.
#[derive(Debug, Clone)]
pub struct RateLimitRule {
    pub key: String,
    pub limit: u32,
    pub refill_per_10k_seconds: u32,
}

/// Abstract contents of a rule.
pub struct RuleView {
    pub key: Seq<char>,
    pub limit: u32,
    pub refill: u32,
}

impl View for RateLimitRule {
    type V = RuleView;

    open spec fn view(&self) -> RuleView {
        RuleView { key: self.key@, limit: self.limit, refill: self.refill_per_10k_seconds }
    }
}

/// The limits a request must pass, in order: its address's ban, the address's global bucket,
/// then the buckets of the sensitive endpoints it hits.
#[derive(Debug, Clone)]
pub struct RateLimitPlan {
    pub ban_key: String,
    pub global: RateLimitRule,
    pub specific: Vec<RateLimitRule>,
}

/// The API documentation pages.
pub open spec fn is_swagger_path(path: Seq<char>) -> bool {
    seq_starts_with(path, "/swagger-ui"@) || seq_starts_with(path, "/api-docs"@)
}

/// A rule, present only when `cond` holds.
pub open spec fn rule_if(cond: bool, key: Seq<char>, limit: u32, refill: u32) -> Seq<RuleView> {
    if cond {
        seq![RuleView { key, limit, refill }]
    } else {
        Seq::empty()
    }
}

/// The buckets of the sensitive endpoints a request hits, in the order they are checked.
pub open spec fn specific_rules(path: Seq<char>, method: Seq<char>, ip: Seq<char>) -> Seq<RuleView> {
    let post = method == "POST"@;
    rule_if(path == "/api/v1/tenants"@ && post, "rl:tenants:create:ip:"@ + ip, 1, 167) + rule_if(
        post && (seq_ends_with(path, "/oauth/google/rotate"@) || seq_ends_with(
            path,
            "/jwt-signing-key/rotate"@,
        ) || seq_ends_with(path, "/anon-key/reissue"@)),
        "rl:tenants:admin-action:ip:"@ + ip,
        5,
        833,
    ) + rule_if(
        seq_starts_with(path, "/api/v1/tenants"@) && method == "DELETE"@,
        "rl:tenants:delete:ip:"@ + ip,
        1,
        167,
    ) + rule_if(seq_contains(path, "/identity/sign-up"@) && post, "rl:signup:ip:"@ + ip, 3, 500)
        + rule_if(seq_contains(path, "/auth/sign-in"@) && post, "rl:signin:ip:"@ + ip, 3, 500)
        + rule_if(
        seq_contains(path, "/identity/forgot-password"@) && post,
        "rl:forgot:ip:"@ + ip,
        2,
        333,
    )
}

/// A rule list made of two parts holds what either part holds.
proof fn lemma_rules_concat_contains(a: Seq<RuleView>, b: Seq<RuleView>, x: RuleView)
    ensures
        (a + b).contains(x) <==> a.contains(x) || b.contains(x),
{
    if a.contains(x) {
        let i = choose|i: int| 0 <= i < a.len() && a[i] == x;
        assert((a + b)[i] == x);
    }
    if b.contains(x) {
        let i = choose|i: int| 0 <= i < b.len() && b[i] == x;
        assert((a + b)[a.len() + i] == x);
    }
    if (a + b).contains(x) {
        let i = choose|i: int| 0 <= i < (a + b).len() && (a + b)[i] == x;
        if i < a.len() {
            assert(a[i] == x);
        } else {
            assert(b[i - a.len()] == x);
        }
    }
}

/// A conditional rule holds exactly that rule, when its condition holds.
proof fn lemma_rule_if_contains(cond: bool, key: Seq<char>, limit: u32, refill: u32, x: RuleView)
    ensures
        rule_if(cond, key, limit, refill).contains(x) <==> (cond && x == (RuleView {
            key,
            limit,
            refill,
        })),
{
    if cond && x == (RuleView { key, limit, refill }) {
        assert(rule_if(cond, key, limit, refill)[0] == x);
    }
}

/// The buckets of the sensitive endpoints, with their sizes and refill rates (tokens per
/// second in ten-thousandths): tenant creation 1 per minute, tenant admin actions 5 per
/// minute, tenant deletion 1 per minute, sign-up 3 per minute, sign-in 3 per minute and
/// password reset requests 2 per minute, each per address. A request passes exactly the
/// buckets of the endpoints it hits, and no other.
pub proof fn lemma_sensitive_buckets(path: Seq<char>, method: Seq<char>, ip: Seq<char>)
    ensures
        forall|x: RuleView| #[trigger] specific_rules(path, method, ip).contains(x) <==> {
            ||| (path == "/api/v1/tenants"@ && method == "POST"@ && x == (RuleView {
                key: "rl:tenants:create:ip:"@ + ip,
                limit: 1,
                refill: 167,
            }))
            ||| (method == "POST"@ && (seq_ends_with(path, "/oauth/google/rotate"@)
                || seq_ends_with(path, "/jwt-signing-key/rotate"@) || seq_ends_with(
                path,
                "/anon-key/reissue"@,
            )) && x == (RuleView { key: "rl:tenants:admin-action:ip:"@ + ip, limit: 5, refill: 833 }))
            ||| (seq_starts_with(path, "/api/v1/tenants"@) && method == "DELETE"@ && x == (
            RuleView { key: "rl:tenants:delete:ip:"@ + ip, limit: 1, refill: 167 }))
            ||| (method == "POST"@ && seq_contains(path, "/identity/sign-up"@) && x == (RuleView {
                key: "rl:signup:ip:"@ + ip,
                limit: 3,
                refill: 500,
            }))
            ||| (method == "POST"@ && seq_contains(path, "/auth/sign-in"@) && x == (RuleView {
                key: "rl:signin:ip:"@ + ip,
                limit: 3,
                refill: 500,
            }))
            ||| (method == "POST"@ && seq_contains(path, "/identity/forgot-password"@) && x == (
            RuleView { key: "rl:forgot:ip:"@ + ip, limit: 2, refill: 333 }))
        },
{
    let post = method == "POST"@;
    let r1 = rule_if(path == "/api/v1/tenants"@ && post, "rl:tenants:create:ip:"@ + ip, 1, 167);
    let r2 = rule_if(
        post && (seq_ends_with(path, "/oauth/google/rotate"@) || seq_ends_with(
            path,
            "/jwt-signing-key/rotate"@,
        ) || seq_ends_with(path, "/anon-key/reissue"@)),
        "rl:tenants:admin-action:ip:"@ + ip,
        5,
        833,
    );
    let r3 = rule_if(
        seq_starts_with(path, "/api/v1/tenants"@) && method == "DELETE"@,
        "rl:tenants:delete:ip:"@ + ip,
        1,
        167,
    );
    let r4 = rule_if(seq_contains(path, "/identity/sign-up"@) && post, "rl:signup:ip:"@ + ip, 3, 500);
    let r5 = rule_if(seq_contains(path, "/auth/sign-in"@) && post, "rl:signin:ip:"@ + ip, 3, 500);
    let r6 = rule_if(
        seq_contains(path, "/identity/forgot-password"@) && post,
        "rl:forgot:ip:"@ + ip,
        2,
        333,
    );
    assert(specific_rules(path, method, ip) == r1 + r2 + r3 + r4 + r5 + r6);
    assert forall|x: RuleView| #[trigger] specific_rules(path, method, ip).contains(x) <==> (
    r1.contains(x) || r2.contains(x) || r3.contains(x) || r4.contains(x) || r5.contains(x)
        || r6.contains(x)) by {
        lemma_rules_concat_contains(r1 + r2 + r3 + r4 + r5, r6, x);
        lemma_rules_concat_contains(r1 + r2 + r3 + r4, r5, x);
        lemma_rules_concat_contains(r1 + r2 + r3, r4, x);
        lemma_rules_concat_contains(r1 + r2, r3, x);
        lemma_rules_concat_contains(r1, r2, x);
    }
    assert forall|x: RuleView| #[trigger] specific_rules(path, method, ip).contains(x) <==> {
        ||| (path == "/api/v1/tenants"@ && method == "POST"@ && x == (RuleView {
            key: "rl:tenants:create:ip:"@ + ip,
            limit: 1,
            refill: 167,
        }))
        ||| (method == "POST"@ && (seq_ends_with(path, "/oauth/google/rotate"@) || seq_ends_with(
            path,
            "/jwt-signing-key/rotate"@,
        ) || seq_ends_with(path, "/anon-key/reissue"@)) && x == (RuleView {
            key: "rl:tenants:admin-action:ip:"@ + ip,
            limit: 5,
            refill: 833,
        }))
        ||| (seq_starts_with(path, "/api/v1/tenants"@) && method == "DELETE"@ && x == (RuleView {
            key: "rl:tenants:delete:ip:"@ + ip,
            limit: 1,
            refill: 167,
        }))
        ||| (method == "POST"@ && seq_contains(path, "/identity/sign-up"@) && x == (RuleView {
            key: "rl:signup:ip:"@ + ip,
            limit: 3,
            refill: 500,
        }))
        ||| (method == "POST"@ && seq_contains(path, "/auth/sign-in"@) && x == (RuleView {
            key: "rl:signin:ip:"@ + ip,
            limit: 3,
            refill: 500,
        }))
        ||| (method == "POST"@ && seq_contains(path, "/identity/forgot-password"@) && x == (
        RuleView { key: "rl:forgot:ip:"@ + ip, limit: 2, refill: 333 }))
    } by {
        lemma_rule_if_contains(path == "/api/v1/tenants"@ && post, "rl:tenants:create:ip:"@ + ip, 1, 167, x);
        lemma_rule_if_contains(
            post && (seq_ends_with(path, "/oauth/google/rotate"@) || seq_ends_with(
                path,
                "/jwt-signing-key/rotate"@,
            ) || seq_ends_with(path, "/anon-key/reissue"@)),
            "rl:tenants:admin-action:ip:"@ + ip,
            5,
            833,
            x,
        );
        lemma_rule_if_contains(
            seq_starts_with(path, "/api/v1/tenants"@) && method == "DELETE"@,
            "rl:tenants:delete:ip:"@ + ip,
            1,
            167,
            x,
        );
        lemma_rule_if_contains(seq_contains(path, "/identity/sign-up"@) && post, "rl:signup:ip:"@ + ip, 3, 500, x);
        lemma_rule_if_contains(seq_contains(path, "/auth/sign-in"@) && post, "rl:signin:ip:"@ + ip, 3, 500, x);
        lemma_rule_if_contains(
            seq_contains(path, "/identity/forgot-password"@) && post,
            "rl:forgot:ip:"@ + ip,
            2,
            333,
            x,
        );
    }
}

fn push_rule(rules: &mut Vec<RateLimitRule>, cond: bool, prefix: &str, ip: &str, limit: u32, refill: u32)
    ensures
        final(rules)@.map_values(|r: RateLimitRule| r@) == old(rules)@.map_values(
            |r: RateLimitRule| r@,
        ) + rule_if(cond, prefix@ + ip@, limit, refill),
{
    let ghost before = old(rules)@.map_values(|r: RateLimitRule| r@);
    if cond {
        rules.push(
            RateLimitRule {
                key: String::from_str(prefix).concat(ip),
                limit,
                refill_per_10k_seconds: refill,
            },
        );
    }
    assert(rules@.map_values(|r: RateLimitRule| r@) =~= before + rule_if(
        cond,
        prefix@ + ip@,
        limit,
        refill,
    ));
}

/// Whether a plan holds, among the buckets of its sensitive endpoints, the bucket `key` of
/// `limit` tokens refilled at `refill` ten-thousandths of a token per second.
pub open spec fn plan_has(p: RateLimitPlan, key: Seq<char>, limit: u32, refill: u32) -> bool {
    p.specific@.map_values(|x: RateLimitRule| x@).contains(RuleView { key, limit, refill })
}

/// The limits of a request, or `None` when the documentation is switched off and the
/// request asks for it (answered with 404). The method is its upper-case name.
pub fn rate_limit_plan(path: &str, method: &str, ip: &str, swagger_enabled: bool) -> (r: Option<
    RateLimitPlan,
>)
    ensures
        r is None <==> (!swagger_enabled && is_swagger_path(path@)),
        r matches Some(p) ==> {
            &&& p.ban_key@ == "rl:ban:ip:"@ + ip@
            &&& p.global@ == if is_swagger_path(path@) {
                RuleView { key: "rl:ip:swagger:"@ + ip@, limit: 40, refill: 400000 }
            } else {
                RuleView { key: "rl:ip:"@ + ip@, limit: 20, refill: 200000 }
            }
            &&& p.specific@.map_values(|x: RateLimitRule| x@) == specific_rules(path@, method@, ip@)
        },
        // the sensitive endpoints' buckets, each per address
        r matches Some(p) ==> (path@ == "/api/v1/tenants"@ && method@ == "POST"@ ==> plan_has(
            p,
            "rl:tenants:create:ip:"@ + ip@,
            1,
            167,
        )),
        r matches Some(p) ==> (method@ == "POST"@ && (seq_ends_with(path@, "/oauth/google/rotate"@)
            || seq_ends_with(path@, "/jwt-signing-key/rotate"@) || seq_ends_with(
            path@,
            "/anon-key/reissue"@,
        )) ==> plan_has(p, "rl:tenants:admin-action:ip:"@ + ip@, 5, 833)),
        r matches Some(p) ==> (seq_starts_with(path@, "/api/v1/tenants"@) && method@ == "DELETE"@
            ==> plan_has(p, "rl:tenants:delete:ip:"@ + ip@, 1, 167)),
        r matches Some(p) ==> (method@ == "POST"@ && seq_contains(path@, "/identity/sign-up"@)
            ==> plan_has(p, "rl:signup:ip:"@ + ip@, 3, 500)),
        r matches Some(p) ==> (method@ == "POST"@ && seq_contains(path@, "/auth/sign-in"@)
            ==> plan_has(p, "rl:signin:ip:"@ + ip@, 3, 500)),
        r matches Some(p) ==> (method@ == "POST"@ && seq_contains(
            path@,
            "/identity/forgot-password"@,
        ) ==> plan_has(p, "rl:forgot:ip:"@ + ip@, 2, 333)),
{
    let is_swagger = starts_with(path, "/swagger-ui") || starts_with(path, "/api-docs");
    if !swagger_enabled && is_swagger {
        return None;
    }
    let global = if is_swagger {
        RateLimitRule {
            key: String::from_str("rl:ip:swagger:").concat(ip),
            limit: 40,
            refill_per_10k_seconds: 400000,
        }
    } else {
        RateLimitRule {
            key: String::from_str("rl:ip:").concat(ip),
            limit: 20,
            refill_per_10k_seconds: 200000,
        }
    };
    let post = str_equal(method, "POST");
    let mut specific: Vec<RateLimitRule> = Vec::new();
    assert(specific@.map_values(|x: RateLimitRule| x@) =~= Seq::<RuleView>::empty());
    push_rule(&mut specific, str_equal(path, "/api/v1/tenants") && post, "rl:tenants:create:ip:", ip, 1, 167);
    push_rule(
        &mut specific,
        post && (ends_with(path, "/oauth/google/rotate") || ends_with(path, "/jwt-signing-key/rotate")
            || ends_with(path, "/anon-key/reissue")),
        "rl:tenants:admin-action:ip:",
        ip,
        5,
        833,
    );
    push_rule(
        &mut specific,
        starts_with(path, "/api/v1/tenants") && str_equal(method, "DELETE"),
        "rl:tenants:delete:ip:",
        ip,
        1,
        167,
    );
    push_rule(&mut specific, contains(path, "/identity/sign-up") && post, "rl:signup:ip:", ip, 3, 500);
    push_rule(&mut specific, contains(path, "/auth/sign-in") && post, "rl:signin:ip:", ip, 3, 500);
    push_rule(
        &mut specific,
        contains(path, "/identity/forgot-password") && post,
        "rl:forgot:ip:",
        ip,
        2,
        333,
    );
    assert(specific@.map_values(|x: RateLimitRule| x@) =~= specific_rules(path@, method@, ip@));
    proof {
        lemma_sensitive_buckets(path@, method@, ip@);
    }
    Some(RateLimitPlan { ban_key: String::from_str("rl:ban:ip:").concat(ip), global, specific })
}

/// The status of a request for the documentation while it is switched off.
pub const DOCS_DISABLED_STATUS: u16 = 404;

/// What the key store answered for one bucket of a request.
#[derive(Debug, Clone, Copy, PartialEq, Eq, Structural)]
pub enum LimitOutcome {
    Allowed,
    Exceeded,
    Unavailable,
}

/// What one bucket's answer leads to: the status the request is refused with (none when it
/// goes on), and whether the address's excess counter is counted up.
#[derive(Debug, Clone, Copy, PartialEq, Eq, Structural)]
pub struct LimitVerdict {
    pub reject_status: Option<u16>,
    pub count_excess: bool,
}

/// The status of a request from a banned address: 429; none when the address is not banned.
pub fn ban_verdict(banned: bool) -> (s: Option<u16>)
    ensures
        s == if banned {
            Some(429u16)
        } else {
            None
        },
{
    if banned {
        Some(429)
    } else {
        None
    }
}

/// A full bucket refuses with 429, and only the global bucket counts the excess towards a
/// ban; a key store that cannot answer refuses with 503.
pub fn limit_verdict(outcome: LimitOutcome, global: bool) -> (v: LimitVerdict)
    ensures
        v.reject_status == match outcome {
            LimitOutcome::Allowed => None,
            LimitOutcome::Exceeded => Some(429u16),
            LimitOutcome::Unavailable => Some(503u16),
        },
        v.count_excess == (global && outcome == LimitOutcome::Exceeded),
{
    match outcome {
        LimitOutcome::Allowed => LimitVerdict { reject_status: None, count_excess: false },
        LimitOutcome::Exceeded => LimitVerdict { reject_status: Some(429), count_excess: global },
        LimitOutcome::Unavailable => LimitVerdict { reject_status: Some(503), count_excess: false },
    }
}

/// The counter of an address's global-limit excesses.
pub fn excess_counter_key(ip: &str) -> (k: String)
    ensures
        k@ == "rl:ip:exceeded:"@ + ip@,
{
    String::from_str("rl:ip:exceeded:").concat(ip)
}

/// What the `count`-th global-limit excess of an address leads to: the counter's window
/// starts at the first one, and the address is banned from the twenty-fifth on.
#[derive(Debug, Clone, Copy)]
pub struct ExcessResponse {
    pub expire_counter_after_secs: Option<u64>,
    pub ban_for_secs: Option<u64>,
}

pub fn excess_response(count: u64) -> (r: ExcessResponse)
    ensures
        r.expire_counter_after_secs == if count == 1 {
            Some(30u64)
        } else {
            None
        },
        r.ban_for_secs == if count >= 25 {
            Some(300u64)
        } else {
            None
        },
{
    ExcessResponse {
        expire_counter_after_secs: if count == 1 {
            Some(30)
        } else {
            None
        },
        ban_for_secs: if count >= 25 {
            Some(300)
        } else {
            None
        },
    }
}

} // verus!
