//! Whether an agent host's heartbeat shows it can run the execution policies
//! of its host pool, and if not, every reason why.
use vstd::prelude::*;
use vstd::utf8::encode_utf8;
use crate::agents::{
    normalize_architecture, parse_authentication_class, spec_normalize_architecture,
    spec_parse_authentication_class, AgentAuthenticationClass,
};
use crate::artifacts::{bytes_less, bytes_lt};
use crate::text::{str_eq, texts_view};

verus! {

broadcast use vstd::std_specs::vec::group_vec_axioms;

/// An execution policy of the registry, as far as host capabilities read it.
pub struct HostPoolPolicy {
    pub host_pool: String,
    pub codex_version: String,
    /// Runner image per agent profile, one entry per profile.
    pub runner_images: Vec<(String, String)>,
    pub allowed_authentication: Vec<AgentAuthenticationClass>,
}

/// What a host reports in its heartbeat.
pub struct HostHeartbeat {
    pub platform: String,
    pub architecture: String,
    pub codex_version: String,
    pub podman_version: Option<String>,
    pub execution_mode: String,
    pub authentication_class: String,
    pub authentication_ready: bool,
    pub supported_profiles: Vec<String>,
    /// Runner image per profile, one entry per profile.
    pub runner_images: Vec<(String, String)>,
    pub available_slots: u32,
}

pub open spec fn pairs_view(v: Seq<(String, String)>) -> Seq<(Seq<char>, Seq<char>)> {
    v.map_values(|p: (String, String)| (p.0@, p.1@))
}

/// The value the first entry with `key` holds.
pub open spec fn lookup(entries: Seq<(Seq<char>, Seq<char>)>, key: Seq<char>) -> Option<Seq<char>>
    decreases entries.len(),
{
    if entries.len() == 0 {
        None
    } else if entries[0].0 == key {
        Some(entries[0].1)
    } else {
        lookup(entries.drop_first(), key)
    }
}

/// Text order: byte-wise lexicographic, as `String`'s `Ord` compares.
pub open spec fn text_lt(a: Seq<char>, b: Seq<char>) -> bool {
    bytes_lt(encode_utf8(a), encode_utf8(b))
}

/// `x` put into its place in the ordered, duplicate-free list `l`.
pub open spec fn insert_ordered(l: Seq<Seq<char>>, x: Seq<char>) -> Seq<Seq<char>>
    decreases l.len(),
{
    if l.len() == 0 {
        seq![x]
    } else if l[0] == x {
        l
    } else if text_lt(x, l[0]) {
        seq![x] + l
    } else {
        seq![l[0]] + insert_ordered(l.drop_first(), x)
    }
}

/// The distinct texts of `s` in text order.
pub open spec fn ordered_set(s: Seq<Seq<char>>) -> Seq<Seq<char>>
    decreases s.len(),
{
    if s.len() == 0 {
        Seq::empty()
    } else {
        insert_ordered(ordered_set(s.drop_last()), s.last())
    }
}

pub open spec fn in_pool(p: HostPoolPolicy, pool: Seq<char>) -> bool {
    p.host_pool@ == pool
}

pub open spec fn pool_has_policy(policies: Seq<HostPoolPolicy>, pool: Seq<char>) -> bool {
    exists|i: int| 0 <= i < policies.len() && in_pool(#[trigger] policies[i], pool)
}

pub open spec fn pool_runs_codex(policies: Seq<HostPoolPolicy>, pool: Seq<char>, version: Seq<char>) -> bool {
    exists|i: int| 0 <= i < policies.len() && in_pool(#[trigger] policies[i], pool) && policies[i].codex_version@ == version
}

pub open spec fn pool_runs_image(policies: Seq<HostPoolPolicy>, pool: Seq<char>, profile: Seq<char>, image: Seq<char>) -> bool {
    exists|i: int|
        0 <= i < policies.len() && in_pool(#[trigger] policies[i], pool) && lookup(pairs_view(policies[i].runner_images@), profile)
            == Some(image)
}

pub open spec fn pool_allows(policies: Seq<HostPoolPolicy>, pool: Seq<char>, auth: AgentAuthenticationClass) -> bool {
    exists|i: int| 0 <= i < policies.len() && in_pool(#[trigger] policies[i], pool) && policies[i].allowed_authentication@.contains(auth)
}

pub open spec fn when(c: bool, m: Seq<char>) -> Seq<Seq<char>> {
    if c {
        seq![m]
    } else {
        Seq::empty()
    }
}

/// The blockers owed for each declared profile, in profile order.
pub open spec fn profile_blockers(
    profiles: Seq<Seq<char>>,
    images: Seq<(Seq<char>, Seq<char>)>,
    policies: Seq<HostPoolPolicy>,
    pool: Seq<char>,
) -> Seq<Seq<char>>
    decreases profiles.len(),
{
    if profiles.len() == 0 {
        Seq::empty()
    } else {
        let p = profiles[0];
        let here = match lookup(images, p) {
            None => seq!["profile "@ + p + " has no runner image"@],
            Some(image) => when(
                !pool_runs_image(policies, pool, p, image),
                "profile "@ + p + " runner image does not match the policy registry"@,
            ),
        };
        here + profile_blockers(profiles.drop_first(), images, policies, pool)
    }
}

pub open spec fn has_undeclared_image(images: Seq<(Seq<char>, Seq<char>)>, profiles: Seq<Seq<char>>) -> bool {
    exists|i: int| 0 <= i < images.len() && !profiles.contains(#[trigger] images[i].0)
}

/// Every reason the heartbeat does not qualify the host, in the order they
/// are reported.
pub open spec fn capability_blockers(
    backend_enabled: bool,
    pool: Seq<char>,
    policies: Seq<HostPoolPolicy>,
    req: HostHeartbeat,
) -> Seq<Seq<char>> {
    let auth = spec_parse_authentication_class(req.authentication_class@);
    let mode = req.execution_mode@;
    let declared = texts_view(req.supported_profiles@);
    let profiles = ordered_set(declared);
    let images = pairs_view(req.runner_images@);
    when(!backend_enabled, "Codex agent backend is disabled"@)
        + when(
        req.platform@ != "linux"@ || spec_normalize_architecture(req.architecture@) != "amd64"@,
        "host must report Linux AMD64"@,
    ) + when(mode != "standalone"@ && mode != "kubernetes"@, "execution mode must be standalone or kubernetes"@)
        + when(auth is None, "authentication class is unsupported"@) + when(
        mode == "kubernetes"@ && auth == Some(AgentAuthenticationClass::ChatgptSession),
        "Kubernetes hosts cannot use a ChatGPT session"@,
    ) + when(mode == "standalone"@ && req.podman_version is None, "standalone hosts must report rootless Podman"@)
        + when(!req.authentication_ready, "authentication is not ready"@) + when(
        req.available_slots == 0,
        "host has no available execution slots"@,
    ) + when(!pool_has_policy(policies, pool), "host pool has no configured policies"@) + when(
        !pool_runs_codex(policies, pool, req.codex_version@),
        "Codex version does not match any host-pool policy"@,
    ) + when(profiles.len() != declared.len(), "supported profile list contains duplicates"@)
        + profile_blockers(profiles, images, policies, pool) + when(
        has_undeclared_image(images, declared),
        "runner image map contains an undeclared profile"@,
    ) + when(
        auth matches Some(a) && !pool_allows(policies, pool, a),
        "authentication class is not allowed by host-pool policies"@,
    )
}

fn text_less(a: &str, b: &str) -> (r: bool)
    ensures
        r == text_lt(a@, b@),
{
    let x = a.as_bytes();
    let y = b.as_bytes();
    bytes_less(x, y)
}

fn lookup_exec<'a>(entries: &'a Vec<(String, String)>, key: &str) -> (r: Option<&'a String>)
    ensures
        match r {
            Some(v) => lookup(pairs_view(entries@), key@) == Some(v@),
            None => lookup(pairs_view(entries@), key@) is None,
        },
{
    let ghost all = pairs_view(entries@);
    let mut i: usize = 0;
    proof {
        assert(all.subrange(0, all.len() as int) =~= all);
    }
    while i < entries.len()
        invariant
            all == pairs_view(entries@),
            i <= entries@.len(),
            lookup(all, key@) == lookup(all.subrange(i as int, all.len() as int), key@),
        decreases entries@.len() - i,
    {
        proof {
            let rest = all.subrange(i as int, all.len() as int);
            assert(rest.drop_first() =~= all.subrange(i + 1, all.len() as int));
            assert(rest[0] == all[i as int]);
        }
        if str_eq(entries[i].0.as_str(), key) {
            return Some(&entries[i].1);
        }
        i = i + 1;
    }
    proof {
        assert(all.subrange(i as int, all.len() as int).len() == 0);
    }
    None
}

proof fn lemma_insert_skips_prefix(l: Seq<Seq<char>>, x: Seq<char>, k: int)
    requires
        0 <= k <= l.len(),
        forall|j: int| 0 <= j < k ==> l[j] != x && !text_lt(x, #[trigger] l[j]),
    ensures
        insert_ordered(l, x) == l.subrange(0, k) + insert_ordered(l.subrange(k, l.len() as int), x),
    decreases k,
{
    if k == 0 {
        assert(l.subrange(0, 0) + l.subrange(0, l.len() as int) =~= l.subrange(0, l.len() as int));
        assert(l.subrange(0, l.len() as int) =~= l);
    } else {
        let t = l.drop_first();
        assert forall|j: int| 0 <= j < k - 1 implies t[j] != x && !text_lt(x, #[trigger] t[j]) by {
            assert(t[j] == l[j + 1]);
        }
        lemma_insert_skips_prefix(t, x, k - 1);
        assert(t.subrange(k - 1, t.len() as int) =~= l.subrange(k, l.len() as int));
        assert(seq![l[0]] + t.subrange(0, k - 1) =~= l.subrange(0, k));
        assert(l[0] != x && !text_lt(x, l[0]));
    }
}

/// Insert `x` into the ordered, duplicate-free list `l`.
fn insert_ordered_exec(l: Vec<String>, x: &str) -> (r: Vec<String>)
    ensures
        texts_view(r@) == insert_ordered(texts_view(l@), x@),
{
    let ghost lv = texts_view(l@);
    let mut i: usize = 0;
    while i < l.len()
        invariant
            lv == texts_view(l@),
            i <= l@.len(),
            forall|j: int| 0 <= j < i ==> lv[j] != x@ && !text_lt(x@, #[trigger] lv[j]),
        ensures
            i <= l@.len(),
            forall|j: int| 0 <= j < i ==> lv[j] != x@ && !text_lt(x@, #[trigger] lv[j]),
            i < l@.len() ==> (lv[i as int] == x@ || text_lt(x@, lv[i as int])),
        decreases l@.len() - i,
    {
        if str_eq(l[i].as_str(), x) || text_less(x, l[i].as_str()) {
            break;
        }
        i = i + 1;
    }
    proof {
        lemma_insert_skips_prefix(lv, x@, i as int);
    }
    let mut r: Vec<String> = Vec::new();
    let mut k: usize = 0;
    while k < i
        invariant
            lv == texts_view(l@),
            i <= l@.len(),
            k <= i,
            texts_view(r@) == lv.subrange(0, k as int),
        decreases i - k,
    {
        let ghost before = r@;
        let t = l[k].as_str().to_owned();
        proof {
            assert(t@ == lv[k as int]);
        }
        r.push(t);
        proof {
            assert(texts_view(r@) =~= texts_view(before).push(t@));
            assert(lv.subrange(0, k + 1) =~= lv.subrange(0, k as int).push(lv[k as int]));
        }
        k = k + 1;
    }
    let ghost rest = lv.subrange(i as int, lv.len() as int);
    if i < l.len() && str_eq(l[i].as_str(), x) {
        proof {
            assert(rest[0] == x@);
        }
    } else {
        proof {
            if i < l.len() {
                assert(rest[0] == lv[i as int]);
                assert(text_lt(x@, rest[0]));
            } else {
                assert(rest.len() == 0);
            }
        }
        r.push(x.to_owned());
    }
    let mut k: usize = i;
    while k < l.len()
        invariant
            lv == texts_view(l@),
            i <= k <= l@.len(),
            texts_view(r@) == lv.subrange(0, i as int) + if i < l@.len() && lv[i as int] == x@ {
                lv.subrange(i as int, k as int)
            } else {
                seq![x@] + lv.subrange(i as int, k as int)
            },
        decreases l@.len() - k,
    {
        let ghost before = r@;
        let t = l[k].as_str().to_owned();
        proof {
            assert(t@ == lv[k as int]);
        }
        r.push(t);
        proof {
            assert(texts_view(r@) =~= texts_view(before).push(t@));
            let tail = if i < l@.len() && lv[i as int] == x@ {
                lv.subrange(i as int, k as int)
            } else {
                seq![x@] + lv.subrange(i as int, k as int)
            };
            let tail2 = if i < l@.len() && lv[i as int] == x@ {
                lv.subrange(i as int, k + 1)
            } else {
                seq![x@] + lv.subrange(i as int, k + 1)
            };
            assert(tail2 =~= tail.push(lv[k as int]));
            assert(texts_view(r@) =~= lv.subrange(0, i as int) + tail2);
        }
        k = k + 1;
    }
    proof {
        assert(lv.subrange(i as int, l@.len() as int) == rest);
        if i < l@.len() && lv[i as int] == x@ {
            assert(insert_ordered(rest, x@) == rest);
        } else if i < l@.len() {
            assert(insert_ordered(rest, x@) == seq![x@] + rest);
        } else {
            assert(insert_ordered(rest, x@) == seq![x@]);
            assert(seq![x@] + rest =~= seq![x@]);
        }
    }
    r
}

/// The distinct declared profiles in text order.
fn ordered_profiles(profiles: &Vec<String>) -> (r: Vec<String>)
    ensures
        texts_view(r@) == ordered_set(texts_view(profiles@)),
{
    let ghost pv = texts_view(profiles@);
    let mut r: Vec<String> = Vec::new();
    let mut i: usize = 0;
    while i < profiles.len()
        invariant
            pv == texts_view(profiles@),
            i <= profiles@.len(),
            texts_view(r@) == ordered_set(pv.subrange(0, i as int)),
        decreases profiles@.len() - i,
    {
        proof {
            assert(pv.subrange(0, i + 1).drop_last() =~= pv.subrange(0, i as int));
        }
        r = insert_ordered_exec(r, profiles[i].as_str());
        i = i + 1;
    }
    proof {
        assert(pv.subrange(0, i as int) =~= pv);
    }
    r
}

fn text_list_contains(items: &Vec<String>, t: &str) -> (r: bool)
    ensures
        r == texts_view(items@).contains(t@),
{
    let mut i: usize = 0;
    while i < items.len()
        invariant
            i <= items@.len(),
            forall|j: int| 0 <= j < i ==> items@[j]@ != t@,
        decreases items@.len() - i,
    {
        if str_eq(items[i].as_str(), t) {
            proof {
                assert(texts_view(items@)[i as int] == t@);
            }
            return true;
        }
        i = i + 1;
    }
    proof {
        if texts_view(items@).contains(t@) {
            let j = choose|j: int| 0 <= j < texts_view(items@).len() && texts_view(items@)[j] == t@;
            assert(items@[j]@ == t@);
        }
    }
    false
}

fn auth_list_contains(items: &Vec<AgentAuthenticationClass>, a: AgentAuthenticationClass) -> (r: bool)
    ensures
        r == items@.contains(a),
{
    let mut i: usize = 0;
    while i < items.len()
        invariant
            i <= items@.len(),
            forall|j: int| 0 <= j < i ==> items@[j] != a,
        decreases items@.len() - i,
    {
        if items[i] == a {
            return true;
        }
        i = i + 1;
    }
    false
}

/// Which of the pool's policies are checked: whether any exists, runs the
/// reported Codex version, and allows the reported authentication.
fn pool_facts(policies: &Vec<HostPoolPolicy>, pool: &str, version: &str, auth: Option<AgentAuthenticationClass>) -> (r: (bool, bool, bool))
    ensures
        r.0 == pool_has_policy(policies@, pool@),
        r.1 == pool_runs_codex(policies@, pool@, version@),
        auth matches Some(a) ==> r.2 == pool_allows(policies@, pool@, a),
{
    let mut any = false;
    let mut codex = false;
    let mut allowed = false;
    let mut i: usize = 0;
    while i < policies.len()
        invariant
            i <= policies@.len(),
            any == exists|j: int| 0 <= j < i && in_pool(#[trigger] policies@[j], pool@),
            codex == exists|j: int| 0 <= j < i && in_pool(#[trigger] policies@[j], pool@) && policies@[j].codex_version@ == version@,
            auth matches Some(a) ==> allowed == exists|j: int|
                0 <= j < i && in_pool(#[trigger] policies@[j], pool@) && policies@[j].allowed_authentication@.contains(a),
        decreases policies@.len() - i,
    {
        let p = &policies[i];
        if str_eq(p.host_pool.as_str(), pool) {
            any = true;
            if str_eq(p.codex_version.as_str(), version) {
                codex = true;
            }
            match auth {
                Some(a) => {
                    if auth_list_contains(&p.allowed_authentication, a) {
                        allowed = true;
                    }
                },
                None => {},
            }
        }
        proof {
            assert(policies@[i as int] == *p);
        }
        i = i + 1;
    }
    (any, codex, allowed)
}

fn pool_image_configured(policies: &Vec<HostPoolPolicy>, pool: &str, profile: &str, image: &str) -> (r: bool)
    ensures
        r == pool_runs_image(policies@, pool@, profile@, image@),
{
    let mut i: usize = 0;
    while i < policies.len()
        invariant
            i <= policies@.len(),
            forall|j: int|
                0 <= j < i ==> !(in_pool(#[trigger] policies@[j], pool@) && lookup(pairs_view(policies@[j].runner_images@), profile@)
                    == Some(image@)),
        decreases policies@.len() - i,
    {
        let p = &policies[i];
        proof {
            assert(policies@[i as int] == *p);
        }
        if str_eq(p.host_pool.as_str(), pool) {
            match lookup_exec(&p.runner_images, profile) {
                Some(v) => {
                    if str_eq(v.as_str(), image) {
                        return true;
                    }
                },
                None => {},
            }
        }
        i = i + 1;
    }
    false
}

fn undeclared_image(images: &Vec<(String, String)>, declared: &Vec<String>) -> (r: bool)
    ensures
        r == has_undeclared_image(pairs_view(images@), texts_view(declared@)),
{
    let ghost iv = pairs_view(images@);
    let mut i: usize = 0;
    while i < images.len()
        invariant
            iv == pairs_view(images@),
            i <= images@.len(),
            forall|j: int| 0 <= j < i ==> texts_view(declared@).contains(#[trigger] iv[j].0),
        decreases images@.len() - i,
    {
        if !text_list_contains(declared, images[i].0.as_str()) {
            proof {
                assert(iv[i as int].0 == images@[i as int].0@);
            }
            return true;
        }
        proof {
            assert(iv[i as int].0 == images@[i as int].0@);
        }
        i = i + 1;
    }
    false
}

fn push_when(v: &mut Vec<String>, c: bool, m: &str)
    ensures
        texts_view(final(v)@) == texts_view(old(v)@) + when(c, m@),
{
    proof {
        assert(texts_view(old(v)@) + when(false, m@) =~= texts_view(old(v)@));
    }
    if c {
        v.push(m.to_owned());
        proof {
            assert(texts_view(v@) =~= texts_view(old(v)@) + when(c, m@));
        }
    }
}

/// Check the declared profiles, in order, against the runner images the
/// host reports and those the pool's policies configure.
fn push_profile_blockers(
    out: &mut Vec<String>,
    profiles: &Vec<String>,
    images: &Vec<(String, String)>,
    policies: &Vec<HostPoolPolicy>,
    pool: &str,
)
    ensures
        texts_view(final(out)@) == texts_view(old(out)@) + profile_blockers(
            texts_view(profiles@),
            pairs_view(images@),
            policies@,
            pool@,
        ),
{
    let ghost pv = texts_view(profiles@);
    let ghost start = texts_view(out@);
    let mut i: usize = 0;
    proof {
        assert(pv.subrange(0, pv.len() as int) =~= pv);
        assert(start + Seq::<Seq<char>>::empty() =~= start);
    }
    while i < profiles.len()
        invariant
            pv == texts_view(profiles@),
            i <= profiles@.len(),
            start + profile_blockers(pv, pairs_view(images@), policies@, pool@) == texts_view(out@) + profile_blockers(
                pv.subrange(i as int, pv.len() as int),
                pairs_view(images@),
                policies@,
                pool@,
            ),
        decreases profiles@.len() - i,
    {
        let p = profiles[i].as_str();
        let ghost rest = pv.subrange(i as int, pv.len() as int);
        proof {
            assert(rest[0] == p@);
            assert(rest.drop_first() =~= pv.subrange(i + 1, pv.len() as int));
        }
        let ghost before = texts_view(out@);
        match lookup_exec(images, p) {
            None => {
                let m = String::from_str("profile ").concat(p).concat(" has no runner image");
                out.push(m);
                proof {
                    assert(texts_view(out@) =~= before + seq!["profile "@ + p@ + " has no runner image"@]);
                }
            },
            Some(image) => {
                if !pool_image_configured(policies, pool, p, image.as_str()) {
                    let m = String::from_str("profile ").concat(p).concat(" runner image does not match the policy registry");
                    out.push(m);
                    proof {
                        assert(texts_view(out@) =~= before + seq!["profile "@ + p@ + " runner image does not match the policy registry"@]);
                    }
                } else {
                    proof {
                        assert(texts_view(out@) =~= before + Seq::<Seq<char>>::empty());
                    }
                }
            },
        }
        proof {
            let here = match lookup(pairs_view(images@), p@) {
                None => seq!["profile "@ + p@ + " has no runner image"@],
                Some(image) => when(
                    !pool_runs_image(policies@, pool@, p@, image),
                    "profile "@ + p@ + " runner image does not match the policy registry"@,
                ),
            };
            assert(texts_view(out@) == before + here);
            assert(profile_blockers(rest, pairs_view(images@), policies@, pool@) == here + profile_blockers(
                pv.subrange(i + 1, pv.len() as int),
                pairs_view(images@),
                policies@,
                pool@,
            ));
            assert(before + (here + profile_blockers(pv.subrange(i + 1, pv.len() as int), pairs_view(images@), policies@, pool@))
                =~= (before + here) + profile_blockers(pv.subrange(i + 1, pv.len() as int), pairs_view(images@), policies@, pool@));
        }
        i = i + 1;
    }
    proof {
        assert(pv.subrange(i as int, pv.len() as int).len() == 0);
        assert(texts_view(out@) + Seq::<Seq<char>>::empty() =~= texts_view(out@));
    }
}

/// Judge a host heartbeat: `"passed"` with no blockers, or `"failed"` with
/// every blocker found, in the order they are checked.
pub fn validate_capabilities(
    backend_enabled: bool,
    host_pool: &str,
    policies: &Vec<HostPoolPolicy>,
    request: &HostHeartbeat,
) -> (r: (&'static str, Vec<String>))
    ensures
        texts_view(r.1@) == capability_blockers(backend_enabled, host_pool@, policies@, *request),
        r.0@ == if r.1@.len() == 0 {
            "passed"@
        } else {
            "failed"@
        },
{
    let mut blockers: Vec<String> = Vec::new();
    let auth = parse_authentication_class(request.authentication_class.as_str());
    let mode = request.execution_mode.as_str();
    let standalone = str_eq(mode, "standalone");
    let kubernetes = str_eq(mode, "kubernetes");
    proof {
        assert(texts_view(blockers@) =~= Seq::<Seq<char>>::empty());
    }
    push_when(&mut blockers, !backend_enabled, "Codex agent backend is disabled");
    let linux_amd64 = str_eq(request.platform.as_str(), "linux") && str_eq(
        normalize_architecture(request.architecture.as_str()),
        "amd64",
    );
    push_when(&mut blockers, !linux_amd64, "host must report Linux AMD64");
    push_when(&mut blockers, !standalone && !kubernetes, "execution mode must be standalone or kubernetes");
    push_when(&mut blockers, auth.is_none(), "authentication class is unsupported");
    let chatgpt = match auth {
        Some(AgentAuthenticationClass::ChatgptSession) => true,
        _ => false,
    };
    push_when(&mut blockers, kubernetes && chatgpt, "Kubernetes hosts cannot use a ChatGPT session");
    push_when(&mut blockers, standalone && request.podman_version.is_none(), "standalone hosts must report rootless Podman");
    push_when(&mut blockers, !request.authentication_ready, "authentication is not ready");
    push_when(&mut blockers, request.available_slots == 0, "host has no available execution slots");
    let (any, codex, allowed) = pool_facts(policies, host_pool, request.codex_version.as_str(), auth);
    push_when(&mut blockers, !any, "host pool has no configured policies");
    push_when(&mut blockers, !codex, "Codex version does not match any host-pool policy");
    let profiles = ordered_profiles(&request.supported_profiles);
    push_when(&mut blockers, profiles.len() != request.supported_profiles.len(), "supported profile list contains duplicates");
    push_profile_blockers(&mut blockers, &profiles, &request.runner_images, policies, host_pool);
    let undeclared = undeclared_image(&request.runner_images, &request.supported_profiles);
    push_when(&mut blockers, undeclared, "runner image map contains an undeclared profile");
    let disallowed = match auth {
        Some(_) => !allowed,
        None => false,
    };
    push_when(&mut blockers, disallowed, "authentication class is not allowed by host-pool policies");
    proof {
        assert(texts_view(blockers@) =~= capability_blockers(backend_enabled, host_pool@, policies@, *request));
    }
    if blockers.len() == 0 {
        ("passed", blockers)
    } else {
        ("failed", blockers)
    }
}

} // verus!
