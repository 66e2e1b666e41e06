//! Core permission data types and the permission resolution service.

use vstd::prelude::*;

use crate::app_gateway::AppGatewayClient;
use crate::cache::{
    distinct_keys, lemma_spec_put_find, spec_find, spec_lookup_valid, spec_put, spec_remove,
    CacheEntry, GrantCache,
};
use crate::launch_delegate::{AdapterVerdict, LaunchDelegateClient};
use crate::registry::{spec_rule_lookup, PermissionRegistry, PermissionRule, RuleVerdict};
use crate::{sat_add, spec_sat_add};

verus! {

/// Default time-to-live for grants resolved from a static allow/deny
/// rule: long, since the registry does not change underneath.
pub const DEFAULT_STATIC_TTL_SECS: u64 = 3600;

/// Default time-to-live for dynamically confirmed grants: short, so a
/// changed live decision is picked up soon.
pub const DEFAULT_DYNAMIC_TTL_SECS: u64 = 60;

/// Default time-to-live for the cached deny of an unknown capability:
/// bounds repeated negative lookups without pinning the answer for long.
pub const DEFAULT_NEGATIVE_TTL_SECS: u64 = 30;

/// How long a lifecycle-adapter confirmation may take before it is
/// treated as unavailable; the deadline handed to the adapter is
/// `now + ADAPTER_TIMEOUT_SECS` (saturating).
pub const ADAPTER_TIMEOUT_SECS: u64 = 5;

/// The identity class of a requesting application; determines which
/// static registry rules apply to it.
#[derive(Clone, Copy, PartialEq, Eq, Structural, Debug)]
pub enum PermissionRole {
    FirstParty,
    ThirdParty,
    System,
}

/// The final answer of a permission check: the capability is either
/// granted or refused.
#[derive(Clone, Copy, PartialEq, Eq, Structural, Debug)]
pub enum Verdict {
    Allow,
    Deny,
}

/// Where a resolved verdict came from, doubling as the diagnostic tag
/// on results: a static registry rule, a dynamic (live-confirmed)
/// decision, an unreachable lifecycle adapter, or the deny-by-default
/// answer for a capability no rule mentions.
#[derive(Clone, Copy, PartialEq, Eq, Structural, Debug)]
pub enum GrantSource {
    Static,
    Dynamic,
    AdapterUnavailable,
    UnknownCapability,
}

/// A resolved decision for one (application, capability) pair: the unit
/// stored in the grant cache. Immutable once created; a refresh produces
/// a new grant.
#[derive(Clone, Copy, PartialEq, Eq, Structural, Debug)]
pub struct PermissionGrant {
    /// The resolved allow/deny answer.
    pub verdict: Verdict,
    /// How the answer was obtained.
    pub source: GrantSource,
    /// Timestamp (seconds) at which the grant was computed.
    pub created: u64,
}

/// Outcome of a single-capability check: the capability asked about,
/// the verdict, and the diagnostic source tag.
#[derive(PartialEq, Eq, Debug)]
pub struct PermissionRequestResult {
    pub capability: String,
    pub verdict: Verdict,
    pub source: GrantSource,
}

/// Outcome of a batch check: one result per requested capability, in
/// the caller's input order, paired with the original capability list.
#[derive(PartialEq, Eq, Debug)]
pub struct PermissionCheckAllResult {
    pub capabilities: Vec<String>,
    pub results: Vec<PermissionRequestResult>,
}

/// What one resolution step decides: the answer handed to the caller and
/// the grant written to the cache, if any. Purely a specification-level
/// description of `check`.
pub struct CheckOutcome {
    pub verdict: Verdict,
    pub source: GrantSource,
    pub write: Option<(PermissionGrant, u64)>,
}

/// The outcome of resolving one capability against a given cache state:
/// a valid cached grant is answered as is; otherwise the static rule
/// decides, a prompt-class rule asking the lifecycle adapter for a live
/// verdict. Every freshly computed grant is cached with the
/// rule-class TTL, except the fail-closed deny for an unavailable
/// adapter, which is not cached at all.
pub open spec fn spec_check_outcome<L: LaunchDelegateClient>(
    reg: Seq<PermissionRule>,
    del: L,
    ttls: (u64, u64, u64),
    cache: Seq<CacheEntry>,
    app: String,
    role: PermissionRole,
    cap: String,
    now: u64,
) -> CheckOutcome {
    match spec_lookup_valid(cache, app@, cap@, now) {
        Some(g) => CheckOutcome { verdict: g.verdict, source: g.source, write: None },
        None => match spec_rule_lookup(reg, role, cap@) {
            None => CheckOutcome {
                verdict: Verdict::Deny,
                source: GrantSource::UnknownCapability,
                write: Some(
                    (
                        PermissionGrant {
                            verdict: Verdict::Deny,
                            source: GrantSource::UnknownCapability,
                            created: now,
                        },
                        ttls.2,
                    ),
                ),
            },
            Some(rule) => match rule.verdict {
                RuleVerdict::Allow => CheckOutcome {
                    verdict: Verdict::Allow,
                    source: GrantSource::Static,
                    write: Some(
                        (
                            PermissionGrant {
                                verdict: Verdict::Allow,
                                source: GrantSource::Static,
                                created: now,
                            },
                            ttls.0,
                        ),
                    ),
                },
                RuleVerdict::Deny => CheckOutcome {
                    verdict: Verdict::Deny,
                    source: GrantSource::Static,
                    write: Some(
                        (
                            PermissionGrant {
                                verdict: Verdict::Deny,
                                source: GrantSource::Static,
                                created: now,
                            },
                            ttls.0,
                        ),
                    ),
                },
                RuleVerdict::Prompt => match del.authorize_spec(
                    app@,
                    role,
                    cap@,
                    spec_sat_add(now, ADAPTER_TIMEOUT_SECS),
                ) {
                    AdapterVerdict::Allow => CheckOutcome {
                        verdict: Verdict::Allow,
                        source: GrantSource::Dynamic,
                        write: Some(
                            (
                                PermissionGrant {
                                    verdict: Verdict::Allow,
                                    source: GrantSource::Dynamic,
                                    created: now,
                                },
                                ttls.1,
                            ),
                        ),
                    },
                    AdapterVerdict::Deny => CheckOutcome {
                        verdict: Verdict::Deny,
                        source: GrantSource::Dynamic,
                        write: Some(
                            (
                                PermissionGrant {
                                    verdict: Verdict::Deny,
                                    source: GrantSource::Dynamic,
                                    created: now,
                                },
                                ttls.1,
                            ),
                        ),
                    },
                    AdapterVerdict::Unavailable => CheckOutcome {
                        verdict: Verdict::Deny,
                        source: GrantSource::AdapterUnavailable,
                        write: None,
                    },
                },
            },
        },
    }
}

/// The cache state one resolution step leaves behind.
pub open spec fn spec_cache_after<L: LaunchDelegateClient>(
    reg: Seq<PermissionRule>,
    del: L,
    ttls: (u64, u64, u64),
    cache: Seq<CacheEntry>,
    app: String,
    role: PermissionRole,
    cap: String,
    now: u64,
) -> Seq<CacheEntry> {
    match spec_check_outcome(reg, del, ttls, cache, app, role, cap, now).write {
        None => cache,
        Some((g, ttl)) => spec_put(cache, app, cap, g, ttl),
    }
}

/// The cache state after resolving a whole capability list in order.
pub open spec fn spec_cache_after_all<L: LaunchDelegateClient>(
    reg: Seq<PermissionRule>,
    del: L,
    ttls: (u64, u64, u64),
    cache: Seq<CacheEntry>,
    app: String,
    role: PermissionRole,
    caps: Seq<String>,
    now: u64,
) -> Seq<CacheEntry>
    decreases caps.len(),
{
    if caps.len() == 0 {
        cache
    } else {
        spec_cache_after(
            reg,
            del,
            ttls,
            spec_cache_after_all(reg, del, ttls, cache, app, role, caps.drop_last(), now),
            app,
            role,
            caps.last(),
            now,
        )
    }
}

/// The outcome of each entry of a capability list, resolved in order:
/// entry `i` is resolved against the cache state the first `i` entries
/// left behind.
pub open spec fn spec_outcomes_all<L: LaunchDelegateClient>(
    reg: Seq<PermissionRule>,
    del: L,
    ttls: (u64, u64, u64),
    cache: Seq<CacheEntry>,
    app: String,
    role: PermissionRole,
    caps: Seq<String>,
    now: u64,
) -> Seq<CheckOutcome>
    decreases caps.len(),
{
    if caps.len() == 0 {
        Seq::empty()
    } else {
        spec_outcomes_all(reg, del, ttls, cache, app, role, caps.drop_last(), now).push(
            spec_check_outcome(
                reg,
                del,
                ttls,
                spec_cache_after_all(reg, del, ttls, cache, app, role, caps.drop_last(), now),
                app,
                role,
                caps.last(),
                now,
            ),
        )
    }
}

/// Idempotence: a repeated check of the same (application, role,
/// capability) that happens while the grant the first check answered
/// from is still valid returns the identical verdict and source tag and
/// leaves the cache exactly as the first check left it.
pub proof fn lemma_check_idempotent<L: LaunchDelegateClient>(
    reg: Seq<PermissionRule>,
    del: L,
    ttls: (u64, u64, u64),
    cache: Seq<CacheEntry>,
    app: String,
    role: PermissionRole,
    cap: String,
    now1: u64,
    now2: u64,
)
    requires
        distinct_keys(cache),
        now1 <= now2,
        spec_lookup_valid(
            spec_cache_after(reg, del, ttls, cache, app, role, cap, now1),
            app@,
            cap@,
            now2,
        ) is Some,
    ensures
        ({
            let c1 = spec_cache_after(reg, del, ttls, cache, app, role, cap, now1);
            let o1 = spec_check_outcome(reg, del, ttls, cache, app, role, cap, now1);
            let o2 = spec_check_outcome(reg, del, ttls, c1, app, role, cap, now2);
            &&& o2.verdict == o1.verdict
            &&& o2.source == o1.source
            &&& spec_cache_after(reg, del, ttls, c1, app, role, cap, now2) == c1
        }),
{
    let c1 = spec_cache_after(reg, del, ttls, cache, app, role, cap, now1);
    let o1 = spec_check_outcome(reg, del, ttls, cache, app, role, cap, now1);
    match spec_lookup_valid(cache, app@, cap@, now1) {
        Some(g) => {
            assert(c1 == cache);
        },
        None => {
            match o1.write {
                Some((g, ttl)) => {
                    lemma_spec_put_find(cache, app, cap, g, ttl);
                    assert(o1.verdict == g.verdict && o1.source == g.source);
                },
                None => {
                    // The adapter was unavailable: nothing was written, and an
                    // entry invalid at the earlier time stays invalid at the
                    // later one, so no grant can be valid now.
                    assert(c1 == cache);
                    assert(spec_find(cache, app@, cap@) is Some ==> false);
                    assert(false);
                },
            }
        },
    }
}

/// Fail-closed: when no valid grant is cached, the rule for the
/// capability is prompt-class, and the lifecycle adapter is unavailable
/// for the request, the check denies with the adapter-unavailable tag
/// and writes nothing to the cache — so every repetition under an
/// unavailable adapter denies as well.
pub proof fn lemma_fail_closed<L: LaunchDelegateClient>(
    reg: Seq<PermissionRule>,
    del: L,
    ttls: (u64, u64, u64),
    cache: Seq<CacheEntry>,
    app: String,
    role: PermissionRole,
    cap: String,
    now: u64,
)
    requires
        spec_lookup_valid(cache, app@, cap@, now) is None,
        spec_rule_lookup(reg, role, cap@) matches Some(rule) && rule.verdict
            == RuleVerdict::Prompt,
        del.authorize_spec(app@, role, cap@, spec_sat_add(now, ADAPTER_TIMEOUT_SECS))
            == AdapterVerdict::Unavailable,
    ensures
        spec_check_outcome(reg, del, ttls, cache, app, role, cap, now).verdict == Verdict::Deny,
        spec_check_outcome(reg, del, ttls, cache, app, role, cap, now).source
            == GrantSource::AdapterUnavailable,
        spec_cache_after(reg, del, ttls, cache, app, role, cap, now) == cache,
{
}

/// A batch resolution answers exactly one outcome per capability.
pub proof fn lemma_outcomes_all_len<L: LaunchDelegateClient>(
    reg: Seq<PermissionRule>,
    del: L,
    ttls: (u64, u64, u64),
    cache: Seq<CacheEntry>,
    app: String,
    role: PermissionRole,
    caps: Seq<String>,
    now: u64,
)
    ensures
        spec_outcomes_all(reg, del, ttls, cache, app, role, caps, now).len() == caps.len(),
    decreases caps.len(),
{
    if caps.len() != 0 {
        lemma_outcomes_all_len(reg, del, ttls, cache, app, role, caps.drop_last(), now);
    }
}

/// The permission resolution engine: merges the static registry, the
/// TTL-bounded grant cache and the injected lifecycle adapter into one
/// allow/deny verdict per request. Owns the cache for its lifetime; the
/// registry is handed over once at construction and never mutated.
pub struct ThorPermissionService<L, G> {
    pub registry: PermissionRegistry,
    pub cache: GrantCache,
    pub delegate: L,
    pub gateway: G,
    pub ttl_static: u64,
    pub ttl_dynamic: u64,
    pub ttl_negative: u64,
}

impl<L: LaunchDelegateClient, G: AppGatewayClient> ThorPermissionService<L, G> {
    /// Service invariant: well-formed registry and cache, and positive
    /// (cacheable) TTLs for every rule class.
    pub open spec fn wf(self) -> bool {
        &&& self.registry.wf()
        &&& self.cache.wf()
        &&& self.ttl_static >= 1
        &&& self.ttl_dynamic >= 1
        &&& self.ttl_negative >= 1
    }

    /// The TTL policy as one value: (static, dynamic, negative).
    pub open spec fn spec_ttls(self) -> (u64, u64, u64) {
        (self.ttl_static, self.ttl_dynamic, self.ttl_negative)
    }

    /// The outcome `check` computes against a given cache state.
    pub open spec fn outcome_of(
        self,
        cache: Seq<CacheEntry>,
        app: String,
        role: PermissionRole,
        cap: String,
        now: u64,
    ) -> CheckOutcome {
        spec_check_outcome(self.registry@, self.delegate, self.spec_ttls(), cache, app, role, cap, now)
    }

    /// The cache state `check` leaves behind.
    pub open spec fn cache_after_of(
        self,
        cache: Seq<CacheEntry>,
        app: String,
        role: PermissionRole,
        cap: String,
        now: u64,
    ) -> Seq<CacheEntry> {
        spec_cache_after(self.registry@, self.delegate, self.spec_ttls(), cache, app, role, cap, now)
    }

    /// Create a service over `registry` with the injected adapters and
    /// the default TTL policy. The cache starts empty.
    pub fn new(registry: PermissionRegistry, launch_delegate: L, app_gateway: G) -> (s: Self)
        requires
            registry.wf(),
        ensures
            s.wf(),
            s.registry == registry,
            s.delegate == launch_delegate,
            s.gateway == app_gateway,
            s.cache@ == Seq::<CacheEntry>::empty(),
            s.spec_ttls() == (DEFAULT_STATIC_TTL_SECS, DEFAULT_DYNAMIC_TTL_SECS, DEFAULT_NEGATIVE_TTL_SECS),
    {
        Self::with_ttls(
            registry,
            launch_delegate,
            app_gateway,
            DEFAULT_STATIC_TTL_SECS,
            DEFAULT_DYNAMIC_TTL_SECS,
            DEFAULT_NEGATIVE_TTL_SECS,
        )
    }

    /// Create a service with an explicit TTL policy, e.g. to pin the
    /// expiry behaviour in tests. TTLs must be positive: a zero TTL
    /// stands for a grant that must not be cached and is rejected by the
    /// cache itself.
    pub fn with_ttls(
        registry: PermissionRegistry,
        launch_delegate: L,
        app_gateway: G,
        ttl_static: u64,
        ttl_dynamic: u64,
        ttl_negative: u64,
    ) -> (s: Self)
        requires
            registry.wf(),
            ttl_static >= 1,
            ttl_dynamic >= 1,
            ttl_negative >= 1,
        ensures
            s.wf(),
            s.registry == registry,
            s.delegate == launch_delegate,
            s.gateway == app_gateway,
            s.cache@ == Seq::<CacheEntry>::empty(),
            s.spec_ttls() == (ttl_static, ttl_dynamic, ttl_negative),
    {
        ThorPermissionService {
            registry,
            cache: GrantCache::new(),
            delegate: launch_delegate,
            gateway: app_gateway,
            ttl_static,
            ttl_dynamic,
            ttl_negative,
        }
    }

    /// Decide whether `app_id` may use `capability` under `role` at time
    /// `now`. A valid cached grant is returned as is; otherwise the
    /// verdict is resolved from the registry (asking the lifecycle
    /// adapter for prompt-class rules), cached with the rule-class TTL,
    /// and returned. A capability no rule mentions is denied by default
    /// and the deny is cached briefly; an unavailable adapter yields an
    /// uncached fail-closed deny. Never fails: every call returns a
    /// well-formed result.
    pub fn check(
        &mut self,
        app_id: &String,
        role: PermissionRole,
        capability: &String,
        now: u64,
    ) -> (r: PermissionRequestResult)
        requires
            old(self).wf(),
        ensures
            final(self).wf(),
            r.capability@ == capability@,
            r.verdict == old(self).outcome_of(old(self).cache@, *app_id, role, *capability, now).verdict,
            r.source == old(self).outcome_of(old(self).cache@, *app_id, role, *capability, now).source,
            final(self).cache@ == old(self).cache_after_of(
                old(self).cache@,
                *app_id,
                role,
                *capability,
                now,
            ),
            final(self).registry == old(self).registry,
            final(self).delegate == old(self).delegate,
            final(self).gateway == old(self).gateway,
            final(self).spec_ttls() == old(self).spec_ttls(),
    {
        match self.cache.get(app_id, capability, now) {
            Some(g) => PermissionRequestResult {
                capability: capability.clone(),
                verdict: g.verdict,
                source: g.source,
            },
            None => {
                let rv: Option<RuleVerdict> = match self.registry.lookup(role, capability) {
                    Some(rule) => Some(rule.verdict),
                    None => None,
                };
                let decision: (Verdict, GrantSource, Option<u64>) = match rv {
                    None => (Verdict::Deny, GrantSource::UnknownCapability, Some(self.ttl_negative)),
                    Some(RuleVerdict::Allow) => (
                        Verdict::Allow,
                        GrantSource::Static,
                        Some(self.ttl_static),
                    ),
                    Some(RuleVerdict::Deny) => (
                        Verdict::Deny,
                        GrantSource::Static,
                        Some(self.ttl_static),
                    ),
                    Some(RuleVerdict::Prompt) => {
                        let deadline = sat_add(now, ADAPTER_TIMEOUT_SECS);
                        match self.delegate.authorize(app_id, role, capability, deadline) {
                            AdapterVerdict::Allow => (
                                Verdict::Allow,
                                GrantSource::Dynamic,
                                Some(self.ttl_dynamic),
                            ),
                            AdapterVerdict::Deny => (
                                Verdict::Deny,
                                GrantSource::Dynamic,
                                Some(self.ttl_dynamic),
                            ),
                            AdapterVerdict::Unavailable => (
                                Verdict::Deny,
                                GrantSource::AdapterUnavailable,
                                None,
                            ),
                        }
                    },
                };
                let (verdict, source, ttl_opt) = decision;
                match ttl_opt {
                    Some(ttl) => {
                        let grant = PermissionGrant { verdict, source, created: now };
                        match self.cache.put(app_id, capability, grant, ttl) {
                            Ok(()) => {},
                            Err(_) => {
                                proof {
                                    assert(false);
                                }
                            },
                        }
                    },
                    None => {},
                }
                PermissionRequestResult { capability: capability.clone(), verdict, source }
            },
        }
    }

    /// Forget any cached grant for `(app_id, capability)`, so that the
    /// next check re-resolves it from the registry and adapters.
    /// Idempotent: invalidating an absent key changes nothing.
    pub fn notify_grant_changed(&mut self, app_id: &String, capability: &String)
        requires
            old(self).wf(),
        ensures
            final(self).wf(),
            final(self).cache@ == spec_remove(old(self).cache@, app_id@, capability@),
            final(self).registry == old(self).registry,
            final(self).delegate == old(self).delegate,
            final(self).gateway == old(self).gateway,
            final(self).spec_ttls() == old(self).spec_ttls(),
    {
        self.cache.invalidate(app_id, capability);
    }

    /// Resolve every capability of the list independently, in the
    /// caller's order: entry `i` of the output answers entry `i` of the
    /// input, and each is resolved against the cache state its
    /// predecessors left behind. No entry aborts the batch.
    pub fn check_all(
        &mut self,
        app_id: &String,
        role: PermissionRole,
        capabilities: &Vec<String>,
        now: u64,
    ) -> (r: PermissionCheckAllResult)
        requires
            old(self).wf(),
        ensures
            final(self).wf(),
            r.capabilities@ == capabilities@,
            r.results@.len() == capabilities@.len(),
            forall|i: int|
                0 <= i < capabilities@.len() ==> #[trigger] r.results@[i].capability@
                    == capabilities@[i]@,
            forall|i: int|
                0 <= i < capabilities@.len() ==> {
                    let o = spec_outcomes_all(
                        old(self).registry@,
                        old(self).delegate,
                        old(self).spec_ttls(),
                        old(self).cache@,
                        *app_id,
                        role,
                        capabilities@,
                        now,
                    )[i];
                    #[trigger] r.results@[i].verdict == o.verdict && r.results@[i].source
                        == o.source
                },
            final(self).cache@ == spec_cache_after_all(
                old(self).registry@,
                old(self).delegate,
                old(self).spec_ttls(),
                old(self).cache@,
                *app_id,
                role,
                capabilities@,
                now,
            ),
            final(self).registry == old(self).registry,
            final(self).delegate == old(self).delegate,
            final(self).gateway == old(self).gateway,
            final(self).spec_ttls() == old(self).spec_ttls(),
    {
        let mut results: Vec<PermissionRequestResult> = Vec::new();
        let mut caps_copy: Vec<String> = Vec::new();
        let n: usize = capabilities.len();
        let mut i: usize = 0;
        proof {
            assert(capabilities@.take(0) =~= Seq::<String>::empty());
        }
        while i < n
            invariant
                0 <= i <= n,
                n == capabilities@.len(),
                self.wf(),
                self.registry == old(self).registry,
                self.delegate == old(self).delegate,
                self.gateway == old(self).gateway,
                self.spec_ttls() == old(self).spec_ttls(),
                self.cache@ == spec_cache_after_all(
                    old(self).registry@,
                    old(self).delegate,
                    old(self).spec_ttls(),
                    old(self).cache@,
                    *app_id,
                    role,
                    capabilities@.take(i as int),
                    now,
                ),
                results@.len() == i,
                caps_copy@.len() == i,
                forall|j: int| 0 <= j < i ==> #[trigger] caps_copy@[j] == capabilities@[j],
                forall|j: int|
                    0 <= j < i ==> #[trigger] results@[j].capability@ == capabilities@[j]@,
                forall|j: int|
                    0 <= j < i ==> {
                        let o = spec_outcomes_all(
                            old(self).registry@,
                            old(self).delegate,
                            old(self).spec_ttls(),
                            old(self).cache@,
                            *app_id,
                            role,
                            capabilities@.take(i as int),
                            now,
                        )[j];
                        #[trigger] results@[j].verdict == o.verdict && results@[j].source
                            == o.source
                    },
            decreases n - i,
        {
            let cap = &capabilities[i];
            let ghost pre_cache = self.cache@;
            let res = self.check(app_id, role, cap, now);
            results.push(res);
            caps_copy.push(cap.clone());
            proof {
                let prefix = capabilities@.take(i as int);
                let full = capabilities@.take((i + 1) as int);
                assert(full.drop_last() =~= prefix);
                assert(full.last() == capabilities@[i as int]);
                lemma_outcomes_all_len(
                    old(self).registry@,
                    old(self).delegate,
                    old(self).spec_ttls(),
                    old(self).cache@,
                    *app_id,
                    role,
                    prefix,
                    now,
                );
                assert(spec_outcomes_all(
                    old(self).registry@,
                    old(self).delegate,
                    old(self).spec_ttls(),
                    old(self).cache@,
                    *app_id,
                    role,
                    full,
                    now,
                ) == spec_outcomes_all(
                    old(self).registry@,
                    old(self).delegate,
                    old(self).spec_ttls(),
                    old(self).cache@,
                    *app_id,
                    role,
                    prefix,
                    now,
                ).push(
                    spec_check_outcome(
                        old(self).registry@,
                        old(self).delegate,
                        old(self).spec_ttls(),
                        pre_cache,
                        *app_id,
                        role,
                        full.last(),
                        now,
                    ),
                ));
            }
            i = i + 1;
        }
        proof {
            assert(capabilities@.take(n as int) =~= capabilities@);
            assert(caps_copy@ =~= capabilities@);
            lemma_outcomes_all_len(
                old(self).registry@,
                old(self).delegate,
                old(self).spec_ttls(),
                old(self).cache@,
                *app_id,
                role,
                capabilities@,
                now,
            );
        }
        PermissionCheckAllResult { capabilities: caps_copy, results }
    }
}

} // verus!

