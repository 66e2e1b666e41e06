//! Time-to-live-bounded store of resolved permission grants, keyed by
//! (application identity, capability name). Expiry is checked at read
//! time: an entry whose expiry has passed is treated as absent.

use vstd::prelude::*;

use crate::errors::CacheError;
use crate::thor_permission::PermissionGrant;
use crate::{sat_add, spec_sat_add};

verus! {

/// One cached grant: the key, the grant itself, the time-to-live the
/// grant was stored with, and the precomputed expiry timestamp.
pub struct CacheEntry {
    pub app_id: String,
    pub capability: String,
    pub grant: PermissionGrant,
    pub ttl: u64,
    pub expiry: u64,
}

/// Whether an entry carries the given (application, capability) key.
pub open spec fn entry_matches(e: CacheEntry, app: Seq<char>, cap: Seq<char>) -> bool {
    e.app_id@ == app && e.capability@ == cap
}

/// No two entries share a key: each (application, capability) pair holds
/// at most one entry at a time.
pub open spec fn distinct_keys(s: Seq<CacheEntry>) -> bool {
    forall|i: int, j: int|
        0 <= i < j < s.len() ==> !(#[trigger] s[i].app_id@ == #[trigger] s[j].app_id@
            && s[i].capability@ == s[j].capability@)
}

/// An entry is internally consistent: a positive time-to-live, and an
/// expiry that is exactly `created + ttl` (saturating).
pub open spec fn entry_wf(e: CacheEntry) -> bool {
    &&& e.ttl >= 1
    &&& e.expiry == spec_sat_add(e.grant.created, e.ttl)
}

/// Whether some entry in `s` carries the key `(app, cap)`.
pub open spec fn spec_has(s: Seq<CacheEntry>, app: Seq<char>, cap: Seq<char>) -> bool {
    exists|i: int| 0 <= i < s.len() && #[trigger] entry_matches(s[i], app, cap)
}

/// The entry stored under `(app, cap)`, if any. Under `distinct_keys`
/// the matching entry is unique.
pub open spec fn spec_find(s: Seq<CacheEntry>, app: Seq<char>, cap: Seq<char>) -> Option<
    CacheEntry,
> {
    if spec_has(s, app, cap) {
        Some(s[choose|i: int| 0 <= i < s.len() && #[trigger] entry_matches(s[i], app, cap)])
    } else {
        None
    }
}

/// The grant the cache answers with at time `now`: the stored grant if
/// its entry exists and is unexpired, and nothing otherwise.
pub open spec fn spec_lookup_valid(
    s: Seq<CacheEntry>,
    app: Seq<char>,
    cap: Seq<char>,
    now: u64,
) -> Option<PermissionGrant> {
    match spec_find(s, app, cap) {
        Some(e) => if now <= e.expiry {
            Some(e.grant)
        } else {
            None
        },
        None => None,
    }
}

/// The cache contents after storing `grant` under `(app, cap)` with
/// time-to-live `ttl`: the existing entry for the key is replaced, or a
/// new entry is appended.
pub open spec fn spec_put(
    s: Seq<CacheEntry>,
    app: String,
    cap: String,
    grant: PermissionGrant,
    ttl: u64,
) -> Seq<CacheEntry> {
    let e = CacheEntry {
        app_id: app,
        capability: cap,
        grant,
        ttl,
        expiry: spec_sat_add(grant.created, ttl),
    };
    if spec_has(s, app@, cap@) {
        s.update(choose|i: int| 0 <= i < s.len() && #[trigger] entry_matches(s[i], app@, cap@), e)
    } else {
        s.push(e)
    }
}

/// The cache contents after evicting the key `(app, cap)`; unchanged if
/// the key is absent.
pub open spec fn spec_remove(s: Seq<CacheEntry>, app: Seq<char>, cap: Seq<char>) -> Seq<
    CacheEntry,
> {
    if spec_has(s, app, cap) {
        s.remove(choose|i: int| 0 <= i < s.len() && #[trigger] entry_matches(s[i], app, cap))
    } else {
        s
    }
}

/// The cache contents after a background sweep at `now`: the unexpired
/// entries, in their stored order.
pub open spec fn spec_sweep(s: Seq<CacheEntry>, now: u64) -> Seq<CacheEntry> {
    s.filter(|e: CacheEntry| now <= e.expiry)
}

/// Under distinct keys, any index that matches `(app, cap)` is the index
/// `spec_find` answers with.
pub proof fn lemma_find_at(s: Seq<CacheEntry>, app: Seq<char>, cap: Seq<char>, i: int)
    requires
        distinct_keys(s),
        0 <= i < s.len(),
        entry_matches(s[i], app, cap),
    ensures
        spec_find(s, app, cap) == Some(s[i]),
{
    assert(spec_has(s, app, cap));
    let j = choose|j: int| 0 <= j < s.len() && #[trigger] entry_matches(s[j], app, cap);
    assert(entry_matches(s[j], app, cap));
    if i != j {
        assert(s[i].app_id@ == s[j].app_id@ && s[i].capability@ == s[j].capability@);
        assert(false);
    }
}

/// Storing a grant keeps the keys distinct and makes exactly that grant
/// the one found under its key.
pub proof fn lemma_spec_put_find(
    s: Seq<CacheEntry>,
    app: String,
    cap: String,
    grant: PermissionGrant,
    ttl: u64,
)
    requires
        distinct_keys(s),
    ensures
        distinct_keys(spec_put(s, app, cap, grant, ttl)),
        spec_find(spec_put(s, app, cap, grant, ttl), app@, cap@) == Some(
            CacheEntry {
                app_id: app,
                capability: cap,
                grant,
                ttl,
                expiry: spec_sat_add(grant.created, ttl),
            },
        ),
{
    let e = CacheEntry {
        app_id: app,
        capability: cap,
        grant,
        ttl,
        expiry: spec_sat_add(grant.created, ttl),
    };
    let s2 = spec_put(s, app, cap, grant, ttl);
    if spec_has(s, app@, cap@) {
        let i = choose|i: int| 0 <= i < s.len() && #[trigger] entry_matches(s[i], app@, cap@);
        assert(entry_matches(s[i], app@, cap@));
        assert(s2 == s.update(i, e));
        assert forall|p: int, q: int| 0 <= p < q < s2.len() implies !(#[trigger] s2[p].app_id@
            == #[trigger] s2[q].app_id@ && s2[p].capability@ == s2[q].capability@) by {
            assert(s2[p].app_id@ == s[p].app_id@ && s2[p].capability@ == s[p].capability@ || p
                == i);
            assert(s2[q].app_id@ == s[q].app_id@ && s2[q].capability@ == s[q].capability@ || q
                == i);
        }
        lemma_find_at(s2, app@, cap@, i);
    } else {
        assert(s2 == s.push(e));
        assert forall|p: int, q: int| 0 <= p < q < s2.len() implies !(#[trigger] s2[p].app_id@
            == #[trigger] s2[q].app_id@ && s2[p].capability@ == s2[q].capability@) by {
            if q == s2.len() - 1 {
                assert(entry_matches(s[p], app@, cap@) ==> spec_has(s, app@, cap@));
            }
        }
        lemma_find_at(s2, app@, cap@, s.len() as int);
    }
}

/// Staleness bound: a cached grant is answered as valid at `now` only
/// while `now - created <= ttl` for its entry; once `now - created`
/// exceeds the entry's time-to-live, the lookup answers nothing,
/// whatever is physically stored.
pub proof fn lemma_staleness_bound(s: Seq<CacheEntry>, app: Seq<char>, cap: Seq<char>, now: u64)
    requires
        forall|i: int| 0 <= i < s.len() ==> entry_wf(#[trigger] s[i]),
    ensures
        spec_lookup_valid(s, app, cap, now) is Some ==> {
            let e = spec_find(s, app, cap)->Some_0;
            now - e.grant.created <= e.ttl
        },
        spec_find(s, app, cap) matches Some(e) && now - e.grant.created > e.ttl
            ==> spec_lookup_valid(s, app, cap, now) is None,
{
    if spec_has(s, app, cap) {
        let i = choose|i: int| 0 <= i < s.len() && #[trigger] entry_matches(s[i], app, cap);
        assert(entry_matches(s[i], app, cap));
        assert(entry_wf(s[i]));
    }
}

/// The TTL-bounded grant cache. The permission service owns one for its
/// whole lifetime; entries appear lazily on first resolution of a key.
pub struct GrantCache {
    pub entries: Vec<CacheEntry>,
}

impl View for GrantCache {
    type V = Seq<CacheEntry>;

    open spec fn view(&self) -> Seq<CacheEntry> {
        self.entries@
    }
}

impl GrantCache {
    /// Cache invariant: distinct keys and internally consistent entries.
    pub open spec fn wf(self) -> bool {
        &&& distinct_keys(self@)
        &&& forall|i: int| 0 <= i < self@.len() ==> entry_wf(#[trigger] self@[i])
    }

    /// An empty cache; the state a service starts from.
    pub fn new() -> (c: GrantCache)
        ensures
            c@ == Seq::<CacheEntry>::empty(),
            c.wf(),
    {
        GrantCache { entries: Vec::new() }
    }

    /// Index of the entry for `(app_id, capability)`, if one is stored.
    fn find_index(&self, app_id: &String, capability: &String) -> (r: Option<usize>)
        requires
            self.wf(),
        ensures
            match r {
                Some(i) => 0 <= i < self@.len() && entry_matches(self@[i as int], app_id@, capability@)
                    && spec_find(self@, app_id@, capability@) == Some(self@[i as int]),
                None => spec_find(self@, app_id@, capability@) is None,
            },
    {
        let n = self.entries.len();
        let mut i: usize = 0;
        while i < n
            invariant
                0 <= i <= n,
                n == self@.len(),
                self.wf(),
                forall|j: int| 0 <= j < i ==> !entry_matches(self@[j], app_id@, capability@),
            decreases n - i,
        {
            let e = &self.entries[i];
            if e.app_id == *app_id && e.capability == *capability {
                proof {
                    lemma_find_at(self@, app_id@, capability@, i as int);
                }
                return Some(i);
            }
            i = i + 1;
        }
        proof {
            assert(!spec_has(self@, app_id@, capability@));
        }
        None
    }

    /// Look up the grant stored under `(app_id, capability)`. Answers
    /// nothing when the key is absent or the entry has expired at `now`;
    /// an expired entry is never returned as valid.
    pub fn get(&self, app_id: &String, capability: &String, now: u64) -> (r: Option<
        PermissionGrant,
    >)
        requires
            self.wf(),
        ensures
            r == spec_lookup_valid(self@, app_id@, capability@, now),
    {
        match self.find_index(app_id, capability) {
            Some(i) => {
                let e = &self.entries[i];
                if now <= e.expiry {
                    Some(e.grant)
                } else {
                    None
                }
            },
            None => None,
        }
    }

    /// Store `grant` under `(app_id, capability)` with time-to-live
    /// `ttl`, replacing any previous entry for the key and setting
    /// `expiry = grant.created + ttl` (saturating). A zero `ttl` is
    /// rejected and leaves the cache unchanged.
    pub fn put(
        &mut self,
        app_id: &String,
        capability: &String,
        grant: PermissionGrant,
        ttl: u64,
    ) -> (r: Result<(), CacheError>)
        requires
            old(self).wf(),
        ensures
            final(self).wf(),
            ttl == 0 ==> r == Err::<(), CacheError>(CacheError::InvalidTtl) && final(self)@ == old(
                self,
            )@,
            ttl >= 1 ==> r == Ok::<(), CacheError>(()) && final(self)@ == spec_put(
                old(self)@,
                *app_id,
                *capability,
                grant,
                ttl,
            ),
    {
        if ttl == 0 {
            return Err(CacheError::InvalidTtl);
        }
        let expiry = sat_add(grant.created, ttl);
        let e = CacheEntry {
            app_id: app_id.clone(),
            capability: capability.clone(),
            grant,
            ttl,
            expiry,
        };
        match self.find_index(app_id, capability) {
            Some(i) => {
                self.entries[i] = e;
                proof {
                    assert(final(self)@ =~= spec_put(old(self)@, *app_id, *capability, grant, ttl));
                    assert forall|p: int, q: int| 0 <= p < q < self@.len() implies !(
                    #[trigger] self@[p].app_id@ == #[trigger] self@[q].app_id@
                        && self@[p].capability@ == self@[q].capability@) by {
                        assert(old(self)@[p].app_id@ == self@[p].app_id@ || p == i);
                    }
                }
            },
            None => {
                self.entries.push(e);
                proof {
                    assert(final(self)@ =~= spec_put(old(self)@, *app_id, *capability, grant, ttl));
                    assert forall|p: int, q: int| 0 <= p < q < self@.len() implies !(
                    #[trigger] self@[p].app_id@ == #[trigger] self@[q].app_id@
                        && self@[p].capability@ == self@[q].capability@) by {
                        if q == self@.len() - 1 {
                            assert(entry_matches(old(self)@[p], self@[q].app_id@, self@[q].capability@)
                                ==> spec_has(old(self)@, app_id@, capability@));
                        }
                    }
                }
            },
        }
        Ok(())
    }

    /// Background sweep: evict every entry whose expiry has passed at
    /// `now`, keeping the valid entries in their stored order. Purely a
    /// space reclamation — `get` already treats expired entries as
    /// absent at read time.
    pub fn sweep(&mut self, now: u64)
        requires
            old(self).wf(),
        ensures
            final(self).wf(),
            final(self)@ == spec_sweep(old(self)@, now),
    {
        let ghost orig = old(self)@;
        let mut rev: Vec<CacheEntry> = Vec::new();
        // Move all entries out, back to front.
        while self.entries.len() > 0
            invariant
                rev@.len() <= orig.len(),
                self@ == orig.take(orig.len() - rev@.len()),
                forall|j: int| 0 <= j < rev@.len() ==> rev@[j] == orig[orig.len() - 1 - j],
            decreases self.entries.len(),
        {
            proof {
                assert(orig.take(orig.len() - rev@.len()).subrange(
                    0,
                    orig.len() - rev@.len() - 1,
                ) =~= orig.take(orig.len() - rev@.len() - 1));
            }
            match self.entries.pop() {
                Some(e) => {
                    rev.push(e);
                },
                None => {
                    proof {
                        assert(false);
                    }
                },
            }
        }
        proof {
            reveal(Seq::filter);
            assert(self@ + orig.skip(0) =~= orig);
            assert(self@ =~= spec_sweep(orig.take(0), now));
        }
        // Refill in the original order, keeping only unexpired entries.
        while rev.len() > 0
            invariant
                rev@.len() <= orig.len(),
                forall|j: int| 0 <= j < rev@.len() ==> rev@[j] == orig[orig.len() - 1 - j],
                self@ == spec_sweep(orig.take(orig.len() - rev@.len()), now),
                distinct_keys(self@ + orig.skip(orig.len() - rev@.len())),
                forall|j: int|
                    0 <= j < (self@ + orig.skip(orig.len() - rev@.len())).len() ==> entry_wf(
                        #[trigger] (self@ + orig.skip(orig.len() - rev@.len()))[j],
                    ),
            decreases rev.len(),
        {
            let ghost k = orig.len() - rev@.len();
            let ghost pre_kept = self@;
            let ghost pre_concat = self@ + orig.skip(k as int);
            match rev.pop() {
                Some(e) => {
                    proof {
                        assert(e == orig[k as int]);
                        assert(pre_concat[pre_kept.len() as int] == e);
                    }
                    let expiry = e.expiry;
                    if now <= expiry {
                        self.entries.push(e);
                    }
                    proof {
                        reveal(Seq::filter);
                        assert(orig.take((k + 1) as int).drop_last() =~= orig.take(k as int));
                        assert(orig.take((k + 1) as int).last() == orig[k as int]);
                        assert(spec_sweep(orig.take((k + 1) as int), now) == (if now
                            <= orig[k as int].expiry {
                            spec_sweep(orig.take(k as int), now).push(orig[k as int])
                        } else {
                            spec_sweep(orig.take(k as int), now)
                        }));
                        let concat = self@ + orig.skip((k + 1) as int);
                        if now <= expiry {
                            assert(concat =~= pre_concat);
                        } else {
                            assert forall|j: int| 0 <= j < concat.len() implies concat[j]
                                == pre_concat[
                                if j < pre_kept.len() {
                                    j
                                } else {
                                    j + 1
                                }] by {}
                            assert forall|p: int, q: int| 0 <= p < q < concat.len() implies !(
                            #[trigger] concat[p].app_id@ == #[trigger] concat[q].app_id@
                                && concat[p].capability@ == concat[q].capability@) by {
                                let p2: int = if p < pre_kept.len() {
                                    p
                                } else {
                                    p + 1
                                };
                                let q2: int = if q < pre_kept.len() {
                                    q
                                } else {
                                    q + 1
                                };
                                assert(concat[p] == pre_concat[p2]);
                                assert(concat[q] == pre_concat[q2]);
                            }
                        }
                    }
                },
                None => {
                    proof {
                        assert(false);
                    }
                },
            }
        }
        proof {
            assert(orig.take(orig.len() as int) =~= orig);
            assert(self@ + orig.skip(orig.len() as int) =~= self@);
        }
    }

    /// Evict the entry for `(app_id, capability)` before its natural
    /// expiry, e.g. when an external event revokes the grant. Does
    /// nothing when the key is absent.
    pub fn invalidate(&mut self, app_id: &String, capability: &String)
        requires
            old(self).wf(),
        ensures
            final(self).wf(),
            final(self)@ == spec_remove(old(self)@, app_id@, capability@),
    {
        match self.find_index(app_id, capability) {
            Some(i) => {
                self.entries.remove(i);
                proof {
                    assert(final(self)@ =~= spec_remove(old(self)@, app_id@, capability@));
                }
            },
            None => {},
        }
    }
}

} // verus!
