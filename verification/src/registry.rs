//! Static permission registry: a read-only table of rules keyed by
//! (role, capability), built once from raw configuration entries.
//! Construction is all-or-nothing; a malformed entry rejects the whole
//! input and no partial registry is ever published.

use vstd::prelude::*;

use crate::errors::RegistryError;
use crate::thor_permission::PermissionRole;

verus! {

/// A rule's default answer: statically allow or deny, or require a live
/// confirmation through the lifecycle adapter (prompt class).
#[derive(Clone, Copy, PartialEq, Eq, Structural, Debug)]
pub enum RuleVerdict {
    Allow,
    Deny,
    Prompt,
}

/// One raw configuration entry, as the external configuration source
/// hands it over: role, capability and verdict as plain names.
pub struct RuleEntry {
    pub role: String,
    pub capability: String,
    pub verdict: String,
}

/// One validated registry rule.
pub struct PermissionRule {
    pub role: PermissionRole,
    pub capability: String,
    pub verdict: RuleVerdict,
}

/// The role a raw name denotes, if any.
pub open spec fn spec_role_of(name: Seq<char>) -> Option<PermissionRole> {
    if name == "first-party"@ {
        Some(PermissionRole::FirstParty)
    } else if name == "third-party"@ {
        Some(PermissionRole::ThirdParty)
    } else if name == "system"@ {
        Some(PermissionRole::System)
    } else {
        None
    }
}

/// The rule verdict a raw name denotes, if any.
pub open spec fn spec_verdict_of(name: Seq<char>) -> Option<RuleVerdict> {
    if name == "allow"@ {
        Some(RuleVerdict::Allow)
    } else if name == "deny"@ {
        Some(RuleVerdict::Deny)
    } else if name == "prompt"@ {
        Some(RuleVerdict::Prompt)
    } else {
        None
    }
}

/// Parse a role name.
pub fn parse_role(name: &String) -> (r: Option<PermissionRole>)
    ensures
        r == spec_role_of(name@),
{
    if *name == "first-party".to_owned() {
        Some(PermissionRole::FirstParty)
    } else if *name == "third-party".to_owned() {
        Some(PermissionRole::ThirdParty)
    } else if *name == "system".to_owned() {
        Some(PermissionRole::System)
    } else {
        None
    }
}

/// Parse a verdict name.
pub fn parse_verdict(name: &String) -> (r: Option<RuleVerdict>)
    ensures
        r == spec_verdict_of(name@),
{
    if *name == "allow".to_owned() {
        Some(RuleVerdict::Allow)
    } else if *name == "deny".to_owned() {
        Some(RuleVerdict::Deny)
    } else if *name == "prompt".to_owned() {
        Some(RuleVerdict::Prompt)
    } else {
        None
    }
}

/// Whether a rule carries the given (role, capability) key.
pub open spec fn rule_matches(r: PermissionRule, role: PermissionRole, cap: Seq<char>) -> bool {
    r.role == role && r.capability@ == cap
}

/// At most one rule per (role, capability) pair: the registry is the
/// distinct-key store.
pub open spec fn distinct_rule_keys(s: Seq<PermissionRule>) -> bool {
    forall|i: int, j: int|
        0 <= i < j < s.len() ==> !(#[trigger] s[i].role == #[trigger] s[j].role
            && s[i].capability@ == s[j].capability@)
}

/// Whether some rule in `s` carries the key `(role, cap)`.
pub open spec fn spec_has_rule(s: Seq<PermissionRule>, role: PermissionRole, cap: Seq<char>) -> bool {
    exists|i: int| 0 <= i < s.len() && #[trigger] rule_matches(s[i], role, cap)
}

/// The rule stored under `(role, cap)`, if any. Under
/// `distinct_rule_keys` the matching rule is unique.
pub open spec fn spec_rule_lookup(
    s: Seq<PermissionRule>,
    role: PermissionRole,
    cap: Seq<char>,
) -> Option<PermissionRule> {
    if spec_has_rule(s, role, cap) {
        Some(s[choose|i: int| 0 <= i < s.len() && #[trigger] rule_matches(s[i], role, cap)])
    } else {
        None
    }
}

/// Under distinct keys, any index that matches `(role, cap)` is the
/// index `spec_rule_lookup` answers with.
pub proof fn lemma_rule_lookup_at(s: Seq<PermissionRule>, role: PermissionRole, cap: Seq<char>, i: int)
    requires
        distinct_rule_keys(s),
        0 <= i < s.len(),
        rule_matches(s[i], role, cap),
    ensures
        spec_rule_lookup(s, role, cap) == Some(s[i]),
{
    assert(spec_has_rule(s, role, cap));
    let j = choose|j: int| 0 <= j < s.len() && #[trigger] rule_matches(s[j], role, cap);
    assert(rule_matches(s[j], role, cap));
    if i != j {
        assert(s[i].role == s[j].role && s[i].capability@ == s[j].capability@);
        assert(false);
    }
}

/// The validated rule a raw entry denotes, when all its parts parse.
pub open spec fn spec_parse_entry(e: RuleEntry) -> Option<PermissionRule> {
    match spec_role_of(e.role@) {
        None => None,
        Some(role) => match spec_verdict_of(e.verdict@) {
            None => None,
            Some(v) => if e.capability@.len() == 0 {
                None
            } else {
                Some(PermissionRule { role, capability: e.capability, verdict: v })
            },
        },
    }
}

/// The first reason a raw entry is rejected, when one of its parts does
/// not parse.
pub open spec fn spec_entry_error(e: RuleEntry) -> RegistryError {
    if spec_role_of(e.role@) is None {
        RegistryError::UnknownRole
    } else if spec_verdict_of(e.verdict@) is None {
        RegistryError::UnknownVerdict
    } else {
        RegistryError::EmptyCapability
    }
}

/// The registry that `done` grows into by consuming `rest` in order:
/// each entry is parsed and appended, and the whole build fails on the
/// first malformed or duplicate entry.
pub open spec fn spec_build(done: Seq<PermissionRule>, rest: Seq<RuleEntry>) -> Result<
    Seq<PermissionRule>,
    RegistryError,
>
    decreases rest.len(),
{
    if rest.len() == 0 {
        Ok(done)
    } else {
        match spec_parse_entry(rest[0]) {
            None => Err(spec_entry_error(rest[0])),
            Some(rule) => if spec_has_rule(done, rule.role, rule.capability@) {
                Err(RegistryError::DuplicateRule)
            } else {
                spec_build(done.push(rule), rest.drop_first())
            },
        }
    }
}

/// The in-memory permission registry. Read-only after construction:
/// lookup is the only operation it exposes.
pub struct PermissionRegistry {
    pub rules: Vec<PermissionRule>,
}

impl View for PermissionRegistry {
    type V = Seq<PermissionRule>;

    open spec fn view(&self) -> Seq<PermissionRule> {
        self.rules@
    }
}

impl PermissionRegistry {
    /// Registry invariant: at most one rule per (role, capability).
    pub open spec fn wf(self) -> bool {
        distinct_rule_keys(self@)
    }

    /// Index of the rule for `(role, capability)`, if one is stored.
    fn find_index(&self, role: PermissionRole, capability: &String) -> (r: Option<usize>)
        requires
            self.wf(),
        ensures
            match r {
                Some(i) => 0 <= i < self@.len() && rule_matches(self@[i as int], role, capability@)
                    && spec_rule_lookup(self@, role, capability@) == Some(self@[i as int]),
                None => spec_rule_lookup(self@, role, capability@) is None,
            },
    {
        let n = self.rules.len();
        let mut i: usize = 0;
        while i < n
            invariant
                0 <= i <= n,
                n == self@.len(),
                self.wf(),
                forall|j: int| 0 <= j < i ==> !rule_matches(self@[j], role, capability@),
            decreases n - i,
        {
            let e = &self.rules[i];
            if e.role == role && e.capability == *capability {
                proof {
                    lemma_rule_lookup_at(self@, role, capability@, i as int);
                }
                return Some(i);
            }
            i = i + 1;
        }
        proof {
            assert(!spec_has_rule(self@, role, capability@));
        }
        None
    }

    /// Build a registry from raw configuration entries, in order. Fails
    /// on the first entry with an unknown role or verdict name, an empty
    /// capability, or a (role, capability) key already taken; on failure
    /// no registry is produced at all.
    pub fn new(entries: &Vec<RuleEntry>) -> (r: Result<PermissionRegistry, RegistryError>)
        ensures
            match spec_build(Seq::<PermissionRule>::empty(), entries@) {
                Ok(rules) => r matches Ok(reg) && reg@ == rules && reg.wf(),
                Err(e) => r matches Err(e2) && e2 == e,
            },
    {
        let mut reg = PermissionRegistry { rules: Vec::new() };
        let n = entries.len();
        let mut i: usize = 0;
        proof {
            assert(reg@ =~= Seq::<PermissionRule>::empty());
            assert(entries@.skip(0) =~= entries@);
        }
        while i < n
            invariant
                0 <= i <= n,
                n == entries@.len(),
                reg.wf(),
                spec_build(Seq::<PermissionRule>::empty(), entries@) == spec_build(
                    reg@,
                    entries@.skip(i as int),
                ),
            decreases n - i,
        {
            let entry = &entries[i];
            proof {
                assert(entries@.skip(i as int)[0] == entries@[i as int]);
            }
            let role = match parse_role(&entry.role) {
                Some(role) => role,
                None => {
                    return Err(RegistryError::UnknownRole);
                },
            };
            let verdict = match parse_verdict(&entry.verdict) {
                Some(v) => v,
                None => {
                    return Err(RegistryError::UnknownVerdict);
                },
            };
            if entry.capability.as_str().is_empty() {
                return Err(RegistryError::EmptyCapability);
            }
            if reg.find_index(role, &entry.capability).is_some() {
                return Err(RegistryError::DuplicateRule);
            }
            let ghost pre = reg@;
            let rule = PermissionRule { role, capability: entry.capability.clone(), verdict };
            reg.rules.push(rule);
            proof {
                assert(entries@.skip(i as int).drop_first() =~= entries@.skip((i + 1) as int));
                assert forall|p: int, q: int| 0 <= p < q < reg@.len() implies !(
                #[trigger] reg@[p].role == #[trigger] reg@[q].role
                    && reg@[p].capability@ == reg@[q].capability@) by {
                    if q == reg@.len() - 1 {
                        assert(rule_matches(pre[p], reg@[q].role, reg@[q].capability@)
                            ==> spec_has_rule(pre, reg@[q].role, reg@[q].capability@));
                    }
                }
            }
            i = i + 1;
        }
        proof {
            assert(entries@.skip(n as int) =~= Seq::<RuleEntry>::empty());
        }
        Ok(reg)
    }

    /// Look up the rule for `(role, capability)`. Safe for concurrent
    /// readers: the registry never changes after construction.
    pub fn lookup(&self, role: PermissionRole, capability: &String) -> (r: Option<&PermissionRule>)
        requires
            self.wf(),
        ensures
            match r {
                Some(rule) => spec_rule_lookup(self@, role, capability@) == Some(*rule),
                None => spec_rule_lookup(self@, role, capability@) is None,
            },
    {
        match self.find_index(role, capability) {
            Some(i) => Some(&self.rules[i]),
            None => None,
        }
    }
}

} // verus!
