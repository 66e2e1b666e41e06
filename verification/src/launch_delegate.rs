//! Lifecycle adapter contract: the hook the permission service invokes
//! when a prompt-class rule needs a live confirmation from the host
//! environment. Implementations are injected at service construction; a
//! mock implementation is provided for environments without a live host.

use vstd::prelude::*;

use crate::thor_permission::PermissionRole;

verus! {

/// What a lifecycle adapter answers: a live allow or deny, or
/// unavailability (failure, timeout, or an unreachable host), which the
/// service treats fail-closed.
#[derive(Clone, Copy, PartialEq, Eq, Structural, Debug)]
pub enum AdapterVerdict {
    Allow,
    Deny,
    Unavailable,
}

/// The authorize hook of the host's launch delegate. The call may
/// suspend up to `deadline`; an implementation must turn its own
/// failures and timeouts into `Unavailable` rather than panic or block
/// past the deadline.
pub trait LaunchDelegateClient: Sized {
    /// The answer this adapter gives for a request; the model the
    /// service's contracts are stated over.
    spec fn authorize_spec(
        &self,
        app_id: Seq<char>,
        role: PermissionRole,
        capability: Seq<char>,
        deadline: u64,
    ) -> AdapterVerdict;

    /// Ask the host whether `app_id` may use `capability` under `role`,
    /// waiting no longer than `deadline`.
    fn authorize(
        &self,
        app_id: &String,
        role: PermissionRole,
        capability: &String,
        deadline: u64,
    ) -> (v: AdapterVerdict)
        ensures
            v == self.authorize_spec(app_id@, role, capability@, deadline),
    ;
}

/// A fixed-verdict delegate for environments without a live host:
/// every request gets the one configured verdict. The unavailable
/// verdict makes every prompt-class check take the fail-closed path.
pub struct MockLaunchDelegate {
    pub response: AdapterVerdict,
}

impl LaunchDelegateClient for MockLaunchDelegate {
    open spec fn authorize_spec(
        &self,
        app_id: Seq<char>,
        role: PermissionRole,
        capability: Seq<char>,
        deadline: u64,
    ) -> AdapterVerdict {
        self.response
    }

    fn authorize(
        &self,
        app_id: &String,
        role: PermissionRole,
        capability: &String,
        deadline: u64,
    ) -> (v: AdapterVerdict) {
        self.response
    }
}

} // verus!
