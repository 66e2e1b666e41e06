//! Capability-permission resolution core: a static rule registry, a
//! TTL-bounded grant cache, and the service that merges them into
//! allow/deny verdicts for (application, role, capability) requests.
//!
//! Modules:
//! - `thor_permission`: the resolution engine and the grant/result types.
//! - `registry`: the read-only table of static rules, built once from
//!   raw configuration entries.
//! - `cache`: the TTL-bounded store of resolved grants.
//! - `jsonrpc`: the typed dispatcher behind the remote-procedure facade.
//! - `launch_delegate`: the lifecycle adapter contract for prompt-class
//!   confirmations.
//! - `app_gateway`: the fire-and-forget response delivery contract.
//! - `errors`: registry and cache error types.

use vstd::prelude::*;

pub mod app_gateway;
pub mod cache;
pub mod errors;
pub mod jsonrpc;
pub mod launch_delegate;
pub mod registry;
pub mod thor_permission;

pub use thor_permission::PermissionCheckAllResult;
pub use thor_permission::PermissionGrant;
pub use thor_permission::PermissionRequestResult;
pub use thor_permission::PermissionRole as Role;

use crate::app_gateway::AppGatewayClient;
use crate::cache::CacheEntry;
use crate::errors::RegistryError;
use crate::jsonrpc::JsonRpcHandler;
use crate::launch_delegate::LaunchDelegateClient;
use crate::registry::{spec_build, PermissionRegistry, PermissionRule, RuleEntry};
use crate::thor_permission::{
    ThorPermissionService, DEFAULT_DYNAMIC_TTL_SECS, DEFAULT_NEGATIVE_TTL_SECS,
    DEFAULT_STATIC_TTL_SECS,
};

verus! {

/// Saturating addition on seconds-since-epoch timestamps.
pub open spec fn spec_sat_add(a: u64, b: u64) -> u64 {
    if a + b > u64::MAX {
        u64::MAX
    } else {
        (a + b) as u64
    }
}

/// Executable saturating addition, used to compute expiry timestamps
/// and adapter deadlines without overflow.
pub fn sat_add(a: u64, b: u64) -> (r: u64)
    ensures
        r == spec_sat_add(a, b),
{
    if a <= u64::MAX - b {
        a + b
    } else {
        u64::MAX
    }
}

/// Bundles the permission service with its injected collaborators and
/// exports the typed remote-procedure dispatcher.
pub struct BadgerPlugin<L, G> {
    pub permission_service: ThorPermissionService<L, G>,
}

impl<L: LaunchDelegateClient, G: AppGatewayClient> BadgerPlugin<L, G> {
    /// Create a plugin from raw registry entries and injected clients.
    /// Fails — publishing no service at all — exactly when the registry
    /// rejects the entries.
    pub fn new(
        registry_entries: &Vec<RuleEntry>,
        launch_delegate: L,
        app_gateway: G,
    ) -> (r: Result<Self, RegistryError>)
        ensures
            match spec_build(Seq::<PermissionRule>::empty(), registry_entries@) {
                Ok(rules) => r matches Ok(p) && p.permission_service.wf()
                    && p.permission_service.registry@ == rules && p.permission_service.cache@
                    == Seq::<CacheEntry>::empty() && p.permission_service.delegate
                    == launch_delegate && p.permission_service.gateway == app_gateway
                    && p.permission_service.spec_ttls() == (
                    DEFAULT_STATIC_TTL_SECS,
                    DEFAULT_DYNAMIC_TTL_SECS,
                    DEFAULT_NEGATIVE_TTL_SECS,
                ),
                Err(e) => r matches Err(e2) && e2 == e,
            },
    {
        let registry = match PermissionRegistry::new(registry_entries) {
            Ok(reg) => reg,
            Err(e) => {
                return Err(e);
            },
        };
        Ok(
            BadgerPlugin {
                permission_service: ThorPermissionService::new(
                    registry,
                    launch_delegate,
                    app_gateway,
                ),
            },
        )
    }

    /// Get the typed remote-procedure dispatcher bound to this plugin's
    /// service.
    pub fn jsonrpc_handler(self) -> (h: JsonRpcHandler<L, G>)
        ensures
            h.service == self.permission_service,
    {
        JsonRpcHandler::new(self.permission_service)
    }
}

} // verus!
