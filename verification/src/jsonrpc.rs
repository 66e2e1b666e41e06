//! Typed facade for the remote-procedure interface: the dispatcher that
//! turns an already-decoded request into the corresponding permission
//! service call and hands the typed result back. Wire parsing and
//! serialization live outside the core.

use vstd::prelude::*;

use crate::app_gateway::AppGatewayClient;
use crate::launch_delegate::LaunchDelegateClient;
use crate::thor_permission::{
    spec_cache_after_all, spec_outcomes_all, PermissionCheckAllResult, PermissionRequestResult,
    PermissionRole, ThorPermissionService,
};
use crate::cache::spec_remove;

verus! {

/// One decoded permission call.
pub enum JsonRpcRequest {
    /// Check a single capability.
    Check { app_id: String, role: PermissionRole, capability: String },
    /// Check a batch of capabilities, answered in input order.
    CheckAll { app_id: String, role: PermissionRole, capabilities: Vec<String> },
    /// An external event revoked a grant: forget it.
    NotifyGrantChanged { app_id: String, capability: String },
}

/// The typed answer to one decoded call.
pub enum JsonRpcResponse {
    Check(PermissionRequestResult),
    CheckAll(PermissionCheckAllResult),
    Ack,
}

/// Dispatches decoded permission calls to the service it owns.
pub struct JsonRpcHandler<L, G> {
    pub service: ThorPermissionService<L, G>,
}

impl<L: LaunchDelegateClient, G: AppGatewayClient> JsonRpcHandler<L, G> {
    /// Bind a handler to a service.
    pub fn new(service: ThorPermissionService<L, G>) -> (h: Self)
        ensures
            h.service == service,
    {
        JsonRpcHandler { service }
    }

    /// Dispatch one decoded request at time `now`. Each request kind maps
    /// to exactly one service operation; the response carries that
    /// operation's result unchanged.
    pub fn handle(&mut self, request: &JsonRpcRequest, now: u64) -> (resp: JsonRpcResponse)
        requires
            old(self).service.wf(),
        ensures
            final(self).service.wf(),
            final(self).service.registry == old(self).service.registry,
            final(self).service.delegate == old(self).service.delegate,
            final(self).service.gateway == old(self).service.gateway,
            final(self).service.spec_ttls() == old(self).service.spec_ttls(),
            match *request {
                JsonRpcRequest::Check { app_id, role, capability } => {
                    &&& resp matches JsonRpcResponse::Check(r)
                    &&& resp matches JsonRpcResponse::Check(r) ==> {
                        let o = old(self).service.outcome_of(
                            old(self).service.cache@,
                            app_id,
                            role,
                            capability,
                            now,
                        );
                        &&& r.capability@ == capability@
                        &&& r.verdict == o.verdict
                        &&& r.source == o.source
                    }
                    &&& final(self).service.cache@ == old(self).service.cache_after_of(
                        old(self).service.cache@,
                        app_id,
                        role,
                        capability,
                        now,
                    )
                },
                JsonRpcRequest::CheckAll { app_id, role, capabilities } => {
                    &&& resp matches JsonRpcResponse::CheckAll(r)
                    &&& resp matches JsonRpcResponse::CheckAll(r) ==> {
                        &&& r.capabilities@ == capabilities@
                        &&& r.results@.len() == capabilities@.len()
                        &&& forall|i: int|
                            0 <= i < capabilities@.len()
                                ==> #[trigger] r.results@[i].capability@ == capabilities@[i]@
                        &&& forall|i: int|
                            0 <= i < capabilities@.len() ==> {
                                let o = spec_outcomes_all(
                                    old(self).service.registry@,
                                    old(self).service.delegate,
                                    old(self).service.spec_ttls(),
                                    old(self).service.cache@,
                                    app_id,
                                    role,
                                    capabilities@,
                                    now,
                                )[i];
                                #[trigger] r.results@[i].verdict == o.verdict
                                    && r.results@[i].source == o.source
                            }
                    }
                    &&& final(self).service.cache@ == spec_cache_after_all(
                        old(self).service.registry@,
                        old(self).service.delegate,
                        old(self).service.spec_ttls(),
                        old(self).service.cache@,
                        app_id,
                        role,
                        capabilities@,
                        now,
                    )
                },
                JsonRpcRequest::NotifyGrantChanged { app_id, capability } => {
                    &&& resp matches JsonRpcResponse::Ack
                    &&& final(self).service.cache@ == spec_remove(
                        old(self).service.cache@,
                        app_id@,
                        capability@,
                    )
                },
            },
    {
        match request {
            JsonRpcRequest::Check { app_id, role, capability } => {
                JsonRpcResponse::Check(self.service.check(app_id, *role, capability, now))
            },
            JsonRpcRequest::CheckAll { app_id, role, capabilities } => {
                JsonRpcResponse::CheckAll(self.service.check_all(app_id, *role, capabilities, now))
            },
            JsonRpcRequest::NotifyGrantChanged { app_id, capability } => {
                self.service.notify_grant_changed(app_id, capability);
                JsonRpcResponse::Ack
            },
        }
    }

    /// Resolve one capability and deliver the result asynchronously to
    /// the requesting application through the gateway, tagged with the
    /// caller's correlation id. Reports whether the delivery succeeded;
    /// a failed delivery is the caller's concern and is not retried.
    pub fn handle_async(
        &mut self,
        app_id: &String,
        role: PermissionRole,
        capability: &String,
        correlation_id: u64,
        now: u64,
    ) -> (delivered: bool)
        requires
            old(self).service.wf(),
        ensures
            final(self).service.wf(),
            final(self).service.registry == old(self).service.registry,
            final(self).service.delegate == old(self).service.delegate,
            final(self).service.gateway == old(self).service.gateway,
            final(self).service.spec_ttls() == old(self).service.spec_ttls(),
            final(self).service.cache@ == old(self).service.cache_after_of(
                old(self).service.cache@,
                *app_id,
                role,
                *capability,
                now,
            ),
            delivered == old(self).service.gateway.deliver_spec(app_id@, correlation_id),
    {
        let result = self.service.check(app_id, role, capability, now);
        self.service.gateway.deliver(app_id, correlation_id, &result)
    }
}

} // verus!
