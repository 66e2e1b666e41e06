//! Application gateway contract: the fire-and-forget channel through
//! which asynchronous results are delivered back to a requesting
//! application. The core reports delivery success to its caller and
//! never retries on its own.

use vstd::prelude::*;

use crate::thor_permission::PermissionRequestResult;

verus! {

/// The respond hook of the host's application gateway.
pub trait AppGatewayClient: Sized {
    /// Whether a delivery to `app_id` under `correlation_id` succeeds;
    /// the model the service's contracts are stated over.
    spec fn deliver_spec(&self, app_id: Seq<char>, correlation_id: u64) -> bool;

    /// Deliver `result` to `app_id`, tagged with `correlation_id` so the
    /// application can match it to its request. Failures are reported,
    /// not retried.
    fn deliver(
        &self,
        app_id: &String,
        correlation_id: u64,
        result: &PermissionRequestResult,
    ) -> (ok: bool)
        ensures
            ok == self.deliver_spec(app_id@, correlation_id),
    ;
}

/// A gateway for environments without a live host: drops every delivery
/// and reports success.
pub struct NoopAppGateway {}

impl AppGatewayClient for NoopAppGateway {
    open spec fn deliver_spec(&self, app_id: Seq<char>, correlation_id: u64) -> bool {
        true
    }

    fn deliver(
        &self,
        app_id: &String,
        correlation_id: u64,
        result: &PermissionRequestResult,
    ) -> (ok: bool) {
        true
    }
}

} // verus!
