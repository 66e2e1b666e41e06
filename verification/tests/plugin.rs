use badger_permissions::app_gateway::NoopAppGateway;
use badger_permissions::errors::RegistryError;
use badger_permissions::jsonrpc::{JsonRpcRequest, JsonRpcResponse};
use badger_permissions::launch_delegate::{AdapterVerdict, MockLaunchDelegate};
use badger_permissions::registry::RuleEntry;
use badger_permissions::thor_permission::{GrantSource, PermissionRole, Verdict};
use badger_permissions::BadgerPlugin;

fn entry(role: &str, capability: &str, verdict: &str) -> RuleEntry {
    RuleEntry {
        role: role.to_string(),
        capability: capability.to_string(),
        verdict: verdict.to_string(),
    }
}

fn plugin(
    entries: Vec<RuleEntry>,
    response: AdapterVerdict,
) -> BadgerPlugin<MockLaunchDelegate, NoopAppGateway> {
    BadgerPlugin::new(&entries, MockLaunchDelegate { response }, NoopAppGateway {})
        .expect("plugin should build")
}

#[test]
fn plugin_construction_fails_on_malformed_registry() {
    let r = BadgerPlugin::new(
        &vec![entry("system", "device.info", "sometimes")],
        MockLaunchDelegate { response: AdapterVerdict::Allow },
        NoopAppGateway {},
    );
    assert!(matches!(r, Err(RegistryError::UnknownVerdict)));
}

#[test]
fn handler_dispatches_check() {
    let p = plugin(vec![entry("third-party", "device.info", "allow")], AdapterVerdict::Unavailable);
    let mut handler = p.jsonrpc_handler();
    let req = JsonRpcRequest::Check {
        app_id: "app-42".to_string(),
        role: PermissionRole::ThirdParty,
        capability: "device.info".to_string(),
    };
    match handler.handle(&req, 1000) {
        JsonRpcResponse::Check(r) => {
            assert_eq!(r.capability, "device.info");
            assert_eq!(r.verdict, Verdict::Allow);
            assert_eq!(r.source, GrantSource::Static);
        },
        _ => panic!("check request must yield a check response"),
    }
}

#[test]
fn handler_dispatches_check_all_in_order() {
    let p = plugin(
        vec![
            entry("system", "device.info", "allow"),
            entry("system", "settings.write", "prompt"),
        ],
        AdapterVerdict::Deny,
    );
    let mut handler = p.jsonrpc_handler();
    let caps = vec![
        "device.info".to_string(),
        "settings.write".to_string(),
        "unknown.cap".to_string(),
    ];
    let req = JsonRpcRequest::CheckAll {
        app_id: "app-42".to_string(),
        role: PermissionRole::System,
        capabilities: caps.clone(),
    };
    match handler.handle(&req, 1000) {
        JsonRpcResponse::CheckAll(r) => {
            assert_eq!(r.capabilities, caps);
            assert_eq!(r.results.len(), 3);
            assert_eq!(r.results[0].capability, "device.info");
            assert_eq!(r.results[0].verdict, Verdict::Allow);
            assert_eq!(r.results[1].capability, "settings.write");
            assert_eq!(r.results[1].verdict, Verdict::Deny);
            assert_eq!(r.results[1].source, GrantSource::Dynamic);
            assert_eq!(r.results[2].capability, "unknown.cap");
            assert_eq!(r.results[2].source, GrantSource::UnknownCapability);
        },
        _ => panic!("batch request must yield a batch response"),
    }
}

#[test]
fn handler_dispatches_notify_grant_changed() {
    let p = plugin(vec![entry("third-party", "device.info", "allow")], AdapterVerdict::Unavailable);
    let mut handler = p.jsonrpc_handler();
    let check = JsonRpcRequest::Check {
        app_id: "app-42".to_string(),
        role: PermissionRole::ThirdParty,
        capability: "device.info".to_string(),
    };
    handler.handle(&check, 1000);
    assert_eq!(handler.service.cache.entries.len(), 1);
    let notify = JsonRpcRequest::NotifyGrantChanged {
        app_id: "app-42".to_string(),
        capability: "device.info".to_string(),
    };
    match handler.handle(&notify, 1001) {
        JsonRpcResponse::Ack => {},
        _ => panic!("notification must yield an acknowledgement"),
    }
    assert_eq!(handler.service.cache.entries.len(), 0);
}

#[test]
fn handler_async_check_reports_delivery() {
    let p = plugin(vec![entry("third-party", "device.info", "allow")], AdapterVerdict::Unavailable);
    let mut handler = p.jsonrpc_handler();
    let app = "app-42".to_string();
    let cap = "device.info".to_string();
    let delivered = handler.handle_async(&app, PermissionRole::ThirdParty, &cap, 7, 1000);
    assert!(delivered);
    // The check itself took effect: its grant is cached.
    assert_eq!(handler.service.cache.entries.len(), 1);
    assert_eq!(handler.service.cache.entries[0].grant.verdict, Verdict::Allow);
}
