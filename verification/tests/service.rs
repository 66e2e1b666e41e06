use badger_permissions::launch_delegate::{AdapterVerdict, MockLaunchDelegate};
use badger_permissions::app_gateway::NoopAppGateway;
use badger_permissions::registry::{PermissionRegistry, RuleEntry};
use badger_permissions::thor_permission::{
    GrantSource, PermissionRole, ThorPermissionService, Verdict,
};

fn entry(role: &str, capability: &str, verdict: &str) -> RuleEntry {
    RuleEntry {
        role: role.to_string(),
        capability: capability.to_string(),
        verdict: verdict.to_string(),
    }
}

fn service_with(
    entries: Vec<RuleEntry>,
    response: AdapterVerdict,
    ttl_static: u64,
    ttl_dynamic: u64,
    ttl_negative: u64,
) -> ThorPermissionService<MockLaunchDelegate, NoopAppGateway> {
    let registry = PermissionRegistry::new(&entries).expect("registry should build");
    ThorPermissionService::with_ttls(
        registry,
        MockLaunchDelegate { response },
        NoopAppGateway {},
        ttl_static,
        ttl_dynamic,
        ttl_negative,
    )
}

#[test]
fn static_allow_rule_resolves_to_allow() {
    let mut svc = service_with(
        vec![entry("third-party", "device.info", "allow")],
        AdapterVerdict::Unavailable,
        3600,
        60,
        30,
    );
    let app = "app-42".to_string();
    let cap = "device.info".to_string();
    let r = svc.check(&app, PermissionRole::ThirdParty, &cap, 1000);
    assert_eq!(r.capability, "device.info");
    assert_eq!(r.verdict, Verdict::Allow);
    assert_eq!(r.source, GrantSource::Static);
}

#[test]
fn scenario_static_allow_cached_then_invalidated() {
    // Rule (third-party, device.info, allow) with the long static TTL.
    let mut svc = service_with(
        vec![entry("third-party", "device.info", "allow")],
        AdapterVerdict::Unavailable,
        3600,
        60,
        30,
    );
    let app = "app-42".to_string();
    let cap = "device.info".to_string();

    // Cold cache: resolved from the registry and cached.
    let r1 = svc.check(&app, PermissionRole::ThirdParty, &cap, 1000);
    assert_eq!(r1.verdict, Verdict::Allow);
    assert_eq!(r1.source, GrantSource::Static);
    assert_eq!(svc.cache.entries.len(), 1);
    assert_eq!(svc.cache.entries[0].grant.created, 1000);

    // Within 3600 s: the identical cached result; the stored grant is
    // the one created at the first call, not a re-evaluation.
    let r2 = svc.check(&app, PermissionRole::ThirdParty, &cap, 2000);
    assert_eq!(r2, r1);
    assert_eq!(svc.cache.entries[0].grant.created, 1000);

    // After an explicit grant-changed notification the next call
    // re-evaluates from the registry.
    svc.notify_grant_changed(&app, &cap);
    assert_eq!(svc.cache.entries.len(), 0);
    let r3 = svc.check(&app, PermissionRole::ThirdParty, &cap, 2500);
    assert_eq!(r3.verdict, Verdict::Allow);
    assert_eq!(r3.source, GrantSource::Static);
    assert_eq!(svc.cache.entries[0].grant.created, 2500);
}

#[test]
fn scenario_prompt_deny_uses_short_dynamic_ttl() {
    // Rule (system, settings.write) is prompt-class; the adapter denies.
    let mut svc = service_with(
        vec![entry("system", "settings.write", "prompt")],
        AdapterVerdict::Deny,
        3600,
        60,
        30,
    );
    let app = "settings-app".to_string();
    let cap = "settings.write".to_string();

    let r1 = svc.check(&app, PermissionRole::System, &cap, 1000);
    assert_eq!(r1.verdict, Verdict::Deny);
    assert_eq!(r1.source, GrantSource::Dynamic);

    // Flip the live answer. Within the dynamic TTL the cached deny wins.
    svc.delegate.response = AdapterVerdict::Allow;
    let r2 = svc.check(&app, PermissionRole::System, &cap, 1030);
    assert_eq!(r2.verdict, Verdict::Deny);
    assert_eq!(r2.source, GrantSource::Dynamic);

    // Past the dynamic TTL (60 s) but far inside the static TTL
    // (3600 s) the grant is re-confirmed: it was cached with the short
    // dynamic TTL, not the long static one.
    let r3 = svc.check(&app, PermissionRole::System, &cap, 1070);
    assert_eq!(r3.verdict, Verdict::Allow);
    assert_eq!(r3.source, GrantSource::Dynamic);
}

#[test]
fn unknown_capability_denied_with_distinct_tag() {
    let mut svc = service_with(
        vec![entry("third-party", "device.info", "allow")],
        AdapterVerdict::Unavailable,
        3600,
        60,
        30,
    );
    let app = "app-1".to_string();
    let cap = "nonexistent.capability".to_string();
    let r = svc.check(&app, PermissionRole::ThirdParty, &cap, 500);
    assert_eq!(r.verdict, Verdict::Deny);
    assert_eq!(r.source, GrantSource::UnknownCapability);
    // The negative answer is cached briefly.
    assert_eq!(svc.cache.entries.len(), 1);
    assert_eq!(svc.cache.entries[0].ttl, 30);
}

#[test]
fn known_rule_wrong_role_is_unknown_capability() {
    let mut svc = service_with(
        vec![entry("third-party", "device.info", "allow")],
        AdapterVerdict::Unavailable,
        3600,
        60,
        30,
    );
    let app = "app-1".to_string();
    let cap = "device.info".to_string();
    let r = svc.check(&app, PermissionRole::System, &cap, 500);
    assert_eq!(r.verdict, Verdict::Deny);
    assert_eq!(r.source, GrantSource::UnknownCapability);
}

#[test]
fn fail_closed_unavailable_adapter_always_denies() {
    let mut svc = service_with(
        vec![entry("system", "settings.write", "prompt")],
        AdapterVerdict::Unavailable,
        3600,
        60,
        30,
    );
    let app = "settings-app".to_string();
    let cap = "settings.write".to_string();
    for step in 0..5u64 {
        let r = svc.check(&app, PermissionRole::System, &cap, 1000 + step * 100);
        assert_eq!(r.verdict, Verdict::Deny);
        assert_eq!(r.source, GrantSource::AdapterUnavailable);
        // The fail-closed deny is never cached.
        assert_eq!(svc.cache.entries.len(), 0);
    }
}

#[test]
fn repeated_check_within_ttl_is_identical() {
    let mut svc = service_with(
        vec![
            entry("first-party", "storage.read", "deny"),
            entry("first-party", "hdmi.cec", "prompt"),
        ],
        AdapterVerdict::Allow,
        3600,
        60,
        30,
    );
    let app = "app-7".to_string();
    for cap_name in ["storage.read", "hdmi.cec", "no.such.capability"] {
        let cap = cap_name.to_string();
        let r1 = svc.check(&app, PermissionRole::FirstParty, &cap, 100);
        let r2 = svc.check(&app, PermissionRole::FirstParty, &cap, 110);
        assert_eq!(r1, r2);
    }
}

#[test]
fn check_all_preserves_input_order_and_duplicates() {
    let mut svc = service_with(
        vec![
            entry("third-party", "device.info", "allow"),
            entry("third-party", "settings.write", "prompt"),
        ],
        AdapterVerdict::Deny,
        3600,
        60,
        30,
    );
    let app = "app-9".to_string();
    let caps = vec![
        "settings.write".to_string(),
        "device.info".to_string(),
        "nonexistent.capability".to_string(),
        "device.info".to_string(),
    ];
    let r = svc.check_all(&app, PermissionRole::ThirdParty, &caps, 50);
    assert_eq!(r.capabilities, caps);
    assert_eq!(r.results.len(), 4);
    for (i, res) in r.results.iter().enumerate() {
        assert_eq!(res.capability, caps[i]);
    }
    assert_eq!(r.results[0].verdict, Verdict::Deny);
    assert_eq!(r.results[0].source, GrantSource::Dynamic);
    assert_eq!(r.results[1].verdict, Verdict::Allow);
    assert_eq!(r.results[1].source, GrantSource::Static);
    assert_eq!(r.results[2].verdict, Verdict::Deny);
    assert_eq!(r.results[2].source, GrantSource::UnknownCapability);
    assert_eq!(r.results[3].verdict, Verdict::Allow);
    assert_eq!(r.results[3].source, GrantSource::Static);
}

#[test]
fn check_all_adapter_failure_does_not_abort_batch() {
    let mut svc = service_with(
        vec![
            entry("system", "settings.write", "prompt"),
            entry("system", "device.info", "allow"),
        ],
        AdapterVerdict::Unavailable,
        3600,
        60,
        30,
    );
    let app = "app-3".to_string();
    let caps = vec!["settings.write".to_string(), "device.info".to_string()];
    let r = svc.check_all(&app, PermissionRole::System, &caps, 10);
    assert_eq!(r.results.len(), 2);
    assert_eq!(r.results[0].verdict, Verdict::Deny);
    assert_eq!(r.results[0].source, GrantSource::AdapterUnavailable);
    assert_eq!(r.results[1].verdict, Verdict::Allow);
    assert_eq!(r.results[1].source, GrantSource::Static);
}

#[test]
fn notify_grant_changed_is_idempotent_on_absent_key() {
    let mut svc = service_with(
        vec![entry("third-party", "device.info", "allow")],
        AdapterVerdict::Unavailable,
        3600,
        60,
        30,
    );
    let app = "app-42".to_string();
    let cap = "device.info".to_string();
    svc.notify_grant_changed(&app, &cap);
    svc.notify_grant_changed(&app, &cap);
    assert_eq!(svc.cache.entries.len(), 0);
}
