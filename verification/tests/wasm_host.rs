use worldline_host::wasm::bridge::{
    BrokerBridge, GuestCallOutcome, InstanceState, PayloadGate, RecordingLimiter, WasmHostBroker,
    is_out_of_fuel,
};
use worldline_host::wasm::error::WasmHostError;
use worldline_host::wasm::host::WasmPluginHost;
use worldline_host::wasm::limits::{
    clamp_hint, ResourceLimitHints, WasmResourceLimits, DEFAULT_MAX_MEMORY_BYTES,
    DEFAULT_MAX_TABLE_ENTRIES,
};
use worldline_host::wasm::wasi::{PermissionClass, WasiPermissionClass, WasiPermissionSet};

#[test]
fn defaults_match_documented_values() {
    let limits = WasmResourceLimits::default();
    assert_eq!(limits.max_component_bytes, 8 * 1024 * 1024);
    assert_eq!(limits.max_memory_bytes, 64 * 1024 * 1024);
    assert_eq!(limits.max_table_entries, 10_000);
    assert_eq!(limits.fuel_budget_per_call, 1_000_000_000);
    assert_eq!(limits.max_host_call_payload_bytes, 1024 * 1024);
}

#[test]
fn payload_gate_rejects_only_above_limit() {
    let limits = WasmResourceLimits::default();
    assert_eq!(limits.check_host_call_payload(0), Ok(()));
    assert_eq!(limits.check_host_call_payload(1024 * 1024), Ok(()));
    assert_eq!(
        limits.check_host_call_payload(1024 * 1024 + 1),
        Err(WasmHostError::ExternalPayloadTooLarge {
            limit: 1024 * 1024,
            actual: 1024 * 1024 + 1
        })
    );
}

#[test]
fn manifest_hints_only_tighten() {
    let mut hints = ResourceLimitHints::default();
    hints.memory_bytes = Some(32 * 1024 * 1024);
    hints.table_entries = Some(128);
    hints.host_call_payload_bytes = Some(4096);
    let limits = WasmResourceLimits::from_manifest_hints(&hints);
    assert_eq!(limits.max_memory_bytes, 32 * 1024 * 1024);
    assert_eq!(limits.max_table_entries, 128);
    assert_eq!(limits.max_host_call_payload_bytes, 4096);

    hints.memory_bytes = Some(u64::MAX);
    hints.table_entries = None;
    let limits = WasmResourceLimits::from_manifest_hints(&hints);
    assert_eq!(limits.max_memory_bytes, DEFAULT_MAX_MEMORY_BYTES);
    assert_eq!(limits.max_table_entries, DEFAULT_MAX_TABLE_ENTRIES);
}

#[test]
fn v1_grants_nothing() {
    let set = WasiPermissionSet::default();
    for class in [
        WasiPermissionClass::Filesystem,
        WasiPermissionClass::Network,
        WasiPermissionClass::Clock,
        WasiPermissionClass::Random,
        WasiPermissionClass::Environment,
    ] {
        assert!(!set.is_granted(class));
        assert!(!WasiPermissionSet::none().is_granted(class));
    }
}

#[test]
fn manifest_classes_map_to_wasi_classes() {
    assert_eq!(
        WasiPermissionClass::from(PermissionClass::Filesystem),
        WasiPermissionClass::Filesystem
    );
    assert_eq!(
        WasiPermissionClass::from(PermissionClass::Environment),
        WasiPermissionClass::Environment
    );
}

#[test]
fn oversized_host_call_payloads_are_rejected_by_the_gate() {
    let limits = WasmResourceLimits {
        max_host_call_payload_bytes: 64,
        ..WasmResourceLimits::default()
    };
    let error = limits
        .check_host_call_payload(65)
        .expect_err("an oversized payload must be denied");
    assert!(matches!(
        error,
        WasmHostError::ExternalPayloadTooLarge {
            actual: 65,
            limit: 64
        }
    ));
    let oversized = vec![0u8; 10_000_000];
    let error = limits
        .check_host_call_payload(oversized.len())
        .expect_err("a multi-megabyte payload must be denied without allocation blowup");
    assert!(matches!(
        error,
        WasmHostError::ExternalPayloadTooLarge {
            actual: 10_000_000,
            limit: 64
        }
    ));
}

#[test]
fn oversized_component_binaries_never_reach_the_compiler() {
    let limits = WasmResourceLimits {
        max_component_bytes: 16,
        ..WasmResourceLimits::default()
    };
    let host = WasmPluginHost::with_limits(limits);
    let blob = vec![0u8; 4096];
    let error = host
        .admit_component(&blob)
        .expect_err("an oversized binary must be rejected before compilation");
    assert!(matches!(
        error,
        WasmHostError::ComponentTooLarge {
            limit: 16,
            actual: 4096
        }
    ));
}

#[test]
fn components_at_the_size_limit_are_admitted() {
    let limits = WasmResourceLimits {
        max_component_bytes: 16,
        ..WasmResourceLimits::default()
    };
    let host = WasmPluginHost::with_limits(limits);
    assert_eq!(host.admit_component(&[0u8; 16]), Ok(()));
    assert_eq!(
        host.admit_component(&[0u8; 17]),
        Err(WasmHostError::ComponentTooLarge { limit: 16, actual: 17 })
    );
}

#[test]
fn clamp_hint_honours_only_smaller_hints() {
    assert_eq!(clamp_hint(None, 10), 10);
    assert_eq!(clamp_hint(Some(3), 10), 3);
    assert_eq!(clamp_hint(Some(10), 10), 10);
    assert_eq!(clamp_hint(Some(11), 10), 10);
}

#[test]
fn error_texts_name_the_failure() {
    assert_eq!(
        WasmHostError::ExternalPayloadTooLarge { limit: 64, actual: 65 }.describe(),
        "host-call payload too large: 65 bytes (limit 64)"
    );
    assert_eq!(
        WasmHostError::ComponentTooLarge { limit: 16, actual: 4096 }.describe(),
        "component too large: 4096 bytes (limit 16)"
    );
    assert_eq!(
        WasmHostError::WasmResourceLimitExceeded { dimension: "fuel".to_string() }.describe(),
        "resource limit exceeded: fuel"
    );
    assert_eq!(
        WasmHostError::UnsupportedExternalAbi { reason: "x".to_string() }.describe(),
        "unsupported external ABI: x"
    );
    assert_eq!(
        WasmHostError::WasmTrap { message: "boom".to_string() }.describe(),
        "guest trapped: boom"
    );
    assert_eq!(
        WasmHostError::GuestReturnedError { message: "no".to_string() }.describe(),
        "guest returned error: no"
    );
    assert_eq!(
        WasmHostError::InstantiationFailed { reason: "link".to_string() }.describe(),
        "instantiation failed: link"
    );
}

fn names(list: &[&str]) -> Vec<String> {
    list.iter().map(|s| s.to_string()).collect()
}

#[test]
fn wasi_imports_are_refused_first() {
    let host = WasmPluginHost::new();
    let reason = host
        .forbidden_import_reason(&names(&["other:thing/x", "wasi:cli/environment@0.2.0"]))
        .expect("a WASI import must be refused");
    assert_eq!(
        reason,
        "component imports 'wasi:cli/environment@0.2.0', but the host provides no WASI bindings; components run with zero ambient authority"
    );
}

#[test]
fn unprovided_imports_are_refused_and_host_imports_pass() {
    let host = WasmPluginHost::new();
    assert_eq!(
        host.forbidden_import_reason(&names(&[
            "worldline:plugin/state-access@0.3.0",
            "worldline:plugin/event-publish@0.3.0",
        ])),
        None
    );
    assert_eq!(
        host.forbidden_import_reason(&names(&[
            "worldline:plugin/state-access@0.3.0",
            "vendor:secret/api@1.0.0",
        ])),
        Some("component imports 'vendor:secret/api@1.0.0', which the external-plugin world does not provide".to_string())
    );
}

#[derive(Default)]
struct MapBroker {
    state: std::sync::Mutex<std::collections::BTreeMap<String, Vec<u8>>>,
    published: std::sync::Mutex<Vec<Vec<u8>>>,
}

impl WasmHostBroker for MapBroker {
    fn state_get(&self, key: String) -> Option<Vec<u8>> {
        self.state.lock().unwrap().get(&key).cloned()
    }
    fn state_set(&self, key: String, value: Vec<u8>) {
        self.state.lock().unwrap().insert(key, value);
    }
    fn event_publish(&self, _namespace: String, _name: String, payload: Vec<u8>) -> Result<(), String> {
        self.published.lock().unwrap().push(payload);
        Ok(())
    }
}

#[test]
fn bridge_gates_every_handoff() {
    let limits = WasmResourceLimits { max_host_call_payload_bytes: 4, ..WasmResourceLimits::default() };
    let mut bridge = BrokerBridge::new(MapBroker::default(), limits);
    bridge.state_set("small".to_string(), vec![1, 2, 3, 4]);
    assert_eq!(bridge.gate.take(), None);
    assert_eq!(bridge.state_get("small".to_string()), Some(vec![1, 2, 3, 4]));
    bridge.state_set("big".to_string(), vec![0; 5]);
    assert_eq!(
        bridge.gate.take(),
        Some(WasmHostError::ExternalPayloadTooLarge { limit: 4, actual: 5 })
    );
    assert!(bridge.broker.state.lock().unwrap().get("big").is_none());
    assert_eq!(
        bridge.publish("ns".to_string(), "n".to_string(), vec![0; 9]),
        Err("event payload exceeds the declared host-call payload limit".to_string())
    );
    assert!(bridge.broker.published.lock().unwrap().is_empty());
    assert_eq!(bridge.publish("ns".to_string(), "n".to_string(), vec![7]), Ok(()));
    bridge.broker.state.lock().unwrap().insert("huge".to_string(), vec![0; 8]);
    assert_eq!(bridge.state_get("huge".to_string()), None);
}

#[test]
fn payload_gate_take_clears_the_record() {
    let mut gate = PayloadGate::new();
    assert_eq!(gate.take(), None);
    gate.record(WasmHostError::WasmTrap { message: "t".to_string() });
    assert_eq!(gate.take(), Some(WasmHostError::WasmTrap { message: "t".to_string() }));
    assert_eq!(gate.take(), None);
}

#[test]
fn limiter_reports_memory_before_table() {
    let mut limiter = RecordingLimiter::new(&WasmResourceLimits::default());
    assert_eq!(limiter.take_denial(), None);
    assert!(!limiter.table_growing(false));
    assert_eq!(
        limiter.take_denial(),
        Some(WasmHostError::WasmResourceLimitExceeded { dimension: "table".to_string() })
    );
    assert!(limiter.memory_growing(true));
    assert!(!limiter.memory_growing(false));
    assert_eq!(
        limiter.take_denial(),
        Some(WasmHostError::WasmResourceLimitExceeded { dimension: "memory".to_string() })
    );
}

#[test]
fn call_outcomes_are_classified() {
    let limits = WasmResourceLimits::default();
    let mut state = InstanceState::new(MapBroker::default(), limits);
    assert_eq!(state.classify_invoke(GuestCallOutcome::Replied(vec![1])), Ok(vec![1]));
    assert_eq!(
        state.classify_invoke(GuestCallOutcome::ReturnedError("bad".to_string())),
        Err(WasmHostError::GuestReturnedError { message: "bad".to_string() })
    );
    assert_eq!(
        state.classify_invoke(GuestCallOutcome::Failed {
            trap_out_of_fuel: false,
            message: "all fuel consumed by WebAssembly".to_string()
        }),
        Err(WasmHostError::WasmResourceLimitExceeded { dimension: "fuel".to_string() })
    );
    assert_eq!(
        state.classify_invoke(GuestCallOutcome::Failed {
            trap_out_of_fuel: false,
            message: "unreachable".to_string()
        }),
        Err(WasmHostError::WasmTrap { message: "unreachable".to_string() })
    );
    state.bridge.gate.record(WasmHostError::ExternalPayloadTooLarge { limit: 1, actual: 2 });
    assert_eq!(
        state.classify_invoke(GuestCallOutcome::Replied(vec![1])),
        Err(WasmHostError::ExternalPayloadTooLarge { limit: 1, actual: 2 })
    );
    assert_eq!(state.classify_invoke(GuestCallOutcome::Replied(vec![2])), Ok(vec![2]));
    state.limiter.memory_growing(false);
    assert_eq!(
        state.classify_setup_error(true, "x".to_string()),
        WasmHostError::WasmResourceLimitExceeded { dimension: "memory".to_string() }
    );
}

#[test]
fn setup_errors_are_classified() {
    let state = InstanceState::new(MapBroker::default(), WasmResourceLimits::default());
    assert_eq!(
        state.classify_setup_error(true, "x".to_string()),
        WasmHostError::WasmResourceLimitExceeded { dimension: "fuel".to_string() }
    );
    assert_eq!(
        state.classify_setup_error(false, "missing export".to_string()),
        WasmHostError::InstantiationFailed { reason: "missing export".to_string() }
    );
    assert!(is_out_of_fuel(true, ""));
    assert!(is_out_of_fuel(false, "wasm trap: all fuel consumed"));
    assert!(!is_out_of_fuel(false, "fuel"));
}

#[test]
fn a_recorded_denial_is_returned_once_and_cleared() {
    let mut state = InstanceState::new(MapBroker::default(), WasmResourceLimits::default());
    state.limiter.table_growing(false);
    state.limiter.memory_growing(false);
    assert_eq!(
        state.first_recorded_denial(),
        Some(WasmHostError::WasmResourceLimitExceeded { dimension: "memory".to_string() })
    );
    assert_eq!(state.first_recorded_denial(), None);
    state.limiter.memory_growing(false);
    assert_eq!(
        state.classify_invoke(GuestCallOutcome::Replied(vec![1])),
        Err(WasmHostError::WasmResourceLimitExceeded { dimension: "memory".to_string() })
    );
    assert_eq!(state.classify_invoke(GuestCallOutcome::Replied(vec![2])), Ok(vec![2]));
    let mut limiter = RecordingLimiter::new(&WasmResourceLimits::default());
    limiter.table_growing(false);
    assert_eq!(
        limiter.take_denial(),
        Some(WasmHostError::WasmResourceLimitExceeded { dimension: "table".to_string() })
    );
    assert_eq!(limiter.take_denial(), None);
}
