use oauth_capture::gpu::{
    adapter_needs_workaround, any_adapter_needs_workaround, GpuAdapterInfo, GpuDeviceType,
};
use oauth_capture::identity::SystemUser;
use oauth_capture::relay::{poller_step, relay_decision, ConfigEntry, ConfigMap, PollerStep};
use oauth_capture::slot::CompletionSlot;
use oauth_capture::text::{str_contains, str_ends_with, str_eq};

fn map(entries: &[(&str, &str)]) -> ConfigMap {
    ConfigMap {
        entries: entries
            .iter()
            .map(|(k, v)| ConfigEntry {
                key: k.to_string(),
                value: v.to_string(),
            })
            .collect(),
    }
}

#[test]
fn poller_delivers_preferred_key_and_stops_after_ack() {
    let storage = map(&[("localConfig_v2", "{\"a\":1}")]);
    let step = poller_step(&storage, false);
    match step {
        PollerStep::Deliver { message } => {
            assert_eq!(message.get("localConfig"), Some("{\"a\":1}".to_string()));
            let d = relay_decision(&message);
            assert_eq!(d.publish, Some("{\"a\":1}".to_string()));
            assert!(d.close_window);
            assert_eq!(d.reply, "data_received");
        }
        other => panic!("expected a delivery, got {:?}", other),
    }
    let after_ack = poller_step(&storage, true);
    assert!(matches!(after_ack, PollerStep::Stop));
}

#[test]
fn poller_falls_back_to_legacy_key() {
    let storage = map(&[("other", "x"), ("localConfig", "legacy-blob")]);
    let step = poller_step(&storage, false);
    match step {
        PollerStep::Deliver { message } => {
            assert_eq!(message.get("localConfig"), Some("legacy-blob".to_string()));
        }
        other => panic!("expected a delivery, got {:?}", other),
    }
}

#[test]
fn poller_prefers_v2_over_legacy() {
    let storage = map(&[("localConfig", "old"), ("localConfig_v2", "new")]);
    let step = poller_step(&storage, false);
    match step {
        PollerStep::Deliver { message } => {
            assert_eq!(message.get("localConfig"), Some("new".to_string()));
        }
        other => panic!("expected a delivery, got {:?}", other),
    }
}

#[test]
fn poller_keeps_polling_on_empty_storage() {
    let storage = map(&[("unrelated", "x")]);
    assert!(matches!(
        poller_step(&storage, false),
        PollerStep::KeepPolling
    ));
}

#[test]
fn relay_without_payload_does_nothing_but_still_replies() {
    let d = relay_decision(&map(&[("something", "x")]));
    assert_eq!(d.publish, None);
    assert!(!d.close_window);
    assert_eq!(d.reply, "data_received");
}

#[test]
fn config_map_first_match_wins() {
    let m = map(&[("k", "first"), ("k", "second")]);
    assert_eq!(m.get("k"), Some("first".to_string()));
    assert_eq!(m.get("absent"), None);
}

#[test]
fn completion_slot_is_take_once() {
    let mut slot = CompletionSlot::new();
    assert!(slot.is_armed());
    assert!(slot.take());
    assert!(!slot.is_armed());
    assert!(!slot.take());
    assert!(!slot.take());
}

#[test]
fn nvidia_rendering_adapters_need_the_workaround() {
    let nvidia = GpuAdapterInfo {
        device_type: GpuDeviceType::DiscreteGpu,
        name: "NVIDIA GeForce RTX 3060".to_string(),
    };
    let nvidia_cpu = GpuAdapterInfo {
        device_type: GpuDeviceType::Cpu,
        name: "NVIDIA something".to_string(),
    };
    let amd = GpuAdapterInfo {
        device_type: GpuDeviceType::IntegratedGpu,
        name: "AMD Radeon".to_string(),
    };
    assert!(adapter_needs_workaround(&nvidia));
    assert!(!adapter_needs_workaround(&nvidia_cpu));
    assert!(!adapter_needs_workaround(&amd));
    assert!(any_adapter_needs_workaround(&vec![amd, nvidia]));
    let none: Vec<GpuAdapterInfo> = vec![];
    assert!(!any_adapter_needs_workaround(&none));
}

#[test]
fn virtual_gpu_counts_as_rendering() {
    let virt = GpuAdapterInfo {
        device_type: GpuDeviceType::VirtualGpu,
        name: "NVIDIA GRID".to_string(),
    };
    assert!(adapter_needs_workaround(&virt));
}

#[test]
fn system_user_keeps_looked_up_values() {
    let u = SystemUser::from_lookup(1000, "alex".to_string(), 100);
    assert_eq!(u.uid, 1000);
    assert_eq!(u.name, "alex");
    assert_eq!(u.primary_group, 100);
}

#[test]
fn string_helpers_behave_like_std() {
    assert!(str_eq("abc", "abc"));
    assert!(!str_eq("abc", "abd"));
    assert!(!str_eq("abc", "ab"));
    assert!(str_ends_with("app.slack.com", "slack.com"));
    assert!(!str_ends_with("slack.com.evil", "slack.com"));
    assert!(str_ends_with("x", ""));
    assert!(!str_ends_with("", "x"));
    assert!(str_contains("NVIDIA GeForce", "NVIDIA"));
    assert!(str_contains("abNVIDIAcd", "NVIDIA"));
    assert!(!str_contains("nvidia", "NVIDIA"));
    assert!(str_contains("anything", ""));
}
