use std::collections::BTreeMap;

use cpu_hotplug::config::{CpuHotplugConfig, CpuHotplugStatus, CpuHotplugUpdate};
use cpu_hotplug::request::{
    parse_patch_cpu_hotplug, parse_put_cpu_hotplug, HotplugRequestMetrics, ParsedRequest,
    VmmAction,
};

fn metrics() -> HotplugRequestMetrics {
    HotplugRequestMetrics { hotplug_cpu_count: 0, hotplug_cpu_fails: 0 }
}

/// Reads the body of a `PATCH`.
fn read_update(body: &str) -> Result<CpuHotplugUpdate, String> {
    let fields: BTreeMap<String, u8> =
        serde_json::from_str(body).map_err(|e| e.to_string())?;
    let desired = fields.get("desired_vcpus").ok_or("missing field")?;
    Ok(CpuHotplugUpdate { desired_vcpus: *desired })
}

#[test]
fn test_parse_patch_cpu_hotplug_request() {
    let mut m = metrics();
    parse_patch_cpu_hotplug(&mut m, read_update("invalid_payload")).unwrap_err();

    let body = r#"{
            "desired_vcpus": "bar"
        }"#;
    parse_patch_cpu_hotplug(&mut m, read_update(body)).unwrap_err();

    let body = r#"{
            "desired_vcpus": 4
        }"#;
    let expected_config = CpuHotplugUpdate { desired_vcpus: 4 };
    assert_eq!(
        parse_patch_cpu_hotplug(&mut m, read_update(body)).unwrap(),
        ParsedRequest::Sync(VmmAction::HotplugVcpu(expected_config))
    );
    assert_eq!(m.hotplug_cpu_count, 1);
    assert_eq!(m.hotplug_cpu_fails, 2);
}

#[test]
fn put_asks_for_a_configuration() {
    let mut m = metrics();
    let config = CpuHotplugConfig { max_vcpus: 8 };
    let parsed = parse_put_cpu_hotplug::<String>(&mut m, Ok(config));
    assert_eq!(
        parsed,
        Ok(ParsedRequest::new_sync(VmmAction::SetCpuHotplugConfig(config)))
    );
    assert_eq!(m.hotplug_cpu_count, 1);
    assert_eq!(m.hotplug_cpu_fails, 0);
}

#[test]
fn a_failed_put_hands_the_error_on() {
    let mut m = metrics();
    let parsed = parse_put_cpu_hotplug(&mut m, Err("no number"));
    assert_eq!(parsed, Err("no number"));
    assert_eq!(m.hotplug_cpu_count, 0);
    assert_eq!(m.hotplug_cpu_fails, 1);
}

#[test]
fn counters_start_anew() {
    let mut m = HotplugRequestMetrics { hotplug_cpu_count: u64::MAX, hotplug_cpu_fails: u64::MAX };
    let update = CpuHotplugUpdate { desired_vcpus: 1 };
    parse_patch_cpu_hotplug::<()>(&mut m, Ok(update)).unwrap();
    assert_eq!(m.hotplug_cpu_count, 0);
    parse_patch_cpu_hotplug(&mut m, Err(())).unwrap_err();
    assert_eq!(m.hotplug_cpu_fails, 0);
}

#[test]
fn values_compare_by_their_fields() {
    let status = CpuHotplugStatus { boot_vcpus: 2, max_vcpus: 8, active_vcpus: 4 };
    assert_eq!(status, CpuHotplugStatus { boot_vcpus: 2, max_vcpus: 8, active_vcpus: 4 });
    assert_ne!(status, CpuHotplugStatus { boot_vcpus: 2, max_vcpus: 8, active_vcpus: 5 });
}
