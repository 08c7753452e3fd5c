use srvstat::discovery::HomeAssistantDiscoveryConfig;
use srvstat::metrics::{Category, Metric, Percentage};

fn sample_config() -> HomeAssistantDiscoveryConfig {
    HomeAssistantDiscoveryConfig::new(
        "test-sensor".to_string(),
        "test-id".to_string(),
        "homeassistant/sensor/test-id/state".to_string(),
        "%".to_string(),
        "{{ value_json.value }}".to_string(),
        "measurement".to_string(),
        "mdi:cpu-64-bit".to_string(),
        300,
    )
}

#[test]
fn test_get_config_topic() {
    let config = sample_config();
    let config_topic = config.clone().get_config_topic();
    assert_eq!(config_topic, "homeassistant/sensor/test-id/config".to_string());
}

#[test]
fn test_get_state_topic() {
    let config = sample_config();
    let state_topic = config.clone().get_state_topic();
    assert_eq!(state_topic, "homeassistant/sensor/test-id/state".to_string());
}

#[test]
fn test_get_name() {
    let config = sample_config();
    let name = config.clone().get_name();
    assert_eq!(name, "test-sensor".to_string());
}

#[test]
fn test_config_topic_leaves_state_topic_unchanged() {
    let config = sample_config();
    let _ = config.clone().get_config_topic();
    assert_eq!(config.get_state_topic(), "homeassistant/sensor/test-id/state");
}

#[test]
fn test_config_topic_replaces_every_occurrence() {
    let config = HomeAssistantDiscoveryConfig::new(
        "n".to_string(),
        "i".to_string(),
        "a/stateb/state".to_string(),
        "%".to_string(),
        "{{ value_json.value }}".to_string(),
        "measurement".to_string(),
        "mdi:fan".to_string(),
        300,
    );
    let expected = "a/stateb/state".replace("/state", "/config");
    assert_eq!(config.get_config_topic(), expected);
}

#[test]
fn test_metric_to_config_conversion_cpu() {
    let host = "test-host".to_string();
    let metric = Metric::Percent(host.clone(), Category::Cpu, Percentage::new(50).unwrap());
    let config = HomeAssistantDiscoveryConfig::derive(&metric).unwrap();

    assert_eq!(config.clone().get_name(), "test-host-cpu");
    assert_eq!(config.get_unique_id(), "test-hostcpuusepercent");
    assert_eq!(
        config.clone().get_state_topic(),
        "homeassistant/sensor/test-hostcpuusepercent/state"
    );
    assert_eq!(config.get_unit_of_measurement(), "%");
    assert_eq!(config.get_icon(), "mdi:cpu-64-bit");
}

#[test]
fn test_metric_to_config_conversion_memory() {
    let host = "test-host".to_string();
    let metric = Metric::Percent(host.clone(), Category::Memory, Percentage::new(50).unwrap());
    let config = HomeAssistantDiscoveryConfig::derive(&metric).unwrap();

    assert_eq!(config.clone().get_name(), "test-host-memory");
    assert_eq!(config.get_unique_id(), "test-hostmemoryusepercent");
    assert_eq!(
        config.clone().get_state_topic(),
        "homeassistant/sensor/test-hostmemoryusepercent/state"
    );
    assert_eq!(config.get_unit_of_measurement(), "%");
    assert_eq!(config.get_icon(), "mdi:memory");
}

#[test]
fn test_metric_to_config_conversion_disk() {
    let host = "test-host".to_string();
    let metric = Metric::Percent(host.clone(), Category::Disk, Percentage::new(50).unwrap());
    let config = HomeAssistantDiscoveryConfig::derive(&metric).unwrap();

    assert_eq!(config.clone().get_name(), "test-host-disk");
    assert_eq!(config.get_unique_id(), "test-hostdiskusepercent");
    assert_eq!(
        config.clone().get_state_topic(),
        "homeassistant/sensor/test-hostdiskusepercent/state"
    );
    assert_eq!(config.get_unit_of_measurement(), "%");
    assert_eq!(config.get_icon(), "mdi:harddisk");
}

#[test]
fn test_metric_to_config_conversion_swap() {
    let host = "test-host".to_string();
    let metric = Metric::Percent(host.clone(), Category::Swap, Percentage::new(75).unwrap());
    let config = HomeAssistantDiscoveryConfig::derive(&metric).unwrap();

    assert_eq!(config.clone().get_name(), "test-host-swap");
    assert_eq!(config.get_unique_id(), "test-hostswapusepercent");
    assert_eq!(
        config.clone().get_state_topic(),
        "homeassistant/sensor/test-hostswapusepercent/state"
    );
    assert_eq!(config.get_unit_of_measurement(), "%");
    assert_eq!(config.get_icon(), "mdi:swap-horizontal");
}

#[test]
fn test_metric_to_config_conversion_fanspeed() {
    let host = "test-host".to_string();
    let metric = Metric::Percent(host.clone(), Category::FanSpeed, Percentage::new(0).unwrap());
    let config = HomeAssistantDiscoveryConfig::derive(&metric).unwrap();

    assert_eq!(config.clone().get_name(), "test-host-fanspeed_percent");
    assert_eq!(config.get_unique_id(), "test-hostfanspeedpercent");
    assert_eq!(config.get_unit_of_measurement(), "%");
    assert_eq!(config.get_icon(), "mdi:fan");
}

#[test]
fn test_metric_used_to_config_conversion_disk() {
    let host = "test-host".to_string();
    let metric = Metric::Used(host.clone(), Category::Disk, 500_000_000_000, 1_000_000_000_000);
    let config = HomeAssistantDiscoveryConfig::derive(&metric).unwrap();

    assert_eq!(config.clone().get_name(), "test-host-disk_used");
    assert_eq!(config.get_unique_id(), "test-hostdiskused");
    assert_eq!(
        config.clone().get_state_topic(),
        "homeassistant/sensor/test-hostdiskused/state"
    );
    assert_eq!(config.get_unit_of_measurement(), "GB");
    assert_eq!(config.get_icon(), "mdi:harddisk");
}

#[test]
fn test_metric_used_to_config_conversion_memory() {
    let host = "test-host".to_string();
    let metric = Metric::Used(host.clone(), Category::Memory, 4096, 8192);
    let config = HomeAssistantDiscoveryConfig::derive(&metric).unwrap();

    assert_eq!(config.clone().get_name(), "test-host-memory_used");
    assert_eq!(config.get_unique_id(), "test-hostmemoryused");
    assert_eq!(
        config.clone().get_state_topic(),
        "homeassistant/sensor/test-hostmemoryused/state"
    );
    assert_eq!(config.get_unit_of_measurement(), "MB");
    assert_eq!(config.get_icon(), "mdi:memory");
}

#[test]
fn test_metric_used_to_config_conversion_swap() {
    let host = "test-host".to_string();
    let metric = Metric::Used(host.clone(), Category::Swap, 1024, 2048);
    let config = HomeAssistantDiscoveryConfig::derive(&metric).unwrap();

    assert_eq!(config.clone().get_name(), "test-host-swap_used");
    assert_eq!(config.get_unique_id(), "test-hostswapused");
    assert_eq!(
        config.clone().get_state_topic(),
        "homeassistant/sensor/test-hostswapused/state"
    );
    assert_eq!(config.get_unit_of_measurement(), "MB");
    assert_eq!(config.get_icon(), "mdi:swap-horizontal");
}

#[test]
fn test_derive_percent_disk_topics() {
    let metric = Metric::Percent("h".to_string(), Category::Disk, Percentage::new(40).unwrap());
    let config = HomeAssistantDiscoveryConfig::derive(&metric).unwrap();
    assert_eq!(config.get_unique_id(), "hdiskusepercent");
    assert_eq!(
        config.clone().get_state_topic(),
        "homeassistant/sensor/hdiskusepercent/state"
    );
    assert_eq!(config.get_unit_of_measurement(), "%");
    assert_eq!(config.get_icon(), "mdi:harddisk");
}

#[test]
fn test_derive_used_memory_unique_id_and_unit() {
    let metric = Metric::Used("h".to_string(), Category::Memory, 4096, 8192);
    let config = HomeAssistantDiscoveryConfig::derive(&metric).unwrap();
    assert_eq!(config.get_unique_id(), "hmemoryused");
    assert_eq!(config.get_unit_of_measurement(), "MB");
}

#[test]
fn test_derive_value_unique_id_normalized() {
    let metric = Metric::Value {
        host: "h".to_string(),
        category: Category::Temperature,
        component_label: "CPU Core 1".to_string(),
        value: "45".to_string(),
        unit: "°C".to_string(),
    };
    let config = HomeAssistantDiscoveryConfig::derive(&metric).unwrap();
    assert_eq!(config.clone().get_name(), "h-temperature-CPU Core 1");
    let unique_id = config.get_unique_id();
    assert!(unique_id
        .chars()
        .all(|c| c.is_ascii_lowercase() || c.is_ascii_digit() || c == '_'));
    assert!(!unique_id.contains(' '));
    assert!(unique_id.ends_with("temp"));
    assert_eq!(unique_id, "htemperaturecpu_core_1temp");
    assert_eq!(config.get_unit_of_measurement(), "°C");
    assert_eq!(config.get_icon(), "mdi:thermometer");
}

#[test]
fn test_derive_used_cpu_fails() {
    let metric = Metric::Used("h".to_string(), Category::Cpu, 1, 2);
    assert!(HomeAssistantDiscoveryConfig::derive(&metric).is_err());
}

#[test]
fn test_derive_unsupported_combinations_fail() {
    let used_fan = Metric::Used("h".to_string(), Category::FanSpeed, 750, 0);
    assert!(HomeAssistantDiscoveryConfig::derive(&used_fan).is_err());
    let used_temp = Metric::Used("h".to_string(), Category::Temperature, 1, 2);
    assert!(HomeAssistantDiscoveryConfig::derive(&used_temp).is_err());
    let percent_temp =
        Metric::Percent("h".to_string(), Category::Temperature, Percentage::new(10).unwrap());
    assert!(HomeAssistantDiscoveryConfig::derive(&percent_temp).is_err());
    let value_disk = Metric::Value {
        host: "h".to_string(),
        category: Category::Disk,
        component_label: "sda".to_string(),
        value: "1".to_string(),
        unit: "GB".to_string(),
    };
    assert!(HomeAssistantDiscoveryConfig::derive(&value_disk).is_err());
}

#[test]
fn test_derive_is_deterministic() {
    let metric = Metric::Percent("Host-A".to_string(), Category::Disk, Percentage::new(3).unwrap());
    let c1 = HomeAssistantDiscoveryConfig::derive(&metric).unwrap();
    let c2 = HomeAssistantDiscoveryConfig::derive(&metric).unwrap();
    assert_eq!(srvstat::writer::discovery_payload(&c1), srvstat::writer::discovery_payload(&c2));
    assert_eq!(c1.get_unique_id(), c2.get_unique_id());
    assert_eq!(c1.clone().get_name(), c2.clone().get_name());
    assert_eq!(c1.get_state_topic(), c2.get_state_topic());
}
