use srvstat::metrics::{percent_of_used, Category, Metric, Percentage};

#[test]
fn test_valid_percentage() {
    let valid_percentage = Percentage::new(85);
    assert_eq!(valid_percentage, Ok(Percentage(85)));
}

#[test]
fn test_invalid_percentage() {
    let invalid_percentage = Percentage::new(150);
    assert!(invalid_percentage.is_err());
    assert_eq!(
        invalid_percentage.unwrap_err().message(),
        "Percent value must be between 0 and 100"
    );
}

#[test]
fn test_percentage_round_trip_full_range() {
    for v in 0u8..=100u8 {
        let p = Percentage::new(v);
        assert_eq!(p, Ok(Percentage(v)));
        assert_eq!(p.unwrap().0, v);
    }
    for v in [101u8, 150u8, 255u8] {
        assert!(Percentage::new(v).is_err());
    }
}

fn host() -> String {
    "test".to_string()
}

#[test]
fn test_metric_percent_display() {
    let category = Category::Cpu;
    let percentage = Percentage::new(50).unwrap();
    let metric = Metric::Percent(host(), category, percentage);
    assert_eq!(metric.to_text(), "test-CPU: 50%");
}

#[test]
fn test_metric_used_display() {
    let category = Category::Memory;
    let metric = Metric::Used(host(), category, 4096, 8192);
    assert_eq!(metric.to_text(), "test-Memory: 4096/8192");
}

#[test]
fn test_metric_value_display() {
    let metric = Metric::Value {
        host: host(),
        category: Category::Temperature,
        component_label: "CPU Core 1".to_string(),
        value: "45.5".to_string(),
        unit: "°C".to_string(),
    };
    assert_eq!(metric.to_text(), "test - temperature - CPU Core 1: 45.5°C");
}

#[test]
fn test_category_display() {
    assert_eq!(Category::Cpu.to_text(), "CPU");
    assert_eq!(Category::Memory.to_text(), "Memory");
    assert_eq!(Category::Disk.to_text(), "Disk");
    assert_eq!(Category::Swap.to_text(), "Swap");
    assert_eq!(Category::Temperature.to_text(), "temperature");
}

#[test]
fn test_fan_speed_category_display() {
    assert_eq!(Category::FanSpeed.to_text(), "FanSpeed");
}

#[test]
fn test_percentage_ordering() {
    let p1 = Percentage::new(50).unwrap();
    let p2 = Percentage::new(75).unwrap();
    assert!(p1 < p2);
}

#[test]
fn test_percentage_equality() {
    let p1 = Percentage::new(50).unwrap();
    let p2 = Percentage::new(50).unwrap();
    assert_eq!(p1, p2);
}

#[test]
fn test_percent_of_used_values() {
    assert_eq!(percent_of_used(40, 100).0, 40);
    assert_eq!(percent_of_used(1, 3).0, 33);
    assert_eq!(percent_of_used(2, 3).0, 67);
    assert_eq!(percent_of_used(1, 2).0, 50);
    assert_eq!(percent_of_used(0, 0).0, 0);
    assert_eq!(percent_of_used(750, 0).0, 0);
    assert_eq!(percent_of_used(150, 100).0, 0);
    assert_eq!(percent_of_used(u64::MAX, u64::MAX).0, 100);
}
