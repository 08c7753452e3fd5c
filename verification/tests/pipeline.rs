use srvstat::metrics::{Category, ComponentReading, Metric, Percentage};
use srvstat::ports::{MetricProcessor, MetricReader, MetricWriter};
use srvstat::reader::{DummyMetricReader, FixedMetricReader};
use srvstat::service::{temperature_metrics, MetricService};
use srvstat::writer::{DummyMetricWriter, RecordingMetricWriter};

fn stub(host: &str) -> FixedMetricReader {
    FixedMetricReader {
        host: host.to_string(),
        percent: Percentage::new(40).unwrap(),
        used: 40,
        total: 100,
        components: Vec::new(),
    }
}

#[test]
fn test_process_disk_writes_percent_then_used() {
    let reader = stub("h");
    let writer = RecordingMetricWriter::new();
    let mut service = MetricService::new(reader, writer);
    service.process_metrics(Category::Disk);
    let writer = service.into_writer();
    let log = writer.log();
    assert_eq!(
        *log,
        vec![
            Metric::Percent("h".to_string(), Category::Disk, Percentage::new(40).unwrap()),
            Metric::Used("h".to_string(), Category::Disk, 40, 100),
        ]
    );
}

#[test]
fn test_process_cpu_writes_only_percent() {
    let reader = stub("h");
    let writer = RecordingMetricWriter::new();
    let mut service = MetricService::new(reader, writer);
    service.process_metrics(Category::Cpu);
    let writer = service.into_writer();
    assert_eq!(
        *writer.log(),
        vec![Metric::Percent("h".to_string(), Category::Cpu, Percentage::new(40).unwrap())]
    );
}

#[test]
fn test_process_fan_speed_writes_percent_then_used() {
    let reader = stub("h");
    let writer = RecordingMetricWriter::new();
    let mut service = MetricService::new(reader, writer);
    service.process_metrics(Category::FanSpeed);
    let writer = service.into_writer();
    let log = writer.log();
    assert_eq!(log.len(), 2);
    assert!(matches!(log[0], Metric::Percent(_, Category::FanSpeed, _)));
    assert!(matches!(log[1], Metric::Used(_, Category::FanSpeed, _, _)));
}

#[test]
fn test_process_temperature_metrics() {
    let mut reader = stub("test-host");
    reader.percent = Percentage::new(0).unwrap();
    reader.components = vec![
        ComponentReading { label: "CPU Core 1".to_string(), temperature: Some("45.5".to_string()) },
        ComponentReading { label: "Unreadable Probe".to_string(), temperature: None },
    ];
    let writer = RecordingMetricWriter::new();
    let mut service = MetricService::new(reader, writer);
    service.process_metrics(Category::Temperature);
    let writer = service.into_writer();
    let metrics = writer.log();
    println!("Found {} metrics in total after processing.", metrics.len());

    let temp_metrics: Vec<&Metric> =
        metrics.iter().filter(|m| matches!(m, Metric::Value { .. })).collect();
    println!("Found {} temperature (Metric::Value) metrics.", temp_metrics.len());
    assert_eq!(temp_metrics.len(), 1);

    for metric_value in temp_metrics {
        if let Metric::Value { host, category, component_label, value, unit } = metric_value {
            println!("Metric: {:?}", metric_value);
            assert_eq!(*category, Category::Temperature);
            assert_eq!(host, "test-host");
            assert_eq!(unit, "°C");
            assert!(!component_label.is_empty(), "Component label should not be empty");
            let numeric: f32 = value.parse().expect("Temperature value should parse");
            assert!(!numeric.is_nan(), "Temperature value should not be NaN");
            assert!(
                numeric > -100.0 && numeric < 200.0,
                "Temperature value seems implausible: {}",
                numeric
            );
        } else {
            panic!("Expected Metric::Value, got something else after filtering.");
        }
    }

    let percent_metrics: Vec<&Metric> =
        metrics.iter().filter(|m| matches!(m, Metric::Percent { .. })).collect();
    assert_eq!(percent_metrics.len(), 1, "Expected one Metric::Percent to always be written");
    if let Some(Metric::Percent(host, category, _)) = percent_metrics.first() {
        assert_eq!(host, "test-host");
        assert_eq!(*category, Category::Temperature);
    } else {
        panic!("Expected a Metric::Percent as the first metric written");
    }
}

#[test]
fn test_process_temperature_skips_unreadable_component() {
    let mut reader = stub("h");
    reader.components = vec![
        ComponentReading { label: "A".to_string(), temperature: Some("30".to_string()) },
        ComponentReading { label: "B".to_string(), temperature: None },
        ComponentReading { label: "C".to_string(), temperature: Some("31.5".to_string()) },
    ];
    let writer = RecordingMetricWriter::new();
    let mut service = MetricService::new(reader, writer);
    service.process_metrics(Category::Temperature);
    let writer = service.into_writer();
    let log = writer.log();
    assert_eq!(log.len(), 3);
    assert!(matches!(log[0], Metric::Percent(_, Category::Temperature, _)));
    assert_eq!(
        log[1],
        Metric::Value {
            host: "h".to_string(),
            category: Category::Temperature,
            component_label: "A".to_string(),
            value: "30".to_string(),
            unit: "°C".to_string(),
        }
    );
    assert_eq!(
        log[2],
        Metric::Value {
            host: "h".to_string(),
            category: Category::Temperature,
            component_label: "C".to_string(),
            value: "31.5".to_string(),
            unit: "°C".to_string(),
        }
    );
}

#[test]
fn test_temperature_metrics_builder() {
    let comps = vec![
        ComponentReading { label: "A".to_string(), temperature: Some("30".to_string()) },
        ComponentReading { label: "B".to_string(), temperature: None },
    ];
    let metrics = temperature_metrics(&"h".to_string(), &comps);
    assert_eq!(metrics.len(), 1);
    assert_eq!(
        metrics[0],
        Metric::Value {
            host: "h".to_string(),
            category: Category::Temperature,
            component_label: "A".to_string(),
            value: "30".to_string(),
            unit: "°C".to_string(),
        }
    );
}

fn create_dummy_config(cmd: Option<String>, file: Option<String>) -> srvstat::config::Config {
    srvstat::config::Config {
        broker_url: "dummy_url".to_string(),
        fan_speed_command: cmd,
        fan_speed_file: file,
    }
}

#[test]
fn test_fan_speed_no_config() {
    let config = create_dummy_config(None, None);
    let reader = srvstat::reader::SystemMetricReader::new(config);
    let metric = reader.get_used(&Category::FanSpeed);
    if let Metric::Used(_, Category::FanSpeed, val, total) = metric {
        assert_eq!(val, 0);
        assert_eq!(total, 0);
    } else {
        panic!("Expected Metric::Used for FanSpeed, got {:?}", metric);
    }
}

#[test]
fn test_fan_speed_from_file_non_existent() {
    let config = create_dummy_config(None, Some("/tmp/non_existent_fan_file_12345.txt".to_string()));
    let reader = srvstat::reader::SystemMetricReader::new(config);
    let metric = reader.get_used(&Category::FanSpeed);
    if let Metric::Used(_, Category::FanSpeed, val, total) = metric {
        assert_eq!(val, 0);
        assert_eq!(total, 0);
    } else {
        panic!("Expected Metric::Used for FanSpeed, got {:?}", metric);
    }
}

#[test]
fn test_fan_speed_percent_calculation() {
    let config = create_dummy_config(Some("echo 750".to_string()), None);
    let reader = srvstat::reader::SystemMetricReader::new(config);
    let metric = reader.get_percent(&Category::FanSpeed);
    if let Metric::Percent(_, Category::FanSpeed, percentage) = metric {
        assert_eq!(percentage.0, 0);
    } else {
        panic!("Expected Metric::Percent for FanSpeed, got {:?}", metric);
    }

    let config_no = create_dummy_config(None, None);
    let reader_no = srvstat::reader::SystemMetricReader::new(config_no);
    let metric_no = reader_no.get_percent(&Category::FanSpeed);
    if let Metric::Percent(_, Category::FanSpeed, percentage) = metric_no {
        assert_eq!(percentage.0, 0);
    } else {
        panic!("Expected Metric::Percent for FanSpeed, got {:?}", metric_no);
    }
}

#[test]
fn test_system_reader_shapes() {
    let config = srvstat::config::Config {
        broker_url: "dummy_url".to_string(),
        fan_speed_command: None,
        fan_speed_file: None,
    };
    let reader = srvstat::reader::SystemMetricReader::new(config);
    let host = reader.get_host();
    assert!(!host.is_empty());
    match reader.get_used(&Category::Memory) {
        Metric::Used(h, Category::Memory, _, _) => assert_eq!(h, host),
        other => panic!("Expected Metric::Used for Memory, got {:?}", other),
    }
    match reader.get_percent(&Category::Cpu) {
        Metric::Percent(_, Category::Cpu, p) => assert!(p.0 <= 100),
        other => panic!("Expected Metric::Percent for CPU, got {:?}", other),
    }
    match reader.get_used(&Category::FanSpeed) {
        Metric::Used(_, Category::FanSpeed, rpm, total) => {
            assert_eq!(rpm, 0);
            assert_eq!(total, 0);
        }
        other => panic!("Expected Metric::Used for FanSpeed, got {:?}", other),
    }
    let _ = reader.get_components();
}

#[test]
fn test_dummy_reader_values() {
    let reader = DummyMetricReader;
    assert_eq!(
        reader.get_percent(&Category::Disk),
        Metric::Percent("tux".to_string(), Category::Disk, Percentage::new(25).unwrap())
    );
    assert_eq!(
        reader.get_used(&Category::Disk),
        Metric::Used("tux".to_string(), Category::Disk, 25, 100)
    );
    assert_eq!(reader.get_host(), "tux");
    assert!(reader.get_components().is_empty());
}

#[test]
fn test_dummy_writer_accepts_metrics() {
    let mut writer = DummyMetricWriter::new();
    let metric = Metric::Percent("h".to_string(), Category::Cpu, Percentage::new(1).unwrap());
    assert!(writer.write(metric).is_ok());
}

#[test]
fn test_recording_writer_keeps_order() {
    let mut writer = RecordingMetricWriter::new();
    let m1 = Metric::Percent("h".to_string(), Category::Cpu, Percentage::new(1).unwrap());
    let m2 = Metric::Used("h".to_string(), Category::Memory, 1, 2);
    assert!(writer.write(m1.clone()).is_ok());
    assert!(writer.write(m2.clone()).is_ok());
    assert_eq!(*writer.log(), vec![m1, m2]);
}
