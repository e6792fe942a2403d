use batadv_prometheus::device::{new_gauge, DeviceStatistics, Observation, UpdateError};
use batadv_prometheus::metric::{Kind, Metric, METRIC_COUNT};
use batadv_prometheus::registry::{accepted, registration_error, RegistrationError};
use prometheus::{Encoder, Registry, TextEncoder};

fn float(d: &DeviceStatistics, m: Metric) -> f64 {
    d.get(m).parse::<f64>().unwrap()
}

fn observed(report: Option<&str>, files: &[(Metric, &str)]) -> Observation {
    let mut o = Observation::new();
    if let Some(text) = report {
        o.set_report(text.to_string());
    }
    for (m, content) in files {
        o.set_file(*m, content.to_string());
    }
    o
}

fn made_with(gauge: &prometheus::Gauge) -> (String, String, Vec<(String, String)>) {
    let registry = Registry::new();
    registry.register(Box::new(gauge.clone())).unwrap();
    let families = registry.gather();
    assert_eq!(families.len(), 1);
    assert_eq!(families[0].get_metric().len(), 1);
    let labels = families[0].get_metric()[0]
        .get_label()
        .iter()
        .map(|l| (l.get_name().to_string(), l.get_value().to_string()))
        .collect();
    (families[0].get_name().to_string(), families[0].get_help().to_string(), labels)
}

fn render(registry: &Registry, devices: &[&DeviceStatistics]) -> String {
    for d in devices {
        for i in 0..METRIC_COUNT {
            let m = Metric::from_index(i).unwrap();
            d.gauge(m).inner.set(d.get(m).parse::<f64>().unwrap());
        }
    }
    let mut buffer = Vec::new();
    TextEncoder::new().encode(&registry.gather(), &mut buffer).unwrap();
    String::from_utf8(buffer).unwrap()
}

#[test]
fn new_statistics_read_zero() {
    let registry = Registry::new();
    let d = DeviceStatistics::new(&registry, "bat0").unwrap();
    assert_eq!(d.device(), "bat0");
    for i in 0..METRIC_COUNT {
        let m = Metric::from_index(i).unwrap();
        assert_eq!(d.get(m), "0");
        assert_eq!(d.gauge(m).inner.get(), 0.0);
    }
}

#[test]
fn statistics_over_gauges_at_hand() {
    let mut gauges = Vec::new();
    for i in 0..METRIC_COUNT {
        let m = Metric::from_index(i).unwrap();
        gauges.push(new_gauge(m, "bat0").unwrap());
    }
    let d = DeviceStatistics::with_gauges("bat0", gauges).unwrap();
    assert_eq!(d.device(), "bat0");
    assert_eq!(d.get(Metric::HopPenalty), "0");
    d.gauge(Metric::HopPenalty).inner.set(3.0);
    assert_eq!(d.gauge(Metric::HopPenalty).inner.get(), 3.0);
    assert_eq!(d.gauge(Metric::GwSelClass).inner.get(), 0.0);

    assert!(DeviceStatistics::with_gauges("bat0", Vec::new()).is_none());
    let one = vec![new_gauge(Metric::TxPacketsTotal, "bat0").unwrap()];
    assert!(DeviceStatistics::with_gauges("bat0", one).is_none());
}

#[test]
fn every_gauge_of_the_list_can_be_created() {
    for device in ["bat0", "", "mesh vpn", "b\u{e4}t\"0\n"] {
        for i in 0..METRIC_COUNT {
            let m = Metric::from_index(i).unwrap();
            assert!(new_gauge(m, device).is_ok());
        }
    }
}

#[test]
fn gauge_keeps_what_it_was_made_with() {
    for i in 0..METRIC_COUNT {
        let m = Metric::from_index(i).unwrap();
        let gauge = new_gauge(m, "bat7").unwrap();
        let (name, help, labels) = made_with(&gauge.inner);
        assert_eq!(name, m.name());
        assert_eq!(help, m.description());
        assert_eq!(labels, vec![("device".to_string(), "bat7".to_string())]);
    }
}

#[test]
fn registered_gauges_stand_in_the_order_of_the_list() {
    let registry = Registry::new();
    let gauges = DeviceStatistics::register_all(&registry, "bat0").unwrap();
    for i in 0..METRIC_COUNT {
        let m = Metric::from_index(i).unwrap();
        let (name, help, labels) = made_with(&gauges[i].inner);
        assert_eq!(name, m.name());
        assert_eq!(help, m.description());
        assert_eq!(labels, vec![("device".to_string(), "bat0".to_string())]);
    }
    let d = DeviceStatistics::new(&registry, "bat1").unwrap();
    for i in 0..METRIC_COUNT {
        let m = Metric::from_index(i).unwrap();
        let (name, help, labels) = made_with(&d.gauge(m).inner);
        assert_eq!(name, m.name());
        assert_eq!(help, m.description());
        assert_eq!(labels, vec![("device".to_string(), "bat1".to_string())]);
    }
}

#[test]
fn answer_of_the_registry_becomes_the_result() {
    assert_eq!(accepted(Ok(())), Ok(()));
    assert_eq!(
        accepted(Err(prometheus::Error::AlreadyReg)),
        Err(RegistrationError::AlreadyRegistered)
    );
    assert_eq!(
        accepted(Err(prometheus::Error::Msg("inconsistent help".to_string()))),
        Err(RegistrationError::Refused)
    );
    assert_eq!(registration_error(true), RegistrationError::AlreadyRegistered);
    assert_eq!(registration_error(false), RegistrationError::Refused);
}

#[test]
fn same_name_with_another_help_is_refused() {
    let registry = Registry::new();
    let other = prometheus::Gauge::with_opts(
        prometheus::Opts::new("tx_packets_total", "something else").const_label("device", "x"),
    )
    .unwrap();
    registry.register(Box::new(other)).unwrap();
    assert_eq!(
        DeviceStatistics::new(&registry, "bat0").err(),
        Some(RegistrationError::Refused)
    );
}

#[test]
fn register_all_gives_one_gauge_for_each_entry() {
    let registry = Registry::new();
    let gauges = DeviceStatistics::register_all(&registry, "bat0").unwrap();
    assert_eq!(gauges.len(), METRIC_COUNT);
    assert_eq!(registry.gather().len(), METRIC_COUNT);
    assert_eq!(
        DeviceStatistics::register_all(&registry, "bat0").err(),
        Some(RegistrationError::AlreadyRegistered)
    );
}

#[test]
fn gauges_are_registered_with_name_help_and_label() {
    let registry = Registry::new();
    let _d = DeviceStatistics::new(&registry, "bat0").unwrap();
    let families = registry.gather();
    assert_eq!(families.len(), METRIC_COUNT);
    for i in 0..METRIC_COUNT {
        let m = Metric::from_index(i).unwrap();
        let family = families.iter().find(|f| f.get_name() == m.name()).unwrap();
        assert_eq!(family.get_help(), m.description());
        let metrics = family.get_metric();
        assert_eq!(metrics.len(), 1);
        let labels = metrics[0].get_label();
        assert_eq!(labels.len(), 1);
        assert_eq!(labels[0].get_name(), "device");
        assert_eq!(labels[0].get_value(), "bat0");
    }
}

#[test]
fn same_interface_twice_is_refused() {
    let registry = Registry::new();
    let _first = DeviceStatistics::new(&registry, "bat0").unwrap();
    match DeviceStatistics::new(&registry, "bat0") {
        Err(e) => assert_eq!(e, RegistrationError::AlreadyRegistered),
        Ok(_) => panic!("registered twice"),
    }
}

#[test]
fn two_interfaces_share_a_registry() {
    let registry = Registry::new();
    let a = DeviceStatistics::new(&registry, "bat0");
    let b = DeviceStatistics::new(&registry, "bat1");
    assert!(a.is_ok() && b.is_ok());
    assert_eq!(registry.gather().len(), METRIC_COUNT);
    assert_eq!(registry.gather()[0].get_metric().len(), 2);
}

#[test]
fn report_sets_counters_and_missing_keys_read_zero() {
    let registry = Registry::new();
    let mut d = DeviceStatistics::new(&registry, "bat0").unwrap();
    let r = d.update(&observed(Some("tx: 10\ntx_bytes: 2048\n"), &[]));
    assert_eq!(r, Ok(()));
    assert_eq!(float(&d, Metric::TxPacketsTotal), 10.0);
    assert_eq!(float(&d, Metric::TxBytesTotal), 2048.0);
    assert_eq!(float(&d, Metric::ForwardPacketsTotal), 0.0);
    assert_eq!(float(&d, Metric::RxBytesTotal), 0.0);
    for i in 0..METRIC_COUNT {
        let m = Metric::from_index(i).unwrap();
        if m.kind() == Kind::Counter && m != Metric::TxPacketsTotal && m != Metric::TxBytesTotal {
            assert_eq!(float(&d, m), 0.0);
        }
    }
}

#[test]
fn every_counter_follows_its_key() {
    let registry = Registry::new();
    let mut d = DeviceStatistics::new(&registry, "bat0").unwrap();
    let mut report = String::new();
    for i in 0..METRIC_COUNT {
        let m = Metric::from_index(i).unwrap();
        if m.kind() == Kind::Counter {
            report.push_str(&format!("\t{}: {}\n", m.source(), 100 + i));
        }
    }
    assert_eq!(d.update_batctl_statistics(Some(&report)), Ok(()));
    for i in 0..METRIC_COUNT {
        let m = Metric::from_index(i).unwrap();
        if m.kind() == Kind::Counter {
            assert_eq!(float(&d, m), (100 + i) as f64);
        } else {
            assert_eq!(float(&d, m), 0.0);
        }
    }
}

#[test]
fn a_counter_that_vanishes_from_the_report_goes_back_to_zero() {
    let registry = Registry::new();
    let mut d = DeviceStatistics::new(&registry, "bat0").unwrap();
    d.update_batctl_statistics(Some("forward: 5\n")).unwrap();
    assert_eq!(float(&d, Metric::ForwardPacketsTotal), 5.0);
    d.update_batctl_statistics(Some("tx: 1\n")).unwrap();
    assert_eq!(float(&d, Metric::ForwardPacketsTotal), 0.0);
    assert_eq!(float(&d, Metric::TxPacketsTotal), 1.0);
}

#[test]
fn settings_follow_their_files() {
    let registry = Registry::new();
    let mut d = DeviceStatistics::new(&registry, "bat0").unwrap();
    let o = observed(
        None,
        &[
            (Metric::AggregationEnabled, "enabled\n"),
            (Metric::BondingEnabled, "disabled\n"),
            (Metric::McastModeEnabled, "enabled\n"),
            (Metric::HopPenalty, "3\n"),
            (Metric::OrigIntervalMs, "1000\n"),
            (Metric::TxPacketsTotal, "77\n"),
        ],
    );
    d.update_sysfs_statistics(&o);
    assert_eq!(float(&d, Metric::AggregationEnabled), 1.0);
    assert_eq!(float(&d, Metric::BondingEnabled), 0.0);
    assert_eq!(float(&d, Metric::ApIsolationEnabled), 0.0);
    assert_eq!(float(&d, Metric::McastModeEnabled), 1.0);
    assert_eq!(float(&d, Metric::HopPenalty), 3.0);
    assert_eq!(float(&d, Metric::OrigIntervalMs), 1000.0);
    assert!(float(&d, Metric::GwSelClass).is_nan());
    assert_eq!(float(&d, Metric::TxPacketsTotal), 0.0);
}

#[test]
fn without_a_report_counters_stay_and_settings_are_fresh() {
    let registry = Registry::new();
    let mut d = DeviceStatistics::new(&registry, "bat0").unwrap();
    let first = observed(
        Some("tx: 10\nrx: 4\n"),
        &[(Metric::HopPenalty, "3\n"), (Metric::BondingEnabled, "enabled\n")],
    );
    assert_eq!(d.update(&first), Ok(()));
    let second = observed(None, &[(Metric::HopPenalty, "5\n")]);
    assert_eq!(d.update(&second), Err(UpdateError::SourceUnavailable));
    assert_eq!(float(&d, Metric::TxPacketsTotal), 10.0);
    assert_eq!(float(&d, Metric::RxPacketsTotal), 4.0);
    assert_eq!(float(&d, Metric::HopPenalty), 5.0);
    assert_eq!(float(&d, Metric::BondingEnabled), 0.0);
    assert_eq!(d.update_batctl_statistics(None), Err(UpdateError::SourceUnavailable));
    assert_eq!(float(&d, Metric::TxPacketsTotal), 10.0);
}

#[test]
fn observation_keeps_what_was_recorded() {
    let mut o = Observation::new();
    assert_eq!(o.report_text(), None);
    assert_eq!(o.file_content(Metric::HopPenalty), None);
    o.set_file(Metric::HopPenalty, "3\n".to_string());
    o.set_file(Metric::GwSelClass, "20\n".to_string());
    o.set_report("tx: 1\n".to_string());
    o.set_file(Metric::HopPenalty, "4\n".to_string());
    assert_eq!(o.report_text(), Some("tx: 1\n"));
    assert_eq!(o.file_content(Metric::HopPenalty), Some("4\n"));
    assert_eq!(o.file_content(Metric::GwSelClass), Some("20\n"));
    assert_eq!(o.file_content(Metric::OrigIntervalMs), None);
}

#[test]
fn paths_of_the_settings() {
    let registry = Registry::new();
    let d = DeviceStatistics::new(&registry, "bat0").unwrap();
    assert_eq!(d.path(Metric::HopPenalty), "/sys/class/net/bat0/mesh/hop_penalty");
    assert_eq!(d.path(Metric::McastModeEnabled), "/sys/class/net/bat0/mesh/multicast_mode");
    assert_eq!(d.path(Metric::AggregationEnabled), "/sys/class/net/bat0/mesh/aggregated_ogms");
}

#[test]
fn missing_number_is_rendered_as_nan() {
    let registry = Registry::new();
    let mut d = DeviceStatistics::new(&registry, "bat0").unwrap();
    let o = observed(
        Some("tx: 10\ntx_bytes: 2048\n"),
        &[(Metric::OrigIntervalMs, "1000\n"), (Metric::BondingEnabled, "enabled\n")],
    );
    d.update(&o).unwrap();
    let text = render(&registry, &[&d]);
    assert!(text.contains("hop_penalty{device=\"bat0\"} NaN\n"));
    assert!(text.contains("orig_interval_ms{device=\"bat0\"} 1000\n"));
    assert!(text.contains("bonding_enabled{device=\"bat0\"} 1\n"));
    assert!(text.contains("tx_packets_total{device=\"bat0\"} 10\n"));
    assert!(text.contains("tx_bytes_total{device=\"bat0\"} 2048\n"));
    assert!(text.contains("forward_packets_total{device=\"bat0\"} 0\n"));
    assert!(text.contains("# HELP tx_packets_total tx packets total\n"));
    assert!(text.contains("# TYPE tx_packets_total gauge\n"));
}

#[test]
fn interfaces_do_not_touch_each_other() {
    let registry = Registry::new();
    let mut a = DeviceStatistics::new(&registry, "bat0").unwrap();
    let mut b = DeviceStatistics::new(&registry, "bat1").unwrap();
    a.update(&observed(Some("tx: 1\n"), &[])).unwrap();
    b.update(&observed(Some("tx: 2\n"), &[])).unwrap();
    a.update(&observed(Some("tx: 3\n"), &[])).unwrap();
    assert_eq!(float(&a, Metric::TxPacketsTotal), 3.0);
    assert_eq!(float(&b, Metric::TxPacketsTotal), 2.0);
    let text = render(&registry, &[&a, &b]);
    assert!(text.contains("tx_packets_total{device=\"bat0\"} 3\n"));
    assert!(text.contains("tx_packets_total{device=\"bat1\"} 2\n"));
}
