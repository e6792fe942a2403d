use batadv_prometheus::metric::{underscores_to_spaces, Kind, Metric, METRIC_COUNT};

#[test]
fn list_of_gauges_has_its_order() {
    assert_eq!(METRIC_COUNT, 36);
    for i in 0..METRIC_COUNT {
        let m = Metric::from_index(i).unwrap();
        assert_eq!(m.position(), i);
    }
    assert_eq!(Metric::from_index(METRIC_COUNT), None);
    assert_eq!(Metric::from_index(usize::MAX), None);
    assert_eq!(Metric::from_index(0), Some(Metric::TxPacketsTotal));
    assert_eq!(Metric::from_index(35), Some(Metric::OrigIntervalMs));
}

#[test]
fn gauges_come_in_three_kinds() {
    let mut counters = 0;
    let mut flags = 0;
    let mut numbers = 0;
    for i in 0..METRIC_COUNT {
        match Metric::from_index(i).unwrap().kind() {
            Kind::Counter => counters += 1,
            Kind::Flag => flags += 1,
            Kind::Number => numbers += 1,
        }
    }
    assert_eq!((counters, flags, numbers), (26, 7, 3));
    assert_eq!(Metric::HopPenalty.kind(), Kind::Number);
    assert_eq!(Metric::GwSelClass.kind(), Kind::Number);
    assert_eq!(Metric::OrigIntervalMs.kind(), Kind::Number);
    assert_eq!(Metric::McastModeEnabled.kind(), Kind::Flag);
}

#[test]
fn names_are_distinct() {
    for i in 0..METRIC_COUNT {
        for j in 0..i {
            let a = Metric::from_index(i).unwrap();
            let b = Metric::from_index(j).unwrap();
            assert_ne!(a.name(), b.name());
            assert_ne!(a.source(), b.source());
        }
    }
}

#[test]
fn names_and_sources() {
    assert_eq!(Metric::TxPacketsTotal.name(), "tx_packets_total");
    assert_eq!(Metric::TxPacketsTotal.source(), "tx");
    assert_eq!(Metric::TxBytesTotal.source(), "tx_bytes");
    assert_eq!(Metric::RxBytesTotal.name(), "rx_bytes_octal");
    assert_eq!(Metric::RxBytesTotal.source(), "rx_bytes");
    assert_eq!(Metric::ForwardPacketsTotal.source(), "forward");
    assert_eq!(Metric::DatCachedReplyTxPacketsTotal.source(), "dat_cached_reply_tx");
    assert_eq!(Metric::AggregationEnabled.source(), "aggregated_ogms");
    assert_eq!(Metric::McastModeEnabled.source(), "multicast_mode");
    assert_eq!(Metric::OrigIntervalMs.name(), "orig_interval_ms");
    assert_eq!(Metric::OrigIntervalMs.source(), "orig_interval");
}

#[test]
fn help_is_given_or_made_from_the_name() {
    assert_eq!(Metric::TxPacketsTotal.description(), "tx packets total");
    assert_eq!(Metric::GwSelClass.description(), "gw sel class");
    assert_eq!(
        Metric::HopPenalty.description(),
        "penalty to apply to path metric when routing via this node"
    );
    assert_eq!(
        Metric::FragmentationEnabled.description(),
        "whether packets can be fragmented when necessary"
    );
    for i in 0..METRIC_COUNT {
        assert!(!Metric::from_index(i).unwrap().description().is_empty());
    }
}

#[test]
fn underscores_become_spaces() {
    assert_eq!(underscores_to_spaces("a_b__c_"), "a b  c ");
    assert_eq!(underscores_to_spaces(""), "");
    assert_eq!(underscores_to_spaces("plain"), "plain");
}
