//! The gauges kept for each interface: their exported names, their help
//! texts, and where each value comes from.

use crate::registry::valid_metric_name;
use crate::text::{to_chars, to_text};
use vstd::prelude::*;
use vstd::string::StringExecFns;

verus! {

/// How many gauges an interface has.
pub const METRIC_COUNT: usize = 36;

/// Where a gauge's value comes from, and how it is read.
#[derive(Clone, Copy, Debug, PartialEq, Eq, Structural)]
pub enum Kind {
    /// A counter of the report; a counter that the report lacks reads as 0.
    Counter,
    /// A settings file that holds `enabled` or something else; reads as 1
    /// or 0.
    Flag,
    /// A settings file that holds a number; reads as that number, or as
    /// not-a-number.
    Number,
}

/// One gauge of an interface.
#[derive(Clone, Copy, Debug, PartialEq, Eq, Structural)]
pub enum Metric {
    /// Packets sent.
    TxPacketsTotal,
    /// Bytes sent.
    TxBytesTotal,
    /// Packets dropped on the way out.
    TxDroppedPacketsTotal,
    /// Packets received.
    RxPacketsTotal,
    /// Bytes received. Exported as `rx_bytes_octal`, the name under which
    /// scrapers of this exporter know the series.
    RxBytesTotal,
    /// Packets forwarded.
    ForwardPacketsTotal,
    /// Bytes forwarded.
    ForwardBytesTotal,
    /// Management frames sent.
    MgmtTxPacketsTotal,
    /// Bytes of management frames sent.
    MgmtTxBytesTotal,
    /// Management frames received.
    MgmtRxPacketsTotal,
    /// Bytes of management frames received.
    MgmtRxBytesTotal,
    /// Fragments sent.
    FragTxPacketsTotal,
    /// Bytes of fragments sent.
    FragTxBytesTotal,
    /// Fragments received.
    FragRxPacketsTotal,
    /// Bytes of fragments received.
    FragRxBytesTotal,
    /// Fragments forwarded.
    FragFwdPacketsTotal,
    /// Translation-table requests sent.
    TtRequestTxPacketsTotal,
    /// Translation-table requests received.
    TtRequestRxPacketsTotal,
    /// Translation-table responses received.
    TtResponseRxPacketsTotal,
    /// Roaming advertisements sent.
    TtRoamAdvTxPacketsTotal,
    /// Roaming advertisements received.
    TtRoamAdvRxPacketsTotal,
    /// Lookups in the distributed ARP table sent.
    DatGetTxPacketsTotal,
    /// Lookups in the distributed ARP table received.
    DatGetRxPacketsTotal,
    /// Stores to the distributed ARP table sent.
    DatPutTxPacketsTotal,
    /// Stores to the distributed ARP table received.
    DatPutRxPacketsTotal,
    /// ARP replies answered from the distributed table.
    DatCachedReplyTxPacketsTotal,
    /// Aggregation of originator messages.
    AggregationEnabled,
    /// Isolation of access-point clients.
    ApIsolationEnabled,
    /// Bonding over several links.
    BondingEnabled,
    /// Bridge loop avoidance.
    BridgeLoopAvoidanceEnabled,
    /// The distributed ARP table.
    DistributedArpTableEnabled,
    /// Fragmentation of large packets.
    FragmentationEnabled,
    /// The gateway selection class.
    GwSelClass,
    /// The hop penalty.
    HopPenalty,
    /// Multicast optimisation.
    McastModeEnabled,
    /// The originator interval, in milliseconds.
    OrigIntervalMs,
}

/// `s` with a space in place of each underscore.
pub open spec fn spaced(s: Seq<char>) -> Seq<char> {
    Seq::new(
        s.len(),
        |i: int|
            if s[i] == '_' {
                ' '
            } else {
                s[i]
            },
    )
}

/// A copy of `s` with a space in place of each underscore.
pub fn underscores_to_spaces(s: &str) -> (r: String)
    ensures
        r@ == spaced(s@),
{
    let chars = to_chars(s);
    let n: usize = chars.len();
    let mut out: Vec<char> = Vec::new();
    let mut i: usize = 0;
    while i < n
        invariant
            chars@ == s@,
            n == chars@.len(),
            i <= n,
            out@ == spaced(s@).take(i as int),
        decreases n - i,
    {
        let c: char = chars[i];
        out.push(
            if c == '_' {
                ' '
            } else {
                c
            },
        );
        assert(out@ =~= spaced(s@).take(i + 1));
        i = i + 1;
    }
    assert(out@ =~= spaced(s@));
    to_text(out.as_slice())
}

impl Metric {
    /// The place of the gauge in the order in which gauges are listed.
    pub open spec fn index(self) -> int {
        match self {
            Metric::TxPacketsTotal => 0,
            Metric::TxBytesTotal => 1,
            Metric::TxDroppedPacketsTotal => 2,
            Metric::RxPacketsTotal => 3,
            Metric::RxBytesTotal => 4,
            Metric::ForwardPacketsTotal => 5,
            Metric::ForwardBytesTotal => 6,
            Metric::MgmtTxPacketsTotal => 7,
            Metric::MgmtTxBytesTotal => 8,
            Metric::MgmtRxPacketsTotal => 9,
            Metric::MgmtRxBytesTotal => 10,
            Metric::FragTxPacketsTotal => 11,
            Metric::FragTxBytesTotal => 12,
            Metric::FragRxPacketsTotal => 13,
            Metric::FragRxBytesTotal => 14,
            Metric::FragFwdPacketsTotal => 15,
            Metric::TtRequestTxPacketsTotal => 16,
            Metric::TtRequestRxPacketsTotal => 17,
            Metric::TtResponseRxPacketsTotal => 18,
            Metric::TtRoamAdvTxPacketsTotal => 19,
            Metric::TtRoamAdvRxPacketsTotal => 20,
            Metric::DatGetTxPacketsTotal => 21,
            Metric::DatGetRxPacketsTotal => 22,
            Metric::DatPutTxPacketsTotal => 23,
            Metric::DatPutRxPacketsTotal => 24,
            Metric::DatCachedReplyTxPacketsTotal => 25,
            Metric::AggregationEnabled => 26,
            Metric::ApIsolationEnabled => 27,
            Metric::BondingEnabled => 28,
            Metric::BridgeLoopAvoidanceEnabled => 29,
            Metric::DistributedArpTableEnabled => 30,
            Metric::FragmentationEnabled => 31,
            Metric::GwSelClass => 32,
            Metric::HopPenalty => 33,
            Metric::McastModeEnabled => 34,
            Metric::OrigIntervalMs => 35,
        }
    }

    /// The name under which the gauge is exported.
    pub open spec fn name_of(self) -> Seq<char> {
        match self {
            Metric::TxPacketsTotal => "tx_packets_total"@,
            Metric::TxBytesTotal => "tx_bytes_total"@,
            Metric::TxDroppedPacketsTotal => "tx_dropped_packets_total"@,
            Metric::RxPacketsTotal => "rx_packets_total"@,
            Metric::RxBytesTotal => "rx_bytes_octal"@,
            Metric::ForwardPacketsTotal => "forward_packets_total"@,
            Metric::ForwardBytesTotal => "forward_bytes_total"@,
            Metric::MgmtTxPacketsTotal => "mgmt_tx_packets_total"@,
            Metric::MgmtTxBytesTotal => "mgmt_tx_bytes_total"@,
            Metric::MgmtRxPacketsTotal => "mgmt_rx_packets_total"@,
            Metric::MgmtRxBytesTotal => "mgmt_rx_bytes_total"@,
            Metric::FragTxPacketsTotal => "frag_tx_packets_total"@,
            Metric::FragTxBytesTotal => "frag_tx_bytes_total"@,
            Metric::FragRxPacketsTotal => "frag_rx_packets_total"@,
            Metric::FragRxBytesTotal => "frag_rx_bytes_total"@,
            Metric::FragFwdPacketsTotal => "frag_fwd_packets_total"@,
            Metric::TtRequestTxPacketsTotal => "tt_request_tx_packets_total"@,
            Metric::TtRequestRxPacketsTotal => "tt_request_rx_packets_total"@,
            Metric::TtResponseRxPacketsTotal => "tt_response_rx_packets_total"@,
            Metric::TtRoamAdvTxPacketsTotal => "tt_roam_adv_tx_packets_total"@,
            Metric::TtRoamAdvRxPacketsTotal => "tt_roam_adv_rx_packets_total"@,
            Metric::DatGetTxPacketsTotal => "dat_get_tx_packets_total"@,
            Metric::DatGetRxPacketsTotal => "dat_get_rx_packets_total"@,
            Metric::DatPutTxPacketsTotal => "dat_put_tx_packets_total"@,
            Metric::DatPutRxPacketsTotal => "dat_put_rx_packets_total"@,
            Metric::DatCachedReplyTxPacketsTotal => "dat_cached_reply_tx_packets_total"@,
            Metric::AggregationEnabled => "aggregation_enabled"@,
            Metric::ApIsolationEnabled => "ap_isolation_enabled"@,
            Metric::BondingEnabled => "bonding_enabled"@,
            Metric::BridgeLoopAvoidanceEnabled => "bridge_loop_avoidance_enabled"@,
            Metric::DistributedArpTableEnabled => "distributed_arp_table_enabled"@,
            Metric::FragmentationEnabled => "fragmentation_enabled"@,
            Metric::GwSelClass => "gw_sel_class"@,
            Metric::HopPenalty => "hop_penalty"@,
            Metric::McastModeEnabled => "mcast_mode_enabled"@,
            Metric::OrigIntervalMs => "orig_interval_ms"@,
        }
    }

    /// The gauge's source: a key of the report, or the name of a settings
    /// file.
    pub open spec fn source_of(self) -> Seq<char> {
        match self {
            Metric::TxPacketsTotal => "tx"@,
            Metric::TxBytesTotal => "tx_bytes"@,
            Metric::TxDroppedPacketsTotal => "tx_dropped"@,
            Metric::RxPacketsTotal => "rx"@,
            Metric::RxBytesTotal => "rx_bytes"@,
            Metric::ForwardPacketsTotal => "forward"@,
            Metric::ForwardBytesTotal => "forward_bytes"@,
            Metric::MgmtTxPacketsTotal => "mgmt_tx"@,
            Metric::MgmtTxBytesTotal => "mgmt_tx_bytes"@,
            Metric::MgmtRxPacketsTotal => "mgmt_rx"@,
            Metric::MgmtRxBytesTotal => "mgmt_rx_bytes"@,
            Metric::FragTxPacketsTotal => "frag_tx"@,
            Metric::FragTxBytesTotal => "frag_tx_bytes"@,
            Metric::FragRxPacketsTotal => "frag_rx"@,
            Metric::FragRxBytesTotal => "frag_rx_bytes"@,
            Metric::FragFwdPacketsTotal => "frag_fwd"@,
            Metric::TtRequestTxPacketsTotal => "tt_request_tx"@,
            Metric::TtRequestRxPacketsTotal => "tt_request_rx"@,
            Metric::TtResponseRxPacketsTotal => "tt_response_rx"@,
            Metric::TtRoamAdvTxPacketsTotal => "tt_roam_adv_tx"@,
            Metric::TtRoamAdvRxPacketsTotal => "tt_roam_adv_rx"@,
            Metric::DatGetTxPacketsTotal => "dat_get_tx"@,
            Metric::DatGetRxPacketsTotal => "dat_get_rx"@,
            Metric::DatPutTxPacketsTotal => "dat_put_tx"@,
            Metric::DatPutRxPacketsTotal => "dat_put_rx"@,
            Metric::DatCachedReplyTxPacketsTotal => "dat_cached_reply_tx"@,
            Metric::AggregationEnabled => "aggregated_ogms"@,
            Metric::ApIsolationEnabled => "ap_isolation"@,
            Metric::BondingEnabled => "bonding"@,
            Metric::BridgeLoopAvoidanceEnabled => "bridge_loop_avoidance"@,
            Metric::DistributedArpTableEnabled => "distributed_arp_table"@,
            Metric::FragmentationEnabled => "fragmentation"@,
            Metric::GwSelClass => "gw_sel_class"@,
            Metric::HopPenalty => "hop_penalty"@,
            Metric::McastModeEnabled => "multicast_mode"@,
            Metric::OrigIntervalMs => "orig_interval"@,
        }
    }

    /// How the gauge is read.
    pub open spec fn kind_of(self) -> Kind {
        match self {
            Metric::TxPacketsTotal => Kind::Counter,
            Metric::TxBytesTotal => Kind::Counter,
            Metric::TxDroppedPacketsTotal => Kind::Counter,
            Metric::RxPacketsTotal => Kind::Counter,
            Metric::RxBytesTotal => Kind::Counter,
            Metric::ForwardPacketsTotal => Kind::Counter,
            Metric::ForwardBytesTotal => Kind::Counter,
            Metric::MgmtTxPacketsTotal => Kind::Counter,
            Metric::MgmtTxBytesTotal => Kind::Counter,
            Metric::MgmtRxPacketsTotal => Kind::Counter,
            Metric::MgmtRxBytesTotal => Kind::Counter,
            Metric::FragTxPacketsTotal => Kind::Counter,
            Metric::FragTxBytesTotal => Kind::Counter,
            Metric::FragRxPacketsTotal => Kind::Counter,
            Metric::FragRxBytesTotal => Kind::Counter,
            Metric::FragFwdPacketsTotal => Kind::Counter,
            Metric::TtRequestTxPacketsTotal => Kind::Counter,
            Metric::TtRequestRxPacketsTotal => Kind::Counter,
            Metric::TtResponseRxPacketsTotal => Kind::Counter,
            Metric::TtRoamAdvTxPacketsTotal => Kind::Counter,
            Metric::TtRoamAdvRxPacketsTotal => Kind::Counter,
            Metric::DatGetTxPacketsTotal => Kind::Counter,
            Metric::DatGetRxPacketsTotal => Kind::Counter,
            Metric::DatPutTxPacketsTotal => Kind::Counter,
            Metric::DatPutRxPacketsTotal => Kind::Counter,
            Metric::DatCachedReplyTxPacketsTotal => Kind::Counter,
            Metric::AggregationEnabled => Kind::Flag,
            Metric::ApIsolationEnabled => Kind::Flag,
            Metric::BondingEnabled => Kind::Flag,
            Metric::BridgeLoopAvoidanceEnabled => Kind::Flag,
            Metric::DistributedArpTableEnabled => Kind::Flag,
            Metric::FragmentationEnabled => Kind::Flag,
            Metric::GwSelClass => Kind::Number,
            Metric::HopPenalty => Kind::Number,
            Metric::McastModeEnabled => Kind::Flag,
            Metric::OrigIntervalMs => Kind::Number,
        }
    }

    /// The help text of the gauge. A gauge without a text of its own is
    /// described by its name, with spaces for underscores.
    pub open spec fn help_of(self) -> Seq<char> {
        match self {
            Metric::AggregationEnabled => "whether protocol messages can be aggregated into forwarded packets"@,
            Metric::ApIsolationEnabled => "whether clients at the access point are isolated"@,
            Metric::BondingEnabled => "whether packets can be distributed in a round-robin fashion accross multiple links with similary quality"@,
            Metric::BridgeLoopAvoidanceEnabled => "whether the bridge loop avoidance is enabled"@,
            Metric::DistributedArpTableEnabled => "whether the distributed arp table is enabled"@,
            Metric::FragmentationEnabled => "whether packets can be fragmented when necessary"@,
            Metric::HopPenalty => "penalty to apply to path metric when routing via this node"@,
            Metric::McastModeEnabled => "whether multicast optimzations are enabled"@,
            _ => spaced(self.name_of()),
        }
    }

    /// The place of the gauge in the order in which gauges are listed.
    pub fn position(self) -> (r: usize)
        ensures
            r == self.index(),
            r < METRIC_COUNT,
    {
        match self {
            Metric::TxPacketsTotal => 0,
            Metric::TxBytesTotal => 1,
            Metric::TxDroppedPacketsTotal => 2,
            Metric::RxPacketsTotal => 3,
            Metric::RxBytesTotal => 4,
            Metric::ForwardPacketsTotal => 5,
            Metric::ForwardBytesTotal => 6,
            Metric::MgmtTxPacketsTotal => 7,
            Metric::MgmtTxBytesTotal => 8,
            Metric::MgmtRxPacketsTotal => 9,
            Metric::MgmtRxBytesTotal => 10,
            Metric::FragTxPacketsTotal => 11,
            Metric::FragTxBytesTotal => 12,
            Metric::FragRxPacketsTotal => 13,
            Metric::FragRxBytesTotal => 14,
            Metric::FragFwdPacketsTotal => 15,
            Metric::TtRequestTxPacketsTotal => 16,
            Metric::TtRequestRxPacketsTotal => 17,
            Metric::TtResponseRxPacketsTotal => 18,
            Metric::TtRoamAdvTxPacketsTotal => 19,
            Metric::TtRoamAdvRxPacketsTotal => 20,
            Metric::DatGetTxPacketsTotal => 21,
            Metric::DatGetRxPacketsTotal => 22,
            Metric::DatPutTxPacketsTotal => 23,
            Metric::DatPutRxPacketsTotal => 24,
            Metric::DatCachedReplyTxPacketsTotal => 25,
            Metric::AggregationEnabled => 26,
            Metric::ApIsolationEnabled => 27,
            Metric::BondingEnabled => 28,
            Metric::BridgeLoopAvoidanceEnabled => 29,
            Metric::DistributedArpTableEnabled => 30,
            Metric::FragmentationEnabled => 31,
            Metric::GwSelClass => 32,
            Metric::HopPenalty => 33,
            Metric::McastModeEnabled => 34,
            Metric::OrigIntervalMs => 35,
        }
    }

    /// The name under which the gauge is exported.
    pub fn name(self) -> (r: &'static str)
        ensures
            r@ == self.name_of(),
    {
        match self {
            Metric::TxPacketsTotal => "tx_packets_total",
            Metric::TxBytesTotal => "tx_bytes_total",
            Metric::TxDroppedPacketsTotal => "tx_dropped_packets_total",
            Metric::RxPacketsTotal => "rx_packets_total",
            Metric::RxBytesTotal => "rx_bytes_octal",
            Metric::ForwardPacketsTotal => "forward_packets_total",
            Metric::ForwardBytesTotal => "forward_bytes_total",
            Metric::MgmtTxPacketsTotal => "mgmt_tx_packets_total",
            Metric::MgmtTxBytesTotal => "mgmt_tx_bytes_total",
            Metric::MgmtRxPacketsTotal => "mgmt_rx_packets_total",
            Metric::MgmtRxBytesTotal => "mgmt_rx_bytes_total",
            Metric::FragTxPacketsTotal => "frag_tx_packets_total",
            Metric::FragTxBytesTotal => "frag_tx_bytes_total",
            Metric::FragRxPacketsTotal => "frag_rx_packets_total",
            Metric::FragRxBytesTotal => "frag_rx_bytes_total",
            Metric::FragFwdPacketsTotal => "frag_fwd_packets_total",
            Metric::TtRequestTxPacketsTotal => "tt_request_tx_packets_total",
            Metric::TtRequestRxPacketsTotal => "tt_request_rx_packets_total",
            Metric::TtResponseRxPacketsTotal => "tt_response_rx_packets_total",
            Metric::TtRoamAdvTxPacketsTotal => "tt_roam_adv_tx_packets_total",
            Metric::TtRoamAdvRxPacketsTotal => "tt_roam_adv_rx_packets_total",
            Metric::DatGetTxPacketsTotal => "dat_get_tx_packets_total",
            Metric::DatGetRxPacketsTotal => "dat_get_rx_packets_total",
            Metric::DatPutTxPacketsTotal => "dat_put_tx_packets_total",
            Metric::DatPutRxPacketsTotal => "dat_put_rx_packets_total",
            Metric::DatCachedReplyTxPacketsTotal => "dat_cached_reply_tx_packets_total",
            Metric::AggregationEnabled => "aggregation_enabled",
            Metric::ApIsolationEnabled => "ap_isolation_enabled",
            Metric::BondingEnabled => "bonding_enabled",
            Metric::BridgeLoopAvoidanceEnabled => "bridge_loop_avoidance_enabled",
            Metric::DistributedArpTableEnabled => "distributed_arp_table_enabled",
            Metric::FragmentationEnabled => "fragmentation_enabled",
            Metric::GwSelClass => "gw_sel_class",
            Metric::HopPenalty => "hop_penalty",
            Metric::McastModeEnabled => "mcast_mode_enabled",
            Metric::OrigIntervalMs => "orig_interval_ms",
        }
    }

    /// The gauge's source: a key of the report, or the name of a settings
    /// file.
    pub fn source(self) -> (r: &'static str)
        ensures
            r@ == self.source_of(),
    {
        match self {
            Metric::TxPacketsTotal => "tx",
            Metric::TxBytesTotal => "tx_bytes",
            Metric::TxDroppedPacketsTotal => "tx_dropped",
            Metric::RxPacketsTotal => "rx",
            Metric::RxBytesTotal => "rx_bytes",
            Metric::ForwardPacketsTotal => "forward",
            Metric::ForwardBytesTotal => "forward_bytes",
            Metric::MgmtTxPacketsTotal => "mgmt_tx",
            Metric::MgmtTxBytesTotal => "mgmt_tx_bytes",
            Metric::MgmtRxPacketsTotal => "mgmt_rx",
            Metric::MgmtRxBytesTotal => "mgmt_rx_bytes",
            Metric::FragTxPacketsTotal => "frag_tx",
            Metric::FragTxBytesTotal => "frag_tx_bytes",
            Metric::FragRxPacketsTotal => "frag_rx",
            Metric::FragRxBytesTotal => "frag_rx_bytes",
            Metric::FragFwdPacketsTotal => "frag_fwd",
            Metric::TtRequestTxPacketsTotal => "tt_request_tx",
            Metric::TtRequestRxPacketsTotal => "tt_request_rx",
            Metric::TtResponseRxPacketsTotal => "tt_response_rx",
            Metric::TtRoamAdvTxPacketsTotal => "tt_roam_adv_tx",
            Metric::TtRoamAdvRxPacketsTotal => "tt_roam_adv_rx",
            Metric::DatGetTxPacketsTotal => "dat_get_tx",
            Metric::DatGetRxPacketsTotal => "dat_get_rx",
            Metric::DatPutTxPacketsTotal => "dat_put_tx",
            Metric::DatPutRxPacketsTotal => "dat_put_rx",
            Metric::DatCachedReplyTxPacketsTotal => "dat_cached_reply_tx",
            Metric::AggregationEnabled => "aggregated_ogms",
            Metric::ApIsolationEnabled => "ap_isolation",
            Metric::BondingEnabled => "bonding",
            Metric::BridgeLoopAvoidanceEnabled => "bridge_loop_avoidance",
            Metric::DistributedArpTableEnabled => "distributed_arp_table",
            Metric::FragmentationEnabled => "fragmentation",
            Metric::GwSelClass => "gw_sel_class",
            Metric::HopPenalty => "hop_penalty",
            Metric::McastModeEnabled => "multicast_mode",
            Metric::OrigIntervalMs => "orig_interval",
        }
    }

    /// How the gauge is read.
    pub fn kind(self) -> (r: Kind)
        ensures
            r == self.kind_of(),
    {
        match self {
            Metric::TxPacketsTotal => Kind::Counter,
            Metric::TxBytesTotal => Kind::Counter,
            Metric::TxDroppedPacketsTotal => Kind::Counter,
            Metric::RxPacketsTotal => Kind::Counter,
            Metric::RxBytesTotal => Kind::Counter,
            Metric::ForwardPacketsTotal => Kind::Counter,
            Metric::ForwardBytesTotal => Kind::Counter,
            Metric::MgmtTxPacketsTotal => Kind::Counter,
            Metric::MgmtTxBytesTotal => Kind::Counter,
            Metric::MgmtRxPacketsTotal => Kind::Counter,
            Metric::MgmtRxBytesTotal => Kind::Counter,
            Metric::FragTxPacketsTotal => Kind::Counter,
            Metric::FragTxBytesTotal => Kind::Counter,
            Metric::FragRxPacketsTotal => Kind::Counter,
            Metric::FragRxBytesTotal => Kind::Counter,
            Metric::FragFwdPacketsTotal => Kind::Counter,
            Metric::TtRequestTxPacketsTotal => Kind::Counter,
            Metric::TtRequestRxPacketsTotal => Kind::Counter,
            Metric::TtResponseRxPacketsTotal => Kind::Counter,
            Metric::TtRoamAdvTxPacketsTotal => Kind::Counter,
            Metric::TtRoamAdvRxPacketsTotal => Kind::Counter,
            Metric::DatGetTxPacketsTotal => Kind::Counter,
            Metric::DatGetRxPacketsTotal => Kind::Counter,
            Metric::DatPutTxPacketsTotal => Kind::Counter,
            Metric::DatPutRxPacketsTotal => Kind::Counter,
            Metric::DatCachedReplyTxPacketsTotal => Kind::Counter,
            Metric::AggregationEnabled => Kind::Flag,
            Metric::ApIsolationEnabled => Kind::Flag,
            Metric::BondingEnabled => Kind::Flag,
            Metric::BridgeLoopAvoidanceEnabled => Kind::Flag,
            Metric::DistributedArpTableEnabled => Kind::Flag,
            Metric::FragmentationEnabled => Kind::Flag,
            Metric::GwSelClass => Kind::Number,
            Metric::HopPenalty => Kind::Number,
            Metric::McastModeEnabled => Kind::Flag,
            Metric::OrigIntervalMs => Kind::Number,
        }
    }

    /// The help text of the gauge.
    pub fn description(self) -> (r: String)
        ensures
            r@ == self.help_of(),
    {
        match self {
            Metric::AggregationEnabled => String::from_str("whether protocol messages can be aggregated into forwarded packets"),
            Metric::ApIsolationEnabled => String::from_str("whether clients at the access point are isolated"),
            Metric::BondingEnabled => String::from_str("whether packets can be distributed in a round-robin fashion accross multiple links with similary quality"),
            Metric::BridgeLoopAvoidanceEnabled => String::from_str("whether the bridge loop avoidance is enabled"),
            Metric::DistributedArpTableEnabled => String::from_str("whether the distributed arp table is enabled"),
            Metric::FragmentationEnabled => String::from_str("whether packets can be fragmented when necessary"),
            Metric::HopPenalty => String::from_str("penalty to apply to path metric when routing via this node"),
            Metric::McastModeEnabled => String::from_str("whether multicast optimzations are enabled"),
            _ => underscores_to_spaces(self.name()),
        }
    }

    /// The gauge at a place of the list, if the list is that long.
    pub fn from_index(i: usize) -> (r: Option<Metric>)
        ensures
            match r {
                Some(m) => m.index() == i,
                None => i >= METRIC_COUNT,
            },
    {
        if i == 0 {
            Some(Metric::TxPacketsTotal)
        } else if i == 1 {
            Some(Metric::TxBytesTotal)
        } else if i == 2 {
            Some(Metric::TxDroppedPacketsTotal)
        } else if i == 3 {
            Some(Metric::RxPacketsTotal)
        } else if i == 4 {
            Some(Metric::RxBytesTotal)
        } else if i == 5 {
            Some(Metric::ForwardPacketsTotal)
        } else if i == 6 {
            Some(Metric::ForwardBytesTotal)
        } else if i == 7 {
            Some(Metric::MgmtTxPacketsTotal)
        } else if i == 8 {
            Some(Metric::MgmtTxBytesTotal)
        } else if i == 9 {
            Some(Metric::MgmtRxPacketsTotal)
        } else if i == 10 {
            Some(Metric::MgmtRxBytesTotal)
        } else if i == 11 {
            Some(Metric::FragTxPacketsTotal)
        } else if i == 12 {
            Some(Metric::FragTxBytesTotal)
        } else if i == 13 {
            Some(Metric::FragRxPacketsTotal)
        } else if i == 14 {
            Some(Metric::FragRxBytesTotal)
        } else if i == 15 {
            Some(Metric::FragFwdPacketsTotal)
        } else if i == 16 {
            Some(Metric::TtRequestTxPacketsTotal)
        } else if i == 17 {
            Some(Metric::TtRequestRxPacketsTotal)
        } else if i == 18 {
            Some(Metric::TtResponseRxPacketsTotal)
        } else if i == 19 {
            Some(Metric::TtRoamAdvTxPacketsTotal)
        } else if i == 20 {
            Some(Metric::TtRoamAdvRxPacketsTotal)
        } else if i == 21 {
            Some(Metric::DatGetTxPacketsTotal)
        } else if i == 22 {
            Some(Metric::DatGetRxPacketsTotal)
        } else if i == 23 {
            Some(Metric::DatPutTxPacketsTotal)
        } else if i == 24 {
            Some(Metric::DatPutRxPacketsTotal)
        } else if i == 25 {
            Some(Metric::DatCachedReplyTxPacketsTotal)
        } else if i == 26 {
            Some(Metric::AggregationEnabled)
        } else if i == 27 {
            Some(Metric::ApIsolationEnabled)
        } else if i == 28 {
            Some(Metric::BondingEnabled)
        } else if i == 29 {
            Some(Metric::BridgeLoopAvoidanceEnabled)
        } else if i == 30 {
            Some(Metric::DistributedArpTableEnabled)
        } else if i == 31 {
            Some(Metric::FragmentationEnabled)
        } else if i == 32 {
            Some(Metric::GwSelClass)
        } else if i == 33 {
            Some(Metric::HopPenalty)
        } else if i == 34 {
            Some(Metric::McastModeEnabled)
        } else if i == 35 {
            Some(Metric::OrigIntervalMs)
        } else {
            None
        }
    }

    /// Every name is a metric name as Prometheus defines one, and no help
    /// text is empty.
    pub proof fn lemma_well_named(self)
        ensures
            valid_metric_name(self.name_of()),
            self.help_of().len() > 0,
    {
        reveal_strlit("tx_packets_total");
        reveal_strlit("tx_bytes_total");
        reveal_strlit("tx_dropped_packets_total");
        reveal_strlit("rx_packets_total");
        reveal_strlit("rx_bytes_octal");
        reveal_strlit("forward_packets_total");
        reveal_strlit("forward_bytes_total");
        reveal_strlit("mgmt_tx_packets_total");
        reveal_strlit("mgmt_tx_bytes_total");
        reveal_strlit("mgmt_rx_packets_total");
        reveal_strlit("mgmt_rx_bytes_total");
        reveal_strlit("frag_tx_packets_total");
        reveal_strlit("frag_tx_bytes_total");
        reveal_strlit("frag_rx_packets_total");
        reveal_strlit("frag_rx_bytes_total");
        reveal_strlit("frag_fwd_packets_total");
        reveal_strlit("tt_request_tx_packets_total");
        reveal_strlit("tt_request_rx_packets_total");
        reveal_strlit("tt_response_rx_packets_total");
        reveal_strlit("tt_roam_adv_tx_packets_total");
        reveal_strlit("tt_roam_adv_rx_packets_total");
        reveal_strlit("dat_get_tx_packets_total");
        reveal_strlit("dat_get_rx_packets_total");
        reveal_strlit("dat_put_tx_packets_total");
        reveal_strlit("dat_put_rx_packets_total");
        reveal_strlit("dat_cached_reply_tx_packets_total");
        reveal_strlit("aggregation_enabled");
        reveal_strlit("ap_isolation_enabled");
        reveal_strlit("bonding_enabled");
        reveal_strlit("bridge_loop_avoidance_enabled");
        reveal_strlit("distributed_arp_table_enabled");
        reveal_strlit("fragmentation_enabled");
        reveal_strlit("gw_sel_class");
        reveal_strlit("hop_penalty");
        reveal_strlit("mcast_mode_enabled");
        reveal_strlit("orig_interval_ms");
        reveal_strlit("whether protocol messages can be aggregated into forwarded packets");
        reveal_strlit("whether clients at the access point are isolated");
        reveal_strlit("whether packets can be distributed in a round-robin fashion accross multiple links with similary quality");
        reveal_strlit("whether the bridge loop avoidance is enabled");
        reveal_strlit("whether the distributed arp table is enabled");
        reveal_strlit("whether packets can be fragmented when necessary");
        reveal_strlit("penalty to apply to path metric when routing via this node");
        reveal_strlit("whether multicast optimzations are enabled");
    }

    /// Two gauges at the same place are the same gauge.
    pub proof fn lemma_index_is_one_to_one(self, other: Metric)
        requires
            self.index() == other.index(),
        ensures
            self == other,
    {
    }
}

} // verus!
