//! Unified channel abstraction: one logical channel over any medium.

use vstd::prelude::*;

verus! {

/// Physical channel kind.
#[derive(Debug, Clone, Copy, PartialEq, Eq, Structural)]
pub enum ChannelType {
    /// Local or remote TCP/IP.
    Tcp,
    /// WebSocket.
    WebSocket,
    /// Bluetooth Low Energy.
    Ble,
    /// LoRaWAN for IoT.
    LoRa,
    /// Deferred offline synchronisation.
    DeferredSync,
}

/// Configuration of a channel.
#[derive(Debug, Clone)]
pub struct ChannelConfig {
    /// Kind of channel.
    pub channel_type: ChannelType,
    /// Address.
    pub address: String,
    /// Port.
    pub port: u16,
    /// Maximum bandwidth in bits per second.
    pub max_bandwidth_bps: u64,
    /// Maximum transmission unit in bytes.
    pub mtu_bytes: usize,
}

impl Default for ChannelConfig {
    /// TCP on localhost port 7700, 1 Gbps, MTU 65535.
    fn default() -> (c: ChannelConfig)
        ensures
            c.channel_type == ChannelType::Tcp,
            c.address@ == "127.0.0.1"@,
            c.port == 7700,
            c.max_bandwidth_bps == 1_000_000_000,
            c.mtu_bytes == 65535,
    {
        ChannelConfig {
            channel_type: ChannelType::Tcp,
            address: String::from_str("127.0.0.1"),
            port: 7700,
            max_bandwidth_bps: 1_000_000_000,
            mtu_bytes: 65535,
        }
    }
}

} // verus!
