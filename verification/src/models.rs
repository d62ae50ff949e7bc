use vstd::prelude::*;

verus! {

/// One snapshot of a connection's raw readings.
///
/// `T` is the numeric type of a reading. Every field is optional on its own:
/// `None` means "not measured" or "not applicable" (a wired link has no radio
/// readings).
#[derive(Debug, Clone, Copy, PartialEq)]
pub struct NetworkData<T> {
    /// Download throughput in Mbps.
    pub down_mbps: Option<T>,
    /// Upload throughput in Mbps.
    pub up_mbps: Option<T>,
    /// Round-trip latency in milliseconds.
    pub ping_ms: Option<T>,
    /// Latency variation in milliseconds.
    pub jitter_ms: Option<T>,
    /// Packet loss on a 0 to 100 scale.
    pub packet_loss_percent: Option<T>,
    /// Received signal strength in dBm. Wireless only.
    pub rssi_dbm: Option<T>,
    /// Noise floor in dBm. Wireless only.
    pub noise_dbm: Option<T>,
    /// Channel width in MHz. Wireless only.
    pub channel_width_mhz: Option<T>,
}

impl<T> NetworkData<T> {
    /// The record in which nothing was measured.
    pub open spec fn empty() -> Self {
        NetworkData {
            down_mbps: None,
            up_mbps: None,
            ping_ms: None,
            jitter_ms: None,
            packet_loss_percent: None,
            rssi_dbm: None,
            noise_dbm: None,
            channel_width_mhz: None,
        }
    }
}

impl<T> Default for NetworkData<T> {
    fn default() -> (r: Self)
        ensures
            r == Self::empty(),
    {
        NetworkData {
            down_mbps: None,
            up_mbps: None,
            ping_ms: None,
            jitter_ms: None,
            packet_loss_percent: None,
            rssi_dbm: None,
            noise_dbm: None,
            channel_width_mhz: None,
        }
    }
}

} // verus!
