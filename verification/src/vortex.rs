use crate::models::NetworkData;
use vstd::prelude::*;

verus! {

/// The five readings that the Vortex score is computed from, all present.
#[derive(Debug, Clone, Copy, PartialEq)]
pub struct VortexInputs<T> {
    /// Download throughput in Mbps.
    pub down_mbps: T,
    /// Upload throughput in Mbps.
    pub up_mbps: T,
    /// Round-trip latency in milliseconds.
    pub ping_ms: T,
    /// Latency variation in milliseconds.
    pub jitter_ms: T,
    /// Packet loss on a 0 to 100 scale.
    pub packet_loss_percent: T,
}

impl<T> NetworkData<T> {
    /// Whether every reading that Vortex needs was measured.
    pub open spec fn vortex_ready(self) -> bool {
        &&& self.down_mbps is Some
        &&& self.up_mbps is Some
        &&& self.ping_ms is Some
        &&& self.jitter_ms is Some
        &&& self.packet_loss_percent is Some
    }

    /// The Vortex readings of a record, or `None` where one is missing.
    pub open spec fn vortex_view(self) -> Option<VortexInputs<T>> {
        if self.vortex_ready() {
            Some(
                VortexInputs {
                    down_mbps: self.down_mbps->0,
                    up_mbps: self.up_mbps->0,
                    ping_ms: self.ping_ms->0,
                    jitter_ms: self.jitter_ms->0,
                    packet_loss_percent: self.packet_loss_percent->0,
                },
            )
        } else {
            None
        }
    }
}

impl<T: Copy> NetworkData<T> {
    /// Hands out the readings for the Vortex score.
    ///
    /// The result is `Some` exactly when download, upload, latency, jitter and
    /// packet loss are all present, and then holds those five values
    /// unchanged. The radio readings play no part.
    pub fn vortex_inputs(&self) -> (r: Option<VortexInputs<T>>)
        ensures
            r is Some <==> self.vortex_ready(),
            r == self.vortex_view(),
            r matches Some(i) ==> {
                &&& self.down_mbps == Some(i.down_mbps)
                &&& self.up_mbps == Some(i.up_mbps)
                &&& self.ping_ms == Some(i.ping_ms)
                &&& self.jitter_ms == Some(i.jitter_ms)
                &&& self.packet_loss_percent == Some(i.packet_loss_percent)
            },
    {
        match (
            self.down_mbps,
            self.up_mbps,
            self.ping_ms,
            self.jitter_ms,
            self.packet_loss_percent,
        ) {
            (Some(down), Some(up), Some(ping), Some(jitter), Some(lost)) => Some(
                VortexInputs {
                    down_mbps: down,
                    up_mbps: up,
                    ping_ms: ping,
                    jitter_ms: jitter,
                    packet_loss_percent: lost,
                },
            ),
            _ => None,
        }
    }

    /// The Vortex score of the record under a scoring rule.
    ///
    /// The rule is the arithmetic that turns the five readings into a score.
    /// It is applied once, to the record's own readings, when all five are
    /// present; where one is missing the result is `None` and the rule is not
    /// called.
    pub fn calculate_vortex<F: Fn(VortexInputs<T>) -> T>(&self, rule: F) -> (score: Option<T>)
        requires
            self.vortex_view() matches Some(i) ==> rule.requires((i,)),
        ensures
            score is Some <==> self.vortex_ready(),
            score matches Some(s) ==> rule.ensures((self.vortex_view()->0,), s),
    {
        match self.vortex_inputs() {
            Some(inputs) => Some(rule(inputs)),
            None => None,
        }
    }
}

/// A record that lacks any one of the five Vortex readings has no Vortex
/// inputs, whatever else it holds; a record that has all five has them.
pub proof fn law_vortex_needs_every_reading<T>(data: NetworkData<T>)
    ensures
        data.down_mbps is None ==> data.vortex_view() is None,
        data.up_mbps is None ==> data.vortex_view() is None,
        data.ping_ms is None ==> data.vortex_view() is None,
        data.jitter_ms is None ==> data.vortex_view() is None,
        data.packet_loss_percent is None ==> data.vortex_view() is None,
        data.vortex_view() is None ==> {
            ||| data.down_mbps is None
            ||| data.up_mbps is None
            ||| data.ping_ms is None
            ||| data.jitter_ms is None
            ||| data.packet_loss_percent is None
        },
{
}

/// The radio readings do not bear on Vortex: two records that agree on the
/// five Vortex readings have the same Vortex inputs.
pub proof fn law_vortex_ignores_radio<T>(a: NetworkData<T>, b: NetworkData<T>)
    requires
        a.down_mbps == b.down_mbps,
        a.up_mbps == b.up_mbps,
        a.ping_ms == b.ping_ms,
        a.jitter_ms == b.jitter_ms,
        a.packet_loss_percent == b.packet_loss_percent,
    ensures
        a.vortex_view() == b.vortex_view(),
{
}

} // verus!
