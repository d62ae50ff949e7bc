use crate::models::NetworkData;
use vstd::prelude::*;

verus! {

/// The three radio readings that the Radiance score is computed from, all
/// present.
#[derive(Debug, Clone, Copy, PartialEq)]
pub struct RadianceInputs<T> {
    /// Channel width in MHz.
    pub channel_width_mhz: T,
    /// Received signal strength in dBm.
    pub rssi_dbm: T,
    /// Noise floor in dBm.
    pub noise_dbm: T,
}

impl<T> NetworkData<T> {
    /// Whether every reading that Radiance needs was measured.
    pub open spec fn radiance_ready(self) -> bool {
        &&& self.channel_width_mhz is Some
        &&& self.rssi_dbm is Some
        &&& self.noise_dbm is Some
    }

    /// The Radiance readings of a record, or `None` where one is missing.
    pub open spec fn radiance_view(self) -> Option<RadianceInputs<T>> {
        if self.radiance_ready() {
            Some(
                RadianceInputs {
                    channel_width_mhz: self.channel_width_mhz->0,
                    rssi_dbm: self.rssi_dbm->0,
                    noise_dbm: self.noise_dbm->0,
                },
            )
        } else {
            None
        }
    }
}

impl<T: Copy> NetworkData<T> {
    /// Hands out the readings for the Radiance score.
    ///
    /// The result is `Some` exactly when channel width, signal strength and
    /// noise floor are all present, and then holds those three values
    /// unchanged. `None` stands for a wired link and for unavailable radio
    /// data alike.
    pub fn radiance_inputs(&self) -> (r: Option<RadianceInputs<T>>)
        ensures
            r is Some <==> self.radiance_ready(),
            r == self.radiance_view(),
            r matches Some(i) ==> {
                &&& self.channel_width_mhz == Some(i.channel_width_mhz)
                &&& self.rssi_dbm == Some(i.rssi_dbm)
                &&& self.noise_dbm == Some(i.noise_dbm)
            },
    {
        match (self.channel_width_mhz, self.rssi_dbm, self.noise_dbm) {
            (Some(width), Some(rssi), Some(noise)) => Some(
                RadianceInputs { channel_width_mhz: width, rssi_dbm: rssi, noise_dbm: noise },
            ),
            _ => None,
        }
    }

    /// The Radiance score of the record under a scoring rule.
    ///
    /// The rule is the arithmetic that turns the three radio readings into a
    /// score. It is applied once, to the record's own readings, when all
    /// three are present; where one is missing the result is `None` and the
    /// rule is not called.
    pub fn calculate_radiance<F: Fn(RadianceInputs<T>) -> T>(&self, rule: F) -> (score: Option<T>)
        requires
            self.radiance_view() matches Some(i) ==> rule.requires((i,)),
        ensures
            score is Some <==> self.radiance_ready(),
            score matches Some(s) ==> rule.ensures((self.radiance_view()->0,), s),
    {
        match self.radiance_inputs() {
            Some(inputs) => Some(rule(inputs)),
            None => None,
        }
    }
}

/// A record that lacks any one of the three radio readings has no Radiance
/// inputs, whatever else it holds; a record that has all three has them.
pub proof fn law_radiance_needs_every_reading<T>(data: NetworkData<T>)
    ensures
        data.channel_width_mhz is None ==> data.radiance_view() is None,
        data.rssi_dbm is None ==> data.radiance_view() is None,
        data.noise_dbm is None ==> data.radiance_view() is None,
        data.radiance_view() is None ==> {
            ||| data.channel_width_mhz is None
            ||| data.rssi_dbm is None
            ||| data.noise_dbm is None
        },
{
}

/// The flow readings do not bear on Radiance: two records that agree on the
/// three radio readings have the same Radiance inputs.
pub proof fn law_radiance_ignores_flow<T>(a: NetworkData<T>, b: NetworkData<T>)
    requires
        a.channel_width_mhz == b.channel_width_mhz,
        a.rssi_dbm == b.rssi_dbm,
        a.noise_dbm == b.noise_dbm,
    ensures
        a.radiance_view() == b.radiance_view(),
{
}

} // verus!
