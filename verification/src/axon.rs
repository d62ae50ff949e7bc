use crate::models::NetworkData;
use crate::radiance::RadianceInputs;
use crate::vortex::VortexInputs;
use vstd::prelude::*;

verus! {

/// The two scores that Axon is the geometric mean of, both present.
#[derive(Debug, Clone, Copy, PartialEq)]
pub struct AxonInputs<T> {
    /// The Vortex score.
    pub vortex: T,
    /// The Radiance score.
    pub radiance: T,
}

impl<T> AxonInputs<T> {
    /// Both scores together, or `None` where either is missing.
    pub open spec fn combine(vortex: Option<T>, radiance: Option<T>) -> Option<Self> {
        match (vortex, radiance) {
            (Some(v), Some(r)) => Some(AxonInputs { vortex: v, radiance: r }),
            _ => None,
        }
    }

    /// Pairs the two scores for the Axon score.
    ///
    /// Absence propagates: the result is `None` as soon as either score is,
    /// and otherwise holds both unchanged. The readings behind the scores are
    /// not looked at again.
    pub fn from_scores(vortex: Option<T>, radiance: Option<T>) -> (r: Option<Self>)
        ensures
            r is None <==> vortex is None || radiance is None,
            r == Self::combine(vortex, radiance),
            r matches Some(i) ==> vortex == Some(i.vortex) && radiance == Some(i.radiance),
    {
        match vortex {
            Some(v) => match radiance {
                Some(rd) => Some(AxonInputs { vortex: v, radiance: rd }),
                None => None,
            },
            None => None,
        }
    }
}

/// Whether the merging rule accepts every pair of scores that the two
/// scoring rules can produce from these inputs.
pub open spec fn merge_accepts<T, V, R, M>(
    vortex_rule: V,
    radiance_rule: R,
    merge_rule: M,
    flow: VortexInputs<T>,
    radio: RadianceInputs<T>,
) -> bool where
    V: Fn(VortexInputs<T>) -> T,
    R: Fn(RadianceInputs<T>) -> T,
    M: Fn(AxonInputs<T>) -> T,
 {
    forall|v: T, r: T|
        #[trigger] vortex_rule.ensures((flow,), v) && #[trigger] radiance_rule.ensures((radio,), r)
            ==> merge_rule.requires((AxonInputs { vortex: v, radiance: r },))
}

/// Whether `score` is what the merging rule makes of a Vortex score and a
/// Radiance score that the two scoring rules produce from these inputs.
pub open spec fn merges_to<T, V, R, M>(
    vortex_rule: V,
    radiance_rule: R,
    merge_rule: M,
    flow: VortexInputs<T>,
    radio: RadianceInputs<T>,
    score: T,
) -> bool where
    V: Fn(VortexInputs<T>) -> T,
    R: Fn(RadianceInputs<T>) -> T,
    M: Fn(AxonInputs<T>) -> T,
 {
    exists|v: T, r: T|
        {
            &&& #[trigger] vortex_rule.ensures((flow,), v)
            &&& #[trigger] radiance_rule.ensures((radio,), r)
            &&& merge_rule.ensures((AxonInputs { vortex: v, radiance: r },), score)
        }
}

impl<T: Copy> NetworkData<T> {
    /// The Axon score of the record under three rules: one that scores
    /// Vortex, one that scores Radiance, and one that merges the two scores.
    ///
    /// Vortex is scored first, then Radiance, each from the record's own
    /// readings. The result is `None` as soon as either is absent, and the
    /// merging rule is then not called; otherwise it is what the merging rule
    /// makes of the two scores.
    pub fn calculate_axon<V, R, M>(&self, vortex_rule: V, radiance_rule: R, merge_rule: M) -> (score:
        Option<T>) where
        V: Fn(VortexInputs<T>) -> T,
        R: Fn(RadianceInputs<T>) -> T,
        M: Fn(AxonInputs<T>) -> T,

        requires
            self.vortex_view() matches Some(flow) ==> vortex_rule.requires((flow,)),
            self.radiance_view() matches Some(radio) ==> radiance_rule.requires((radio,)),
            self.vortex_ready() && self.radiance_ready() ==> merge_accepts(
                vortex_rule,
                radiance_rule,
                merge_rule,
                self.vortex_view()->0,
                self.radiance_view()->0,
            ),
        ensures
            score is Some <==> self.vortex_ready() && self.radiance_ready(),
            score is None <==> self.vortex_view() is None || self.radiance_view() is None,
            score matches Some(s) ==> merges_to(
                vortex_rule,
                radiance_rule,
                merge_rule,
                self.vortex_view()->0,
                self.radiance_view()->0,
                s,
            ),
    {
        let vortex = self.calculate_vortex(vortex_rule);
        if vortex.is_none() {
            return None;
        }
        let radiance = self.calculate_radiance(radiance_rule);
        match AxonInputs::from_scores(vortex, radiance) {
            Some(pair) => Some(merge_rule(pair)),
            None => None,
        }
    }
}

/// What a scoring rule makes of optional inputs: absent stays absent.
pub open spec fn score_of<I, T>(inputs: Option<I>, rule: spec_fn(I) -> T) -> Option<T> {
    match inputs {
        Some(i) => Some(rule(i)),
        None => None,
    }
}

/// Axon of a record, for any rule that scores Vortex and any rule that scores
/// Radiance.
pub open spec fn axon_view<T>(
    data: NetworkData<T>,
    vortex_rule: spec_fn(VortexInputs<T>) -> T,
    radiance_rule: spec_fn(RadianceInputs<T>) -> T,
) -> Option<AxonInputs<T>> {
    AxonInputs::combine(
        score_of(data.vortex_view(), vortex_rule),
        score_of(data.radiance_view(), radiance_rule),
    )
}

/// Axon is absent exactly when Vortex or Radiance is, whichever rules score
/// them; where it is present it holds the two scores of the record's own
/// readings.
pub proof fn law_axon_needs_both_scores<T>(
    data: NetworkData<T>,
    vortex_rule: spec_fn(VortexInputs<T>) -> T,
    radiance_rule: spec_fn(RadianceInputs<T>) -> T,
)
    ensures
        axon_view(data, vortex_rule, radiance_rule) is None <==> data.vortex_view() is None
            || data.radiance_view() is None,
        axon_view(data, vortex_rule, radiance_rule) is Some <==> data.vortex_ready()
            && data.radiance_ready(),
        axon_view(data, vortex_rule, radiance_rule) matches Some(a) ==> {
            &&& a.vortex == vortex_rule(data.vortex_view()->0)
            &&& a.radiance == radiance_rule(data.radiance_view()->0)
        },
{
}

/// The record in which nothing was measured allows no score.
pub proof fn law_empty_record_scores_nothing<T>(
    vortex_rule: spec_fn(VortexInputs<T>) -> T,
    radiance_rule: spec_fn(RadianceInputs<T>) -> T,
)
    ensures
        NetworkData::<T>::empty().vortex_view() is None,
        NetworkData::<T>::empty().radiance_view() is None,
        axon_view(NetworkData::<T>::empty(), vortex_rule, radiance_rule) is None,
{
}

} // verus!
