//! The engine's controllers. Each one reports what it does as a diagnostic
//! line and holds no state between calls.
use vstd::prelude::*;

pub mod atmospheric_control;
pub mod resonance_router;
pub mod terraforming_engine;

use crate::diagnostic::SegmentModel;
use crate::models::{BreathSignature, ClimateProfile};
use atmospheric_control::regulate_line;
use resonance_router::route_line;
use terraforming_engine::initiate_line;

verus! {

/// Each controller's line shows the value of every record it is given, and
/// is fixed by those values alone: records with the same values give the
/// same line, so calling a controller twice reports the same line twice.
pub proof fn controller_lines_show_values(
    sig: BreathSignature,
    profile: ClimateProfile,
    other_sig: BreathSignature,
    other_profile: ClimateProfile,
)
    ensures
        regulate_line(profile).contains(SegmentModel::Temperature(profile.temperature_bits)),
        route_line(sig).contains(SegmentModel::Frequency(sig.frequency_bits)),
        initiate_line(sig, profile).contains(SegmentModel::Frequency(sig.frequency_bits)),
        initiate_line(sig, profile).contains(SegmentModel::Temperature(profile.temperature_bits)),
        other_profile.temperature_bits == profile.temperature_bits ==> regulate_line(other_profile)
            == regulate_line(profile),
        other_sig.frequency_bits == sig.frequency_bits ==> route_line(other_sig) == route_line(sig),
        other_sig.frequency_bits == sig.frequency_bits && other_profile.temperature_bits
            == profile.temperature_bits ==> initiate_line(other_sig, other_profile)
            == initiate_line(sig, profile),
{
    assert(regulate_line(profile)[1] == SegmentModel::Temperature(profile.temperature_bits));
    assert(route_line(sig)[1] == SegmentModel::Frequency(sig.frequency_bits));
    assert(initiate_line(sig, profile)[1] == SegmentModel::Frequency(sig.frequency_bits));
    assert(initiate_line(sig, profile)[3] == SegmentModel::Temperature(profile.temperature_bits));
}

} // verus!
