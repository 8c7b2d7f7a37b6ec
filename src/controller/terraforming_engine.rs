use crate::diagnostic::{line5, text, DiagnosticLine, Segment, SegmentModel};
use crate::models::{BreathSignature, ClimateProfile};
use vstd::prelude::*;

verus! {

/// The line that starting the terraforming sequence reports.
pub open spec fn initiate_line(sig: BreathSignature, profile: ClimateProfile) -> Seq<SegmentModel> {
    seq![
        SegmentModel::Text("Terraforming engine initiated with signature "@),
        SegmentModel::Frequency(sig.frequency_bits),
        SegmentModel::Text(" Hz and temp "@),
        SegmentModel::Temperature(profile.temperature_bits),
        SegmentModel::Text("°C"@),
    ]
}

/// Kick off the terraforming sequence using the provided inputs, reporting
/// the signature's frequency and the profile's temperature.
pub fn initiate(sig: &BreathSignature, profile: &ClimateProfile) -> (r: DiagnosticLine)
    ensures
        r@ == initiate_line(*sig, *profile),
{
    line5(
        text("Terraforming engine initiated with signature "),
        Segment::Frequency(sig.frequency_bits),
        text(" Hz and temp "),
        Segment::Temperature(profile.temperature_bits),
        text("°C"),
    )
}

} // verus!
