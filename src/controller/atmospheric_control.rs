use crate::diagnostic::{line3, text, DiagnosticLine, Segment, SegmentModel};
use crate::models::ClimateProfile;
use vstd::prelude::*;

verus! {

/// The line that regulating the atmosphere to a profile reports.
pub open spec fn regulate_line(profile: ClimateProfile) -> Seq<SegmentModel> {
    seq![
        SegmentModel::Text("Regulating atmosphere to maintain "@),
        SegmentModel::Temperature(profile.temperature_bits),
        SegmentModel::Text("°C"@),
    ]
}

/// Adjust atmospheric parameters based on the provided climate profile,
/// reporting the target temperature.
pub fn regulate(profile: &ClimateProfile) -> (r: DiagnosticLine)
    ensures
        r@ == regulate_line(*profile),
{
    line3(
        text("Regulating atmosphere to maintain "),
        Segment::Temperature(profile.temperature_bits),
        text("°C"),
    )
}

} // verus!
