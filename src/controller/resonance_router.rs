use crate::diagnostic::{line3, text, DiagnosticLine, Segment, SegmentModel};
use crate::models::BreathSignature;
use vstd::prelude::*;

verus! {

/// The line that routing resonance with a signature reports.
pub open spec fn route_line(signature: BreathSignature) -> Seq<SegmentModel> {
    seq![
        SegmentModel::Text("Routing resonance at "@),
        SegmentModel::Frequency(signature.frequency_bits),
        SegmentModel::Text(" Hz across nodes..."@),
    ]
}

/// Route resonance waves throughout the network using a breath signature,
/// reporting its frequency.
pub fn route(signature: &BreathSignature) -> (r: DiagnosticLine)
    ensures
        r@ == route_line(*signature),
{
    line3(
        text("Routing resonance at "),
        Segment::Frequency(signature.frequency_bits),
        text(" Hz across nodes..."),
    )
}

} // verus!
