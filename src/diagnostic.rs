use vstd::prelude::*;

verus! {

/// One piece of a diagnostic line: literal text, or a value that is shown
/// in the default text form of an `f32`.
#[derive(Clone, Debug)]
pub enum Segment {
    /// Text shown as it is.
    Text(String),
    /// A frequency in hertz, as the bit pattern of an `f32`.
    Frequency(u32),
    /// A temperature in degrees Celsius, as the bit pattern of an `f32`.
    Temperature(u32),
}

/// What a segment stands for.
pub enum SegmentModel {
    Text(Seq<char>),
    Frequency(u32),
    Temperature(u32),
}

impl View for Segment {
    type V = SegmentModel;

    open spec fn view(&self) -> SegmentModel {
        match self {
            Segment::Text(s) => SegmentModel::Text(s@),
            Segment::Frequency(b) => SegmentModel::Frequency(*b),
            Segment::Temperature(b) => SegmentModel::Temperature(*b),
        }
    }
}

/// One line of diagnostic output, as the sequence of its segments.
#[derive(Clone, Debug)]
pub struct DiagnosticLine {
    pub segments: Vec<Segment>,
}

impl View for DiagnosticLine {
    type V = Seq<SegmentModel>;

    open spec fn view(&self) -> Seq<SegmentModel> {
        self.segments@.map_values(|s: Segment| s@)
    }
}

/// The lines of a report, each as the sequence of its segments.
pub open spec fn lines_view(lines: Seq<DiagnosticLine>) -> Seq<Seq<SegmentModel>> {
    lines.map_values(|l: DiagnosticLine| l@)
}

/// Whether a line shows a frequency.
pub open spec fn mentions_frequency(line: Seq<SegmentModel>) -> bool {
    exists|i: int| 0 <= i < line.len() && (#[trigger] line[i]) is Frequency
}

/// Whether a line shows a temperature.
pub open spec fn mentions_temperature(line: Seq<SegmentModel>) -> bool {
    exists|i: int| 0 <= i < line.len() && (#[trigger] line[i]) is Temperature
}

/// A segment of literal text.
pub(crate) fn text(s: &str) -> (r: Segment)
    ensures
        r@ == SegmentModel::Text(s@),
{
    Segment::Text(s.to_owned())
}

/// A line of one text segment.
pub(crate) fn line1(a: Segment) -> (r: DiagnosticLine)
    ensures
        r@ == seq![a@],
{
    let mut segments: Vec<Segment> = Vec::new();
    segments.push(a);
    let r = DiagnosticLine { segments };
    assert(r@ =~= seq![a@]);
    r
}

/// A line of three segments, in order.
pub(crate) fn line3(a: Segment, b: Segment, c: Segment) -> (r: DiagnosticLine)
    ensures
        r@ == seq![a@, b@, c@],
{
    let mut segments: Vec<Segment> = Vec::new();
    segments.push(a);
    segments.push(b);
    segments.push(c);
    let r = DiagnosticLine { segments };
    assert(r@ =~= seq![a@, b@, c@]);
    r
}

/// A line of five segments, in order.
pub(crate) fn line5(a: Segment, b: Segment, c: Segment, d: Segment, e: Segment) -> (r: DiagnosticLine)
    ensures
        r@ == seq![a@, b@, c@, d@, e@],
{
    let mut segments: Vec<Segment> = Vec::new();
    segments.push(a);
    segments.push(b);
    segments.push(c);
    segments.push(d);
    segments.push(e);
    let r = DiagnosticLine { segments };
    assert(r@ =~= seq![a@, b@, c@, d@, e@]);
    r
}

} // verus!
