//! Core library for the NessHash terraform engine.
//!
//! The records, the controllers and the engine's boot sequence are plain
//! values and functions: each controller and the boot sequence return the
//! diagnostic lines they report, and the caller decides where they go.
use vstd::prelude::*;

pub mod controller;
pub mod diagnostic;
pub mod models;

pub use controller::atmospheric_control::regulate;
pub use controller::resonance_router::route;
pub use controller::terraforming_engine::initiate;
pub use diagnostic::{DiagnosticLine, Segment};
pub use models::{BreathSignature, ClimateProfile};

use diagnostic::{line1, line3, lines_view, mentions_temperature, text, SegmentModel};

verus! {

/// Configuration parameters for initializing the NessHash core. Either
/// value may be absent.
#[derive(Clone, Copy, Debug)]
pub struct Config {
    pub initial_signature: Option<BreathSignature>,
    pub initial_climate: Option<ClimateProfile>,
}

impl Default for Config {
    /// A configuration with neither value.
    fn default() -> (r: Self)
        ensures
            r.initial_signature is None,
            r.initial_climate is None,
    {
        Config { initial_signature: None, initial_climate: None }
    }
}

/// Central struct representing the running NessHash engine. It owns its
/// configuration for its whole life.
pub struct NessHashCore {
    config: Config,
}

/// The line that opens every boot.
pub open spec fn banner_line() -> Seq<SegmentModel> {
    seq![SegmentModel::Text("NessHash core booting..."@)]
}

/// The line that a boot reports for a configured breath signature.
pub open spec fn signature_loaded_line(sig: BreathSignature) -> Seq<SegmentModel> {
    seq![
        SegmentModel::Text("Loaded breath signature: "@),
        SegmentModel::Frequency(sig.frequency_bits),
        SegmentModel::Text(" Hz"@),
    ]
}

/// The line that a boot reports for a configured climate profile.
pub open spec fn target_temperature_line(profile: ClimateProfile) -> Seq<SegmentModel> {
    seq![
        SegmentModel::Text("Target temperature: "@),
        SegmentModel::Temperature(profile.temperature_bits),
        SegmentModel::Text("°C"@),
    ]
}

/// The lines of a boot with a configuration: the banner, then one line for
/// the signature if there is one, then one for the climate if there is one.
pub open spec fn boot_lines(config: Config) -> Seq<Seq<SegmentModel>> {
    let sig_lines = match config.initial_signature {
        Some(sig) => seq![signature_loaded_line(sig)],
        None => Seq::empty(),
    };
    let climate_lines = match config.initial_climate {
        Some(profile) => seq![target_temperature_line(profile)],
        None => Seq::empty(),
    };
    seq![banner_line()] + sig_lines + climate_lines
}

impl View for NessHashCore {
    type V = Config;

    closed spec fn view(&self) -> Config {
        self.config
    }
}

impl NessHashCore {
    /// Instantiate a new engine with the provided configuration.
    pub fn new(config: Config) -> (r: Self)
        ensures
            r@ == config,
    {
        NessHashCore { config }
    }

    /// Boot the core: the lines it reports, in order. Absent values are
    /// skipped; booting again reports the same lines.
    pub fn boot(&self) -> (r: Vec<DiagnosticLine>)
        ensures
            lines_view(r@) == boot_lines(self@),
    {
        let mut lines: Vec<DiagnosticLine> = Vec::new();
        lines.push(line1(text("NessHash core booting...")));
        match self.config.initial_signature {
            Some(sig) => {
                lines.push(
                    line3(
                        text("Loaded breath signature: "),
                        Segment::Frequency(sig.frequency_bits),
                        text(" Hz"),
                    ),
                );
            },
            None => {},
        }
        match self.config.initial_climate {
            Some(profile) => {
                lines.push(
                    line3(
                        text("Target temperature: "),
                        Segment::Temperature(profile.temperature_bits),
                        text("°C"),
                    ),
                );
            },
            None => {},
        }
        assert(lines_view(lines@) =~= boot_lines(self@));
        lines
    }
}

/// A boot whose configuration holds neither value reports the banner and
/// nothing else.
pub proof fn boot_without_values(config: Config)
    requires
        config.initial_signature is None,
        config.initial_climate is None,
    ensures
        boot_lines(config) == seq![banner_line()],
{
    assert(boot_lines(config) =~= seq![banner_line()]);
}

/// A boot whose configuration holds a signature and no climate reports the
/// banner and exactly one line on that signature's frequency, and no line
/// shows a temperature.
pub proof fn boot_with_signature_only(config: Config, sig: BreathSignature)
    requires
        config.initial_signature == Some(sig),
        config.initial_climate is None,
    ensures
        boot_lines(config) == seq![banner_line(), signature_loaded_line(sig)],
        forall|i: int|
            0 <= i < boot_lines(config).len() ==> !mentions_temperature(
                #[trigger] boot_lines(config)[i],
            ),
{
    assert(boot_lines(config) =~= seq![banner_line(), signature_loaded_line(sig)]);
    assert forall|i: int| 0 <= i < boot_lines(config).len() implies !mentions_temperature(
        #[trigger] boot_lines(config)[i],
    ) by {
        let line = boot_lines(config)[i];
        if i == 0 {
            assert(line == banner_line());
        } else {
            assert(line == signature_loaded_line(sig));
        }
        assert forall|j: int| 0 <= j < line.len() implies !((#[trigger] line[j]) is Temperature) by {
        }
    }
}

} // verus!
