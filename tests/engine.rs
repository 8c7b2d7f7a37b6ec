use nesshash_core::controller::atmospheric_control::regulate;
use nesshash_core::controller::resonance_router::route;
use nesshash_core::controller::terraforming_engine::initiate;
use nesshash_core::{BreathSignature, ClimateProfile, Config, DiagnosticLine, NessHashCore, Segment};

fn show(line: &DiagnosticLine) -> String {
    let mut out = String::new();
    for segment in &line.segments {
        match segment {
            Segment::Text(t) => out.push_str(t),
            Segment::Frequency(b) | Segment::Temperature(b) => {
                out.push_str(&format!("{}", f32::from_bits(*b)))
            }
        }
    }
    out
}

fn signature(f: f32) -> BreathSignature {
    BreathSignature::new(f.to_bits())
}

fn profile(t: f32) -> ClimateProfile {
    ClimateProfile::new(t.to_bits())
}

#[test]
fn signature_round_trip_keeps_value() {
    for f in [528.0f32, 0.1, 1e30, -3.5, 0.0] {
        let s = signature(f);
        assert_eq!(f32::from_bits(s.frequency_bits()), f);
        assert_eq!(s.frequency_bits(), f.to_bits());
    }
}

#[test]
fn profile_round_trip_keeps_value() {
    for t in [20.0f32, -273.15, 0.3, 1e-20] {
        let p = profile(t);
        assert_eq!(f32::from_bits(p.temperature_bits()), t);
        assert_eq!(p.temperature_bits, t.to_bits());
    }
}

#[test]
fn regulate_reports_temperature() {
    let line = regulate(&profile(20.0));
    assert_eq!(show(&line), "Regulating atmosphere to maintain 20°C");
    assert_eq!(line.segments.len(), 3);
    assert!(matches!(line.segments[1], Segment::Temperature(b) if b == 20.0f32.to_bits()));
}

#[test]
fn route_reports_frequency() {
    let line = route(&signature(528.5));
    assert_eq!(show(&line), "Routing resonance at 528.5 Hz across nodes...");
    assert!(matches!(line.segments[1], Segment::Frequency(b) if b == 528.5f32.to_bits()));
}

#[test]
fn initiate_reports_both_values() {
    let line = initiate(&signature(432.0), &profile(-12.25));
    assert_eq!(
        show(&line),
        "Terraforming engine initiated with signature 432 Hz and temp -12.25°C"
    );
}

#[test]
fn controllers_repeat_identical_lines() {
    let p = profile(18.5);
    let s = signature(111.0);
    assert_eq!(show(&regulate(&p)), show(&regulate(&p)));
    assert_eq!(show(&route(&s)), show(&route(&s)));
    assert_eq!(show(&initiate(&s, &p)), show(&initiate(&s, &p)));
}

#[test]
fn boot_without_values_prints_banner_only() {
    let engine = NessHashCore::new(Config::default());
    let lines = engine.boot();
    assert_eq!(lines.len(), 1);
    assert_eq!(show(&lines[0]), "NessHash core booting...");
}

#[test]
fn boot_with_signature_only_reports_frequency() {
    let config = Config {
        initial_signature: Some(signature(528.0)),
        initial_climate: None,
    };
    let lines = NessHashCore::new(config).boot();
    let shown: Vec<String> = lines.iter().map(show).collect();
    assert_eq!(
        shown,
        vec!["NessHash core booting...", "Loaded breath signature: 528 Hz"]
    );
    for line in &lines {
        assert!(!line
            .segments
            .iter()
            .any(|s| matches!(s, Segment::Temperature(_))));
    }
}

#[test]
fn boot_with_climate_only_reports_temperature() {
    let config = Config {
        initial_signature: None,
        initial_climate: Some(profile(20.0)),
    };
    let shown: Vec<String> = NessHashCore::new(config).boot().iter().map(show).collect();
    assert_eq!(
        shown,
        vec!["NessHash core booting...", "Target temperature: 20°C"]
    );
}

#[test]
fn boot_with_default_command_line_values() {
    let config = Config {
        initial_signature: Some(signature(528.0)),
        initial_climate: Some(profile(20.0)),
    };
    let engine = NessHashCore::new(config);
    let first: Vec<String> = engine.boot().iter().map(show).collect();
    let second: Vec<String> = engine.boot().iter().map(show).collect();
    assert_eq!(
        first,
        vec![
            "NessHash core booting...",
            "Loaded breath signature: 528 Hz",
            "Target temperature: 20°C",
        ]
    );
    assert_eq!(first, second);
}
