use vstd::prelude::*;

verus! {

/// A sonic imprint used to route emotional resonance.
///
/// The frequency, in hertz, is an `f32`; the record keeps its IEEE 754
/// bit pattern so that the value travels through the library unchanged.
#[derive(Clone, Copy, Debug)]
pub struct BreathSignature {
    /// Bit pattern of the frequency in hertz that characterizes the breath wave.
    pub frequency_bits: u32,
}

/// Basic climate parameters for the target environment.
///
/// The temperature, in degrees Celsius, is an `f32`; the record keeps its
/// IEEE 754 bit pattern.
#[derive(Clone, Copy, Debug)]
pub struct ClimateProfile {
    /// Bit pattern of the desired average surface temperature in Celsius.
    pub temperature_bits: u32,
}

/// The breath signature built from a frequency's bit pattern.
pub open spec fn signature_of(frequency_bits: u32) -> BreathSignature {
    BreathSignature { frequency_bits }
}

/// The climate profile built from a temperature's bit pattern.
pub open spec fn profile_of(temperature_bits: u32) -> ClimateProfile {
    ClimateProfile { temperature_bits }
}

impl BreathSignature {
    /// A signature for the frequency whose `f32` bit pattern is given.
    pub fn new(frequency_bits: u32) -> (r: Self)
        ensures
            r == signature_of(frequency_bits),
    {
        BreathSignature { frequency_bits }
    }

    /// The bit pattern of the stored frequency.
    pub fn frequency_bits(&self) -> (r: u32)
        ensures
            r == self.frequency_bits,
    {
        self.frequency_bits
    }
}

impl ClimateProfile {
    /// A profile for the temperature whose `f32` bit pattern is given.
    pub fn new(temperature_bits: u32) -> (r: Self)
        ensures
            r == profile_of(temperature_bits),
    {
        ClimateProfile { temperature_bits }
    }

    /// The bit pattern of the stored temperature.
    pub fn temperature_bits(&self) -> (r: u32)
        ensures
            r == self.temperature_bits,
    {
        self.temperature_bits
    }
}

/// A frequency read back from a signature built with it is the same value,
/// bit for bit.
pub proof fn signature_round_trip(frequency_bits: u32)
    ensures
        signature_of(frequency_bits).frequency_bits == frequency_bits,
{
}

/// A temperature read back from a profile built with it is the same value,
/// bit for bit.
pub proof fn profile_round_trip(temperature_bits: u32)
    ensures
        profile_of(temperature_bits).temperature_bits == temperature_bits,
{
}

} // verus!
