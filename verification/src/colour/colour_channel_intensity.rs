use vstd::prelude::*;

verus! {

/// The intensity of one colour channel (red, green or blue) as a byte, from
/// `0x00` to `0xFF` inclusive. Every byte is a legal intensity.
#[derive(Debug, Clone, Copy)]
pub struct ColourChannelIntensity {
    intensity: u8,
}

impl View for ColourChannelIntensity {
    type V = u8;

    /// The channel's byte.
    closed spec fn view(&self) -> u8 {
        self.intensity
    }
}

impl ColourChannelIntensity {
    pub fn new(hex: u8) -> (channel: Self)
        ensures
            channel@ == hex,
    {
        Self { intensity: hex }
    }

    pub fn get_intensity(&self) -> (intensity: u8)
        ensures
            intensity == self@,
    {
        self.intensity
    }
}

} // verus!
