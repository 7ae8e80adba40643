use vstd::prelude::*;

pub mod channel_intensity;
pub mod colour_channel_intensity;
pub mod opacity_channel_intensity;

pub use colour_channel_intensity::ColourChannelIntensity;
pub use opacity_channel_intensity::OpacityChannelIntensity;

use opacity_channel_intensity::{opacity_to_byte, FULL_OPACITY};

verus! {

/// The 24-bit packing of three channel bytes: red in bits 23-16, green in
/// bits 15-8, blue in bits 7-0.
pub open spec fn pack_rgb(r: u8, g: u8, b: u8) -> u32 {
    ((r as u32) << 16) | ((g as u32) << 8) | (b as u32)
}

/// The 32-bit packing of four channel bytes: red in bits 31-24, green in
/// bits 23-16, blue in bits 15-8, alpha in bits 7-0.
pub open spec fn pack_rgba(r: u8, g: u8, b: u8, a: u8) -> u32 {
    ((r as u32) << 24) | ((g as u32) << 16) | ((b as u32) << 8) | (a as u32)
}

/// The fields of a 24-bit packing do not overlap: the packed value is the
/// number whose base-256 digits are red, green and blue, and each channel can
/// be read back from its byte.
pub proof fn lemma_pack_rgb_layout(r: u8, g: u8, b: u8)
    ensures
        pack_rgb(r, g, b) == r * 0x1_0000 + g * 0x100 + b,
        pack_rgb(r, g, b) <= 0xFF_FFFF,
        (pack_rgb(r, g, b) >> 16) & 0xFF == r,
        (pack_rgb(r, g, b) >> 8) & 0xFF == g,
        pack_rgb(r, g, b) & 0xFF == b,
{
    let packed = ((r as u32) << 16) | ((g as u32) << 8) | (b as u32);
    assert(packed == r * 0x1_0000 + g * 0x100 + b) by (bit_vector)
        requires
            packed == ((r as u32) << 16) | ((g as u32) << 8) | (b as u32),
    ;
    assert(packed <= 0xFF_FFFF && (packed >> 16) & 0xFF == r && (packed >> 8) & 0xFF == g && packed
        & 0xFF == b) by (bit_vector)
        requires
            packed == ((r as u32) << 16) | ((g as u32) << 8) | (b as u32),
    ;
}

/// The fields of a 32-bit packing do not overlap: the packed value is the
/// number whose base-256 digits are red, green, blue and alpha, and each
/// channel can be read back from its byte.
pub proof fn lemma_pack_rgba_layout(r: u8, g: u8, b: u8, a: u8)
    ensures
        pack_rgba(r, g, b, a) == r * 0x100_0000 + g * 0x1_0000 + b * 0x100 + a,
        (pack_rgba(r, g, b, a) >> 24) & 0xFF == r,
        (pack_rgba(r, g, b, a) >> 16) & 0xFF == g,
        (pack_rgba(r, g, b, a) >> 8) & 0xFF == b,
        pack_rgba(r, g, b, a) & 0xFF == a,
        pack_rgba(r, g, b, a) >> 8 == pack_rgb(r, g, b),
{
    let packed = ((r as u32) << 24) | ((g as u32) << 16) | ((b as u32) << 8) | (a as u32);
    assert(packed == r * 0x100_0000 + g * 0x1_0000 + b * 0x100 + a) by (bit_vector)
        requires
            packed == ((r as u32) << 24) | ((g as u32) << 16) | ((b as u32) << 8) | (a as u32),
    ;
    assert((packed >> 24) & 0xFF == r && (packed >> 16) & 0xFF == g && (packed >> 8) & 0xFF == b
        && packed & 0xFF == a) by (bit_vector)
        requires
            packed == ((r as u32) << 24) | ((g as u32) << 16) | ((b as u32) << 8) | (a as u32),
    ;
    assert(packed >> 8 == ((r as u32) << 16) | ((g as u32) << 8) | (b as u32)) by (bit_vector)
        requires
            packed == ((r as u32) << 24) | ((g as u32) << 16) | ((b as u32) << 8) | (a as u32),
    ;
}

/// What a colour is: three channel bytes and an opacity percentage.
pub ghost struct ColourView {
    pub red: u8,
    pub green: u8,
    pub blue: u8,
    pub opacity: u8,
}

impl ColourView {
    /// The colour with the given channels and opacity percentage.
    pub open spec fn rgba(red: u8, green: u8, blue: u8, opacity: u8) -> ColourView {
        ColourView { red, green, blue, opacity }
    }

    /// The colour with the given channels and no opacity stated.
    pub open spec fn rgb(red: u8, green: u8, blue: u8) -> ColourView {
        ColourView { red, green, blue, opacity: FULL_OPACITY }
    }

    /// The colour as `0xRR_GG_BB`. The opacity is not part of this value.
    pub open spec fn rgb_hex(self) -> u32 {
        pack_rgb(self.red, self.green, self.blue)
    }

    /// The colour as `0xRR_GG_BB_AA`, with the opacity scaled to a byte.
    pub open spec fn rgba_hex(self) -> u32 {
        pack_rgba(self.red, self.green, self.blue, opacity_to_byte(self.opacity))
    }
}

/// A colour built without an opacity is the colour built from the same
/// channels at full opacity, so the two pack to the same RGBA value, whose
/// alpha byte is `0xFF`.
pub proof fn lemma_rgb_is_fully_opaque_rgba(red: u8, green: u8, blue: u8)
    ensures
        ColourView::rgb(red, green, blue) == ColourView::rgba(red, green, blue, FULL_OPACITY),
        ColourView::rgb(red, green, blue).rgba_hex() == ColourView::rgba(
            red,
            green,
            blue,
            FULL_OPACITY,
        ).rgba_hex(),
        ColourView::rgb(red, green, blue).rgba_hex() == pack_rgba(red, green, blue, 0xFF),
{
}

/// An RGBA colour.
#[derive(Debug, Clone, Copy)]
pub struct Colour {
    r: ColourChannelIntensity,
    g: ColourChannelIntensity,
    b: ColourChannelIntensity,
    a: OpacityChannelIntensity,
}

impl View for Colour {
    type V = ColourView;

    closed spec fn view(&self) -> ColourView {
        ColourView { red: self.r@, green: self.g@, blue: self.b@, opacity: self.a@ }
    }
}

impl Colour {
    pub fn rgba(
        r: ColourChannelIntensity,
        g: ColourChannelIntensity,
        b: ColourChannelIntensity,
        a: OpacityChannelIntensity,
    ) -> (colour: Self)
        ensures
            colour@ == ColourView::rgba(r@, g@, b@, a@),
    {
        Self { r, g, b, a }
    }

    /// The opacity defaults to fully opaque.
    pub fn rgb(r: ColourChannelIntensity, g: ColourChannelIntensity, b: ColourChannelIntensity) -> (colour:
        Self)
        ensures
            colour@ == ColourView::rgb(r@, g@, b@),
    {
        Self { r, g, b, a: OpacityChannelIntensity::new(FULL_OPACITY).expect("legal value") }
    }

    pub fn as_rgb_hex(&self) -> (hex: u32)
        ensures
            hex == self@.rgb_hex(),
    {
        ((self.r.get_intensity() as u32) << 16) | ((self.g.get_intensity() as u32) << 8) | (
        self.b.get_intensity() as u32)
    }

    pub fn as_rgba_hex(&self) -> (hex: u32)
        ensures
            hex == self@.rgba_hex(),
    {
        ((self.r.get_intensity() as u32) << 24) | ((self.g.get_intensity() as u32) << 16) | ((
        self.b.get_intensity() as u32) << 8) | (self.a.to_byte() as u32)
    }
}

} // verus!
