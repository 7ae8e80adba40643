use vstd::prelude::*;

use crispii_digits::Hex;

verus! {

/// `crispii_digits::Hex`, a hexadecimal digit: an enum of sixteen variants
/// without fields, `Zero` to `Nine` and `A` to `F`.
#[verifier::external_type_specification]
pub struct ExHex(Hex);

/// The number that a hexadecimal digit stands for.
pub open spec fn hex_digit_value(digit: Hex) -> u8 {
    match digit {
        Hex::Zero => 0,
        Hex::One => 1,
        Hex::Two => 2,
        Hex::Three => 3,
        Hex::Four => 4,
        Hex::Five => 5,
        Hex::Six => 6,
        Hex::Seven => 7,
        Hex::Eight => 8,
        Hex::Nine => 9,
        Hex::A => 10,
        Hex::B => 11,
        Hex::C => 12,
        Hex::D => 13,
        Hex::E => 14,
        Hex::F => 15,
    }
}

/// Calls `u8::from` on a `crispii_digits::Hex`, which maps each digit to the
/// number it stands for, `Zero` to 0 up to `F` to 15.
#[verifier::external_body]
fn hex_to_u8(digit: Hex) -> (value: u8)
    ensures
        value == hex_digit_value(digit),
{
    u8::from(digit)
}

/// The byte made of a high and a low nibble.
pub open spec fn combine_nibbles(high: u8, low: u8) -> u8 {
    (high << 4) | low
}

/// Two nibbles combine to the byte whose hexadecimal digits they are, and
/// each can be read back from it.
pub proof fn lemma_combine_nibbles_layout(high: u8, low: u8)
    requires
        high < 16,
        low < 16,
    ensures
        combine_nibbles(high, low) == 16 * high + low,
        combine_nibbles(high, low) >> 4 == high,
        combine_nibbles(high, low) & 0xF == low,
{
    let byte = (high << 4) | low;
    assert(byte == 16 * high + low && byte >> 4 == high && byte & 0xF == low) by (bit_vector)
        requires
            byte == (high << 4) | low,
            high < 16,
            low < 16,
    ;
}

/// The intensity of a colour channel as a two digit hex value, from `00` to
/// `FF` inclusive.
#[derive(Clone, Copy, Debug)]
pub struct ChannelIntensity {
    digit2: Hex,
    digit1: Hex,
}

impl View for ChannelIntensity {
    type V = u8;

    /// The byte that the two digits spell, the high digit first.
    closed spec fn view(&self) -> u8 {
        combine_nibbles(hex_digit_value(self.digit2), hex_digit_value(self.digit1))
    }
}

impl ChannelIntensity {
    /// `digit2` is the high digit and `digit1` the low one.
    pub fn new(digit2: Hex, digit1: Hex) -> (channel: Self)
        ensures
            channel@ == combine_nibbles(hex_digit_value(digit2), hex_digit_value(digit1)),
    {
        Self { digit2, digit1 }
    }
}

impl From<ChannelIntensity> for u8 {
    fn from(value: ChannelIntensity) -> (byte: u8)
        ensures
            byte == value@,
    {
        (hex_to_u8(value.digit2) << 4) | hex_to_u8(value.digit1)
    }
}

impl vstd::std_specs::convert::FromSpecImpl<ChannelIntensity> for u8 {
    open spec fn obeys_from_spec() -> bool {
        true
    }

    open spec fn from_spec(value: ChannelIntensity) -> u8 {
        value@
    }
}

} // verus!
