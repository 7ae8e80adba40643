use vstd::prelude::*;

use crate::error::{invalid_argument_error, ColourError};
use crispii_errors::InvalidArgumentError;

verus! {

/// The largest legal opacity percentage: fully opaque.
pub const FULL_OPACITY: u8 = 100;

/// The alpha byte that stands for an opacity percentage: the percentage
/// scaled from `0..=100` to `0..=255` and rounded down.
pub open spec fn opacity_to_byte(percentage: u8) -> u8
    recommends
        percentage <= FULL_OPACITY,
{
    (percentage as nat * 255 / 100) as u8
}

/// `opacity_to_byte` is the floor of `percentage / 100 * 255`: the largest
/// byte whose hundredfold does not exceed 255 times the percentage. The ends
/// of the range map to the ends of the byte range.
pub proof fn lemma_opacity_to_byte_is_floor(percentage: u8)
    requires
        percentage <= FULL_OPACITY,
    ensures
        100 * opacity_to_byte(percentage) <= 255 * percentage < 100 * (opacity_to_byte(percentage) + 1),
        opacity_to_byte(0) == 0,
        opacity_to_byte(FULL_OPACITY) == 255,
{
}

/// Scaling keeps the order of percentages.
pub proof fn lemma_opacity_to_byte_is_monotonic(lower: u8, higher: u8)
    requires
        lower <= higher <= FULL_OPACITY,
    ensures
        opacity_to_byte(lower) <= opacity_to_byte(higher),
{
}

/// The error for a percentage above `FULL_OPACITY`: an invalid argument named
/// `opacity`, with the legal range as the explanation.
pub open spec fn opacity_out_of_range() -> ColourError {
    ColourError::InvalidArgument(
        invalid_argument_error("opacity"@, "Must be between 0 and 100 (inclusive)"@),
    )
}

/// The opacity of a colour as a percentage, from 0 (transparent) to 100
/// (opaque) inclusive.
#[derive(Debug, Clone, Copy)]
pub struct OpacityChannelIntensity {
    intensity: u8,
}

impl View for OpacityChannelIntensity {
    type V = u8;

    /// The percentage.
    closed spec fn view(&self) -> u8 {
        self.intensity
    }
}

impl OpacityChannelIntensity {
    #[verifier::type_invariant]
    spec fn in_range(self) -> bool {
        self.intensity <= FULL_OPACITY
    }

    /// Accepts a percentage of at most 100 and rejects every other byte.
    pub fn new(percentage: u8) -> (result: Result<Self, ColourError>)
        ensures
            percentage <= FULL_OPACITY ==> result is Ok && result->Ok_0@ == percentage,
            percentage > FULL_OPACITY ==> result == Err::<Self, ColourError>(opacity_out_of_range()),
    {
        if percentage > FULL_OPACITY {
            return Err(
                ColourError::InvalidArgument(
                    InvalidArgumentError::new("opacity", "Must be between 0 and 100 (inclusive)"),
                ),
            );
        }
        Ok(Self { intensity: percentage })
    }

    pub fn get_intensity(&self) -> (percentage: u8)
        ensures
            percentage == self@,
            percentage <= FULL_OPACITY,
    {
        proof {
            use_type_invariant(self);
        }
        self.intensity
    }

    /// The alpha byte for this opacity.
    pub fn to_byte(&self) -> (byte: u8)
        ensures
            byte == opacity_to_byte(self@),
    {
        proof {
            use_type_invariant(self);
        }
        let scaled: u32 = self.intensity as u32 * 255;
        (scaled / 100) as u8
    }
}

} // verus!
