//! Colour types intended for use in Crispii: validated channels, a colour that
//! packs into 24-bit and 32-bit integers, and a palette of named colours.
pub mod colour;
pub mod error;
pub mod palette;

pub use colour::Colour;
pub use colour::ColourChannelIntensity;
pub use colour::OpacityChannelIntensity;
pub use error::ColourError;
pub use palette::Palette;
