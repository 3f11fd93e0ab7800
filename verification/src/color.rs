//! The abstract color model: each color format is a tuple of channel values,
//! described by a channel count (1 to 5) and a channel bit width (8 or 16).

use vstd::prelude::*;

verus! {

/// Metadata about a color format: how many channels it has and how wide each
/// channel is. Channel values are always handed around as `u16`; for an
/// 8-bit format only the low 8 bits are ever meaningful.
pub trait Color: Sized {
    /// The number of channels of this color format, as a
    /// specification-level value.
    ///
    /// - For RGB (or any permutation thereof), this is 3.
    /// - For RGBW, this is 4.
    /// - For RGB plus correlated color temperature, this is 5.
    /// - For white with correlated color temperature, this is 2.
    /// - For white only, this is 1.
    spec fn spec_channels() -> u8;

    /// The bit width of a single channel of this color format, as a
    /// specification-level value. Either 8 or 16.
    spec fn spec_bits() -> u8;

    /// The channel count and bit width are always in range.
    proof fn format_in_range()
        ensures
            1 <= Self::spec_channels() <= 5,
            Self::spec_bits() == 8 || Self::spec_bits() == 16,
    ;

    /// The number of channels of this color format.
    fn channels() -> (n: u8)
        ensures
            n == Self::spec_channels(),
    ;

    /// The bit width of a single channel of this color format.
    fn bits() -> (b: u8)
        ensures
            b == Self::spec_bits(),
    ;
}

/// A color with red, green and blue channels of 8 bits each. This is the
/// format most smart LEDs use.
#[derive(Clone, Copy, PartialEq, Eq, Structural, Debug)]
pub struct Rgb8 {
    /// Red channel value.
    pub r: u8,
    /// Green channel value.
    pub g: u8,
    /// Blue channel value.
    pub b: u8,
}

impl Color for Rgb8 {
    open spec fn spec_channels() -> u8 {
        3
    }

    open spec fn spec_bits() -> u8 {
        8
    }

    proof fn format_in_range() {
    }

    fn channels() -> u8 {
        3
    }

    fn bits() -> u8 {
        8
    }
}

/// A color with red, green and blue channels of 16 bits each.
#[derive(Clone, Copy, PartialEq, Eq, Structural, Debug)]
pub struct Rgb16 {
    /// Red channel value.
    pub r: u16,
    /// Green channel value.
    pub g: u16,
    /// Blue channel value.
    pub b: u16,
}

impl Color for Rgb16 {
    open spec fn spec_channels() -> u8 {
        3
    }

    open spec fn spec_bits() -> u8 {
        16
    }

    proof fn format_in_range() {
    }

    fn channels() -> u8 {
        3
    }

    fn bits() -> u8 {
        16
    }
}

/// A color with red, green, blue and white channels of 8 bits each, for LEDs
/// that contain a separate white emitter next to the colored ones.
#[derive(Clone, Copy, PartialEq, Eq, Structural, Debug)]
pub struct Rgbw8 {
    /// Red channel value.
    pub r: u8,
    /// Green channel value.
    pub g: u8,
    /// Blue channel value.
    pub b: u8,
    /// White channel value.
    pub w: u8,
}

impl Color for Rgbw8 {
    open spec fn spec_channels() -> u8 {
        4
    }

    open spec fn spec_bits() -> u8 {
        8
    }

    proof fn format_in_range() {
    }

    fn channels() -> u8 {
        4
    }

    fn bits() -> u8 {
        8
    }
}

/// A color with red, green and blue channels plus a cold-white and a
/// warm-white channel, 8 bits each.
#[derive(Clone, Copy, PartialEq, Eq, Structural, Debug)]
pub struct Rgbcct8 {
    /// Red channel value.
    pub r: u8,
    /// Green channel value.
    pub g: u8,
    /// Blue channel value.
    pub b: u8,
    /// Cold-white channel value.
    pub cold: u8,
    /// Warm-white channel value.
    pub warm: u8,
}

impl Color for Rgbcct8 {
    open spec fn spec_channels() -> u8 {
        5
    }

    open spec fn spec_bits() -> u8 {
        8
    }

    proof fn format_in_range() {
    }

    fn channels() -> u8 {
        5
    }

    fn bits() -> u8 {
        8
    }
}

/// A color with a single 8-bit white channel.
#[derive(Clone, Copy, PartialEq, Eq, Structural, Debug)]
pub struct White8 {
    /// White channel value.
    pub w: u8,
}

impl Color for White8 {
    open spec fn spec_channels() -> u8 {
        1
    }

    open spec fn spec_bits() -> u8 {
        8
    }

    proof fn format_in_range() {
    }

    fn channels() -> u8 {
        1
    }

    fn bits() -> u8 {
        8
    }
}

/// A color with a cold-white and a warm-white channel of 8 bits each, for
/// white LEDs with an adjustable correlated color temperature.
#[derive(Clone, Copy, PartialEq, Eq, Structural, Debug)]
pub struct CctWhite8 {
    /// Cold-white channel value.
    pub cold: u8,
    /// Warm-white channel value.
    pub warm: u8,
}

impl Color for CctWhite8 {
    open spec fn spec_channels() -> u8 {
        2
    }

    open spec fn spec_bits() -> u8 {
        8
    }

    proof fn format_in_range() {
    }

    fn channels() -> u8 {
        2
    }

    fn bits() -> u8 {
        8
    }
}

} // verus!
