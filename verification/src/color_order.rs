//! Common channel orderings: the permutation from a logical channel index
//! (the position on the wire) to the semantic source field of a color value.

use vstd::prelude::*;
use crate::color::Color;
use crate::color::Rgb16;
use crate::color::Rgb8;
use crate::color::Rgbw8;

verus! {

/// Order of colors in the physical LEDs.
///
/// The most common color orders for RGB LEDs are [`Rgb`] (most integrated
/// controllers like WS2812) and [`Grb`]. Note that discrete ICs have generic
/// channels and are often wired up arbitrarily, so you will have to check
/// which order is correct for your hardware.
///
/// Implementations of this are marker enums: they carry no data and
/// only select an ordering at the type level.
pub trait ColorOrder<C: Color> {
    /// The value this ordering sends for the given wire position, as a
    /// specification-level function.
    spec fn spec_channel_data(color: C, channel: int) -> u16;

    /// Retrieve the output value for the provided channel.
    ///
    /// For instance, if the color order is RGB, then the red value will be
    /// returned for channel 0, the green value for channel 1 and the blue
    /// value for channel 2.
    ///
    /// The channel index must be below the channel count of the color
    /// format; indices are always generated internally from that count,
    /// never taken from untrusted input.
    fn get_channel_data(color: &C, channel: u8) -> (v: u16)
        requires
            channel < C::spec_channels(),
        ensures
            v == Self::spec_channel_data(*color, channel as int),
    ;
}

/// [`ColorOrder`] RGB: red, then green, then blue.
pub enum Rgb {
    /// The only value of this marker type; it carries nothing.
    Marker,
}

impl ColorOrder<Rgb8> for Rgb {
    open spec fn spec_channel_data(color: Rgb8, channel: int) -> u16 {
        if channel == 0 {
            color.r as u16
        } else if channel == 1 {
            color.g as u16
        } else {
            color.b as u16
        }
    }

    fn get_channel_data(color: &Rgb8, channel: u8) -> u16 {
        match channel {
            0 => color.r as u16,
            1 => color.g as u16,
            _ => color.b as u16,
        }
    }
}

impl ColorOrder<Rgb16> for Rgb {
    open spec fn spec_channel_data(color: Rgb16, channel: int) -> u16 {
        if channel == 0 {
            color.r
        } else if channel == 1 {
            color.g
        } else {
            color.b
        }
    }

    fn get_channel_data(color: &Rgb16, channel: u8) -> u16 {
        match channel {
            0 => color.r,
            1 => color.g,
            _ => color.b,
        }
    }
}

/// [`ColorOrder`] RBG: red, then blue, then green.
pub enum Rbg {
    /// The only value of this marker type; it carries nothing.
    Marker,
}

impl ColorOrder<Rgb8> for Rbg {
    open spec fn spec_channel_data(color: Rgb8, channel: int) -> u16 {
        if channel == 0 {
            color.r as u16
        } else if channel == 1 {
            color.b as u16
        } else {
            color.g as u16
        }
    }

    fn get_channel_data(color: &Rgb8, channel: u8) -> u16 {
        match channel {
            0 => color.r as u16,
            1 => color.b as u16,
            _ => color.g as u16,
        }
    }
}

impl ColorOrder<Rgb16> for Rbg {
    open spec fn spec_channel_data(color: Rgb16, channel: int) -> u16 {
        if channel == 0 {
            color.r
        } else if channel == 1 {
            color.b
        } else {
            color.g
        }
    }

    fn get_channel_data(color: &Rgb16, channel: u8) -> u16 {
        match channel {
            0 => color.r,
            1 => color.b,
            _ => color.g,
        }
    }
}

/// [`ColorOrder`] GRB: green, then red, then blue.
pub enum Grb {
    /// The only value of this marker type; it carries nothing.
    Marker,
}

impl ColorOrder<Rgb8> for Grb {
    open spec fn spec_channel_data(color: Rgb8, channel: int) -> u16 {
        if channel == 0 {
            color.g as u16
        } else if channel == 1 {
            color.r as u16
        } else {
            color.b as u16
        }
    }

    fn get_channel_data(color: &Rgb8, channel: u8) -> u16 {
        match channel {
            0 => color.g as u16,
            1 => color.r as u16,
            _ => color.b as u16,
        }
    }
}

impl ColorOrder<Rgb16> for Grb {
    open spec fn spec_channel_data(color: Rgb16, channel: int) -> u16 {
        if channel == 0 {
            color.g
        } else if channel == 1 {
            color.r
        } else {
            color.b
        }
    }

    fn get_channel_data(color: &Rgb16, channel: u8) -> u16 {
        match channel {
            0 => color.g,
            1 => color.r,
            _ => color.b,
        }
    }
}

/// [`ColorOrder`] GBR: green, then blue, then red.
pub enum Gbr {
    /// The only value of this marker type; it carries nothing.
    Marker,
}

impl ColorOrder<Rgb8> for Gbr {
    open spec fn spec_channel_data(color: Rgb8, channel: int) -> u16 {
        if channel == 0 {
            color.g as u16
        } else if channel == 1 {
            color.b as u16
        } else {
            color.r as u16
        }
    }

    fn get_channel_data(color: &Rgb8, channel: u8) -> u16 {
        match channel {
            0 => color.g as u16,
            1 => color.b as u16,
            _ => color.r as u16,
        }
    }
}

impl ColorOrder<Rgb16> for Gbr {
    open spec fn spec_channel_data(color: Rgb16, channel: int) -> u16 {
        if channel == 0 {
            color.g
        } else if channel == 1 {
            color.b
        } else {
            color.r
        }
    }

    fn get_channel_data(color: &Rgb16, channel: u8) -> u16 {
        match channel {
            0 => color.g,
            1 => color.b,
            _ => color.r,
        }
    }
}

/// [`ColorOrder`] BRG: blue, then red, then green.
pub enum Brg {
    /// The only value of this marker type; it carries nothing.
    Marker,
}

impl ColorOrder<Rgb8> for Brg {
    open spec fn spec_channel_data(color: Rgb8, channel: int) -> u16 {
        if channel == 0 {
            color.b as u16
        } else if channel == 1 {
            color.r as u16
        } else {
            color.g as u16
        }
    }

    fn get_channel_data(color: &Rgb8, channel: u8) -> u16 {
        match channel {
            0 => color.b as u16,
            1 => color.r as u16,
            _ => color.g as u16,
        }
    }
}

impl ColorOrder<Rgb16> for Brg {
    open spec fn spec_channel_data(color: Rgb16, channel: int) -> u16 {
        if channel == 0 {
            color.b
        } else if channel == 1 {
            color.r
        } else {
            color.g
        }
    }

    fn get_channel_data(color: &Rgb16, channel: u8) -> u16 {
        match channel {
            0 => color.b,
            1 => color.r,
            _ => color.g,
        }
    }
}

/// [`ColorOrder`] BGR: blue, then green, then red.
pub enum Bgr {
    /// The only value of this marker type; it carries nothing.
    Marker,
}

impl ColorOrder<Rgb8> for Bgr {
    open spec fn spec_channel_data(color: Rgb8, channel: int) -> u16 {
        if channel == 0 {
            color.b as u16
        } else if channel == 1 {
            color.g as u16
        } else {
            color.r as u16
        }
    }

    fn get_channel_data(color: &Rgb8, channel: u8) -> u16 {
        match channel {
            0 => color.b as u16,
            1 => color.g as u16,
            _ => color.r as u16,
        }
    }
}

impl ColorOrder<Rgb16> for Bgr {
    open spec fn spec_channel_data(color: Rgb16, channel: int) -> u16 {
        if channel == 0 {
            color.b
        } else if channel == 1 {
            color.g
        } else {
            color.r
        }
    }

    fn get_channel_data(color: &Rgb16, channel: u8) -> u16 {
        match channel {
            0 => color.b,
            1 => color.g,
            _ => color.r,
        }
    }
}

/// For every in-range channel index, [`Rgb`] sends the documented field:
/// red at position 0, green at position 1, blue at position 2. Together with
/// the contract of `get_channel_data` this pins down the value returned for
/// each index of this ordering.
pub proof fn lemma_rgb_order(c: Rgb8)
    ensures
        <Rgb as ColorOrder<Rgb8>>::spec_channel_data(c, 0) == c.r as u16,
        <Rgb as ColorOrder<Rgb8>>::spec_channel_data(c, 1) == c.g as u16,
        <Rgb as ColorOrder<Rgb8>>::spec_channel_data(c, 2) == c.b as u16,
{
}

/// For every in-range channel index, [`Rbg`] sends red, then blue, then
/// green.
pub proof fn lemma_rbg_order(c: Rgb8)
    ensures
        <Rbg as ColorOrder<Rgb8>>::spec_channel_data(c, 0) == c.r as u16,
        <Rbg as ColorOrder<Rgb8>>::spec_channel_data(c, 1) == c.b as u16,
        <Rbg as ColorOrder<Rgb8>>::spec_channel_data(c, 2) == c.g as u16,
{
}

/// For every in-range channel index, [`Grb`] sends green, then red, then
/// blue.
pub proof fn lemma_grb_order(c: Rgb8)
    ensures
        <Grb as ColorOrder<Rgb8>>::spec_channel_data(c, 0) == c.g as u16,
        <Grb as ColorOrder<Rgb8>>::spec_channel_data(c, 1) == c.r as u16,
        <Grb as ColorOrder<Rgb8>>::spec_channel_data(c, 2) == c.b as u16,
{
}

/// For every in-range channel index, [`Gbr`] sends green, then blue, then
/// red.
pub proof fn lemma_gbr_order(c: Rgb8)
    ensures
        <Gbr as ColorOrder<Rgb8>>::spec_channel_data(c, 0) == c.g as u16,
        <Gbr as ColorOrder<Rgb8>>::spec_channel_data(c, 1) == c.b as u16,
        <Gbr as ColorOrder<Rgb8>>::spec_channel_data(c, 2) == c.r as u16,
{
}

/// For every in-range channel index, [`Brg`] sends blue, then red, then
/// green.
pub proof fn lemma_brg_order(c: Rgb8)
    ensures
        <Brg as ColorOrder<Rgb8>>::spec_channel_data(c, 0) == c.b as u16,
        <Brg as ColorOrder<Rgb8>>::spec_channel_data(c, 1) == c.r as u16,
        <Brg as ColorOrder<Rgb8>>::spec_channel_data(c, 2) == c.g as u16,
{
}

/// For every in-range channel index, [`Bgr`] sends blue, then green, then
/// red.
pub proof fn lemma_bgr_order(c: Rgb8)
    ensures
        <Bgr as ColorOrder<Rgb8>>::spec_channel_data(c, 0) == c.b as u16,
        <Bgr as ColorOrder<Rgb8>>::spec_channel_data(c, 1) == c.g as u16,
        <Bgr as ColorOrder<Rgb8>>::spec_channel_data(c, 2) == c.r as u16,
{
}

/// [`ColorOrder`] RGBW: red, green, blue, then the white channel.
pub enum Rgbw {
    /// The only value of this marker type; it carries nothing.
    Marker,
}

impl ColorOrder<Rgbw8> for Rgbw {
    open spec fn spec_channel_data(color: Rgbw8, channel: int) -> u16 {
        if channel == 0 {
            color.r as u16
        } else if channel == 1 {
            color.g as u16
        } else if channel == 2 {
            color.b as u16
        } else {
            color.w as u16
        }
    }

    fn get_channel_data(color: &Rgbw8, channel: u8) -> u16 {
        match channel {
            0 => color.r as u16,
            1 => color.g as u16,
            2 => color.b as u16,
            _ => color.w as u16,
        }
    }
}

/// For every in-range channel index, [`Rgbw`] sends red, green and blue,
/// then the white channel.
pub proof fn lemma_rgbw_order(c: Rgbw8)
    ensures
        <Rgbw as ColorOrder<Rgbw8>>::spec_channel_data(c, 0) == c.r as u16,
        <Rgbw as ColorOrder<Rgbw8>>::spec_channel_data(c, 1) == c.g as u16,
        <Rgbw as ColorOrder<Rgbw8>>::spec_channel_data(c, 2) == c.b as u16,
        <Rgbw as ColorOrder<Rgbw8>>::spec_channel_data(c, 3) == c.w as u16,
{
}

} // verus!
