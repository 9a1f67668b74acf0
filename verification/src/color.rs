//! Background colors of scenes, given either as three channels or as a hex value.
use vstd::prelude::*;
use crate::hex::{format_hex_color, parse_hex_color, spec_format_hex, spec_parse_hex, HexParseError};

verus! {

/// A color given by its red, green and blue channels.
#[derive(Debug, Clone, Copy, PartialEq, Eq, Structural)]
pub struct RgbColor(pub u8, pub u8, pub u8);

/// A color given as one number `0xRRGGBB`; the highest byte is ignored.
#[derive(Debug, Clone, Copy, PartialEq, Eq, Structural)]
pub struct HexColor(pub u32);

/// A background color, as the config gives it.
#[derive(Debug, Clone, Copy, PartialEq, Eq, Structural)]
pub enum Color {
    Rgb(RgbColor),
    Hex(HexColor),
}

/// The value of the default background color.
pub open spec fn default_hex_value() -> u32 {
    0x071019
}

/// The red, green and blue bytes of `0xRRGGBB` (bytes 1 to 3 of the big-endian
/// encoding of `v`).
pub open spec fn spec_hex_channels(v: u32) -> (u8, u8, u8) {
    (((v / 0x10000) % 0x100) as u8, ((v / 0x100) % 0x100) as u8, (v % 0x100) as u8)
}

/// The channels of a color.
pub open spec fn spec_color_channels(c: Color) -> (u8, u8, u8) {
    match c {
        Color::Rgb(RgbColor(r, g, b)) => (r, g, b),
        Color::Hex(HexColor(v)) => spec_hex_channels(v),
    }
}

/// The channels of `0xRRGGBB` are its three low bytes, red highest: put
/// together again they give the value without its highest byte.
pub proof fn law_hex_channels_recombine(v: u32)
    ensures
        spec_hex_channels(v).0 * 0x10000 + spec_hex_channels(v).1 * 0x100
            + spec_hex_channels(v).2 == v % 0x1000000,
{
    let r = spec_hex_channels(v).0 as int;
    let g = spec_hex_channels(v).1 as int;
    let b = spec_hex_channels(v).2 as int;
    assert(r * 0x10000 + g * 0x100 + b == v % 0x1000000) by (nonlinear_arith)
        requires
            r == (v / 0x10000) % 0x100,
            g == (v / 0x100) % 0x100,
            b == v % 0x100,
            0 <= v,
    ;
}

impl RgbColor {
    pub fn new(r: u8, g: u8, b: u8) -> (c: Self)
        ensures
            c == RgbColor(r, g, b),
    {
        RgbColor(r, g, b)
    }

    /// The red, green and blue channels.
    pub fn channels(&self) -> (r: (u8, u8, u8))
        ensures
            r == (self.0, self.1, self.2),
    {
        (self.0, self.1, self.2)
    }
}

impl HexColor {
    pub fn new(v: u32) -> (c: Self)
        ensures
            c == HexColor(v),
    {
        HexColor(v)
    }

    /// The number this color was given as.
    pub fn value(&self) -> (r: u32)
        ensures
            r == self.0,
    {
        self.0
    }

    /// The red, green and blue channels of `0xRRGGBB`.
    pub fn channels(&self) -> (r: (u8, u8, u8))
        ensures
            r == spec_hex_channels(self.0),
    {
        let v = self.0;
        let r: u32 = (v >> 16u32) & 0xffu32;
        let g: u32 = (v >> 8u32) & 0xffu32;
        let b: u32 = v & 0xffu32;
        assert(r == (v / 0x10000) % 0x100) by (bit_vector)
            requires
                r == (v >> 16u32) & 0xffu32,
        ;
        assert(g == (v / 0x100) % 0x100) by (bit_vector)
            requires
                g == (v >> 8u32) & 0xffu32,
        ;
        assert(b == v % 0x100) by (bit_vector)
            requires
                b == v & 0xffu32,
        ;
        (r as u8, g as u8, b as u8)
    }

    /// Reads a hex color from its config text, such as `"#071019"`,
    /// `"0x071019"` or `"071019"` (see `parse_hex_color`).
    pub fn parse(s: &str) -> (r: Result<HexColor, HexParseError>)
        ensures
            match spec_parse_hex(s@) {
                Ok(v) => r == Ok::<HexColor, HexParseError>(HexColor(v)),
                Err(e) => r == Err::<HexColor, HexParseError>(e),
            },
    {
        match parse_hex_color(s) {
            Ok(v) => Ok(HexColor(v)),
            Err(e) => Err(e),
        }
    }

    /// The config text of this color: `'#'` and the upper-case hex digits.
    pub fn to_text(&self) -> (r: String)
        ensures
            r@ == spec_format_hex(self.0),
    {
        format_hex_color(self.0)
    }
}

impl Color {
    /// The red, green and blue channels of the color.
    pub fn channels(&self) -> (r: (u8, u8, u8))
        ensures
            r == spec_color_channels(*self),
    {
        match self {
            Color::Rgb(c) => c.channels(),
            Color::Hex(c) => c.channels(),
        }
    }
}

impl Default for Color {
    fn default() -> (c: Self)
        ensures
            c == Color::Hex(HexColor(default_hex_value())),
    {
        Color::Hex(HexColor(0x071019))
    }
}

} // verus!
