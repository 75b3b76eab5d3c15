//! Fixed-point RGB color types and their textual form.
//!
//! Two distinct types exist because the external driver interprets steady
//! per-key colors (unsigned, 0-255 per channel) differently from "impact"
//! ramp values (signed, out-of-range values permitted by design). Both render
//! as comma-joined decimal `r,g,b` with no padding or brackets.

use vstd::prelude::*;
use vstd::string::StringExecFns;

verus! {

/// The one-character decimal rendering of a digit `d < 10`.
pub open spec fn spec_digit(d: nat) -> Seq<char> {
    if d == 0 {
        "0"@
    } else if d == 1 {
        "1"@
    } else if d == 2 {
        "2"@
    } else if d == 3 {
        "3"@
    } else if d == 4 {
        "4"@
    } else if d == 5 {
        "5"@
    } else if d == 6 {
        "6"@
    } else if d == 7 {
        "7"@
    } else if d == 8 {
        "8"@
    } else {
        "9"@
    }
}

/// The decimal rendering of `n`, most significant digit first, no padding.
pub open spec fn spec_dec(n: nat) -> Seq<char>
    decreases n,
{
    if n < 10 {
        spec_digit(n)
    } else {
        spec_dec(n / 10) + spec_digit(n % 10)
    }
}

/// The decimal rendering of a signed value: a leading `-` for negatives.
pub open spec fn spec_dec_signed(n: int) -> Seq<char> {
    if n < 0 {
        "-"@ + spec_dec((-n) as nat)
    } else {
        spec_dec(n as nat)
    }
}

fn digit_str(d: u32) -> (s: &'static str)
    requires
        d < 10,
    ensures
        s@ == spec_digit(d as nat),
{
    if d == 0 {
        "0"
    } else if d == 1 {
        "1"
    } else if d == 2 {
        "2"
    } else if d == 3 {
        "3"
    } else if d == 4 {
        "4"
    } else if d == 5 {
        "5"
    } else if d == 6 {
        "6"
    } else if d == 7 {
        "7"
    } else if d == 8 {
        "8"
    } else {
        "9"
    }
}

/// Renders `n` in decimal.
pub fn dec_u32(n: u32) -> (s: String)
    ensures
        s@ == spec_dec(n as nat),
    decreases n,
{
    if n < 10 {
        String::from_str(digit_str(n))
    } else {
        let mut s = dec_u32(n / 10);
        s.append(digit_str(n % 10));
        s
    }
}

/// Renders `n` in decimal, with a leading `-` when negative.
pub fn dec_i16(n: i16) -> (s: String)
    ensures
        s@ == spec_dec_signed(n as int),
{
    if n < 0 {
        let m: u32 = (-(n as i32)) as u32;
        assert(m as nat == -(n as int) as nat);
        let mut s = String::from_str("-");
        let digits = dec_u32(m);
        s.append(digits.as_str());
        s
    } else {
        dec_u32(n as u32)
    }
}

/// A steady per-key color: three unsigned 8-bit channels.
#[derive(Clone, Copy, PartialEq, Eq, Structural, Debug)]
pub struct Color {
    pub r: u8,
    pub g: u8,
    pub b: u8,
}

/// The textual form of a [`Color`]: `r,g,b` in decimal.
pub open spec fn spec_color_text(c: Color) -> Seq<char> {
    spec_dec(c.r as nat) + ","@ + spec_dec(c.g as nat) + ","@ + spec_dec(c.b as nat)
}

impl Color {
    /// Builds a color from its three channels; no validation or clamping.
    pub fn from(r: u8, g: u8, b: u8) -> (c: Color)
        ensures
            c == (Color { r, g, b }),
    {
        Color { r, g, b }
    }

    /// Renders the color as `r,g,b`.
    pub fn render(&self) -> (s: String)
        ensures
            s@ == spec_color_text(*self),
    {
        let mut s = dec_u32(self.r as u32);
        s.append(",");
        let g = dec_u32(self.g as u32);
        s.append(g.as_str());
        s.append(",");
        let b = dec_u32(self.b as u32);
        s.append(b.as_str());
        s
    }
}

impl Default for Color {
    /// The default color is black, `(0,0,0)`.
    fn default() -> (c: Color)
        ensures
            c == (Color { r: 0, g: 0, b: 0 }),
    {
        Color { r: 0, g: 0, b: 0 }
    }
}

/// An impact-ramp color: three signed 16-bit channels. Values may be
/// negative or exceed 255; the driver's ramp encoding gives them meaning.
#[derive(Clone, Copy, PartialEq, Eq, Structural, Debug)]
pub struct ImpactColor {
    pub r: i16,
    pub g: i16,
    pub b: i16,
}

/// The textual form of an [`ImpactColor`]: `r,g,b` in signed decimal.
pub open spec fn spec_impact_color_text(c: ImpactColor) -> Seq<char> {
    spec_dec_signed(c.r as int) + ","@ + spec_dec_signed(c.g as int) + ","@ + spec_dec_signed(
        c.b as int,
    )
}

impl ImpactColor {
    /// Builds an impact color from its three channels; no validation.
    pub fn from(r: i16, g: i16, b: i16) -> (c: ImpactColor)
        ensures
            c == (ImpactColor { r, g, b }),
    {
        ImpactColor { r, g, b }
    }

    /// Renders the impact color as `r,g,b`.
    pub fn render(&self) -> (s: String)
        ensures
            s@ == spec_impact_color_text(*self),
    {
        let mut s = dec_i16(self.r);
        s.append(",");
        let g = dec_i16(self.g);
        s.append(g.as_str());
        s.append(",");
        let b = dec_i16(self.b);
        s.append(b.as_str());
        s
    }
}

} // verus!
