//! How the curves are to be drawn: colours and switches.
//!
//! Nothing here draws. These are plain settings that a renderer reads.

use vstd::prelude::*;
use bevy::color::Srgba;
use crate::scalar::Scalar;
use crate::scalar::ONE_BITS;

verus! {

/// A colour in the sRGB space: red, green, blue and opacity, each a value
/// from 0 to 1.
#[derive(Clone, Copy, Debug, PartialEq, Eq, Structural)]
pub struct SrgbColor {
    pub red: Scalar,
    pub green: Scalar,
    pub blue: Scalar,
    pub alpha: Scalar,
}

/// What `bevy::color::Srgba::hex` makes of a string: the encodings of the
/// red, green, blue and alpha components of the colour that it returns, or
/// `None` where it returns an error.
pub uninterp spec fn srgba_hex(hex: Seq<char>) -> Option<(u32, u32, u32, u32)>;

/// The colour with the given component encodings.
pub open spec fn color_of(components: (u32, u32, u32, u32)) -> SrgbColor {
    SrgbColor {
        red: Scalar { bits: components.0 },
        green: Scalar { bits: components.1 },
        blue: Scalar { bits: components.2 },
        alpha: Scalar { bits: components.3 },
    }
}

/// The colour that a string in hexadecimal notation names, if it names one.
pub open spec fn hex_color(hex: Seq<char>) -> Option<SrgbColor> {
    match srgba_hex(hex) {
        Some(components) => Some(color_of(components)),
        None => None,
    }
}

/// Calls `bevy::color::Srgba::hex` on `hex`. The contract claims only that
/// the outcome is the one that this function has for this string: the four
/// components of the colour, each handed on as its encoding, or `None` for an
/// error.
#[verifier::external_body]
fn parse_srgba_hex(hex: &str) -> (r: Option<(u32, u32, u32, u32)>)
    ensures
        r == srgba_hex(hex@),
{
    match Srgba::hex(hex) {
        Ok(c) => Some((c.red.to_bits(), c.green.to_bits(), c.blue.to_bits(), c.alpha.to_bits())),
        Err(_) => None,
    }
}

impl SrgbColor {
    /// The colour with the given component encodings.
    pub fn from_components(components: (u32, u32, u32, u32)) -> (c: SrgbColor)
        ensures
            c == color_of(components),
    {
        SrgbColor {
            red: Scalar::from_bits(components.0),
            green: Scalar::from_bits(components.1),
            blue: Scalar::from_bits(components.2),
            alpha: Scalar::from_bits(components.3),
        }
    }

    /// Opaque white.
    pub fn white() -> (c: SrgbColor)
        ensures
            c == color_of((ONE_BITS, ONE_BITS, ONE_BITS, ONE_BITS)),
    {
        SrgbColor::from_components((ONE_BITS, ONE_BITS, ONE_BITS, ONE_BITS))
    }
}

/// The colour that `hex` names in hexadecimal notation, or `None` if it names
/// none.
pub fn try_get_color(hex: &str) -> (r: Option<SrgbColor>)
    ensures
        r == hex_color(hex@),
{
    match parse_srgba_hex(hex) {
        Some(_) => Some(get_color(hex)),
        None => None,
    }
}

/// Get a color from a hex string that names one.
pub fn get_color(hex: &str) -> (c: SrgbColor)
    requires
        srgba_hex(hex@) is Some,
    ensures
        Some(c) == hex_color(hex@),
{
    SrgbColor::from_components(parse_srgba_hex(hex).unwrap())
}

/// Whether a curve is drawn in a colour of the user's choosing, and in which.
#[derive(Clone, Copy, Debug, PartialEq, Eq, Structural)]
pub struct ColorControl {
    pub override_enabled: bool,
    pub override_color: SrgbColor,
}

impl ColorControl {
    /// The colour to draw in, given the colour that the curve would have of
    /// its own.
    pub open spec fn resolved(self, own: SrgbColor) -> SrgbColor {
        if self.override_enabled {
            self.override_color
        } else {
            own
        }
    }

    pub fn resolve(&self, own: SrgbColor) -> (c: SrgbColor)
        ensures
            c == self.resolved(own),
    {
        if self.override_enabled {
            self.override_color
        } else {
            own
        }
    }
}

impl Default for ColorControl {
    /// No override; the colour that an override would start from is white.
    fn default() -> (control: ColorControl)
        ensures
            !control.override_enabled,
            control.override_color == color_of((ONE_BITS, ONE_BITS, ONE_BITS, ONE_BITS)),
    {
        ColorControl { override_enabled: false, override_color: SrgbColor::white() }
    }
}

/// The settings of one traced curve and its two companions.
#[derive(Clone, Copy, Debug, PartialEq, Eq, Structural)]
pub struct HypocycloidControls {
    pub color: ColorControl,
    pub inferior_color: ColorControl,
    pub superior_color: ColorControl,
    pub draw_inferior: bool,
    pub draw_exterior: bool,
}

impl Default for HypocycloidControls {
    /// No override for any curve, and neither companion drawn.
    fn default() -> (controls: HypocycloidControls)
        ensures
            !controls.color.override_enabled,
            !controls.inferior_color.override_enabled,
            !controls.superior_color.override_enabled,
            controls.color.override_color == color_of((ONE_BITS, ONE_BITS, ONE_BITS, ONE_BITS)),
            controls.inferior_color == controls.color,
            controls.superior_color == controls.color,
            !controls.draw_inferior,
            !controls.draw_exterior,
    {
        HypocycloidControls {
            color: ColorControl::default(),
            inferior_color: ColorControl::default(),
            superior_color: ColorControl::default(),
            draw_inferior: false,
            draw_exterior: false,
        }
    }
}

} // verus!
