//! Display colours of zones and modes.

use crate::mode::Mode;
use crate::monitor::ThermalApp;
use crate::zone::ThermalZone;
use eframe::egui::Color32;
use vstd::prelude::*;

verus! {

/// Makes `egui::Color32` known to the verifier, as a type whose inside it does
/// not see.
#[verifier::external_type_specification]
#[verifier::external_body]
pub struct ExColor32(Color32);

/// The four channels of a colour as `Color32::to_tuple` returns them: red,
/// green, blue and alpha.
pub uninterp spec fn color32_channels(color: Color32) -> (u8, u8, u8, u8);

/// Calls `Color32::from_rgb`. The colour that comes back holds the three
/// channels given and is fully opaque, that is, its alpha is 255.
#[verifier::external_body]
fn color32_from_rgb(r: u8, g: u8, b: u8) -> (color: Color32)
    ensures
        color32_channels(color) == (r, g, b, 255u8),
{
    Color32::from_rgb(r, g, b)
}

/// The channels of the fully opaque colour with the given red, green and blue.
pub open spec fn solid(rgb: (u8, u8, u8)) -> (u8, u8, u8, u8) {
    (rgb.0, rgb.1, rgb.2, 255u8)
}

/// The display colour of a mode as red, green and blue. `Unknown` is grey.
pub open spec fn mode_rgb(mode: Mode) -> (u8, u8, u8) {
    match mode {
        Mode::Performance => (255u8, 100u8, 100u8),
        Mode::Comfort => (100u8, 200u8, 255u8),
        Mode::Balanced => (150u8, 220u8, 100u8),
        Mode::Quiet => (180u8, 180u8, 220u8),
        Mode::Auto => (255u8, 200u8, 100u8),
        Mode::Unknown => (160u8, 160u8, 160u8),
    }
}

/// The display colour of a mode as red, green and blue.
pub fn mode_color_rgb(mode: Mode) -> (color: (u8, u8, u8))
    ensures
        color == mode_rgb(mode),
{
    match mode {
        Mode::Performance => (255, 100, 100),
        Mode::Comfort => (100, 200, 255),
        Mode::Balanced => (150, 220, 100),
        Mode::Quiet => (180, 180, 220),
        Mode::Auto => (255, 200, 100),
        Mode::Unknown => (160, 160, 160),
    }
}

impl ThermalApp {
    /// The display colour of a zone: that of [`ThermalZone::color_rgb`], fully
    /// opaque.
    pub fn zone_color(zone: ThermalZone) -> (color: Color32)
        ensures
            color32_channels(color) == solid(zone.rgb()),
    {
        let (r, g, b) = zone.color_rgb();
        color32_from_rgb(r, g, b)
    }

    /// The display colour of a mode: that of [`mode_color_rgb`], fully opaque.
    pub fn mode_color(mode: Mode) -> (color: Color32)
        ensures
            color32_channels(color) == solid(mode_rgb(mode)),
    {
        let (r, g, b) = mode_color_rgb(mode);
        color32_from_rgb(r, g, b)
    }
}

/// No two modes share a display colour.
pub proof fn lemma_mode_colors_distinct(a: Mode, b: Mode)
    requires
        mode_rgb(a) == mode_rgb(b),
    ensures
        a == b,
{
}

/// Colours with the same channels after [`solid`] have the same red, green and
/// blue: making a colour opaque keeps zones and modes apart.
pub proof fn lemma_solid_keeps_apart(a: (u8, u8, u8), b: (u8, u8, u8))
    requires
        solid(a) == solid(b),
    ensures
        a == b,
{
}

} // verus!
