use vstd::prelude::*;

verus! {

/// An RGB color with 8-bit channels, the value painted onto an overlay
/// window's background.
#[derive(Clone, Copy, PartialEq, Eq, Structural, Debug)]
pub struct Color {
    pub r: u8,
    pub g: u8,
    pub b: u8,
}

/// The `(red, green, blue)` channels that the black-body approximation
/// yields for a given color temperature; the result depends on the
/// temperature alone.
pub uninterp spec fn blackbody_channels(temperature: u32) -> (u8, u8, u8);

/// The color that `convert` returns for a given temperature.
pub open spec fn spec_convert(temperature: u32) -> Color {
    Color {
        r: blackbody_channels(temperature).0,
        g: blackbody_channels(temperature).1,
        b: blackbody_channels(temperature).2,
    }
}

/// Relies on tempergb::rgb_from_temperature: a pure function of the
/// temperature alone, never panicking; its source returns 255 for the red
/// channel whenever the (truncated) temperature lies at or below 6600.
#[verifier::external_body]
fn blackbody_rgb(temperature: u32) -> (rgb: (u8, u8, u8))
    ensures
        rgb == blackbody_channels(temperature),
        temperature <= 6600 ==> rgb.0 == 255,
{
    tempergb::rgb_from_temperature(temperature).into_components()
}

/// Map a color temperature to the RGB color shown on the overlays: a
/// black-body-radiation approximation running from warm amber tones at low
/// temperatures toward white and then cool blue tones.
pub fn convert(temperature: u32) -> (c: Color)
    ensures
        c == spec_convert(temperature),
        temperature <= 6600 ==> c.r == 255,
{
    let (r, g, b) = blackbody_rgb(temperature);
    Color { r, g, b }
}

} // verus!
