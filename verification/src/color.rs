use vstd::prelude::*;

verus! {

/// An RGB color, one byte per channel.
///
/// The host shell's color picker reports channels as fractions of full
/// intensity; the library stores them as values out of 255.
#[derive(Clone, Copy, Debug, PartialEq, Eq, Structural)]
pub struct Rgb {
    pub r: u8,
    pub g: u8,
    pub b: u8,
}

impl Rgb {
    /// The background color: full intensity on every channel.
    pub fn white() -> (c: Rgb)
        ensures
            c == (Rgb { r: 255, g: 255, b: 255 }),
    {
        Rgb { r: 255, g: 255, b: 255 }
    }

    /// The default drawing color at startup.
    pub fn red() -> (c: Rgb)
        ensures
            c == (Rgb { r: 255, g: 0, b: 0 }),
    {
        Rgb { r: 255, g: 0, b: 0 }
    }
}

} // verus!
