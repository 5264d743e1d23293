use vstd::prelude::*;

verus! {

/// A colour as red, green, blue and opacity.
#[derive(Clone, Copy, Debug, PartialEq, Eq, Structural)]
pub struct Rgba {
    pub r: u8,
    pub g: u8,
    pub b: u8,
    pub a: u8,
}

impl Rgba {
    /// The opaque colour of the given red, green and blue.
    pub fn opaque(r: u8, g: u8, b: u8) -> (color: Rgba)
        ensures
            color == (Rgba { r, g, b, a: 255 }),
    {
        Rgba { r, g, b, a: 255 }
    }
}

} // verus!
