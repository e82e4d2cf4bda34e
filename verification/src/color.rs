use vstd::prelude::*;

verus! {

/// One pixel of the rendered image, as red, green and blue intensities.
#[derive(Clone, Copy, Debug, PartialEq, Eq, Structural)]
pub struct Color {
    pub r: u8,
    pub g: u8,
    pub b: u8,
}

impl Color {
    /// The colour of a blank screen.
    pub open spec fn black() -> Color {
        Color { r: 0, g: 0, b: 0 }
    }
}

} // verus!
