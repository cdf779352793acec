//! Colors carried by entities for the rendering layer, as plain RGBA
//! components. The renderer converts them to whatever its API wants.

use vstd::prelude::*;

verus! {

/// An RGBA color, each channel in `0..=255`.
#[derive(Clone, Copy, Debug, PartialEq, Eq, Structural)]
pub struct Colour {
    pub red: u8,
    pub green: u8,
    pub blue: u8,
    pub alpha: u8,
}

pub fn red() -> (c: Colour)
    ensures
        c == (Colour { red: 255, green: 0, blue: 0, alpha: 255 }),
{
    Colour { red: 255, green: 0, blue: 0, alpha: 255 }
}

pub fn green() -> (c: Colour)
    ensures
        c == (Colour { red: 0, green: 255, blue: 0, alpha: 255 }),
{
    Colour { red: 0, green: 255, blue: 0, alpha: 255 }
}

pub fn blue() -> (c: Colour)
    ensures
        c == (Colour { red: 0, green: 0, blue: 255, alpha: 255 }),
{
    Colour { red: 0, green: 0, blue: 255, alpha: 255 }
}

pub fn white() -> (c: Colour)
    ensures
        c == (Colour { red: 255, green: 255, blue: 255, alpha: 255 }),
{
    Colour { red: 255, green: 255, blue: 255, alpha: 255 }
}

pub fn black() -> (c: Colour)
    ensures
        c == (Colour { red: 0, green: 0, blue: 0, alpha: 255 }),
{
    Colour { red: 0, green: 0, blue: 0, alpha: 255 }
}

} // verus!
