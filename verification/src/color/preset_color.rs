//! Named opaque colors.
use crate::color::Rgba8;
use vstd::prelude::*;

verus! {

pub fn black() -> (c: Rgba8)
    ensures
        c == (Rgba8 { r: 0, g: 0, b: 0, a: 255 }),
{
    Rgba8 { r: 0, g: 0, b: 0, a: 255 }
}

pub fn red() -> (c: Rgba8)
    ensures
        c == (Rgba8 { r: 255, g: 0, b: 0, a: 255 }),
{
    Rgba8 { r: 255, g: 0, b: 0, a: 255 }
}

pub fn green() -> (c: Rgba8)
    ensures
        c == (Rgba8 { r: 0, g: 255, b: 0, a: 255 }),
{
    Rgba8 { r: 0, g: 255, b: 0, a: 255 }
}

pub fn blue() -> (c: Rgba8)
    ensures
        c == (Rgba8 { r: 0, g: 0, b: 255, a: 255 }),
{
    Rgba8 { r: 0, g: 0, b: 255, a: 255 }
}

pub fn white() -> (c: Rgba8)
    ensures
        c == (Rgba8 { r: 255, g: 255, b: 255, a: 255 }),
{
    Rgba8 { r: 255, g: 255, b: 255, a: 255 }
}

} // verus!
