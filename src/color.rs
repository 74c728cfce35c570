//! Colours and the solid-colour buffers that hold them.
use crate::geometry::Size;
use vstd::prelude::*;

verus! {

/// A premultiplied RGBA colour, each channel in thousandths (`1000` is full).
#[derive(Clone, Copy, Debug, PartialEq, Eq, Structural)]
pub struct Rgba {
    pub r: u16,
    pub g: u16,
    pub b: u16,
    pub a: u16,
}

impl Rgba {
    pub fn new(r: u16, g: u16, b: u16, a: u16) -> (c: Rgba)
        ensures
            c.r == r,
            c.g == g,
            c.b == b,
            c.a == a,
    {
        Rgba { r, g, b, a }
    }
}

/// A rectangle of one colour, of a given size.
#[derive(Clone, Copy, Debug, PartialEq, Eq, Structural)]
pub struct SolidColorBuffer {
    pub size: Size,
    pub color: Rgba,
}

impl SolidColorBuffer {
    pub fn new(size: Size, color: Rgba) -> (b: SolidColorBuffer)
        ensures
            b.size == size,
            b.color == color,
    {
        SolidColorBuffer { size, color }
    }

    pub fn resize(&mut self, size: Size)
        ensures
            final(self).size == size,
            final(self).color == old(self).color,
    {
        self.size = size;
    }

    pub fn set_color(&mut self, color: Rgba)
        ensures
            final(self).size == old(self).size,
            final(self).color == color,
    {
        self.color = color;
    }
}

} // verus!
