//! Colours.
use vstd::prelude::*;
use crate::scalar::Scalar;

verus! {

/// A colour: red, green, blue and alpha. The channels are meant to lie
/// between zero and one but are not clamped.
#[derive(Clone, Copy, Debug)]
pub struct Color {
    pub r: Scalar,
    pub g: Scalar,
    pub b: Scalar,
    pub a: Scalar,
}

impl Color {
    /// The colour with the given channels.
    pub fn new(r: Scalar, g: Scalar, b: Scalar, a: Scalar) -> (c: Color)
        ensures
            c == (Color { r, g, b, a }),
    {
        Color { r, g, b, a }
    }

    /// All four channels, alpha last.
    pub fn as_array_rgba(&self) -> (out: [Scalar; 4])
        ensures
            out@ == seq![self.r, self.g, self.b, self.a],
    {
        [self.r, self.g, self.b, self.a]
    }

    /// The three colour channels, without alpha.
    pub fn as_array_rgb(&self) -> (out: [Scalar; 3])
        ensures
            out@ == seq![self.r, self.g, self.b],
    {
        [self.r, self.g, self.b]
    }
}

} // verus!
