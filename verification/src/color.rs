use vstd::prelude::*;

verus! {

/// One of the two drawable pixel states of the bi-color panel.
///
/// Frame buffers pack eight pixels per byte, one bit each; a flat fill of a
/// color therefore repeats the color's byte encoding.
#[derive(Clone, Copy, Debug, PartialEq, Eq, Structural)]
pub enum Color {
    /// All eight pixels of a byte set (bit value 0).
    Black,
    /// All eight pixels of a byte clear (bit value 1).
    White,
}

impl Color {
    /// The byte that fills one packed plane byte (eight pixels) with this color.
    pub open spec fn spec_byte_value(self) -> u8 {
        match self {
            Color::Black => 0x00,
            Color::White => 0xff,
        }
    }

    /// Returns the packed-plane fill byte of this color.
    pub fn get_byte_value(self) -> (r: u8)
        ensures
            r == self.spec_byte_value(),
    {
        match self {
            Color::Black => 0x00,
            Color::White => 0xff,
        }
    }
}

} // verus!
