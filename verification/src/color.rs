use vstd::prelude::*;

verus! {

/// A color by its red, green and blue channels. Transparency is no part of
/// it: two colors that differ only in it are the same color here.
#[derive(Clone, Copy, PartialEq, Eq, Structural, Debug)]
pub struct ColorData {
    pub red: u8,
    pub green: u8,
    pub blue: u8,
}

impl ColorData {
    pub fn new(red: u8, green: u8, blue: u8) -> (color: Self)
        ensures
            color == (ColorData { red, green, blue }),
    {
        ColorData { red, green, blue }
    }

    /// Whether both colors have the same three channels.
    pub fn same_channels(&self, other: &ColorData) -> (same: bool)
        ensures
            same == (*self == *other),
    {
        self.red == other.red && self.green == other.green && self.blue == other.blue
    }
}

} // verus!
