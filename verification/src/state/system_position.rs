use vstd::prelude::*;

verus! {

/// Whether the left mouse button is held down over the picture.
#[derive(Clone, Copy, PartialEq, Eq, Structural, Debug)]
pub enum CursorPinch {
    Clamped,
    NotClamped,
}

impl Default for CursorPinch {
    fn default() -> (pinch: Self)
        ensures
            pinch == CursorPinch::NotClamped,
    {
        CursorPinch::NotClamped
    }
}

} // verus!
