use vstd::prelude::*;

verus! {

/// Identifies a window of the frame, the tiling of the screen into windows.
pub type WindowId = u64;

/// A direction on the screen, in which a neighbouring window is looked for.
#[derive(Clone, Copy, PartialEq, Eq, Structural, Debug)]
pub enum Direction {
    Left,
    Right,
    Up,
    Down,
}

/// The axis along which a window is split or resized.
#[derive(Clone, Copy, PartialEq, Eq, Structural, Debug)]
pub enum Orientation {
    Horizontal,
    Vertical,
}

/// A step through the windows in the frame's order.
#[derive(Clone, Copy, PartialEq, Eq, Structural, Debug)]
pub enum WindowOrder {
    NextWindow,
    PreviousWindow,
}

} // verus!
