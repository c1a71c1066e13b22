use vstd::prelude::*;

verus! {

/// A movement of the caret of a window's view over the buffer.
#[derive(Clone, Copy, PartialEq, Eq, Structural, Debug)]
pub enum CaretMovement {
    CharPrev,
    CharNext,
    LineUp,
    LineDown,
}

} // verus!
