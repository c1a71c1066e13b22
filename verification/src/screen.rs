use vstd::prelude::*;

verus! {

/// A position on the terminal screen: row, then column.
#[derive(Clone, Copy, PartialEq, Eq, Structural, Debug)]
pub struct Cell(pub usize, pub usize);

/// An extent on the terminal screen: rows, then columns.
#[derive(Clone, Copy, PartialEq, Eq, Structural, Debug)]
pub struct Size(pub usize, pub usize);

/// A rectangle of the screen: its top-left cell and its size.
#[derive(Clone, Copy, PartialEq, Eq, Structural, Debug)]
pub struct Rect(pub Cell, pub Size);

} // verus!
