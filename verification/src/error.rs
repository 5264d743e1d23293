use vstd::prelude::*;

verus! {

/// The two ways in which a request to the library can be refused.
#[derive(Clone, Copy, Debug, PartialEq, Eq, Structural)]
pub enum SimError {
    /// A coordinate, or a cell of a stamped pattern, lies outside the grid.
    OutOfBounds,
    /// An extent of the window or of the grid, the cell size or the tick rate
    /// is zero or negative, or the window is too small to hold one cell.
    InvalidConfiguration,
}

} // verus!
