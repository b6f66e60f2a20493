use vstd::prelude::*;

verus! {

/// How a debug rectangle is drawn.
#[derive(Clone, Copy, Debug, PartialEq, Eq, Structural)]
pub enum DebugRectStyle {
    /// The outline with both diagonals.
    CrossedBox,
}

} // verus!
