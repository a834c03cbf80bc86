//! Drawing helpers of the player window.
use vstd::prelude::*;

verus! {

/// Drawing helpers of the player window (the drawing itself, which works on
/// floating-point coordinates, is done by the application).
pub struct SlintUtils {}

} // verus!
