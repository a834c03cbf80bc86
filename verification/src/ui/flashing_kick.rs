//! The flashing kick display.
use vstd::prelude::*;

verus! {

/// The flashing kick display, drawn with a fixed number of points.
pub struct FlashingKick {
    nb_points: usize,
}

impl FlashingKick {
    /// Number of points of the drawing.
    pub closed spec fn spec_nb_points(&self) -> usize {
        self.nb_points
    }

    /// Number of points of the drawing.
    pub fn nb_points(&self) -> (r: usize)
        ensures
            r == self.spec_nb_points(),
    {
        self.nb_points
    }
}

} // verus!
