//! The clip display: an empty canvas redrawn every frame.
use vstd::prelude::*;

verus! {

/// What a widget asks of the canvas it is drawn on.
#[derive(Debug, Clone, Copy, PartialEq, Eq)]
pub struct CanvasRequest {
    /// Whether the canvas must be drawn again on the next frame.
    pub request_repaint: bool,
}

/// The clip display.
pub struct DisplayClip {}

impl DisplayClip {
    /// The clip display draws an empty canvas and asks to be redrawn on the
    /// next frame.
    pub fn ui(&mut self) -> (r: CanvasRequest)
        ensures
            r.request_repaint,
    {
        CanvasRequest { request_repaint: true }
    }
}

} // verus!
