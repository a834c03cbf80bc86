//! Components of the player window built at run time.
use vstd::prelude::*;

verus! {

/// Builder of window components from their source text.
pub struct SlintBuild {}

impl SlintBuild {
    /// Builds the playlist bar component named `name`; its source text is an
    /// empty component, and nothing is built from it yet.
    pub fn build_playlist_bar(&self, name: String) {
        let _code = "
            export component DynPlaylistBar {

            }
        ";
    }
}

} // verus!
