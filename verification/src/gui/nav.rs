//! The panels of the main window.
use vstd::prelude::*;

verus! {

/// Which panel is currently displayed in the main content area.
#[derive(Debug, Clone, Copy, PartialEq, Eq, Structural)]
pub enum View {
    Inject,
    Eject,
    Status,
    Processes,
    Profiles,
}

impl Default for View {
    /// The inject panel is shown first.
    fn default() -> (r: Self)
        ensures
            r == View::Inject,
    {
        View::Inject
    }
}

} // verus!
