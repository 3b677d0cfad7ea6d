//! Application events that flow through the event channel from the input
//! polling task to the main loop.

use vstd::prelude::*;

use crate::keys::Key;

verus! {

/// One event for the main loop.
#[derive(Debug, Clone, Copy, PartialEq, Eq, Structural)]
pub enum AppEvent {
    /// A key was pressed.
    Key(Key),
    /// Request a redraw of the current view.
    Refresh,
    /// The application should quit.
    Quit,
}

} // verus!
