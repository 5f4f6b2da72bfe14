//! The choice of mode that starts the console over.

use crate::nm::types::Mode;
use vstd::prelude::*;

verus! {

/// The dialog in which the operator picks the mode to start over in.
#[derive(Debug, Clone, Copy, PartialEq, Eq, Structural)]
pub struct Reset {
    /// Whether the dialog is up.
    pub enable: bool,
    pub selected_mode: Mode,
}

impl Reset {
    pub fn new(mode: Mode) -> (r: Reset)
        ensures
            r == (Reset { enable: false, selected_mode: mode }),
    {
        Reset { enable: false, selected_mode: mode }
    }
}

} // verus!
