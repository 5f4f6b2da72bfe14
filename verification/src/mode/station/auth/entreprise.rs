//! Dialogs for enterprise networks.

pub mod requests;

use vstd::prelude::*;

verus! {

/// The dialog that configures an enterprise network; its fields are filled
/// in outside the core.
#[derive(Debug)]
pub struct WPAEntreprise {
    pub network_name: String,
}

impl WPAEntreprise {
    pub fn new(network_name: String) -> (r: WPAEntreprise)
        ensures
            r.network_name == network_name,
    {
        WPAEntreprise { network_name }
    }
}

} // verus!
