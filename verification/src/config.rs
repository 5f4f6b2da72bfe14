//! The keys that the operator has chosen for the console's actions.

use vstd::prelude::*;

verus! {

/// Keys for the device block.
#[derive(Debug, Clone, Copy, PartialEq, Eq, Structural)]
pub struct DeviceKeys {
    pub infos: char,
    pub toggle_power: char,
}

/// Keys for the list of known networks.
#[derive(Debug, Clone, Copy, PartialEq, Eq, Structural)]
pub struct KnownNetworkKeys {
    pub toggle_autoconnect: char,
    pub remove: char,
    pub show_all: char,
    pub share: char,
    pub speed_test: char,
}

/// Keys for the list of new networks.
#[derive(Debug, Clone, Copy, PartialEq, Eq, Structural)]
pub struct NewNetworkKeys {
    pub show_all: char,
    pub connect_hidden: char,
}

/// Keys for station mode.
#[derive(Debug, Clone, Copy, PartialEq, Eq, Structural)]
pub struct StationKeys {
    pub start_scanning: char,
    pub known_network: KnownNetworkKeys,
    pub new_network: NewNetworkKeys,
}

/// All keys, and whether Escape quits.
#[derive(Debug, Clone, Copy, PartialEq, Eq, Structural)]
pub struct Config {
    /// With Control: opens the choice of mode.
    pub switch: char,
    pub esc_quit: bool,
    pub device: DeviceKeys,
    pub station: StationKeys,
}

} // verus!
