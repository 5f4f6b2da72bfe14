//! Access point mode, as far as the console's keys reach into it.

use crate::mode::station::auth::input::{empty_input, input_text};
use tui_input::Input;
use vstd::prelude::*;

verus! {

/// The two fields of the dialog that starts an access point.
#[derive(Debug, Clone, Copy, PartialEq, Eq, Structural)]
pub enum APFocusedSection {
    SSID,
    PSK,
}

/// The access point of the device.
#[derive(Debug)]
pub struct AccessPoint {
    pub ssid: Input,
    pub psk: Input,
    pub focused_section: APFocusedSection,
    /// Whether the dialog that starts the access point is up.
    pub ap_start: bool,
    /// Addresses of the devices connected to the access point.
    pub connected_devices: Vec<String>,
}

impl AccessPoint {
    pub fn new() -> (r: AccessPoint)
        ensures
            input_text(r.ssid).len() == 0,
            input_text(r.psk).len() == 0,
            r.focused_section == APFocusedSection::SSID,
            !r.ap_start,
            r.connected_devices@.len() == 0,
    {
        AccessPoint {
            ssid: empty_input(),
            psk: empty_input(),
            focused_section: APFocusedSection::SSID,
            ap_start: false,
            connected_devices: Vec::new(),
        }
    }
}

} // verus!
