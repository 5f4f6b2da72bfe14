//! The state of the console as a whole.

use crate::adapter::Adapter;
use crate::agent::AuthAgent;
use crate::config::Config;
use crate::device::Device;
use crate::mode::station::auth::input::input_text;
use crate::mode::station::auth::Auth;
use crate::mode::station::network::Network;
use crate::nm::types::Mode;
use crate::notification::Notification;
use crate::reset::Reset;
use vstd::prelude::*;

verus! {

/// The part of the screen that takes the keys.
#[derive(Debug, Clone, Copy, PartialEq, Eq, Structural)]
pub enum FocusedBlock {
    Device,
    AccessPoint,
    KnownNetworks,
    NewNetworks,
    PskAuthKey,
    WpaEntrepriseAuth,
    AdapterInfos,
    AccessPointInput,
    AccessPointConnectedDevices,
    RequestKeyPasshphrase,
    RequestPassword,
    RequestUsernameAndPassword,
    ShareNetwork,
    SpeedTest,
    HiddenSsidInput,
}

/// The console: what is on screen, what the device shows, and which
/// credential request is under way.
pub struct App {
    pub running: bool,
    pub focused_block: FocusedBlock,
    pub notifications: Vec<Notification>,
    pub adapter: Adapter,
    pub device: Device,
    pub agent: AuthAgent,
    pub reset: Reset,
    pub config: Config,
    pub auth: Auth,
    /// Name of the network whose passphrase is being asked for.
    pub network_name_requiring_auth: Option<String>,
    /// The network whose connection waits for the passphrase.
    pub network_pending_auth: Option<Network>,
}

impl App {
    /// The block that takes the keys at the start: the list of the mode for a
    /// powered device, the device itself otherwise.
    pub open spec fn initial_focus(is_powered: bool, mode: Mode) -> FocusedBlock {
        if is_powered {
            match mode {
                Mode::Station => FocusedBlock::KnownNetworks,
                Mode::Ap => FocusedBlock::AccessPoint,
            }
        } else {
            FocusedBlock::Device
        }
    }

    /// At most one connection waits for a passphrase, and while one does the
    /// passphrase dialog has the keys and shows that network's name.
    pub open spec fn well_formed(&self) -> bool {
        &&& self.network_pending_auth is Some ==> self.focused_block == FocusedBlock::PskAuthKey
        &&& self.network_pending_auth matches Some(network)
            ==> self.network_name_requiring_auth matches Some(name) && name@ == network.name@
    }

    /// The console at its start, around a device that has been put into
    /// `mode`.
    pub fn new(adapter: Adapter, device: Device, config: Config, mode: Mode) -> (r: App)
        ensures
            r.running,
            r.focused_block == App::initial_focus(device.is_powered, device.mode),
            r.notifications@.len() == 0,
            r.adapter == adapter,
            r.device == device,
            r.agent@.idle(),
            r.agent@.passphrases.len() == 0,
            r.agent@.credentials.len() == 0,
            r.agent@.cancellations == 0,
            r.reset == (Reset { enable: false, selected_mode: mode }),
            r.config == config,
            input_text(r.auth.psk.passphrase).len() == 0,
            r.auth.hidden.is_blank(),
            r.auth.eap is None,
            r.auth.request_key_passphrase is None,
            r.auth.request_password is None,
            r.auth.request_username_and_password is None,
            r.network_name_requiring_auth is None,
            r.network_pending_auth is None,
            r.well_formed(),
    {
        let focused_block = if device.is_powered {
            match device.mode {
                Mode::Station => FocusedBlock::KnownNetworks,
                Mode::Ap => FocusedBlock::AccessPoint,
            }
        } else {
            FocusedBlock::Device
        };
        App {
            running: true,
            focused_block,
            notifications: Vec::new(),
            adapter,
            device,
            agent: AuthAgent::new(),
            reset: Reset::new(mode),
            config,
            auth: Auth::default(),
            network_name_requiring_auth: None,
            network_pending_auth: None,
        }
    }

    /// One tick of the clock: notifications whose time has run out go, the
    /// others are one tick older. Reading the device anew is the caller's
    /// part.
    pub fn tick(&mut self)
        ensures
            final(self).notifications@ == Notification::aged(old(self).notifications@),
            *final(self) == (App { notifications: final(self).notifications, ..*old(self) }),
    {
        Notification::age(&mut self.notifications);
    }

    /// Ends the console.
    pub fn quit(&mut self)
        ensures
            *final(self) == (App { running: false, ..*old(self) }),
    {
        self.running = false;
    }
}

} // verus!
