//! The wireless device: whether it is powered, which mode it is in, and the
//! view of that mode.

use crate::mode::ap::AccessPoint;
use crate::mode::station::Station;
use crate::nm::types::Mode;
use crate::notification::{Notification, NotificationLevel, NOTIFICATION_TTL};
use vstd::prelude::*;

verus! {

/// The wireless device.
pub struct Device {
    pub device_path: String,
    pub name: String,
    pub address: String,
    pub mode: Mode,
    pub is_powered: bool,
    pub station: Option<Station>,
    pub ap: Option<AccessPoint>,
}

/// What has to be read from the connection service next, to bring the view
/// of the device's mode up to date.
#[derive(Debug, Clone, Copy, PartialEq, Eq, Structural)]
pub enum Sync {
    /// Nothing: the device is not powered.
    Nothing,
    /// A snapshot for the station view that is there.
    RefreshStation,
    /// A snapshot for a station view, which has to be created.
    CreateStation,
    /// The state of the access point that is there.
    RefreshAp,
    /// An access point view, which has to be created.
    CreateAp,
}

impl Device {
    /// What a powered device in a mode needs created.
    pub open spec fn creation(is_powered: bool, mode: Mode) -> Sync {
        if !is_powered {
            Sync::Nothing
        } else {
            match mode {
                Mode::Station => Sync::CreateStation,
                Mode::Ap => Sync::CreateAp,
            }
        }
    }

    /// What a refresh needs: nothing without power; else the view of the
    /// mode is refreshed where it is there and created where it is not.
    pub open spec fn refreshing(is_powered: bool, mode: Mode, has_station: bool, has_ap: bool) -> Sync {
        if !is_powered {
            Sync::Nothing
        } else {
            match mode {
                Mode::Station => if has_station {
                    Sync::RefreshStation
                } else {
                    Sync::CreateStation
                },
                Mode::Ap => if has_ap {
                    Sync::RefreshAp
                } else {
                    Sync::CreateAp
                },
            }
        }
    }

    /// The device as first found: in station mode, with the station view
    /// only where the device is powered.
    pub fn new(
        device_path: String,
        name: String,
        address: String,
        is_powered: bool,
        station: Option<Station>,
    ) -> (r: Device)
        ensures
            r.device_path == device_path,
            r.name == name,
            r.address == address,
            r.mode == Mode::Station,
            r.is_powered == is_powered,
            r.station == (if is_powered {
                station
            } else {
                None
            }),
            r.ap is None,
    {
        let station = if is_powered {
            station
        } else {
            None
        };
        Device { device_path, name, address, mode: Mode::Station, is_powered, station, ap: None }
    }

    /// Puts the device into a mode: the view of the other mode goes, and the
    /// result says which view has to be created. Until it is put in, the view
    /// of the mode stays as it was.
    pub fn set_mode(&mut self, mode: Mode) -> (r: Sync)
        ensures
            r == Device::creation(old(self).is_powered, mode),
            *final(self) == (Device {
                mode,
                station: if mode == Mode::Ap {
                    None
                } else {
                    old(self).station
                },
                ap: if mode == Mode::Station {
                    None
                } else {
                    old(self).ap
                },
                ..*old(self)
            }),
    {
        self.mode = mode;
        match mode {
            Mode::Station => {
                self.ap = None;
                if self.is_powered {
                    Sync::CreateStation
                } else {
                    Sync::Nothing
                }
            },
            Mode::Ap => {
                self.station = None;
                if self.is_powered {
                    Sync::CreateAp
                } else {
                    Sync::Nothing
                }
            },
        }
    }

    /// Takes in whether the device is powered, and says what the refresh has
    /// to read next.
    pub fn refresh(&mut self, is_powered: bool) -> (r: Sync)
        ensures
            r == Device::refreshing(
                is_powered,
                old(self).mode,
                old(self).station is Some,
                old(self).ap is Some,
            ),
            *final(self) == (Device { is_powered, ..*old(self) }),
    {
        self.is_powered = is_powered;
        if !is_powered {
            Sync::Nothing
        } else {
            match self.mode {
                Mode::Station => if self.station.is_some() {
                    Sync::RefreshStation
                } else {
                    Sync::CreateStation
                },
                Mode::Ap => if self.ap.is_some() {
                    Sync::RefreshAp
                } else {
                    Sync::CreateAp
                },
            }
        }
    }

    /// Puts a station view in; `None` where creating it failed.
    pub fn install_station(&mut self, station: Option<Station>)
        ensures
            *final(self) == (Device { station, ..*old(self) }),
    {
        self.station = station;
    }

    /// Puts an access point view in; `None` where creating it failed.
    pub fn install_ap(&mut self, ap: Option<AccessPoint>)
        ensures
            *final(self) == (Device { ap, ..*old(self) }),
    {
        self.ap = ap;
    }

    /// What the operator reads of the answer to switching the power: the new
    /// state where the service agreed, its complaint where it did not.
    pub open spec fn power_message(was_powered: bool, answer: Result<(), String>) -> (
        Seq<char>,
        NotificationLevel,
    ) {
        match answer {
            Ok(()) => if was_powered {
                ("Device Powered Off"@, NotificationLevel::Info)
            } else {
                ("Device Powered On"@, NotificationLevel::Info)
            },
            Err(complaint) => (complaint@, NotificationLevel::Error),
        }
    }

    /// The notification for the service's answer to switching the power off,
    /// where the device was powered, or on, where it was not.
    pub fn power_toggled(&self, answer: Result<(), String>) -> (r: Notification)
        ensures
            r.message@ == Device::power_message(self.is_powered, answer).0,
            r.level == Device::power_message(self.is_powered, answer).1,
            r.ttl == NOTIFICATION_TTL,
    {
        match answer {
            Ok(()) => if self.is_powered {
                Notification::new("Device Powered Off".to_owned(), NotificationLevel::Info)
            } else {
                Notification::new("Device Powered On".to_owned(), NotificationLevel::Info)
            },
            Err(complaint) => Notification::new(complaint, NotificationLevel::Error),
        }
    }
}

} // verus!
