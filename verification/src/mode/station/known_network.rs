//! A saved profile as the console shows it.

use crate::nm::types::{ConnectionInfo, SecurityType};
use crate::notification::{Notification, NotificationLevel, NOTIFICATION_TTL};
use chrono::{FixedOffset, TimeZone};
use vstd::prelude::*;

verus! {

/// Whether a count of seconds since the Unix epoch names a moment that the
/// calendar can represent.
pub uninterp spec fn timestamp_representable(secs: int) -> bool;

/// `chrono::TimeZone::timestamp_opt` on the `FixedOffset` of zero seconds east,
/// with zero nanoseconds, then `single`: the moment exists exactly for the
/// seconds that the calendar can represent, and `DateTime::timestamp` gives the
/// same seconds back.
#[verifier::external_body]
fn utc_timestamp(secs: i64) -> (r: Option<i64>)
    ensures
        r == (if timestamp_representable(secs as int) {
            Some(secs)
        } else {
            None
        }),
{
    match FixedOffset::east_opt(0) {
        Some(offset) => match offset.timestamp_opt(secs, 0).single() {
            Some(moment) => Some(moment.timestamp()),
            None => None,
        },
        None => None,
    }
}

/// A saved connection profile, as a row of the list of known networks.
#[derive(Debug)]
pub struct KnownNetwork {
    pub connection_path: String,
    pub name: String,
    pub network_type: SecurityType,
    pub is_autoconnect: bool,
    pub is_hidden: bool,
    /// Seconds since the Unix epoch of the last connection, if there was one
    /// and the calendar can represent it.
    pub last_connected: Option<i64>,
}

impl Clone for KnownNetwork {
    fn clone(&self) -> (r: KnownNetwork)
        ensures
            r == *self,
    {
        KnownNetwork {
            connection_path: self.connection_path.clone(),
            name: self.name.clone(),
            network_type: self.network_type,
            is_autoconnect: self.is_autoconnect,
            is_hidden: self.is_hidden,
            last_connected: self.last_connected,
        }
    }
}

impl KnownNetwork {
    /// The moment of the last connection that a profile's timestamp stands
    /// for: none for zero, else the timestamp read as signed seconds, where
    /// the calendar can represent them.
    pub open spec fn last_connected_of(timestamp: u64) -> Option<i64> {
        if timestamp > 0 && timestamp_representable(timestamp as i64 as int) {
            Some(timestamp as i64)
        } else {
            None
        }
    }

    /// The row that a saved profile gives.
    pub open spec fn of_connection(info: ConnectionInfo) -> KnownNetwork {
        KnownNetwork {
            connection_path: info.path,
            name: info.ssid,
            network_type: info.security,
            is_autoconnect: info.autoconnect,
            is_hidden: info.hidden,
            last_connected: KnownNetwork::last_connected_of(info.timestamp),
        }
    }

    /// The row for a profile whose timestamp has been looked up in the
    /// calendar already: `moment` is what the calendar gave for it.
    pub fn with_last_connected(info: ConnectionInfo, moment: Option<i64>) -> (r: KnownNetwork)
        ensures
            r == (KnownNetwork {
                connection_path: info.path,
                name: info.ssid,
                network_type: info.security,
                is_autoconnect: info.autoconnect,
                is_hidden: info.hidden,
                last_connected: if info.timestamp > 0 {
                    moment
                } else {
                    None
                },
            }),
    {
        let last_connected = if info.timestamp > 0 {
            moment
        } else {
            None
        };
        KnownNetwork {
            connection_path: info.path,
            name: info.ssid,
            network_type: info.security,
            is_autoconnect: info.autoconnect,
            is_hidden: info.hidden,
            last_connected,
        }
    }

    pub fn from_connection_info(info: ConnectionInfo) -> (r: KnownNetwork)
        ensures
            r == KnownNetwork::of_connection(info),
    {
        let moment = utc_timestamp(info.timestamp as i64);
        KnownNetwork::with_last_connected(info, moment)
    }

    /// What the operator reads of the answer to forgetting the network.
    pub open spec fn forget_message(&self, answer: Result<(), String>) -> (
        Seq<char>,
        NotificationLevel,
    ) {
        match answer {
            Ok(()) => ("The Network "@ + self.name@ + " is removed"@, NotificationLevel::Info),
            Err(complaint) => (complaint@, NotificationLevel::Error),
        }
    }

    /// The notification for the service's answer to deleting the profile.
    pub fn forget(&self, answer: Result<(), String>) -> (r: Notification)
        ensures
            r.message@ == self.forget_message(answer).0,
            r.level == self.forget_message(answer).1,
            r.ttl == NOTIFICATION_TTL,
    {
        match answer {
            Ok(()) => Notification::new(
                "The Network ".to_owned().concat(self.name.as_str()).concat(" is removed"),
                NotificationLevel::Info,
            ),
            Err(complaint) => Notification::new(complaint, NotificationLevel::Error),
        }
    }

    /// What the operator reads of the answer to switching autoconnect; the
    /// flag is the one that was asked for.
    pub open spec fn autoconnect_message(&self, answer: Result<(), String>) -> (
        Seq<char>,
        NotificationLevel,
    ) {
        match answer {
            Ok(()) => if !self.is_autoconnect {
                ("Enable Autoconnect for: "@ + self.name@, NotificationLevel::Info)
            } else {
                ("Disable Autoconnect for: "@ + self.name@, NotificationLevel::Info)
            },
            Err(complaint) => (complaint@, NotificationLevel::Error),
        }
    }

    /// Takes in the service's answer to the request to set autoconnect to the
    /// opposite of what it is: the flag flips where the service agreed and
    /// stays where it did not.
    pub fn toggle_autoconnect(&mut self, answer: Result<(), String>) -> (r: Notification)
        ensures
            *final(self) == (KnownNetwork {
                is_autoconnect: if answer is Ok {
                    !old(self).is_autoconnect
                } else {
                    old(self).is_autoconnect
                },
                ..*old(self)
            }),
            r.message@ == old(self).autoconnect_message(answer).0,
            r.level == old(self).autoconnect_message(answer).1,
            r.ttl == NOTIFICATION_TTL,
    {
        match answer {
            Ok(()) => {
                let enabled = !self.is_autoconnect;
                self.is_autoconnect = enabled;
                let message = if enabled {
                    "Enable Autoconnect for: ".to_owned().concat(self.name.as_str())
                } else {
                    "Disable Autoconnect for: ".to_owned().concat(self.name.as_str())
                };
                Notification::new(message, NotificationLevel::Info)
            },
            Err(complaint) => Notification::new(complaint, NotificationLevel::Error),
        }
    }
}

} // verus!
