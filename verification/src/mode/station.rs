//! Station mode: the live view of one radio interface.

pub mod auth;
pub mod catalog;
pub mod display;
pub mod known_network;
pub mod network;
pub mod share;

use crate::mode::station::catalog::{
    connected_among, find_unavailable, known_names, known_row, lemma_merged_rows_in_order,
    lemma_reconcile_one_per_ssid, lemma_reconciled_rows_in_order, lemma_unavailable_apart,
    merge_preserving_selection, merged, new_row, reconcile, row_names, rows_in_order, rows_of,
    selection_after, unavailable_of,
};
use crate::mode::station::known_network::KnownNetwork;
use crate::mode::station::network::{string_of, Network};
use crate::mode::station::share::Share;
use crate::mode::station::speed_test::SpeedTest;
use crate::nm::types::{
    AccessPointInfo, ConnectionInfo, DeviceState, DiagnosticInfo, StationState,
};
use crate::nm::wifi::strongest_per_ssid;
use crate::notification::{Notification, NotificationLevel, NOTIFICATION_TTL};
use crate::text::{contains, occurs_in};
use vstd::prelude::*;

verus! {

/// A network that does not announce its SSID.
#[derive(Debug)]
pub struct HiddenNetwork {
    pub address: String,
    pub network_type: String,
    pub signal_strength: i16,
}

impl Clone for HiddenNetwork {
    fn clone(&self) -> (r: HiddenNetwork)
        ensures
            r == *self,
    {
        HiddenNetwork {
            address: self.address.clone(),
            network_type: self.network_type.clone(),
            signal_strength: self.signal_strength,
        }
    }
}

/// Which row of a list the cursor is on, if any.
#[derive(Debug, Clone, Copy, PartialEq, Eq, Structural)]
pub struct SelectionState {
    pub selected: Option<usize>,
}

impl Default for SelectionState {
    fn default() -> (r: SelectionState)
        ensures
            r.selected is None,
    {
        SelectionState { selected: None }
    }
}

impl SelectionState {
    /// The selection for a list that has just been filled: its first row, or
    /// nothing where it is empty.
    pub open spec fn initial(len: nat) -> SelectionState {
        SelectionState {
            selected: if len > 0 {
                Some(0usize)
            } else {
                None
            },
        }
    }

    pub fn for_len(len: usize) -> (r: SelectionState)
        ensures
            r == SelectionState::initial(len as nat),
    {
        if len > 0 {
            SelectionState { selected: Some(0) }
        } else {
            SelectionState { selected: None }
        }
    }

    pub fn select(&mut self, index: Option<usize>)
        ensures
            final(self).selected == index,
    {
        self.selected = index;
    }

    pub fn selected(&self) -> (r: Option<usize>)
        ensures
            r == self.selected,
    {
        self.selected
    }

    /// The row below: one further down while there is a row below the
    /// cursor, the first row where nothing was selected.
    pub open spec fn below(self, rows: nat) -> SelectionState {
        SelectionState {
            selected: match self.selected {
                Some(i) => if i + 1 < rows && i < usize::MAX {
                    Some((i + 1) as usize)
                } else {
                    Some(i)
                },
                None => Some(0usize),
            },
        }
    }

    /// The row above: one further up, staying on the first row, which is also
    /// where the cursor goes where nothing was selected.
    pub open spec fn above(self) -> SelectionState {
        SelectionState {
            selected: match self.selected {
                Some(i) => if i > 0 {
                    Some((i - 1) as usize)
                } else {
                    Some(0usize)
                },
                None => Some(0usize),
            },
        }
    }

    /// Moves the cursor down in a list of `rows` rows that `more` rows
    /// follow.
    pub fn move_down(&mut self, rows: usize, more: usize)
        ensures
            *final(self) == old(self).below((rows + more) as nat),
    {
        let next = match self.selected {
            Some(i) => if i < usize::MAX && (i + 1 < rows || i + 1 - rows < more) {
                i + 1
            } else {
                i
            },
            None => 0,
        };
        self.selected = Some(next);
    }

    /// Moves the cursor up.
    pub fn move_up(&mut self)
        ensures
            *final(self) == old(self).above(),
    {
        let next = match self.selected {
            Some(i) => if i > 0 {
                i - 1
            } else {
                0
            },
            None => 0,
        };
        self.selected = Some(next);
    }
}

/// What one refresh reads from the connection service.
pub struct StationSnapshot {
    pub device_state: DeviceState,
    pub is_ethernet_connected: bool,
    pub connected_ssid: Option<String>,
    pub visible_networks: Vec<AccessPointInfo>,
    pub saved_connections: Vec<ConnectionInfo>,
}

/// Why the station refused a request.
#[derive(Debug, Clone, Copy, PartialEq, Eq, Structural)]
pub enum StationError {
    /// Connecting to a hidden network by way of the station is not offered.
    HiddenNotImplemented,
}

impl StationError {
    pub open spec fn message(self) -> Seq<char> {
        "Hidden network connection not yet implemented for NetworkManager"@
    }

    pub fn to_string(&self) -> (r: String)
        ensures
            r@ == self.message(),
    {
        "Hidden network connection not yet implemented for NetworkManager".to_owned()
    }
}

/// The live view of one radio interface.
pub struct Station {
    pub device_path: String,
    pub state: StationState,
    pub is_scanning: bool,
    pub connected_network: Option<Network>,
    pub is_ethernet_connected: bool,
    pub new_networks: Vec<(Network, i16)>,
    pub new_hidden_networks: Vec<HiddenNetwork>,
    pub known_networks: Vec<(Network, i16)>,
    pub unavailable_known_networks: Vec<KnownNetwork>,
    pub known_networks_state: SelectionState,
    pub new_networks_state: SelectionState,
    pub diagnostic: Option<DiagnosticInfo>,
    pub show_unavailable_known_networks: bool,
    pub show_hidden_networks: bool,
    pub share: Option<Share>,
    pub speed_test: Option<SpeedTest>,
}

impl DiagnosticInfo {
    /// What the active access point tells of the link: frequency, signal and
    /// security class; bit rates are not known.
    pub fn from_access_point(ap_info: &AccessPointInfo) -> (r: DiagnosticInfo)
        ensures
            r.frequency == Some(ap_info.frequency),
            r.signal_strength == Some(ap_info.strength as i32),
            r.tx_bitrate is None,
            r.rx_bitrate is None,
            string_of(r.security) == Some(ap_info.security.name()),
    {
        DiagnosticInfo {
            frequency: Some(ap_info.frequency),
            signal_strength: Some(ap_info.strength as i32),
            tx_bitrate: None,
            rx_bitrate: None,
            security: Some(ap_info.security.to_string()),
        }
    }
}

impl Station {
    /// The known networks that a snapshot shows.
    pub open spec fn known_in(device_path: String, snapshot: StationSnapshot) -> Seq<(Network, i16)> {
        rows_of(
            device_path,
            strongest_per_ssid(snapshot.visible_networks@),
            snapshot.saved_connections@,
            string_of(snapshot.connected_ssid),
        ).filter(known_row())
    }

    /// The new networks that a snapshot shows.
    pub open spec fn new_in(device_path: String, snapshot: StationSnapshot) -> Seq<(Network, i16)> {
        rows_of(
            device_path,
            strongest_per_ssid(snapshot.visible_networks@),
            snapshot.saved_connections@,
            string_of(snapshot.connected_ssid),
        ).filter(new_row())
    }

    /// The connected network that a snapshot shows.
    pub open spec fn connected_in(device_path: String, snapshot: StationSnapshot) -> Option<Network> {
        connected_among(
            device_path,
            strongest_per_ssid(snapshot.visible_networks@),
            snapshot.saved_connections@,
            string_of(snapshot.connected_ssid),
        )
    }

    /// Whether the lists are in order: the known networks have profiles and
    /// the new ones have none, every row carries the signal of its access
    /// point, no SSID occurs twice on screen, and no unavailable network has
    /// the SSID of a visible one.
    pub open spec fn well_formed(&self) -> bool {
        &&& rows_in_order(self.known_networks@, true)
        &&& rows_in_order(self.new_networks@, false)
        &&& row_names(self.known_networks@).to_set().disjoint(
            row_names(self.new_networks@).to_set(),
        )
        &&& row_names(self.known_networks@).to_set().disjoint(
            known_names(self.unavailable_known_networks@).to_set(),
        )
    }

    /// Number of rows that the list of known networks shows.
    pub open spec fn known_rows_shown(&self) -> nat {
        if self.show_unavailable_known_networks {
            self.known_networks@.len() + self.unavailable_known_networks@.len()
        } else {
            self.known_networks@.len()
        }
    }

    /// Number of rows that the list of new networks shows.
    pub open spec fn new_rows_shown(&self) -> nat {
        if self.show_hidden_networks {
            self.new_networks@.len() + self.new_hidden_networks@.len()
        } else {
            self.new_networks@.len()
        }
    }

    /// The station with the cursor of the known networks one row down, over
    /// the unavailable ones too where they are shown. Nothing moves while no
    /// known network is visible.
    pub open spec fn with_next_known(self) -> Station {
        if self.known_networks@.len() > 0 {
            Station {
                known_networks_state: self.known_networks_state.below(self.known_rows_shown()),
                ..self
            }
        } else {
            self
        }
    }

    /// The station with the cursor of the known networks one row up.
    pub open spec fn with_previous_known(self) -> Station {
        if self.known_networks@.len() > 0 {
            Station { known_networks_state: self.known_networks_state.above(), ..self }
        } else {
            self
        }
    }

    /// The station with the cursor of the new networks one row down, over
    /// the hidden ones too where they are shown. Nothing moves while no new
    /// network is visible.
    pub open spec fn with_next_new(self) -> Station {
        if self.new_networks@.len() > 0 {
            Station {
                new_networks_state: self.new_networks_state.below(self.new_rows_shown()),
                ..self
            }
        } else {
            self
        }
    }

    /// The station with the cursor of the new networks one row up.
    pub open spec fn with_previous_new(self) -> Station {
        if self.new_networks@.len() > 0 {
            Station { new_networks_state: self.new_networks_state.above(), ..self }
        } else {
            self
        }
    }

    /// The station as a first snapshot shows it: both lists reconciled, the
    /// cursor of each on its first row, nothing else on screen.
    pub fn new(device_path: String, snapshot: StationSnapshot) -> (r: Station)
        ensures
            r.device_path == device_path,
            r.state == StationState::of_device_state(snapshot.device_state),
            !r.is_scanning,
            r.is_ethernet_connected == snapshot.is_ethernet_connected,
            r.known_networks@ == Station::known_in(device_path, snapshot),
            r.new_networks@ == Station::new_in(device_path, snapshot),
            r.connected_network == Station::connected_in(device_path, snapshot),
            r.unavailable_known_networks@ == unavailable_of(
                r.known_networks@,
                snapshot.saved_connections@,
            ),
            r.new_hidden_networks@.len() == 0,
            r.known_networks_state == SelectionState::initial(r.known_networks@.len()),
            r.new_networks_state == SelectionState::initial(r.new_networks@.len()),
            r.diagnostic is None,
            !r.show_unavailable_known_networks,
            !r.show_hidden_networks,
            r.share is None,
            r.speed_test is None,
            r.well_formed(),
    {
        proof {
            lemma_unavailable_apart(
                Station::known_in(device_path, snapshot),
                snapshot.saved_connections@,
            );
        }
        let found = reconcile(
            &device_path,
            &snapshot.visible_networks,
            &snapshot.saved_connections,
            &snapshot.connected_ssid,
        );
        let unavailable_known_networks = find_unavailable(
            &found.known_networks,
            &snapshot.saved_connections,
        );
        let known_networks_state = SelectionState::for_len(found.known_networks.len());
        let new_networks_state = SelectionState::for_len(found.new_networks.len());
        Station {
            device_path,
            state: StationState::from(snapshot.device_state),
            is_scanning: false,
            connected_network: found.connected_network,
            is_ethernet_connected: snapshot.is_ethernet_connected,
            new_networks: found.new_networks,
            new_hidden_networks: Vec::new(),
            known_networks: found.known_networks,
            unavailable_known_networks,
            known_networks_state,
            new_networks_state,
            diagnostic: None,
            show_unavailable_known_networks: false,
            show_hidden_networks: false,
            share: None,
            speed_test: None,
        }
    }

    /// Connecting to a hidden network by way of the station: not offered.
    pub fn connect_hidden_network(&self, _ssid: String, _password: Option<&str>) -> (r: Result<
        (),
        StationError,
    >)
        ensures
            r == Err::<(), StationError>(StationError::HiddenNotImplemented),
    {
        Err(StationError::HiddenNotImplemented)
    }

    /// Takes a fresh snapshot in. Each list is merged with what is on screen:
    /// where it shows the same SSIDs the rows and the cursor stay, otherwise
    /// the list is replaced and the cursor goes to the first row. The
    /// unavailable networks follow from the known ones then on screen. The
    /// diagnostics are dropped where no network is connected.
    pub fn refresh(&mut self, snapshot: StationSnapshot)
        ensures
            final(self).device_path == old(self).device_path,
            final(self).state == StationState::of_device_state(snapshot.device_state),
            final(self).is_scanning == old(self).is_scanning,
            final(self).is_ethernet_connected == snapshot.is_ethernet_connected,
            final(self).known_networks@ == merged(
                old(self).known_networks@,
                Station::known_in(old(self).device_path, snapshot),
            ),
            final(self).known_networks_state.selected == selection_after(
                old(self).known_networks@,
                Station::known_in(old(self).device_path, snapshot),
                old(self).known_networks_state.selected,
            ),
            final(self).new_networks@ == merged(
                old(self).new_networks@,
                Station::new_in(old(self).device_path, snapshot),
            ),
            final(self).new_networks_state.selected == selection_after(
                old(self).new_networks@,
                Station::new_in(old(self).device_path, snapshot),
                old(self).new_networks_state.selected,
            ),
            final(self).unavailable_known_networks@ == unavailable_of(
                final(self).known_networks@,
                snapshot.saved_connections@,
            ),
            final(self).connected_network == Station::connected_in(old(self).device_path, snapshot),
            final(self).diagnostic == (if final(self).connected_network is Some {
                old(self).diagnostic
            } else {
                None
            }),
            final(self).new_hidden_networks == old(self).new_hidden_networks,
            final(self).show_unavailable_known_networks == old(
                self,
            ).show_unavailable_known_networks,
            final(self).show_hidden_networks == old(self).show_hidden_networks,
            final(self).share == old(self).share,
            final(self).speed_test == old(self).speed_test,
            old(self).well_formed() ==> final(self).well_formed(),
    {
        proof {
            let known = Station::known_in(self.device_path, snapshot);
            let fresh = Station::new_in(self.device_path, snapshot);
            if self.well_formed() {
                lemma_reconciled_rows_in_order(
                    self.device_path,
                    snapshot.visible_networks@,
                    snapshot.saved_connections@,
                    string_of(snapshot.connected_ssid),
                );
                lemma_reconcile_one_per_ssid(
                    self.device_path,
                    snapshot.visible_networks@,
                    snapshot.saved_connections@,
                    string_of(snapshot.connected_ssid),
                );
                lemma_merged_rows_in_order(self.known_networks@, known, true);
                lemma_merged_rows_in_order(self.new_networks@, fresh, false);
                lemma_unavailable_apart(
                    merged(self.known_networks@, known),
                    snapshot.saved_connections@,
                );
            }
        }
        self.state = StationState::from(snapshot.device_state);
        self.is_ethernet_connected = snapshot.is_ethernet_connected;
        let found = reconcile(
            &self.device_path,
            &snapshot.visible_networks,
            &snapshot.saved_connections,
            &snapshot.connected_ssid,
        );
        let mut shown_new: Vec<(Network, i16)> = Vec::new();
        std::mem::swap(&mut self.new_networks, &mut shown_new);
        let (new_networks, new_selected) = merge_preserving_selection(
            shown_new,
            found.new_networks,
            self.new_networks_state.selected,
        );
        self.new_networks = new_networks;
        self.new_networks_state.selected = new_selected;
        let mut shown_known: Vec<(Network, i16)> = Vec::new();
        std::mem::swap(&mut self.known_networks, &mut shown_known);
        let (known_networks, known_selected) = merge_preserving_selection(
            shown_known,
            found.known_networks,
            self.known_networks_state.selected,
        );
        self.known_networks = known_networks;
        self.known_networks_state.selected = known_selected;
        self.unavailable_known_networks = find_unavailable(
            &self.known_networks,
            &snapshot.saved_connections,
        );
        self.connected_network = found.connected_network;
        if self.connected_network.is_none() {
            self.diagnostic = None;
        }
    }

    /// Whether the diagnostics of the active access point are wanted: they
    /// are where a network is connected.
    pub fn needs_diagnostic(&self) -> (r: bool)
        ensures
            r == (self.connected_network is Some),
    {
        self.connected_network.is_some()
    }

    /// Takes the diagnostics of the active access point in.
    pub fn set_diagnostic(&mut self, ap_info: &AccessPointInfo)
        ensures
            final(self).diagnostic matches Some(d) && d.frequency == Some(ap_info.frequency)
                && d.signal_strength == Some(ap_info.strength as i32) && d.tx_bitrate is None
                && d.rx_bitrate is None && string_of(d.security) == Some(ap_info.security.name()),
            *final(self) == (Station { diagnostic: final(self).diagnostic, ..*old(self) }),
    {
        self.diagnostic = Some(DiagnosticInfo::from_access_point(ap_info));
    }

    /// What the operator reads of the answer to a scan request: a scan that
    /// began, a scan that the service refuses because one is under way, which
    /// is no error, or the service's complaint.
    pub open spec fn scan_message(answer: Result<(), String>) -> (Seq<char>, NotificationLevel) {
        match answer {
            Ok(()) => ("Start Scanning"@, NotificationLevel::Info),
            Err(complaint) => if occurs_in("Scanning not allowed"@, complaint@) {
                ("Scanning in progress"@, NotificationLevel::Info)
            } else {
                (complaint@, NotificationLevel::Error)
            },
        }
    }

    /// Takes the service's answer to a scan request in: the station is
    /// scanning once a request was accepted.
    pub fn scan(&mut self, answer: Result<(), String>) -> (r: Notification)
        ensures
            *final(self) == (Station {
                is_scanning: old(self).is_scanning || answer is Ok,
                ..*old(self)
            }),
            r.message@ == Station::scan_message(answer).0,
            r.level == Station::scan_message(answer).1,
            r.ttl == NOTIFICATION_TTL,
    {
        match answer {
            Ok(()) => {
                self.is_scanning = true;
                Notification::new("Start Scanning".to_owned(), NotificationLevel::Info)
            },
            Err(complaint) => {
                if contains(complaint.as_str(), "Scanning not allowed") {
                    Notification::new("Scanning in progress".to_owned(), NotificationLevel::Info)
                } else {
                    Notification::new(complaint, NotificationLevel::Error)
                }
            },
        }
    }

    /// What the operator reads of the answer to a disconnect request.
    pub open spec fn disconnect_message(&self, answer: Result<(), String>) -> (
        Seq<char>,
        NotificationLevel,
    ) {
        match answer {
            Ok(()) => match self.connected_network {
                Some(network) => ("Disconnected from "@ + network.name@, NotificationLevel::Info),
                None => ("Disconnected"@, NotificationLevel::Info),
            },
            Err(complaint) => (complaint@, NotificationLevel::Error),
        }
    }

    /// The notification for the service's answer to a disconnect request. The
    /// lists are left as they are: the next refresh brings them up to date.
    pub fn disconnect(&self, answer: Result<(), String>) -> (r: Notification)
        ensures
            r.message@ == self.disconnect_message(answer).0,
            r.level == self.disconnect_message(answer).1,
            r.ttl == NOTIFICATION_TTL,
    {
        match answer {
            Ok(()) => match &self.connected_network {
                Some(network) => Notification::new(
                    "Disconnected from ".to_owned().concat(network.name.as_str()),
                    NotificationLevel::Info,
                ),
                None => Notification::new("Disconnected".to_owned(), NotificationLevel::Info),
            },
            Err(complaint) => Notification::new(complaint, NotificationLevel::Error),
        }
    }

    /// What switching autoconnect of the known network in a row asks of the
    /// service: the profile, and the flag to set, which is the opposite of
    /// the one it has. Nothing for a row that holds no known network.
    pub fn autoconnect_request(&self, index: usize) -> (r: Option<(String, bool)>)
        ensures
            r == (if index < self.known_networks@.len() {
                match self.known_networks@[index as int].0.known_network {
                    Some(known) => Some((known.connection_path, !known.is_autoconnect)),
                    None => None,
                }
            } else {
                None
            }),
    {
        if index < self.known_networks.len() {
            match &self.known_networks[index].0.known_network {
                Some(known) => Some((known.connection_path.clone(), !known.is_autoconnect)),
                None => None,
            }
        } else {
            None
        }
    }

    /// Takes the service's answer to switching autoconnect of the known
    /// network in a row in: the flag flips where the service agreed. The
    /// result is the notification; nothing happens for a row that holds no
    /// known network.
    pub fn autoconnect_toggled(&mut self, index: usize, answer: Result<(), String>) -> (r: Option<
        Notification,
    >)
        ensures
            match (if index < old(self).known_networks@.len() {
                old(self).known_networks@[index as int].0.known_network
            } else {
                None
            }) {
                Some(known) => {
                    &&& r matches Some(n)
                    &&& n.message@ == known.autoconnect_message(answer).0
                    &&& n.level == known.autoconnect_message(answer).1
                    &&& n.ttl == NOTIFICATION_TTL
                    &&& final(self).known_networks@ == old(self).known_networks@.update(
                        index as int,
                        (
                            Network {
                                known_network: Some(
                                    KnownNetwork {
                                        is_autoconnect: if answer is Ok {
                                            !known.is_autoconnect
                                        } else {
                                            known.is_autoconnect
                                        },
                                        ..known
                                    },
                                ),
                                ..old(self).known_networks@[index as int].0
                            },
                            old(self).known_networks@[index as int].1,
                        ),
                    )
                    &&& *final(self) == (Station {
                        known_networks: final(self).known_networks,
                        ..*old(self)
                    })
                },
                None => r is None && *final(self) == *old(self),
            },
    {
        if index >= self.known_networks.len() {
            return None;
        }
        if self.known_networks[index].0.known_network.is_none() {
            return None;
        }
        let (mut network, signal) = self.known_networks.remove(index);
        let notification = match network.known_network.take() {
            Some(mut known) => {
                let notification = known.toggle_autoconnect(answer);
                network.known_network = Some(known);
                Some(notification)
            },
            None => None,
        };
        self.known_networks.insert(index, (network, signal));
        proof {
            assert(self.known_networks@ =~= old(self).known_networks@.update(
                index as int,
                self.known_networks@[index as int],
            ));
        }
        notification
    }

    /// Moves the cursor of the known networks down.
    pub fn select_next_known(&mut self)
        ensures
            *final(self) == old(self).with_next_known(),
    {
        if self.known_networks.len() > 0 {
            let hidden_rows = if self.show_unavailable_known_networks {
                self.unavailable_known_networks.len()
            } else {
                0
            };
            self.known_networks_state.move_down(self.known_networks.len(), hidden_rows);
        }
    }

    /// Moves the cursor of the known networks up.
    pub fn select_previous_known(&mut self)
        ensures
            *final(self) == old(self).with_previous_known(),
    {
        if self.known_networks.len() > 0 {
            self.known_networks_state.move_up();
        }
    }

    /// Moves the cursor of the new networks down.
    pub fn select_next_new(&mut self)
        ensures
            *final(self) == old(self).with_next_new(),
    {
        if self.new_networks.len() > 0 {
            let hidden_rows = if self.show_hidden_networks {
                self.new_hidden_networks.len()
            } else {
                0
            };
            self.new_networks_state.move_down(self.new_networks.len(), hidden_rows);
        }
    }

    /// Moves the cursor of the new networks up.
    pub fn select_previous_new(&mut self)
        ensures
            *final(self) == old(self).with_previous_new(),
    {
        if self.new_networks.len() > 0 {
            self.new_networks_state.move_up();
        }
    }
}

} // verus!
