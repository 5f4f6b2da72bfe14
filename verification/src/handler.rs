//! What each key does: the next state of the console, and the one piece of
//! outside work, if any, that the key asks for.

use crate::agent::{AgentState, AuthAgent};
use crate::app::{App, FocusedBlock};
use crate::config::Config;
use crate::device::Device;
use crate::event::Event;
use crate::mode::ap::{APFocusedSection, AccessPoint};
use crate::mode::station::auth::entreprise::requests::{
    RequestKeyPassphrase, RequestPassword, RequestUsernameAndPassword,
};
use crate::mode::station::auth::hidden::{HiddenField, HiddenRequest, HiddenSsidDialog};
use crate::mode::station::auth::input::input_text;
use crate::mode::station::auth::psk::Psk;
use crate::mode::station::auth::Auth;
use crate::mode::station::catalog::{find_row, row_names};
use crate::mode::station::known_network::KnownNetwork;
use crate::mode::station::network::{string_of, Network};
use crate::mode::station::share::Share;
use crate::mode::station::speed_test::SpeedTest;
use crate::mode::station::Station;
use crate::nm::types::{Mode, SecurityType};
use crate::notification::{Notification, NotificationLevel, NOTIFICATION_TTL};
use crate::reset::Reset;
use vstd::prelude::*;

verus! {

/// The keys that the console tells apart.
#[derive(Debug, Clone, Copy, PartialEq, Eq, Structural)]
pub enum KeyCode {
    Char(char),
    Enter,
    Esc,
    Tab,
    BackTab,
    Up,
    Down,
    Left,
    Right,
    Other,
}

/// One key press.
#[derive(Debug, Clone, Copy, PartialEq, Eq, Structural)]
pub struct KeyEvent {
    pub code: KeyCode,
    /// Whether Control, and no other modifier, was held.
    pub control: bool,
}

/// The line editors that take keys.
#[derive(Debug, Clone, Copy, PartialEq, Eq, Structural)]
pub enum InputField {
    HiddenSsid,
    HiddenPassword,
    PskPassphrase,
    KeyPassphrase,
    RequestedPassword,
    ApSsid,
    ApPsk,
}

/// The outside work that a key asks for.
pub enum Command {
    /// Announce the event.
    Send(Event),
    /// Show the notification.
    Notify(Notification),
    /// Switch the wireless radio off where the device is powered, on where
    /// it is not.
    TogglePower,
    /// Ask for a scan.
    Scan,
    /// Connect to the network, with the password where there is one.
    Connect { network: Network, password: Option<String> },
    /// Disconnect the device.
    Disconnect,
    /// Disconnect the device; once that is done, connect to the network.
    DisconnectThenConnect(Network),
    /// Connect to a hidden network.
    ConnectHidden { device_path: String, request: HiddenRequest },
    /// Delete the saved profile of the network.
    Forget(KnownNetwork),
    /// Switch autoconnect of the known network in the given row.
    ToggleAutoconnect { index: usize },
    /// Read the passphrase of the profile and show it as a QR code.
    Share { connection_path: String, network_name: String },
    /// Measure the bandwidth.
    RunSpeedTest,
    /// Hand the key to the line editor.
    Edit(InputField),
    /// Hand the key to the dialog for user name and password.
    ForwardToCredentials,
    /// Hand the key to the dialog of the enterprise network.
    ForwardToEap,
    /// Start the access point.
    StartAccessPoint,
}

/// What the key for connecting and disconnecting means in the state at hand.
pub enum ToggleAction {
    Nothing,
    /// The selected new network is an enterprise network: its dialog comes
    /// up.
    ConfigureEnterprise(String),
    /// The selected new network needs a passphrase: the operator is asked.
    AskPassphrase(Network),
    /// Connect to the network.
    Connect(Network),
    /// The selected known network is the connected one: disconnect.
    Disconnect,
    /// Another known network is connected: disconnect first, then connect.
    DisconnectThenConnect(Network),
    /// A hidden network cannot be connected to from the list.
    HiddenUnsupported,
}

/// Whether a key quits the console: `q`; Escape where the operator chose so;
/// `c` with Control.
pub open spec fn quits(key: KeyEvent, esc_quit: bool) -> bool {
    match key.code {
        KeyCode::Char(c) => c == 'q' || ((c == 'c' || c == 'C') && key.control),
        KeyCode::Esc => esc_quit,
        _ => false,
    }
}

/// Whether a key is one of the three that only ever quit: `q`, Escape where
/// it quits, `c` in either case.
pub open spec fn reserved(key: KeyEvent, esc_quit: bool) -> bool {
    match key.code {
        KeyCode::Char(c) => c == 'q' || c == 'c' || c == 'C',
        KeyCode::Esc => esc_quit,
        _ => false,
    }
}

/// What the key for connecting and disconnecting means for a row of the new
/// networks: an enterprise network goes to its dialog, a secured network
/// needs a passphrase, an open one is connected to. Rows past the visible
/// networks are hidden networks, of which only enterprise ones lead anywhere.
pub open spec fn toggle_new(station: Station) -> ToggleAction {
    match station.new_networks_state.selected {
        Some(i) => if i < station.new_networks@.len() {
            let network = station.new_networks@[i as int].0;
            if network.network_type == SecurityType::Enterprise {
                ToggleAction::ConfigureEnterprise(network.name)
            } else if network.spec_requires_password() {
                ToggleAction::AskPassphrase(network)
            } else {
                ToggleAction::Connect(network)
            }
        } else if i - station.new_networks@.len() < station.new_hidden_networks@.len() {
            let hidden = station.new_hidden_networks@[i - station.new_networks@.len()];
            if hidden.network_type@ == "8021x"@ {
                ToggleAction::ConfigureEnterprise(hidden.address)
            } else {
                ToggleAction::HiddenUnsupported
            }
        } else {
            ToggleAction::Nothing
        },
        None => ToggleAction::Nothing,
    }
}

/// What the key for connecting and disconnecting means for a row of the known
/// networks: the connected network is disconnected; any other is connected
/// to, after disconnecting where a network is connected. Rows past the
/// visible networks are out of reach and do nothing.
pub open spec fn toggle_known(station: Station) -> ToggleAction {
    match station.known_networks_state.selected {
        Some(i) => if i < station.known_networks@.len() {
            let selected = station.known_networks@[i as int].0;
            let first = station.known_networks@[row_names(
                station.known_networks@,
            ).index_of_first(selected.name@)->0].0;
            match station.connected_network {
                Some(connected) => if selected.name@ == connected.name@ {
                    ToggleAction::Disconnect
                } else {
                    ToggleAction::DisconnectThenConnect(first)
                },
                None => ToggleAction::Connect(first),
            }
        } else {
            ToggleAction::Nothing
        },
        None => ToggleAction::Nothing,
    }
}

/// What the key for connecting and disconnecting means.
pub open spec fn toggle_action(focused_block: FocusedBlock, station: Option<Station>) -> ToggleAction {
    match station {
        Some(station) => match focused_block {
            FocusedBlock::NewNetworks => toggle_new(station),
            FocusedBlock::KnownNetworks => toggle_known(station),
            _ => ToggleAction::Nothing,
        },
        None => ToggleAction::Nothing,
    }
}

/// Decides what the key for connecting and disconnecting means for the
/// station as it is.
pub fn decide_toggle(focused_block: FocusedBlock, station: &Station) -> (r: ToggleAction)
    ensures
        r == toggle_action(focused_block, Some(*station)),
{
    match focused_block {
        FocusedBlock::NewNetworks => match station.new_networks_state.selected {
            Some(i) => {
                if i < station.new_networks.len() {
                    let network = &station.new_networks[i].0;
                    if network.network_type == SecurityType::Enterprise {
                        ToggleAction::ConfigureEnterprise(network.name.clone())
                    } else if network.requires_password() {
                        ToggleAction::AskPassphrase(network.clone())
                    } else {
                        ToggleAction::Connect(network.clone())
                    }
                } else if i - station.new_networks.len() < station.new_hidden_networks.len() {
                    let hidden = &station.new_hidden_networks[i - station.new_networks.len()];
                    if hidden.network_type == "8021x".to_owned() {
                        ToggleAction::ConfigureEnterprise(hidden.address.clone())
                    } else {
                        ToggleAction::HiddenUnsupported
                    }
                } else {
                    ToggleAction::Nothing
                }
            },
            None => ToggleAction::Nothing,
        },
        FocusedBlock::KnownNetworks => match station.known_networks_state.selected {
            Some(i) => {
                if i < station.known_networks.len() {
                    let selected = &station.known_networks[i].0;
                    proof {
                        let names = row_names(station.known_networks@);
                        assert(names[i as int] == selected.name@);
                        names.index_of_first_ensures(selected.name@);
                    }
                    let at = match find_row(&station.known_networks, &selected.name) {
                        Some(at) => at,
                        None => i,
                    };
                    let first = &station.known_networks[at].0;
                    match &station.connected_network {
                        Some(connected) => {
                            if selected.name == connected.name {
                                ToggleAction::Disconnect
                            } else {
                                ToggleAction::DisconnectThenConnect(first.clone())
                            }
                        },
                        None => ToggleAction::Connect(first.clone()),
                    }
                } else {
                    ToggleAction::Nothing
                }
            },
            None => ToggleAction::Nothing,
        },
        _ => ToggleAction::Nothing,
    }
}

/// What the key for connecting and disconnecting does. Only asking for a
/// passphrase changes the console: the network becomes the one whose
/// connection waits, the coordinator's flag goes up and the passphrase
/// dialog gets the keys. While a connection waits already, no second one is
/// taken on.
pub open spec fn toggle_step(pre: App, post: App, command: Option<Command>) -> bool {
    match toggle_action(pre.focused_block, pre.device.station) {
        ToggleAction::Nothing => command is None && post == pre,
        ToggleAction::ConfigureEnterprise(name) => command == Some(
            Command::Send(Event::ConfigureNewEapNetwork(name)),
        ) && post == pre,
        ToggleAction::AskPassphrase(network) => if pre.network_pending_auth is Some {
            command is None && post == pre
        } else {
            &&& command == Some(Command::Send(Event::Auth(network.name)))
            &&& post == (App {
                focused_block: FocusedBlock::PskAuthKey,
                agent: AuthAgent { psk_required: true, ..pre.agent },
                network_name_requiring_auth: Some(network.name),
                network_pending_auth: Some(network),
                ..pre
            })
        },
        ToggleAction::Connect(network) => command == Some(
            Command::Connect { network, password: None },
        ) && post == pre,
        ToggleAction::Disconnect => command == Some(Command::Disconnect) && post == pre,
        ToggleAction::DisconnectThenConnect(network) => command == Some(
            Command::DisconnectThenConnect(network),
        ) && post == pre,
        ToggleAction::HiddenUnsupported => command matches Some(Command::Notify(n)) && n.message@
            == "Hidden network connection not yet implemented"@ && n.level
            == NotificationLevel::Info && n.ttl == NOTIFICATION_TTL && post == pre,
    }
}

/// Carries out the key for connecting and disconnecting.
pub fn toggle_connect(app: &mut App) -> (r: Option<Command>)
    ensures
        toggle_step(*old(app), *final(app), r),
        old(app).well_formed() ==> final(app).well_formed(),
{
    let action = match &app.device.station {
        Some(station) => decide_toggle(app.focused_block, station),
        None => ToggleAction::Nothing,
    };
    match action {
        ToggleAction::Nothing => None,
        ToggleAction::ConfigureEnterprise(name) => Some(
            Command::Send(Event::ConfigureNewEapNetwork(name)),
        ),
        ToggleAction::AskPassphrase(network) => {
            if app.network_pending_auth.is_some() {
                None
            } else {
                let event = app.agent.request_passphrase(network.name.clone());
                app.network_name_requiring_auth = Some(network.name.clone());
                app.network_pending_auth = Some(network);
                app.focused_block = FocusedBlock::PskAuthKey;
                Some(Command::Send(event))
            }
        },
        ToggleAction::Connect(network) => Some(Command::Connect { network, password: None }),
        ToggleAction::Disconnect => Some(Command::Disconnect),
        ToggleAction::DisconnectThenConnect(network) => Some(
            Command::DisconnectThenConnect(network),
        ),
        ToggleAction::HiddenUnsupported => Some(
            Command::Notify(
                Notification::new(
                    "Hidden network connection not yet implemented".to_owned(),
                    NotificationLevel::Info,
                ),
            ),
        ),
    }
}

/// What a key does while the choice of mode is up: the keys that quit end
/// the console, `j` or Down picks the access point, `k` or Up the station,
/// Enter asks to start over in the mode picked.
pub open spec fn reset_step(app: App, key: KeyEvent) -> (App, Option<Command>) {
    if reserved(key, app.config.esc_quit) {
        if quits(key, app.config.esc_quit) {
            (App { running: false, ..app }, None)
        } else {
            (app, None)
        }
    } else if key.code == KeyCode::Char('j') || key.code == KeyCode::Down {
        (App { reset: Reset { selected_mode: Mode::Ap, ..app.reset }, ..app }, None)
    } else if key.code == KeyCode::Char('k') || key.code == KeyCode::Up {
        (App { reset: Reset { selected_mode: Mode::Station, ..app.reset }, ..app }, None)
    } else if key.code == KeyCode::Enter {
        (app, Some(Command::Send(Event::Reset(app.reset.selected_mode))))
    } else {
        (app, None)
    }
}

/// Whether the key is one that only ever quits.
pub fn is_reserved(key: KeyEvent, esc_quit: bool) -> (r: bool)
    ensures
        r == reserved(key, esc_quit),
{
    match key.code {
        KeyCode::Char(c) => c == 'q' || c == 'c' || c == 'C',
        KeyCode::Esc => esc_quit,
        _ => false,
    }
}

/// Whether the key quits the console.
pub fn is_quit(key: KeyEvent, esc_quit: bool) -> (r: bool)
    ensures
        r == quits(key, esc_quit),
{
    match key.code {
        KeyCode::Char(c) => c == 'q' || ((c == 'c' || c == 'C') && key.control),
        KeyCode::Esc => esc_quit,
        _ => false,
    }
}

/// Handles a key while the choice of mode is up.
pub fn on_reset_key(key: KeyEvent, app: &mut App) -> (r: Option<Command>)
    ensures
        (*final(app), r) == reset_step(*old(app), key),
{
    if is_reserved(key, app.config.esc_quit) {
        if is_quit(key, app.config.esc_quit) {
            app.quit();
        }
        None
    } else {
        match key.code {
            KeyCode::Char('j') | KeyCode::Down => {
                app.reset.selected_mode = Mode::Ap;
                None
            },
            KeyCode::Char('k') | KeyCode::Up => {
                app.reset.selected_mode = Mode::Station;
                None
            },
            KeyCode::Enter => Some(Command::Send(Event::Reset(app.reset.selected_mode))),
            _ => None,
        }
    }
}

/// What a key does for the device block: the key for the adapter's
/// description brings it up, the key for the power asks to switch it.
pub open spec fn device_block_step(app: App, key: KeyEvent, config: Config) -> (
    App,
    Option<Command>,
) {
    if key.code == KeyCode::Char(config.device.infos) {
        (App { focused_block: FocusedBlock::AdapterInfos, ..app }, None)
    } else if key.code == KeyCode::Char(config.device.toggle_power) {
        (app, Some(Command::TogglePower))
    } else {
        (app, None)
    }
}

/// Handles a key of the device block.
pub fn on_device_block_key(key: KeyEvent, app: &mut App, config: &Config) -> (r: Option<Command>)
    ensures
        (*final(app), r) == device_block_step(*old(app), key, *config),
{
    match key.code {
        KeyCode::Char(c) => {
            if c == config.device.infos {
                app.focused_block = FocusedBlock::AdapterInfos;
                None
            } else if c == config.device.toggle_power {
                Some(Command::TogglePower)
            } else {
                None
            }
        },
        _ => None,
    }
}

/// What a key does while the device is not powered: Escape closes the
/// adapter's description; in the device block the keys that quit end the
/// console and the keys of the block work; elsewhere nothing happens.
pub open spec fn unpowered_step(app: App, key: KeyEvent, config: Config) -> (App, Option<Command>) {
    match app.focused_block {
        FocusedBlock::AdapterInfos => if key.code == KeyCode::Esc {
            (App { focused_block: FocusedBlock::Device, ..app }, None)
        } else {
            (app, None)
        },
        FocusedBlock::Device => if reserved(key, app.config.esc_quit) {
            if quits(key, app.config.esc_quit) {
                (App { running: false, ..app }, None)
            } else {
                (app, None)
            }
        } else {
            device_block_step(app, key, config)
        },
        _ => (app, None),
    }
}

/// Handles a key while the device is not powered.
pub fn on_unpowered_key(key: KeyEvent, app: &mut App, config: &Config) -> (r: Option<Command>)
    ensures
        (*final(app), r) == unpowered_step(*old(app), key, *config),
{
    match app.focused_block {
        FocusedBlock::AdapterInfos => {
            if key.code == KeyCode::Esc {
                app.focused_block = FocusedBlock::Device;
            }
            None
        },
        FocusedBlock::Device => {
            if is_reserved(key, app.config.esc_quit) {
                if is_quit(key, app.config.esc_quit) {
                    app.quit();
                }
                None
            } else {
                on_device_block_key(key, app, config)
            }
        },
        _ => None,
    }
}

/// What a key does in the dialog for a hidden network. Enter confirms: with
/// a name entered, the dialog is emptied, the new networks get the keys and
/// the connection is asked for. Tab and its reverse move between the fields,
/// Left and Right choose the security class while the cursor is on it,
/// Escape closes the dialog, `h` with Control shows or hides the password.
/// Any other key goes to the line editor under the cursor.
pub open spec fn hidden_dialog_step(
    pre: App,
    key: KeyEvent,
    post: App,
    command: Option<Command>,
) -> bool {
    let dialog = pre.auth.hidden;
    match key.code {
        KeyCode::Enter => if input_text(dialog.ssid).len() == 0 {
            post == pre && command is None
        } else {
            &&& command matches Some(Command::ConnectHidden { device_path, request })
            &&& device_path == pre.device.device_path
            &&& dialog.asks_for(Some(request))
            &&& post.auth.hidden.is_blank()
            &&& post == (App {
                focused_block: FocusedBlock::NewNetworks,
                auth: Auth { hidden: post.auth.hidden, ..pre.auth },
                ..pre
            })
        },
        KeyCode::Tab => command is None && post == (App {
            auth: Auth {
                hidden: HiddenSsidDialog {
                    focused_field: HiddenSsidDialog::field_after(
                        dialog.focused_field,
                        dialog.security,
                    ),
                    ..dialog
                },
                ..pre.auth
            },
            ..pre
        }),
        KeyCode::BackTab => command is None && post == (App {
            auth: Auth {
                hidden: HiddenSsidDialog {
                    focused_field: HiddenSsidDialog::field_before(
                        dialog.focused_field,
                        dialog.security,
                    ),
                    ..dialog
                },
                ..pre.auth
            },
            ..pre
        }),
        KeyCode::Left => command is None && post == (App {
            auth: Auth {
                hidden: HiddenSsidDialog {
                    security: if dialog.focused_field == HiddenField::Security {
                        HiddenSsidDialog::security_before(dialog.security)
                    } else {
                        dialog.security
                    },
                    ..dialog
                },
                ..pre.auth
            },
            ..pre
        }),
        KeyCode::Right => command is None && post == (App {
            auth: Auth {
                hidden: HiddenSsidDialog {
                    security: if dialog.focused_field == HiddenField::Security {
                        HiddenSsidDialog::security_after(dialog.security)
                    } else {
                        dialog.security
                    },
                    ..dialog
                },
                ..pre.auth
            },
            ..pre
        }),
        KeyCode::Esc => {
            &&& command is None
            &&& post.auth.hidden.is_blank()
            &&& post == (App {
                focused_block: FocusedBlock::NewNetworks,
                auth: Auth { hidden: post.auth.hidden, ..pre.auth },
                ..pre
            })
        },
        _ => if key.code == KeyCode::Char('h') && key.control {
            command is None && post == (App {
                auth: Auth {
                    hidden: HiddenSsidDialog { show_password: !dialog.show_password, ..dialog },
                    ..pre.auth
                },
                ..pre
            })
        } else {
            post == pre && command == (match dialog.focused_field {
                HiddenField::Ssid => Some(Command::Edit(InputField::HiddenSsid)),
                HiddenField::Password => Some(Command::Edit(InputField::HiddenPassword)),
                HiddenField::Security => None,
            })
        },
    }
}

/// Handles a key in the dialog for a hidden network.
pub fn on_hidden_dialog_key(key: KeyEvent, app: &mut App) -> (r: Option<Command>)
    ensures
        hidden_dialog_step(*old(app), key, *final(app), r),
{
    match key.code {
        KeyCode::Enter => match app.auth.hidden.confirm() {
            Some(request) => {
                app.focused_block = FocusedBlock::NewNetworks;
                Some(Command::ConnectHidden { device_path: app.device.device_path.clone(), request })
            },
            None => None,
        },
        KeyCode::Tab => {
            app.auth.hidden.next_field();
            None
        },
        KeyCode::BackTab => {
            app.auth.hidden.prev_field();
            None
        },
        KeyCode::Left => {
            if app.auth.hidden.focused_field == HiddenField::Security {
                app.auth.hidden.cycle_security_prev();
            }
            None
        },
        KeyCode::Right => {
            if app.auth.hidden.focused_field == HiddenField::Security {
                app.auth.hidden.cycle_security_next();
            }
            None
        },
        KeyCode::Esc => {
            app.auth.hidden.reset();
            app.focused_block = FocusedBlock::NewNetworks;
            None
        },
        _ => {
            if key.code == KeyCode::Char('h') && key.control {
                app.auth.hidden.show_password = !app.auth.hidden.show_password;
                None
            } else {
                match app.auth.hidden.focused_field {
                    HiddenField::Ssid => Some(Command::Edit(InputField::HiddenSsid)),
                    HiddenField::Password => Some(Command::Edit(InputField::HiddenPassword)),
                    HiddenField::Security => None,
                }
            }
        },
    }
}

/// What a key does in the passphrase dialog. Enter submits: the coordinator
/// gets the passphrase and its flag goes down, the dialog is emptied, and the
/// connection that waited is asked for with the passphrase. Escape cancels:
/// the coordinator gets the cancellation and the waiting connection is
/// dropped. Either way nothing waits any more and the new networks get the
/// keys. Tab shows or hides the passphrase; any other key goes to the line
/// editor.
pub open spec fn psk_step(pre: App, key: KeyEvent, post: App, command: Option<Command>) -> bool {
    match key.code {
        KeyCode::Enter => {
            &&& match pre.network_pending_auth {
                Some(waiting) => command matches Some(Command::Connect { network, password })
                    && network == waiting && string_of(password) == Some(
                    input_text(pre.auth.psk.passphrase),
                ),
                None => command is None,
            }
            &&& post.agent@.passphrases.len() == pre.agent@.passphrases.len() + 1
            &&& post.agent@.passphrases.drop_last() == pre.agent@.passphrases
            &&& post.agent@.passphrases.last()@ == input_text(pre.auth.psk.passphrase)
            &&& post.agent@ == (AgentState {
                psk_required: false,
                passphrases: post.agent@.passphrases,
                ..pre.agent@
            })
            &&& input_text(post.auth.psk.passphrase).len() == 0
            &&& post.auth.psk.show_password == pre.auth.psk.show_password
            &&& post == (App {
                focused_block: FocusedBlock::NewNetworks,
                agent: post.agent,
                auth: Auth { psk: post.auth.psk, ..pre.auth },
                network_name_requiring_auth: None,
                network_pending_auth: None,
                ..pre
            })
        },
        KeyCode::Esc => {
            &&& command is None
            &&& post.agent@ == (AgentState { psk_required: false, ..pre.agent@.cancelled() })
            &&& input_text(post.auth.psk.passphrase).len() == 0
            &&& post.auth.psk.show_password == pre.auth.psk.show_password
            &&& post == (App {
                focused_block: FocusedBlock::NewNetworks,
                agent: post.agent,
                auth: Auth { psk: post.auth.psk, ..pre.auth },
                network_name_requiring_auth: None,
                network_pending_auth: None,
                ..pre
            })
        },
        KeyCode::Tab => command is None && post == (App {
            auth: Auth {
                psk: Psk { show_password: !pre.auth.psk.show_password, ..pre.auth.psk },
                ..pre.auth
            },
            ..pre
        }),
        _ => post == pre && command == Some(Command::Edit(InputField::PskPassphrase)),
    }
}

/// Handles a key in the passphrase dialog.
pub fn on_psk_key(key: KeyEvent, app: &mut App) -> (r: Option<Command>)
    ensures
        psk_step(*old(app), key, *final(app), r),
{
    match key.code {
        KeyCode::Enter => {
            let password = app.auth.psk.submit(&mut app.agent);
            let waiting = app.network_pending_auth.take();
            app.network_name_requiring_auth = None;
            app.focused_block = FocusedBlock::NewNetworks;
            match waiting {
                Some(network) => Some(Command::Connect { network, password: Some(password) }),
                None => None,
            }
        },
        KeyCode::Esc => {
            app.auth.psk.cancel(&mut app.agent);
            app.network_pending_auth = None;
            app.network_name_requiring_auth = None;
            app.focused_block = FocusedBlock::NewNetworks;
            None
        },
        KeyCode::Tab => {
            app.auth.psk.show_password = !app.auth.psk.show_password;
            None
        },
        _ => Some(Command::Edit(InputField::PskPassphrase)),
    }
}

/// What a key does in the request for a private key's passphrase. Enter
/// submits it to the coordinator, Escape cancels the request and takes the
/// dialog down; either way the known networks get the keys. Tab shows or
/// hides the passphrase, any other key goes to the line editor. Without the
/// dialog, nothing happens.
pub open spec fn key_passphrase_step(pre: App, key: KeyEvent, post: App, command: Option<Command>) -> bool {
    match pre.auth.request_key_passphrase {
        None => post == pre && command is None,
        Some(dialog) => match key.code {
            KeyCode::Enter => {
                &&& command is None
                &&& post.auth.request_key_passphrase matches Some(after)
                &&& input_text(after.passphrase).len() == 0
                &&& after.network_name == dialog.network_name
                &&& after.show_password == dialog.show_password
                &&& post.agent@.passphrases.len() == pre.agent@.passphrases.len() + 1
                &&& post.agent@.passphrases.drop_last() == pre.agent@.passphrases
                &&& post.agent@.passphrases.last()@ == input_text(dialog.passphrase)
                &&& post.agent@ == (AgentState {
                    private_key_passphrase_required: false,
                    passphrases: post.agent@.passphrases,
                    ..pre.agent@
                })
                &&& post == (App {
                    focused_block: FocusedBlock::KnownNetworks,
                    agent: post.agent,
                    auth: Auth {
                        request_key_passphrase: post.auth.request_key_passphrase,
                        ..pre.auth
                    },
                    ..pre
                })
            },
            KeyCode::Esc => {
                &&& command is None
                &&& post.agent@ == (AgentState {
                    private_key_passphrase_required: false,
                    ..pre.agent@.cancelled()
                })
                &&& post == (App {
                    focused_block: FocusedBlock::KnownNetworks,
                    agent: post.agent,
                    auth: Auth { request_key_passphrase: None, ..pre.auth },
                    ..pre
                })
            },
            KeyCode::Tab => command is None && post == (App {
                auth: Auth {
                    request_key_passphrase: Some(
                        RequestKeyPassphrase { show_password: !dialog.show_password, ..dialog },
                    ),
                    ..pre.auth
                },
                ..pre
            }),
            _ => post == pre && command == Some(Command::Edit(InputField::KeyPassphrase)),
        },
    }
}

/// Handles a key in the request for a private key's passphrase.
pub fn on_key_passphrase_key(key: KeyEvent, app: &mut App) -> (r: Option<Command>)
    ensures
        key_passphrase_step(*old(app), key, *final(app), r),
{
    match app.auth.request_key_passphrase.take() {
        None => None,
        Some(mut dialog) => match key.code {
            KeyCode::Enter => {
                dialog.submit(&mut app.agent);
                app.auth.request_key_passphrase = Some(dialog);
                app.focused_block = FocusedBlock::KnownNetworks;
                None
            },
            KeyCode::Esc => {
                dialog.cancel(&mut app.agent);
                app.focused_block = FocusedBlock::KnownNetworks;
                None
            },
            KeyCode::Tab => {
                dialog.show_password = !dialog.show_password;
                app.auth.request_key_passphrase = Some(dialog);
                None
            },
            _ => {
                app.auth.request_key_passphrase = Some(dialog);
                Some(Command::Edit(InputField::KeyPassphrase))
            },
        },
    }
}

/// What a key does in the request for a password; as in the request for a
/// private key's passphrase.
pub open spec fn password_step(pre: App, key: KeyEvent, post: App, command: Option<Command>) -> bool {
    match pre.auth.request_password {
        None => post == pre && command is None,
        Some(dialog) => match key.code {
            KeyCode::Enter => {
                &&& command is None
                &&& post.auth.request_password matches Some(after)
                &&& input_text(after.password).len() == 0
                &&& after.network_name == dialog.network_name
                &&& after.user_name == dialog.user_name
                &&& after.show_password == dialog.show_password
                &&& post.agent@.passphrases.len() == pre.agent@.passphrases.len() + 1
                &&& post.agent@.passphrases.drop_last() == pre.agent@.passphrases
                &&& post.agent@.passphrases.last()@ == input_text(dialog.password)
                &&& post.agent@ == (AgentState {
                    password_required: false,
                    passphrases: post.agent@.passphrases,
                    ..pre.agent@
                })
                &&& post == (App {
                    focused_block: FocusedBlock::KnownNetworks,
                    agent: post.agent,
                    auth: Auth { request_password: post.auth.request_password, ..pre.auth },
                    ..pre
                })
            },
            KeyCode::Esc => {
                &&& command is None
                &&& post.agent@ == (AgentState { password_required: false, ..pre.agent@.cancelled() })
                &&& post == (App {
                    focused_block: FocusedBlock::KnownNetworks,
                    agent: post.agent,
                    auth: Auth { request_password: None, ..pre.auth },
                    ..pre
                })
            },
            KeyCode::Tab => command is None && post == (App {
                auth: Auth {
                    request_password: Some(
                        RequestPassword { show_password: !dialog.show_password, ..dialog },
                    ),
                    ..pre.auth
                },
                ..pre
            }),
            _ => post == pre && command == Some(Command::Edit(InputField::RequestedPassword)),
        },
    }
}

/// Handles a key in the request for a password.
pub fn on_password_key(key: KeyEvent, app: &mut App) -> (r: Option<Command>)
    ensures
        password_step(*old(app), key, *final(app), r),
{
    match app.auth.request_password.take() {
        None => None,
        Some(mut dialog) => match key.code {
            KeyCode::Enter => {
                dialog.submit(&mut app.agent);
                app.auth.request_password = Some(dialog);
                app.focused_block = FocusedBlock::KnownNetworks;
                None
            },
            KeyCode::Esc => {
                dialog.cancel(&mut app.agent);
                app.focused_block = FocusedBlock::KnownNetworks;
                None
            },
            KeyCode::Tab => {
                dialog.show_password = !dialog.show_password;
                app.auth.request_password = Some(dialog);
                None
            },
            _ => {
                app.auth.request_password = Some(dialog);
                Some(Command::Edit(InputField::RequestedPassword))
            },
        },
    }
}

/// What a key does in the request for user name and password. Enter submits
/// both to the coordinator, Escape cancels the request and takes the dialog
/// down; either way the known networks get the keys. Any other key is the
/// dialog's own. Without the dialog, nothing happens.
pub open spec fn credentials_step(pre: App, key: KeyEvent, post: App, command: Option<Command>) -> bool {
    match pre.auth.request_username_and_password {
        None => post == pre && command is None,
        Some(dialog) => match key.code {
            KeyCode::Enter => {
                &&& command is None
                &&& post.auth.request_username_and_password matches Some(after)
                &&& input_text(after.username).len() == 0
                &&& input_text(after.password).len() == 0
                &&& after.network_name == dialog.network_name
                &&& after.focused_field == dialog.focused_field
                &&& after.show_password == dialog.show_password
                &&& post.agent@.credentials.len() == pre.agent@.credentials.len() + 1
                &&& post.agent@.credentials.drop_last() == pre.agent@.credentials
                &&& post.agent@.credentials.last().0@ == input_text(dialog.username)
                &&& post.agent@.credentials.last().1@ == input_text(dialog.password)
                &&& post.agent@ == (AgentState {
                    username_and_password_required: false,
                    credentials: post.agent@.credentials,
                    ..pre.agent@
                })
                &&& post == (App {
                    focused_block: FocusedBlock::KnownNetworks,
                    agent: post.agent,
                    auth: Auth {
                        request_username_and_password: post.auth.request_username_and_password,
                        ..pre.auth
                    },
                    ..pre
                })
            },
            KeyCode::Esc => {
                &&& command is None
                &&& post.agent@ == (AgentState {
                    username_and_password_required: false,
                    ..pre.agent@.cancelled()
                })
                &&& post == (App {
                    focused_block: FocusedBlock::KnownNetworks,
                    agent: post.agent,
                    auth: Auth { request_username_and_password: None, ..pre.auth },
                    ..pre
                })
            },
            _ => post == pre && command == Some(Command::ForwardToCredentials),
        },
    }
}

/// Handles a key in the request for user name and password.
pub fn on_credentials_key(key: KeyEvent, app: &mut App) -> (r: Option<Command>)
    ensures
        credentials_step(*old(app), key, *final(app), r),
{
    match app.auth.request_username_and_password.take() {
        None => None,
        Some(mut dialog) => match key.code {
            KeyCode::Enter => {
                dialog.submit(&mut app.agent);
                app.auth.request_username_and_password = Some(dialog);
                app.focused_block = FocusedBlock::KnownNetworks;
                None
            },
            KeyCode::Esc => {
                dialog.cancel(&mut app.agent);
                app.focused_block = FocusedBlock::KnownNetworks;
                None
            },
            _ => {
                app.auth.request_username_and_password = Some(dialog);
                Some(Command::ForwardToCredentials)
            },
        },
    }
}

/// What a key does in the dialog of an enterprise network: Escape takes it
/// down and gives the keys to the new networks; any other key is the dialog's
/// own while it is up.
pub open spec fn eap_step(app: App, key: KeyEvent) -> (App, Option<Command>) {
    if key.code == KeyCode::Esc {
        (
            App {
                focused_block: FocusedBlock::NewNetworks,
                auth: Auth { eap: None, ..app.auth },
                ..app
            },
            None,
        )
    } else if app.auth.eap is Some {
        (app, Some(Command::ForwardToEap))
    } else {
        (app, None)
    }
}

/// Handles a key in the dialog of an enterprise network.
pub fn on_eap_key(key: KeyEvent, app: &mut App) -> (r: Option<Command>)
    ensures
        (*final(app), r) == eap_step(*old(app), key),
{
    if key.code == KeyCode::Esc {
        app.focused_block = FocusedBlock::NewNetworks;
        app.auth.eap = None;
        None
    } else if app.auth.eap.is_some() {
        Some(Command::ForwardToEap)
    } else {
        None
    }
}

/// The console with another station view in place.
pub open spec fn with_station(app: App, station: Station) -> App {
    App { device: Device { station: Some(station), ..app.device }, ..app }
}

/// What a key does while something lies over the lists: Escape closes the
/// adapter's description and the shared network; the result of a bandwidth
/// measurement closes on Escape while it runs and on any key once it is done.
pub open spec fn overlay_step(app: App, key: KeyEvent) -> (App, Option<Command>) {
    match (app.focused_block, app.device.station) {
        (FocusedBlock::AdapterInfos, _) => if key.code == KeyCode::Esc {
            (App { focused_block: FocusedBlock::Device, ..app }, None)
        } else {
            (app, None)
        },
        (FocusedBlock::ShareNetwork, Some(station)) => if key.code == KeyCode::Esc {
            (
                App {
                    focused_block: FocusedBlock::KnownNetworks,
                    ..with_station(app, Station { share: None, ..station })
                },
                None,
            )
        } else {
            (app, None)
        },
        (FocusedBlock::SpeedTest, Some(station)) => if key.code == KeyCode::Esc || !(
        station.speed_test matches Some(test) && test.is_running) {
            (
                App {
                    focused_block: FocusedBlock::KnownNetworks,
                    ..with_station(app, Station { speed_test: None, ..station })
                },
                None,
            )
        } else {
            (app, None)
        },
        _ => (app, None),
    }
}

/// Handles a key while something lies over the lists.
pub fn on_overlay_key(key: KeyEvent, app: &mut App) -> (r: Option<Command>)
    ensures
        (*final(app), r) == overlay_step(*old(app), key),
{
    match app.focused_block {
        FocusedBlock::AdapterInfos => {
            if key.code == KeyCode::Esc {
                app.focused_block = FocusedBlock::Device;
            }
        },
        FocusedBlock::ShareNetwork => {
            if key.code == KeyCode::Esc {
                match app.device.station.take() {
                    Some(mut station) => {
                        station.share = None;
                        app.device.station = Some(station);
                        app.focused_block = FocusedBlock::KnownNetworks;
                    },
                    None => {},
                }
            }
        },
        FocusedBlock::SpeedTest => {
            match app.device.station.take() {
                Some(mut station) => {
                    let running = match &station.speed_test {
                        Some(test) => test.is_running,
                        None => false,
                    };
                    if key.code == KeyCode::Esc || !running {
                        station.speed_test = None;
                        app.focused_block = FocusedBlock::KnownNetworks;
                    }
                    app.device.station = Some(station);
                },
                None => {},
            }
        },
        _ => {},
    }
    None
}

/// Whether a security class is one of a pre-shared key, whose passphrase can
/// be shared.
pub open spec fn shareable(security: SecurityType) -> bool {
    security == SecurityType::WPA || security == SecurityType::WPA2 || security
        == SecurityType::WPA3
}

/// What the key for sharing asks for: the profile of the selected network,
/// visible or not, where its security class has a passphrase to share.
pub open spec fn share_command(station: Station) -> Option<Command> {
    let visible = station.known_networks@.len();
    match station.known_networks_state.selected {
        Some(i) => if i < visible {
            let network = station.known_networks@[i as int].0;
            match network.known_network {
                Some(known) => if shareable(network.network_type) {
                    Some(
                        Command::Share {
                            connection_path: known.connection_path,
                            network_name: network.name,
                        },
                    )
                } else {
                    None
                },
                None => None,
            }
        } else if i - visible < station.unavailable_known_networks@.len() {
            let known = station.unavailable_known_networks@[i - visible];
            if shareable(known.network_type) {
                Some(
                    Command::Share {
                        connection_path: known.connection_path,
                        network_name: known.name,
                    },
                )
            } else {
                None
            }
        } else {
            None
        },
        None => None,
    }
}

/// What the key for removing asks for: the profile of the selected network,
/// visible or not, is to be deleted.
pub open spec fn forget_command(station: Station) -> Option<Command> {
    let visible = station.known_networks@.len();
    match station.known_networks_state.selected {
        Some(i) => if i < visible {
            match station.known_networks@[i as int].0.known_network {
                Some(known) => Some(Command::Forget(known)),
                None => None,
            }
        } else if i - visible < station.unavailable_known_networks@.len() {
            Some(Command::Forget(station.unavailable_known_networks@[i - visible]))
        } else {
            None
        },
        None => None,
    }
}

/// What the key for autoconnect asks for: the flag of the selected visible
/// network is to be switched.
pub open spec fn autoconnect_command(station: Station) -> Option<Command> {
    match station.known_networks_state.selected {
        Some(i) => if i < station.known_networks@.len() && station.known_networks@[i as int].0.known_network is Some {
            Some(Command::ToggleAutoconnect { index: i })
        } else {
            None
        },
        None => None,
    }
}

/// Decides what the key for sharing asks for.
pub fn decide_share(station: &Station) -> (r: Option<Command>)
    ensures
        r == share_command(*station),
{
    let visible = station.known_networks.len();
    match station.known_networks_state.selected {
        Some(i) => {
            if i < visible {
                let network = &station.known_networks[i].0;
                let is_psk = match network.network_type {
                    SecurityType::WPA | SecurityType::WPA2 | SecurityType::WPA3 => true,
                    _ => false,
                };
                match &network.known_network {
                    Some(known) => {
                        if is_psk {
                            Some(
                                Command::Share {
                                    connection_path: known.connection_path.clone(),
                                    network_name: network.name.clone(),
                                },
                            )
                        } else {
                            None
                        }
                    },
                    None => None,
                }
            } else if i - visible < station.unavailable_known_networks.len() {
                let known = &station.unavailable_known_networks[i - visible];
                let is_psk = match known.network_type {
                    SecurityType::WPA | SecurityType::WPA2 | SecurityType::WPA3 => true,
                    _ => false,
                };
                if is_psk {
                    Some(
                        Command::Share {
                            connection_path: known.connection_path.clone(),
                            network_name: known.name.clone(),
                        },
                    )
                } else {
                    None
                }
            } else {
                None
            }
        },
        None => None,
    }
}

/// Decides what the key for removing asks for.
pub fn decide_forget(station: &Station) -> (r: Option<Command>)
    ensures
        r == forget_command(*station),
{
    let visible = station.known_networks.len();
    match station.known_networks_state.selected {
        Some(i) => {
            if i < visible {
                match &station.known_networks[i].0.known_network {
                    Some(known) => Some(Command::Forget(known.clone())),
                    None => None,
                }
            } else if i - visible < station.unavailable_known_networks.len() {
                Some(Command::Forget(station.unavailable_known_networks[i - visible].clone()))
            } else {
                None
            }
        },
        None => None,
    }
}

/// Decides what the key for autoconnect asks for.
pub fn decide_autoconnect(station: &Station) -> (r: Option<Command>)
    ensures
        r == autoconnect_command(*station),
{
    match station.known_networks_state.selected {
        Some(i) => {
            if i < station.known_networks.len() && station.known_networks[i].0.known_network.is_some() {
                Some(Command::ToggleAutoconnect { index: i })
            } else {
                None
            }
        },
        None => None,
    }
}

/// What a key does in the list of known networks, in this order of
/// precedence: the keys for sharing, removing and autoconnect ask for that
/// work on the selected network; the key for showing all shows or hides the
/// unavailable networks; the key for the bandwidth starts a measurement
/// where the host is connected and says so where it is not; Enter and Space
/// connect or disconnect; `j`, `k` and the arrows move the cursor.
pub open spec fn known_list_step(
    pre: App,
    key: KeyEvent,
    config: Config,
    post: App,
    command: Option<Command>,
) -> bool {
    let station = pre.device.station->0;
    let keys = config.station.known_network;
    if key.code == KeyCode::Char(keys.share) {
        post == pre && command == share_command(station)
    } else if key.code == KeyCode::Char(keys.remove) {
        post == pre && command == forget_command(station)
    } else if key.code == KeyCode::Char(keys.toggle_autoconnect) {
        post == pre && command == autoconnect_command(station)
    } else if key.code == KeyCode::Char(keys.show_all) {
        command is None && post == with_station(
            pre,
            Station {
                show_unavailable_known_networks: !station.show_unavailable_known_networks,
                ..station
            },
        )
    } else if key.code == KeyCode::Char(keys.speed_test) {
        if station.connected_network is Some || station.is_ethernet_connected {
            command == Some(Command::RunSpeedTest) && post == (App {
                focused_block: FocusedBlock::SpeedTest,
                ..with_station(
                    pre,
                    Station {
                        speed_test: Some(
                            SpeedTest {
                                is_running: true,
                                download: None,
                                upload: None,
                                ping: None,
                                error: None,
                            },
                        ),
                        ..station
                    },
                )
            })
        } else {
            &&& post == pre
            &&& command matches Some(Command::Notify(n))
            &&& n.message@ == "Not connected to any network"@
            &&& n.level == NotificationLevel::Warning
            &&& n.ttl == NOTIFICATION_TTL
        }
    } else if key.code == KeyCode::Enter || key.code == KeyCode::Char(' ') {
        toggle_step(pre, post, command)
    } else if key.code == KeyCode::Char('j') || key.code == KeyCode::Down {
        command is None && post == with_station(pre, station.with_next_known())
    } else if key.code == KeyCode::Char('k') || key.code == KeyCode::Up {
        command is None && post == with_station(pre, station.with_previous_known())
    } else {
        post == pre && command is None
    }
}

/// Handles a key in the list of known networks.
fn on_known_list_key(key: KeyEvent, app: &mut App, config: &Config) -> (r: Option<Command>)
    requires
        old(app).device.station is Some,
        old(app).focused_block == FocusedBlock::KnownNetworks,
    ensures
        known_list_step(*old(app), key, *config, *final(app), r),
        old(app).well_formed() ==> final(app).well_formed(),
{
    let keys = config.station.known_network;
    if key.code == KeyCode::Enter || (key.code == KeyCode::Char(' ') && ' ' != keys.share && ' '
        != keys.remove && ' ' != keys.toggle_autoconnect && ' ' != keys.show_all && ' '
        != keys.speed_test) {
        return toggle_connect(app);
    }
    let mut station = match app.device.station.take() {
        Some(station) => station,
        None => {
            return None;
        },
    };
    let mut command: Option<Command> = None;
    match key.code {
        KeyCode::Char(c) => {
            if c == keys.share {
                command = decide_share(&station);
            } else if c == keys.remove {
                command = decide_forget(&station);
            } else if c == keys.toggle_autoconnect {
                command = decide_autoconnect(&station);
            } else if c == keys.show_all {
                station.show_unavailable_known_networks = !station.show_unavailable_known_networks;
            } else if c == keys.speed_test {
                if station.connected_network.is_some() || station.is_ethernet_connected {
                    station.speed_test = Some(SpeedTest::new());
                    app.focused_block = FocusedBlock::SpeedTest;
                    command = Some(Command::RunSpeedTest);
                } else {
                    command = Some(
                        Command::Notify(
                            Notification::new(
                                "Not connected to any network".to_owned(),
                                NotificationLevel::Warning,
                            ),
                        ),
                    );
                }
            } else if c == 'j' {
                station.select_next_known();
            } else if c == 'k' {
                station.select_previous_known();
            }
        },
        KeyCode::Down => {
            station.select_next_known();
        },
        KeyCode::Up => {
            station.select_previous_known();
        },
        _ => {},
    }
    app.device.station = Some(station);
    command
}

/// What a key does in the list of new networks, in this order of precedence:
/// the key for showing all shows or hides the hidden networks; the key for a
/// hidden network brings its dialog up; Enter and Space connect; `j`, `k`
/// and the arrows move the cursor.
pub open spec fn new_list_step(
    pre: App,
    key: KeyEvent,
    config: Config,
    post: App,
    command: Option<Command>,
) -> bool {
    let station = pre.device.station->0;
    let keys = config.station.new_network;
    if key.code == KeyCode::Char(keys.show_all) {
        command is None && post == with_station(
            pre,
            Station { show_hidden_networks: !station.show_hidden_networks, ..station },
        )
    } else if key.code == KeyCode::Char(keys.connect_hidden) {
        command is None && post == (App { focused_block: FocusedBlock::HiddenSsidInput, ..pre })
    } else if key.code == KeyCode::Enter || key.code == KeyCode::Char(' ') {
        toggle_step(pre, post, command)
    } else if key.code == KeyCode::Char('j') || key.code == KeyCode::Down {
        command is None && post == with_station(pre, station.with_next_new())
    } else if key.code == KeyCode::Char('k') || key.code == KeyCode::Up {
        command is None && post == with_station(pre, station.with_previous_new())
    } else {
        post == pre && command is None
    }
}

/// Handles a key in the list of new networks.
fn on_new_list_key(key: KeyEvent, app: &mut App, config: &Config) -> (r: Option<Command>)
    requires
        old(app).device.station is Some,
        old(app).focused_block == FocusedBlock::NewNetworks,
    ensures
        new_list_step(*old(app), key, *config, *final(app), r),
        old(app).well_formed() ==> final(app).well_formed(),
{
    let keys = config.station.new_network;
    if key.code == KeyCode::Enter || (key.code == KeyCode::Char(' ') && ' ' != keys.show_all && ' '
        != keys.connect_hidden) {
        return toggle_connect(app);
    }
    let mut station = match app.device.station.take() {
        Some(station) => station,
        None => {
            return None;
        },
    };
    match key.code {
        KeyCode::Char(c) => {
            if c == keys.show_all {
                station.show_hidden_networks = !station.show_hidden_networks;
            } else if c == keys.connect_hidden {
                app.focused_block = FocusedBlock::HiddenSsidInput;
            } else if c == 'j' {
                station.select_next_new();
            } else if c == 'k' {
                station.select_previous_new();
            }
        },
        KeyCode::Down => {
            station.select_next_new();
        },
        KeyCode::Up => {
            station.select_previous_new();
        },
        _ => {},
    }
    app.device.station = Some(station);
    None
}

/// The block that Tab leads to from the blocks of station mode.
pub open spec fn station_block_after(block: FocusedBlock) -> FocusedBlock {
    match block {
        FocusedBlock::Device => FocusedBlock::KnownNetworks,
        FocusedBlock::KnownNetworks => FocusedBlock::NewNetworks,
        FocusedBlock::NewNetworks => FocusedBlock::Device,
        _ => block,
    }
}

/// The block that Tab with Shift leads to from the blocks of station mode.
pub open spec fn station_block_before(block: FocusedBlock) -> FocusedBlock {
    match block {
        FocusedBlock::Device => FocusedBlock::NewNetworks,
        FocusedBlock::NewNetworks => FocusedBlock::KnownNetworks,
        FocusedBlock::KnownNetworks => FocusedBlock::Device,
        _ => block,
    }
}

/// Tab and its reverse go round the three blocks of station mode.
pub proof fn lemma_station_blocks_go_round(block: FocusedBlock)
    ensures
        station_block_before(station_block_after(block)) == block,
        station_block_after(station_block_before(block)) == block,
        station_block_after(station_block_after(station_block_after(block))) == block,
{
}

/// What a key does in the blocks of station mode, in this order of
/// precedence: the keys that quit; the key for the choice of mode, with
/// Control; Tab and its reverse, which go round the blocks; the key that asks
/// for a scan; then the keys of the block that has them.
pub open spec fn station_blocks_step(
    pre: App,
    key: KeyEvent,
    config: Config,
    post: App,
    command: Option<Command>,
) -> bool {
    if reserved(key, pre.config.esc_quit) {
        command is None && post == (if quits(key, pre.config.esc_quit) {
            App { running: false, ..pre }
        } else {
            pre
        })
    } else if key.code == KeyCode::Char(config.switch) && key.control {
        command is None && post == (App { reset: Reset { enable: true, ..pre.reset }, ..pre })
    } else if key.code == KeyCode::Tab {
        command is None && post == (App {
            focused_block: station_block_after(pre.focused_block),
            ..pre
        })
    } else if key.code == KeyCode::BackTab {
        command is None && post == (App {
            focused_block: station_block_before(pre.focused_block),
            ..pre
        })
    } else if key.code == KeyCode::Char(config.station.start_scanning) {
        command == Some(Command::Scan) && post == pre
    } else {
        match pre.focused_block {
            FocusedBlock::Device => (post, command) == device_block_step(pre, key, config),
            FocusedBlock::KnownNetworks => known_list_step(pre, key, config, post, command),
            FocusedBlock::NewNetworks => new_list_step(pre, key, config, post, command),
            _ => post == pre && command is None,
        }
    }
}

/// Handles a key in the blocks of station mode.
fn on_station_blocks_key(key: KeyEvent, app: &mut App, config: &Config) -> (r: Option<Command>)
    requires
        old(app).device.station is Some,
    ensures
        station_blocks_step(*old(app), key, *config, *final(app), r),
        old(app).well_formed() ==> final(app).well_formed(),
{
    if is_reserved(key, app.config.esc_quit) {
        if is_quit(key, app.config.esc_quit) {
            app.quit();
        }
        return None;
    }
    match key.code {
        KeyCode::Char(c) => {
            if c == config.switch && key.control {
                app.reset.enable = true;
                return None;
            }
            if c == config.station.start_scanning {
                return Some(Command::Scan);
            }
        },
        KeyCode::Tab => {
            app.focused_block = match app.focused_block {
                FocusedBlock::Device => FocusedBlock::KnownNetworks,
                FocusedBlock::KnownNetworks => FocusedBlock::NewNetworks,
                FocusedBlock::NewNetworks => FocusedBlock::Device,
                other => other,
            };
            return None;
        },
        KeyCode::BackTab => {
            app.focused_block = match app.focused_block {
                FocusedBlock::Device => FocusedBlock::NewNetworks,
                FocusedBlock::NewNetworks => FocusedBlock::KnownNetworks,
                FocusedBlock::KnownNetworks => FocusedBlock::Device,
                other => other,
            };
            return None;
        },
        _ => {},
    }
    match app.focused_block {
        FocusedBlock::Device => on_device_block_key(key, app, config),
        FocusedBlock::KnownNetworks => on_known_list_key(key, app, config),
        FocusedBlock::NewNetworks => on_new_list_key(key, app, config),
        _ => None,
    }
}

/// What a key does in station mode: it goes to the dialog or overlay that is
/// up, else to the blocks.
pub open spec fn station_step(
    pre: App,
    key: KeyEvent,
    config: Config,
    post: App,
    command: Option<Command>,
) -> bool {
    match pre.focused_block {
        FocusedBlock::HiddenSsidInput => hidden_dialog_step(pre, key, post, command),
        FocusedBlock::PskAuthKey => psk_step(pre, key, post, command),
        FocusedBlock::RequestKeyPasshphrase => key_passphrase_step(pre, key, post, command),
        FocusedBlock::RequestPassword => password_step(pre, key, post, command),
        FocusedBlock::RequestUsernameAndPassword => credentials_step(pre, key, post, command),
        FocusedBlock::WpaEntrepriseAuth => (post, command) == eap_step(pre, key),
        FocusedBlock::AdapterInfos | FocusedBlock::ShareNetwork | FocusedBlock::SpeedTest => (
            post,
            command,
        ) == overlay_step(pre, key),
        _ => station_blocks_step(pre, key, config, post, command),
    }
}

/// The block that Tab leads to from the blocks of access point mode; the
/// list of connected devices is passed over while it is empty.
pub open spec fn ap_block_after(block: FocusedBlock, has_devices: bool) -> FocusedBlock {
    match block {
        FocusedBlock::Device => FocusedBlock::AccessPoint,
        FocusedBlock::AccessPoint => if has_devices {
            FocusedBlock::AccessPointConnectedDevices
        } else {
            FocusedBlock::Device
        },
        FocusedBlock::AccessPointConnectedDevices => FocusedBlock::Device,
        _ => block,
    }
}

/// The console with another access point view in place.
pub open spec fn with_ap(app: App, ap: AccessPoint) -> App {
    App { device: Device { ap: Some(ap), ..app.device }, ..app }
}

/// What a key does in access point mode. In the dialog that starts the
/// access point, Enter asks to start it and gives the keys to the device
/// block, Escape closes the dialog, Tab changes the field, and any other key
/// goes to the line editor of the field. Escape closes the adapter's
/// description. Elsewhere the keys that quit, the key for the choice of mode
/// and Tab work, and in the device block its own keys.
pub open spec fn ap_step(app: App, key: KeyEvent, config: Config) -> (App, Option<Command>) {
    let ap = app.device.ap->0;
    match app.focused_block {
        FocusedBlock::AccessPointInput => match key.code {
            KeyCode::Enter => (
                App { focused_block: FocusedBlock::Device, ..app },
                Some(Command::StartAccessPoint),
            ),
            KeyCode::Esc => (
                App {
                    focused_block: FocusedBlock::AccessPoint,
                    ..with_ap(app, AccessPoint { ap_start: false, ..ap })
                },
                None,
            ),
            KeyCode::Tab => (
                with_ap(
                    app,
                    AccessPoint {
                        focused_section: match ap.focused_section {
                            APFocusedSection::SSID => APFocusedSection::PSK,
                            APFocusedSection::PSK => APFocusedSection::SSID,
                        },
                        ..ap
                    },
                ),
                None,
            ),
            _ => (
                app,
                Some(
                    Command::Edit(
                        match ap.focused_section {
                            APFocusedSection::SSID => InputField::ApSsid,
                            APFocusedSection::PSK => InputField::ApPsk,
                        },
                    ),
                ),
            ),
        },
        FocusedBlock::AdapterInfos => if key.code == KeyCode::Esc {
            (App { focused_block: FocusedBlock::Device, ..app }, None)
        } else {
            (app, None)
        },
        _ => if reserved(key, app.config.esc_quit) {
            if quits(key, app.config.esc_quit) {
                (App { running: false, ..app }, None)
            } else {
                (app, None)
            }
        } else if key.code == KeyCode::Char(config.switch) && key.control {
            (App { reset: Reset { enable: true, ..app.reset }, ..app }, None)
        } else if key.code == KeyCode::Tab {
            (
                App {
                    focused_block: ap_block_after(
                        app.focused_block,
                        ap.connected_devices@.len() > 0,
                    ),
                    ..app
                },
                None,
            )
        } else if app.focused_block == FocusedBlock::Device {
            device_block_step(app, key, config)
        } else {
            (app, None)
        },
    }
}

/// Handles a key in access point mode.
fn on_ap_key(key: KeyEvent, app: &mut App, config: &Config) -> (r: Option<Command>)
    requires
        old(app).device.ap is Some,
    ensures
        (*final(app), r) == ap_step(*old(app), key, *config),
{
    let mut ap = match app.device.ap.take() {
        Some(ap) => ap,
        None => {
            return None;
        },
    };
    let mut command: Option<Command> = None;
    match app.focused_block {
        FocusedBlock::AccessPointInput => match key.code {
            KeyCode::Enter => {
                app.focused_block = FocusedBlock::Device;
                command = Some(Command::StartAccessPoint);
            },
            KeyCode::Esc => {
                ap.ap_start = false;
                app.focused_block = FocusedBlock::AccessPoint;
            },
            KeyCode::Tab => {
                ap.focused_section = match ap.focused_section {
                    APFocusedSection::SSID => APFocusedSection::PSK,
                    APFocusedSection::PSK => APFocusedSection::SSID,
                };
            },
            _ => {
                command = Some(
                    Command::Edit(
                        match ap.focused_section {
                            APFocusedSection::SSID => InputField::ApSsid,
                            APFocusedSection::PSK => InputField::ApPsk,
                        },
                    ),
                );
            },
        },
        FocusedBlock::AdapterInfos => {
            if key.code == KeyCode::Esc {
                app.focused_block = FocusedBlock::Device;
            }
        },
        _ => {
            let has_devices = ap.connected_devices.len() > 0;
            app.device.ap = Some(ap);
            if is_reserved(key, app.config.esc_quit) {
                if is_quit(key, app.config.esc_quit) {
                    app.quit();
                }
                return None;
            }
            match key.code {
                KeyCode::Char(c) => {
                    if c == config.switch && key.control {
                        app.reset.enable = true;
                        return None;
                    }
                },
                KeyCode::Tab => {
                    app.focused_block = match app.focused_block {
                        FocusedBlock::Device => FocusedBlock::AccessPoint,
                        FocusedBlock::AccessPoint => if has_devices {
                            FocusedBlock::AccessPointConnectedDevices
                        } else {
                            FocusedBlock::Device
                        },
                        FocusedBlock::AccessPointConnectedDevices => FocusedBlock::Device,
                        other => other,
                    };
                    return None;
                },
                _ => {},
            }
            if app.focused_block == FocusedBlock::Device {
                return on_device_block_key(key, app, config);
            }
            return None;
        },
    }
    app.device.ap = Some(ap);
    command
}

/// What a key does. While the choice of mode is up, it has the keys. While
/// the device is not powered, only the device block works. A powered device
/// whose mode has no view yet asks for a fresh start in that mode. Otherwise
/// the key goes to the mode.
pub open spec fn key_step(
    pre: App,
    key: KeyEvent,
    config: Config,
    post: App,
    command: Option<Command>,
) -> bool {
    if pre.reset.enable {
        (post, command) == reset_step(pre, key)
    } else if !pre.device.is_powered {
        (post, command) == unpowered_step(pre, key, config)
    } else {
        match pre.device.mode {
            Mode::Station => if pre.device.station is Some {
                station_step(pre, key, config, post, command)
            } else {
                post == pre && command == Some(Command::Send(Event::Reset(Mode::Station)))
            },
            Mode::Ap => if pre.device.ap is Some {
                (post, command) == ap_step(pre, key, config)
            } else {
                post == pre && command == Some(Command::Send(Event::Reset(Mode::Ap)))
            },
        }
    }
}

/// Handles one key: the console moves to its next state, and the result is
/// the outside work that the key asks for, if any.
pub fn handle_key_events(key: KeyEvent, app: &mut App, config: &Config) -> (r: Option<Command>)
    ensures
        key_step(*old(app), key, *config, *final(app), r),
        old(app).well_formed() ==> final(app).well_formed(),
{
    if app.reset.enable {
        return on_reset_key(key, app);
    }
    if !app.device.is_powered {
        return on_unpowered_key(key, app, config);
    }
    match app.device.mode {
        Mode::Station => {
            if app.device.station.is_none() {
                return Some(Command::Send(Event::Reset(Mode::Station)));
            }
            match app.focused_block {
                FocusedBlock::HiddenSsidInput => on_hidden_dialog_key(key, app),
                FocusedBlock::PskAuthKey => on_psk_key(key, app),
                FocusedBlock::RequestKeyPasshphrase => on_key_passphrase_key(key, app),
                FocusedBlock::RequestPassword => on_password_key(key, app),
                FocusedBlock::RequestUsernameAndPassword => on_credentials_key(key, app),
                FocusedBlock::WpaEntrepriseAuth => on_eap_key(key, app),
                FocusedBlock::AdapterInfos | FocusedBlock::ShareNetwork | FocusedBlock::SpeedTest => on_overlay_key(
                    key,
                    app,
                ),
                _ => on_station_blocks_key(key, app, config),
            }
        },
        Mode::Ap => {
            if app.device.ap.is_none() {
                return Some(Command::Send(Event::Reset(Mode::Ap)));
            }
            on_ap_key(key, app, config)
        },
    }
}

/// Puts a shared network on screen, over the station view, and gives it the
/// keys. Without a station view nothing happens.
pub fn show_share(app: &mut App, share: Share)
    ensures
        *final(app) == (match old(app).device.station {
            Some(station) => App {
                focused_block: FocusedBlock::ShareNetwork,
                ..with_station(*old(app), Station { share: Some(share), ..station })
            },
            None => *old(app),
        }),
{
    match app.device.station.take() {
        Some(mut station) => {
            station.share = Some(share);
            app.device.station = Some(station);
            app.focused_block = FocusedBlock::ShareNetwork;
        },
        None => {},
    }
}

/// Takes the result of a bandwidth measurement in, for the station view to
/// show. Without a station view nothing happens.
pub fn speed_test_finished(app: &mut App, result: SpeedTest)
    ensures
        *final(app) == (match old(app).device.station {
            Some(station) => with_station(
                *old(app),
                Station { speed_test: Some(result), ..station },
            ),
            None => *old(app),
        }),
{
    match app.device.station.take() {
        Some(mut station) => {
            station.speed_test = Some(result);
            app.device.station = Some(station);
        },
        None => {},
    }
}

} // verus!
