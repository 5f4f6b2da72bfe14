use tui_input::Input;
use wlctl::adapter::Adapter;
use wlctl::app::{App, FocusedBlock};
use wlctl::config::{Config, DeviceKeys, KnownNetworkKeys, NewNetworkKeys, StationKeys};
use wlctl::device::Device;
use wlctl::event::Event;
use wlctl::handler::{
    handle_key_events, show_share, speed_test_finished, toggle_connect, Command, InputField,
    KeyCode, KeyEvent,
};
use wlctl::mode::station::share::Share;
use wlctl::mode::ap::{APFocusedSection, AccessPoint};
use wlctl::mode::station::auth::hidden::{HiddenField, HiddenSsidDialog};
use wlctl::mode::station::auth::Auth;
use wlctl::mode::station::speed_test::SpeedTest;
use wlctl::mode::station::{HiddenNetwork, Station, StationSnapshot};
use wlctl::nm::types::{
    AccessPointInfo, ConnectionInfo, DeviceState, Mode, SecurityType, WifiMode,
};
use wlctl::notification::NotificationLevel;

fn config() -> Config {
    Config {
        switch: 'r',
        esc_quit: false,
        device: DeviceKeys { infos: 'i', toggle_power: 'o' },
        station: StationKeys {
            start_scanning: 's',
            known_network: KnownNetworkKeys {
                toggle_autoconnect: 't',
                remove: 'd',
                show_all: 'a',
                share: 'p',
                speed_test: 'b',
            },
            new_network: NewNetworkKeys { show_all: 'a', connect_hidden: 'n' },
        },
    }
}

fn ap(ssid: &str, security: SecurityType) -> AccessPointInfo {
    AccessPointInfo {
        path: format!("/ap/{}", ssid),
        ssid: ssid.to_string(),
        strength: 50,
        frequency: 2437,
        hw_address: String::new(),
        security,
        mode: WifiMode::Infrastructure,
    }
}

fn profile(ssid: &str, security: SecurityType) -> ConnectionInfo {
    ConnectionInfo {
        path: format!("/c/{}", ssid),
        id: ssid.to_string(),
        uuid: String::new(),
        ssid: ssid.to_string(),
        autoconnect: true,
        timestamp: 0,
        hidden: false,
        security,
    }
}

fn station(active: Option<&str>) -> Station {
    Station::new(
        "/dev".to_string(),
        StationSnapshot {
            device_state: DeviceState::Disconnected,
            is_ethernet_connected: false,
            connected_ssid: active.map(|s| s.to_string()),
            visible_networks: vec![
                ap("Home", SecurityType::WPA2),
                ap("Work", SecurityType::WPA2),
                ap("Cafe", SecurityType::Open),
                ap("Shop", SecurityType::WPA2),
                ap("Corp", SecurityType::Enterprise),
            ],
            saved_connections: vec![
                profile("Home", SecurityType::WPA),
                profile("Work", SecurityType::WPA),
                profile("Gone", SecurityType::WPA),
                profile("Lab", SecurityType::Enterprise),
            ],
        },
    )
}

fn app(active: Option<&str>) -> App {
    let device = Device::new(
        "/dev".to_string(),
        "wlan0".to_string(),
        "AA".to_string(),
        true,
        Some(station(active)),
    );
    App::new(Adapter::new("/dev".to_string(), true, "wlan0".to_string()), device, config(), Mode::Station)
}

fn key(code: KeyCode) -> KeyEvent {
    KeyEvent { code, control: false }
}

fn ctrl(c: char) -> KeyEvent {
    KeyEvent { code: KeyCode::Char(c), control: true }
}

fn press(app: &mut App, event: KeyEvent) -> Option<Command> {
    let config = app.config;
    handle_key_events(event, app, &config)
}

#[test]
fn the_quit_keys_quit() {
    let mut a = app(None);
    assert!(press(&mut a, key(KeyCode::Char('q'))).is_none());
    assert!(!a.running);
    let mut a = app(None);
    press(&mut a, key(KeyCode::Char('c')));
    assert!(a.running);
    press(&mut a, ctrl('C'));
    assert!(!a.running);
    let mut a = app(None);
    press(&mut a, key(KeyCode::Esc));
    assert!(a.running);
    a.config.esc_quit = true;
    press(&mut a, key(KeyCode::Esc));
    assert!(!a.running);
}

#[test]
fn tab_goes_round_the_blocks_of_station_mode() {
    let mut a = app(None);
    assert_eq!(a.focused_block, FocusedBlock::KnownNetworks);
    press(&mut a, key(KeyCode::Tab));
    assert_eq!(a.focused_block, FocusedBlock::NewNetworks);
    press(&mut a, key(KeyCode::Tab));
    assert_eq!(a.focused_block, FocusedBlock::Device);
    press(&mut a, key(KeyCode::Tab));
    assert_eq!(a.focused_block, FocusedBlock::KnownNetworks);
    press(&mut a, key(KeyCode::BackTab));
    assert_eq!(a.focused_block, FocusedBlock::Device);
    press(&mut a, key(KeyCode::BackTab));
    assert_eq!(a.focused_block, FocusedBlock::NewNetworks);
}

#[test]
fn the_choice_of_mode_takes_the_keys_while_it_is_up() {
    let mut a = app(None);
    press(&mut a, key(KeyCode::Char('r')));
    assert!(!a.reset.enable);
    press(&mut a, ctrl('r'));
    assert!(a.reset.enable);
    press(&mut a, key(KeyCode::Tab));
    assert_eq!(a.focused_block, FocusedBlock::KnownNetworks);
    press(&mut a, key(KeyCode::Down));
    assert_eq!(a.reset.selected_mode, Mode::Ap);
    press(&mut a, key(KeyCode::Char('k')));
    assert_eq!(a.reset.selected_mode, Mode::Station);
    press(&mut a, key(KeyCode::Char('j')));
    match press(&mut a, key(KeyCode::Enter)) {
        Some(Command::Send(Event::Reset(mode))) => assert_eq!(mode, Mode::Ap),
        _ => panic!("expected a reset"),
    }
    press(&mut a, key(KeyCode::Char('q')));
    assert!(!a.running);
}

#[test]
fn an_unpowered_device_only_offers_its_own_block() {
    let mut a = app(None);
    a.device.refresh(false);
    a.focused_block = FocusedBlock::Device;
    assert!(press(&mut a, key(KeyCode::Char('s'))).is_none());
    assert!(matches!(press(&mut a, key(KeyCode::Char('o'))), Some(Command::TogglePower)));
    press(&mut a, key(KeyCode::Tab));
    assert_eq!(a.focused_block, FocusedBlock::Device);
    press(&mut a, key(KeyCode::Char('i')));
    assert_eq!(a.focused_block, FocusedBlock::AdapterInfos);
    press(&mut a, key(KeyCode::Char('q')));
    assert!(a.running);
    press(&mut a, key(KeyCode::Esc));
    assert_eq!(a.focused_block, FocusedBlock::Device);
    press(&mut a, key(KeyCode::Char('q')));
    assert!(!a.running);
}

#[test]
fn a_mode_without_its_view_asks_to_start_over() {
    let mut a = app(None);
    a.device.install_station(None);
    assert!(matches!(
        press(&mut a, key(KeyCode::Char('x'))),
        Some(Command::Send(Event::Reset(Mode::Station)))
    ));
    a.device.set_mode(Mode::Ap);
    assert!(matches!(
        press(&mut a, key(KeyCode::Char('x'))),
        Some(Command::Send(Event::Reset(Mode::Ap)))
    ));
}

#[test]
fn the_scan_key_asks_for_a_scan() {
    let mut a = app(None);
    assert!(matches!(press(&mut a, key(KeyCode::Char('s'))), Some(Command::Scan)));
}

#[test]
fn enter_on_a_known_network_connects() {
    let mut a = app(None);
    press(&mut a, key(KeyCode::Down));
    match press(&mut a, key(KeyCode::Enter)) {
        Some(Command::Connect { network, password }) => {
            assert_eq!(network.name, "Work");
            assert!(network.known_network.is_some());
            assert_eq!(password, None);
        }
        _ => panic!("expected a connection"),
    }
}

#[test]
fn enter_on_the_connected_network_disconnects() {
    let mut a = app(Some("Home"));
    assert!(matches!(press(&mut a, key(KeyCode::Enter)), Some(Command::Disconnect)));
    press(&mut a, key(KeyCode::Char('j')));
    match press(&mut a, key(KeyCode::Char(' '))) {
        Some(Command::DisconnectThenConnect(network)) => assert_eq!(network.name, "Work"),
        _ => panic!("expected to disconnect and connect"),
    }
}

#[test]
fn enter_on_an_unavailable_network_does_nothing() {
    let mut a = app(None);
    press(&mut a, key(KeyCode::Char('a')));
    press(&mut a, key(KeyCode::Down));
    press(&mut a, key(KeyCode::Down));
    assert_eq!(
        a.device.station.as_ref().unwrap().known_networks_state.selected(),
        Some(2)
    );
    assert!(press(&mut a, key(KeyCode::Enter)).is_none());
}

#[test]
fn enter_on_a_new_secured_network_asks_for_the_passphrase() {
    let mut a = app(None);
    a.focused_block = FocusedBlock::NewNetworks;
    press(&mut a, key(KeyCode::Down));
    match press(&mut a, key(KeyCode::Enter)) {
        Some(Command::Send(Event::Auth(name))) => assert_eq!(name, "Shop"),
        _ => panic!("expected the request for a passphrase"),
    }
    assert_eq!(a.focused_block, FocusedBlock::PskAuthKey);
    assert!(a.agent.psk_required);
    assert_eq!(a.network_name_requiring_auth, Some("Shop".to_string()));
    assert_eq!(a.network_pending_auth.as_ref().unwrap().name, "Shop");
    assert!(matches!(
        press(&mut a, key(KeyCode::Char('h'))),
        Some(Command::Edit(InputField::PskPassphrase))
    ));
    a.auth.psk.passphrase = Input::new("hunter2".to_string());
    press(&mut a, key(KeyCode::Tab));
    assert!(!a.auth.psk.show_password);
    match press(&mut a, key(KeyCode::Enter)) {
        Some(Command::Connect { network, password }) => {
            assert_eq!(network.name, "Shop");
            assert_eq!(password, Some("hunter2".to_string()));
        }
        _ => panic!("expected the connection"),
    }
    assert_eq!(a.focused_block, FocusedBlock::NewNetworks);
    assert!(a.network_pending_auth.is_none());
    assert!(a.network_name_requiring_auth.is_none());
    assert!(!a.agent.psk_required);
    assert_eq!(a.agent.passphrases, vec!["hunter2".to_string()]);
    assert_eq!(a.auth.psk.passphrase.value(), "");
}

#[test]
fn escape_in_the_passphrase_dialog_cancels_the_request() {
    let mut a = app(None);
    a.focused_block = FocusedBlock::NewNetworks;
    press(&mut a, key(KeyCode::Down));
    press(&mut a, key(KeyCode::Enter));
    a.auth.psk.passphrase = Input::new("half".to_string());
    assert!(press(&mut a, key(KeyCode::Esc)).is_none());
    assert_eq!(a.focused_block, FocusedBlock::NewNetworks);
    assert!(a.network_pending_auth.is_none());
    assert!(!a.agent.psk_required);
    assert_eq!(a.agent.cancellations, 1);
    assert!(a.agent.passphrases.is_empty());
    assert_eq!(a.auth.psk.passphrase.value(), "");
}

#[test]
fn no_second_connection_waits_for_a_passphrase() {
    let mut a = app(None);
    a.focused_block = FocusedBlock::NewNetworks;
    press(&mut a, key(KeyCode::Down));
    press(&mut a, key(KeyCode::Enter));
    a.focused_block = FocusedBlock::NewNetworks;
    assert!(toggle_connect(&mut a).is_none());
    assert_eq!(a.focused_block, FocusedBlock::NewNetworks);
    assert_eq!(a.network_pending_auth.as_ref().unwrap().name, "Shop");
}

#[test]
fn enter_on_a_new_open_network_connects_without_a_password() {
    let mut a = app(None);
    a.focused_block = FocusedBlock::NewNetworks;
    match press(&mut a, key(KeyCode::Enter)) {
        Some(Command::Connect { network, password }) => {
            assert_eq!(network.name, "Cafe");
            assert_eq!(password, None);
        }
        _ => panic!("expected a connection"),
    }
    assert_eq!(a.focused_block, FocusedBlock::NewNetworks);
}

#[test]
fn enter_on_a_new_enterprise_network_brings_its_dialog_up() {
    let mut a = app(None);
    a.focused_block = FocusedBlock::NewNetworks;
    press(&mut a, key(KeyCode::Down));
    press(&mut a, key(KeyCode::Down));
    match press(&mut a, key(KeyCode::Enter)) {
        Some(Command::Send(Event::ConfigureNewEapNetwork(name))) => assert_eq!(name, "Corp"),
        _ => panic!("expected the enterprise dialog"),
    }
    assert!(a.network_pending_auth.is_none());
}

#[test]
fn hidden_rows_of_the_new_networks() {
    let mut a = app(None);
    a.focused_block = FocusedBlock::NewNetworks;
    {
        let station = a.device.station.as_mut().unwrap();
        station.new_hidden_networks = vec![
            HiddenNetwork { address: "00:01".to_string(), network_type: "psk".to_string(), signal_strength: 0 },
            HiddenNetwork { address: "00:02".to_string(), network_type: "8021x".to_string(), signal_strength: 0 },
        ];
    }
    press(&mut a, key(KeyCode::Char('a')));
    for _ in 0..3 {
        press(&mut a, key(KeyCode::Down));
    }
    match press(&mut a, key(KeyCode::Enter)) {
        Some(Command::Notify(n)) => {
            assert_eq!(n.message, "Hidden network connection not yet implemented");
            assert_eq!(n.level, NotificationLevel::Info);
        }
        _ => panic!("expected a notification"),
    }
    press(&mut a, key(KeyCode::Down));
    press(&mut a, key(KeyCode::Down));
    match press(&mut a, key(KeyCode::Enter)) {
        Some(Command::Send(Event::ConfigureNewEapNetwork(name))) => assert_eq!(name, "00:02"),
        _ => panic!("expected the enterprise dialog"),
    }
    a.device.station.as_mut().unwrap().new_networks_state.select(Some(9));
    assert!(press(&mut a, key(KeyCode::Enter)).is_none());
}

#[test]
fn the_keys_of_the_known_networks() {
    let mut a = app(None);
    match press(&mut a, key(KeyCode::Char('p'))) {
        Some(Command::Share { connection_path, network_name }) => {
            assert_eq!(connection_path, "/c/Home");
            assert_eq!(network_name, "Home");
        }
        _ => panic!("expected a share"),
    }
    match press(&mut a, key(KeyCode::Char('d'))) {
        Some(Command::Forget(known)) => {
            assert_eq!(known.connection_path, "/c/Home");
            assert_eq!(known.name, "Home");
        }
        _ => panic!("expected a removal"),
    }
    assert!(matches!(
        press(&mut a, key(KeyCode::Char('t'))),
        Some(Command::ToggleAutoconnect { index: 0 })
    ));
    press(&mut a, key(KeyCode::Char('a')));
    assert!(a.device.station.as_ref().unwrap().show_unavailable_known_networks);
    press(&mut a, key(KeyCode::Down));
    press(&mut a, key(KeyCode::Down));
    match press(&mut a, key(KeyCode::Char('d'))) {
        Some(Command::Forget(known)) => {
            assert_eq!(known.connection_path, "/c/Gone");
            assert_eq!(known.name, "Gone");
        }
        _ => panic!("expected a removal"),
    }
    assert!(matches!(press(&mut a, key(KeyCode::Char('p'))), Some(Command::Share { .. })));
    assert!(press(&mut a, key(KeyCode::Char('t'))).is_none());
    press(&mut a, key(KeyCode::Down));
    assert!(press(&mut a, key(KeyCode::Char('p'))).is_none());
    assert!(matches!(press(&mut a, key(KeyCode::Char('d'))), Some(Command::Forget(_))));
    press(&mut a, key(KeyCode::Char('a')));
    assert!(!a.device.station.as_ref().unwrap().show_unavailable_known_networks);
}

#[test]
fn the_speed_test_needs_a_connection() {
    let mut a = app(None);
    match press(&mut a, key(KeyCode::Char('b'))) {
        Some(Command::Notify(n)) => {
            assert_eq!(n.message, "Not connected to any network");
            assert_eq!(n.level, NotificationLevel::Warning);
        }
        _ => panic!("expected a warning"),
    }
    assert_eq!(a.focused_block, FocusedBlock::KnownNetworks);
    let mut a = app(Some("Home"));
    assert!(matches!(press(&mut a, key(KeyCode::Char('b'))), Some(Command::RunSpeedTest)));
    assert_eq!(a.focused_block, FocusedBlock::SpeedTest);
    assert!(a.device.station.as_ref().unwrap().speed_test.as_ref().unwrap().is_running);
    press(&mut a, key(KeyCode::Char('x')));
    assert_eq!(a.focused_block, FocusedBlock::SpeedTest);
    a.device.station.as_mut().unwrap().speed_test = Some(SpeedTest::default());
    press(&mut a, key(KeyCode::Char('x')));
    assert_eq!(a.focused_block, FocusedBlock::KnownNetworks);
    assert!(a.device.station.as_ref().unwrap().speed_test.is_none());
    press(&mut a, key(KeyCode::Char('b')));
    press(&mut a, key(KeyCode::Esc));
    assert_eq!(a.focused_block, FocusedBlock::KnownNetworks);
}

#[test]
fn the_dialog_for_a_hidden_network() {
    let mut a = app(None);
    a.focused_block = FocusedBlock::NewNetworks;
    press(&mut a, key(KeyCode::Char('n')));
    assert_eq!(a.focused_block, FocusedBlock::HiddenSsidInput);
    assert!(matches!(
        press(&mut a, key(KeyCode::Char('q'))),
        Some(Command::Edit(InputField::HiddenSsid))
    ));
    assert!(a.running);
    assert!(press(&mut a, key(KeyCode::Enter)).is_none());
    assert_eq!(a.focused_block, FocusedBlock::HiddenSsidInput);
    a.auth.hidden.ssid = Input::new("Stealth".to_string());
    a.auth.hidden.password = Input::new("pw".to_string());
    press(&mut a, key(KeyCode::Right));
    assert_eq!(a.auth.hidden.security, SecurityType::WPA2);
    press(&mut a, key(KeyCode::Tab));
    assert_eq!(a.auth.hidden.focused_field, HiddenField::Security);
    assert!(press(&mut a, key(KeyCode::Char('x'))).is_none());
    press(&mut a, key(KeyCode::Right));
    assert_eq!(a.auth.hidden.security, SecurityType::WPA3);
    press(&mut a, key(KeyCode::Left));
    press(&mut a, key(KeyCode::Left));
    assert_eq!(a.auth.hidden.security, SecurityType::Open);
    press(&mut a, key(KeyCode::Tab));
    assert_eq!(a.auth.hidden.focused_field, HiddenField::Ssid);
    press(&mut a, key(KeyCode::BackTab));
    assert_eq!(a.auth.hidden.focused_field, HiddenField::Security);
    press(&mut a, key(KeyCode::Right));
    press(&mut a, key(KeyCode::Tab));
    assert_eq!(a.auth.hidden.focused_field, HiddenField::Password);
    assert!(matches!(
        press(&mut a, key(KeyCode::Char('h'))),
        Some(Command::Edit(InputField::HiddenPassword))
    ));
    press(&mut a, ctrl('h'));
    assert!(!a.auth.hidden.show_password);
    match press(&mut a, key(KeyCode::Enter)) {
        Some(Command::ConnectHidden { device_path, request }) => {
            assert_eq!(device_path, "/dev");
            assert_eq!(request.ssid, "Stealth");
            assert_eq!(request.security, SecurityType::WPA2);
            assert_eq!(request.password, Some("pw".to_string()));
            let accepted = request.answered(Ok(()));
            assert_eq!(accepted.message, "Connecting to hidden network: Stealth");
            assert_eq!(accepted.level, NotificationLevel::Info);
            let refused = request.answered(Err("timeout".to_string()));
            assert_eq!(refused.message, "Failed to connect to Stealth: timeout");
            assert_eq!(refused.level, NotificationLevel::Error);
        }
        _ => panic!("expected the connection"),
    }
    assert_eq!(a.focused_block, FocusedBlock::NewNetworks);
    assert_eq!(a.auth.hidden.ssid.value(), "");
    assert_eq!(a.auth.hidden.password.value(), "");
    assert_eq!(a.auth.hidden.security, SecurityType::WPA2);
    assert_eq!(a.auth.hidden.focused_field, HiddenField::Ssid);
    assert!(a.auth.hidden.show_password);
}

#[test]
fn an_open_hidden_network_has_no_password() {
    let mut dialog = HiddenSsidDialog::default();
    dialog.ssid = Input::new("Open".to_string());
    dialog.password = Input::new("ignored".to_string());
    dialog.cycle_security_prev();
    assert_eq!(dialog.security, SecurityType::Open);
    assert!(!dialog.requires_password());
    dialog.next_field();
    dialog.next_field();
    assert_eq!(dialog.focused_field, HiddenField::Ssid);
    dialog.prev_field();
    assert_eq!(dialog.focused_field, HiddenField::Security);
    let request = dialog.confirm().unwrap();
    assert_eq!(request.ssid, "Open");
    assert_eq!(request.security, SecurityType::Open);
    assert_eq!(request.password, None);
    dialog.security = SecurityType::WEP;
    dialog.cycle_security_next();
    assert_eq!(dialog.security, SecurityType::WPA2);
    dialog.ssid = Input::new("x".to_string());
    dialog.reset();
    assert_eq!(dialog.ssid.value(), "");
    assert!(dialog.confirm().is_none());
}

#[test]
fn escape_closes_the_dialog_for_a_hidden_network() {
    let mut a = app(None);
    a.focused_block = FocusedBlock::HiddenSsidInput;
    a.auth.hidden.ssid = Input::new("abc".to_string());
    a.auth.hidden.security = SecurityType::WPA3;
    assert!(press(&mut a, key(KeyCode::Esc)).is_none());
    assert_eq!(a.focused_block, FocusedBlock::NewNetworks);
    assert_eq!(a.auth.hidden.ssid.value(), "");
    assert_eq!(a.auth.hidden.security, SecurityType::WPA2);
}

#[test]
fn the_requests_of_an_enterprise_network() {
    let mut a = app(None);
    a.focused_block = FocusedBlock::RequestKeyPasshphrase;
    assert!(press(&mut a, key(KeyCode::Enter)).is_none());
    assert_eq!(a.focused_block, FocusedBlock::RequestKeyPasshphrase);
    a.agent.request_private_key_passphrase("Corp".to_string());
    a.auth.init_request_key_passphrase("Corp".to_string());
    assert!(matches!(
        press(&mut a, key(KeyCode::Char('k'))),
        Some(Command::Edit(InputField::KeyPassphrase))
    ));
    a.auth.request_key_passphrase.as_mut().unwrap().passphrase = Input::new("kp".to_string());
    press(&mut a, key(KeyCode::Tab));
    assert!(!a.auth.request_key_passphrase.as_ref().unwrap().show_password);
    press(&mut a, key(KeyCode::Enter));
    assert_eq!(a.focused_block, FocusedBlock::KnownNetworks);
    assert_eq!(a.agent.passphrases, vec!["kp".to_string()]);
    assert!(!a.agent.private_key_passphrase_required);
    assert_eq!(a.auth.request_key_passphrase.as_ref().unwrap().passphrase.value(), "");

    a.focused_block = FocusedBlock::RequestPassword;
    a.agent.request_password("Corp".to_string(), Some("amy".to_string()));
    a.auth.init_request_password("Corp".to_string(), Some("amy".to_string()));
    assert!(matches!(
        press(&mut a, key(KeyCode::Char('k'))),
        Some(Command::Edit(InputField::RequestedPassword))
    ));
    press(&mut a, key(KeyCode::Esc));
    assert_eq!(a.focused_block, FocusedBlock::KnownNetworks);
    assert!(a.auth.request_password.is_none());
    assert!(!a.agent.password_required);
    assert_eq!(a.agent.cancellations, 1);

    a.focused_block = FocusedBlock::RequestUsernameAndPassword;
    a.agent.request_username_and_password("Corp".to_string());
    a.auth.init_request_username_and_password("Corp".to_string());
    assert!(matches!(
        press(&mut a, key(KeyCode::Tab)),
        Some(Command::ForwardToCredentials)
    ));
    {
        let dialog = a.auth.request_username_and_password.as_mut().unwrap();
        dialog.switch_field();
        dialog.username = Input::new("amy".to_string());
        dialog.password = Input::new("pw".to_string());
    }
    press(&mut a, key(KeyCode::Enter));
    assert_eq!(a.focused_block, FocusedBlock::KnownNetworks);
    assert_eq!(a.agent.credentials, vec![("amy".to_string(), "pw".to_string())]);
    assert!(!a.agent.username_and_password_required);
}

#[test]
fn the_enterprise_dialog_and_the_overlays() {
    let mut a = app(None);
    a.focused_block = FocusedBlock::WpaEntrepriseAuth;
    assert!(press(&mut a, key(KeyCode::Char('x'))).is_none());
    a.auth.init_eap("Corp".to_string());
    assert_eq!(a.auth.eap.as_ref().unwrap().network_name, "Corp");
    assert!(matches!(press(&mut a, key(KeyCode::Char('q'))), Some(Command::ForwardToEap)));
    press(&mut a, key(KeyCode::Esc));
    assert_eq!(a.focused_block, FocusedBlock::NewNetworks);
    assert!(a.auth.eap.is_none());

    a.focused_block = FocusedBlock::ShareNetwork;
    press(&mut a, key(KeyCode::Char('q')));
    assert_eq!(a.focused_block, FocusedBlock::ShareNetwork);
    press(&mut a, key(KeyCode::Esc));
    assert_eq!(a.focused_block, FocusedBlock::KnownNetworks);

    press(&mut a, key(KeyCode::BackTab));
    press(&mut a, key(KeyCode::Char('i')));
    assert_eq!(a.focused_block, FocusedBlock::AdapterInfos);
    press(&mut a, key(KeyCode::Esc));
    assert_eq!(a.focused_block, FocusedBlock::Device);
    assert!(matches!(press(&mut a, key(KeyCode::Char('o'))), Some(Command::TogglePower)));
}

#[test]
fn resetting_the_dialogs() {
    let mut auth = Auth::default();
    auth.psk.passphrase = Input::new("x".to_string());
    auth.psk.show_password = false;
    auth.hidden.ssid = Input::new("y".to_string());
    auth.init_eap("Corp".to_string());
    auth.init_request_password("Corp".to_string(), None);
    auth.reset();
    assert_eq!(auth.psk.passphrase.value(), "");
    assert!(auth.psk.show_password);
    assert_eq!(auth.hidden.ssid.value(), "");
    assert!(auth.eap.is_none());
    assert!(auth.request_password.is_some());
}

#[test]
fn the_keys_of_access_point_mode() {
    let mut a = app(None);
    a.device.set_mode(Mode::Ap);
    a.device.install_ap(Some(AccessPoint::new()));
    a.focused_block = FocusedBlock::Device;
    press(&mut a, key(KeyCode::Tab));
    assert_eq!(a.focused_block, FocusedBlock::AccessPoint);
    press(&mut a, key(KeyCode::Tab));
    assert_eq!(a.focused_block, FocusedBlock::Device);
    a.device.ap.as_mut().unwrap().connected_devices.push("AA".to_string());
    press(&mut a, key(KeyCode::Tab));
    press(&mut a, key(KeyCode::Tab));
    assert_eq!(a.focused_block, FocusedBlock::AccessPointConnectedDevices);
    assert!(press(&mut a, key(KeyCode::Char('s'))).is_none());
    press(&mut a, key(KeyCode::Tab));
    assert_eq!(a.focused_block, FocusedBlock::Device);
    assert!(matches!(press(&mut a, key(KeyCode::Char('o'))), Some(Command::TogglePower)));

    a.focused_block = FocusedBlock::AccessPointInput;
    a.device.ap.as_mut().unwrap().ap_start = true;
    assert!(matches!(
        press(&mut a, key(KeyCode::Char('q'))),
        Some(Command::Edit(InputField::ApSsid))
    ));
    press(&mut a, key(KeyCode::Tab));
    assert_eq!(a.device.ap.as_ref().unwrap().focused_section, APFocusedSection::PSK);
    assert!(matches!(
        press(&mut a, key(KeyCode::Char('q'))),
        Some(Command::Edit(InputField::ApPsk))
    ));
    press(&mut a, key(KeyCode::Esc));
    assert_eq!(a.focused_block, FocusedBlock::AccessPoint);
    assert!(!a.device.ap.as_ref().unwrap().ap_start);
    a.focused_block = FocusedBlock::AccessPointInput;
    assert!(matches!(press(&mut a, key(KeyCode::Enter)), Some(Command::StartAccessPoint)));
    assert_eq!(a.focused_block, FocusedBlock::Device);
    press(&mut a, ctrl('r'));
    assert!(a.reset.enable);
}

#[test]
fn a_configured_key_comes_before_the_cursor_keys() {
    let mut a = app(None);
    a.config.station.known_network.share = 'j';
    assert!(matches!(press(&mut a, key(KeyCode::Char('j'))), Some(Command::Share { .. })));
    assert_eq!(
        a.device.station.as_ref().unwrap().known_networks_state.selected(),
        Some(0)
    );
    a.config.station.known_network.remove = ' ';
    assert!(matches!(press(&mut a, key(KeyCode::Char(' '))), Some(Command::Forget(_))));
    a.config.station.start_scanning = 'q';
    assert!(press(&mut a, key(KeyCode::Char('q'))).is_none());
    assert!(!a.running);
}

#[test]
fn results_of_outside_work_come_on_screen() {
    let mut a = app(Some("Home"));
    let share = Share::new("Home".to_string(), Some("pw".to_string())).ok().unwrap();
    show_share(&mut a, share);
    assert_eq!(a.focused_block, FocusedBlock::ShareNetwork);
    assert_eq!(a.device.station.as_ref().unwrap().share.as_ref().unwrap().passphrase, "pw");
    let mut result = SpeedTest::default();
    result.ping = Some("1 ms".to_string());
    speed_test_finished(&mut a, result);
    let shown = a.device.station.as_ref().unwrap().speed_test.as_ref().unwrap();
    assert_eq!(shown.ping, Some("1 ms".to_string()));
    assert!(!shown.is_running);
    a.device.install_station(None);
    show_share(&mut a, Share::new("x".to_string(), Some("y".to_string())).ok().unwrap());
    assert!(a.device.station.is_none());
}

#[test]
fn autoconnect_of_a_row_is_switched_by_the_answer() {
    let mut s = station(None);
    assert_eq!(s.autoconnect_request(0), Some(("/c/Home".to_string(), false)));
    assert_eq!(s.autoconnect_request(7), None);
    let refused = s.autoconnect_toggled(0, Err("no".to_string())).unwrap();
    assert_eq!(refused.level, NotificationLevel::Error);
    assert!(s.known_networks[0].0.known_network.as_ref().unwrap().is_autoconnect);
    let done = s.autoconnect_toggled(0, Ok(())).unwrap();
    assert_eq!(done.message, "Disable Autoconnect for: Home");
    assert!(!s.known_networks[0].0.known_network.as_ref().unwrap().is_autoconnect);
    assert_eq!(s.known_networks[0].0.name, "Home");
    assert_eq!(s.known_networks[1].0.name, "Work");
    assert!(s.autoconnect_toggled(9, Ok(())).is_none());
    assert_eq!(s.autoconnect_request(0), Some(("/c/Home".to_string(), true)));
}
