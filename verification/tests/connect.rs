use wlctl::mode::station::known_network::KnownNetwork;
use wlctl::mode::station::network::{
    AttemptEvent, AttemptState, ConnectError, ConnectRoute, ConnectStep, Network,
};
use wlctl::tick::RefreshGate;
use wlctl::nm::types::{AccessPointInfo, ConnectionInfo, SecurityType, WifiMode};
use wlctl::notification::{Notification, NotificationLevel};

fn network(security: SecurityType, known: bool) -> Network {
    Network {
        device_path: "/dev/0".to_string(),
        ap_path: "/ap/7".to_string(),
        name: "Home".to_string(),
        network_type: security,
        is_connected: false,
        known_network: if known {
            Some(KnownNetwork {
                connection_path: "/c/Home".to_string(),
                name: "Home".to_string(),
                network_type: SecurityType::WPA,
                is_autoconnect: true,
                is_hidden: false,
                last_connected: None,
            })
        } else {
            None
        },
        signal_strength: 60,
    }
}

#[test]
fn connect_without_secret_to_a_new_secured_network_asks_for_the_password() {
    let net = network(SecurityType::WPA2, false);
    match net.connect(None) {
        Err(ConnectError::PasswordRequired) => {}
        other => panic!("unexpected: {:?}", other),
    }
}

#[test]
fn connect_to_a_known_network_activates_its_profile() {
    let net = network(SecurityType::WPA2, true);
    match net.connect(None) {
        Ok(ConnectStep::Activate { connection_path, device_path }) => {
            assert_eq!(connection_path, "/c/Home");
            assert_eq!(device_path, "/dev/0");
        }
        other => panic!("unexpected: {:?}", other),
    }
}

#[test]
fn connect_to_a_known_enterprise_network_activates_its_profile() {
    let net = network(SecurityType::Enterprise, true);
    assert!(matches!(net.connect(Some("x")), Ok(ConnectStep::Activate { .. })));
}

#[test]
fn connect_to_a_new_enterprise_network_hands_over_to_its_dialog() {
    let net = network(SecurityType::Enterprise, false);
    match net.connect(Some("secret")) {
        Ok(ConnectStep::ConfigureEnterprise { network_name }) => assert_eq!(network_name, "Home"),
        other => panic!("unexpected: {:?}", other),
    }
}

#[test]
fn connect_with_a_secret_creates_a_profile() {
    let net = network(SecurityType::WPA3, false);
    match net.connect(Some("hunter2")) {
        Ok(ConnectStep::CreateAndActivate { device_path, ap_path, secret }) => {
            assert_eq!(device_path, "/dev/0");
            assert_eq!(ap_path, "/ap/7");
            assert_eq!(secret, Some("hunter2".to_string()));
        }
        other => panic!("unexpected: {:?}", other),
    }
}

#[test]
fn connect_to_an_open_network_needs_no_secret() {
    let net = network(SecurityType::Open, false);
    match net.connect(None) {
        Ok(ConnectStep::CreateAndActivate { secret, .. }) => assert_eq!(secret, None),
        other => panic!("unexpected: {:?}", other),
    }
}

#[test]
fn network_requires_password_only_without_a_profile() {
    assert!(network(SecurityType::WPA2, false).requires_password());
    assert!(network(SecurityType::WEP, false).requires_password());
    assert!(!network(SecurityType::Open, false).requires_password());
    assert!(!network(SecurityType::WPA2, true).requires_password());
    assert!(network(SecurityType::Enterprise, false).is_enterprise());
    assert!(!network(SecurityType::WPA2, false).is_enterprise());
}

#[test]
fn connection_outcomes_become_notifications() {
    let net = network(SecurityType::WPA2, true);
    let ok = net.connecting_notification();
    assert_eq!(ok.message, "Connecting to Home");
    assert_eq!(ok.level, NotificationLevel::Info);
    assert_eq!(ok.ttl, 8);
    let failed = net.connect(None).unwrap().refused("no carrier".to_string()).unwrap();
    assert!(matches!(failed, ConnectError::ActivationFailed(_)));
    let shown = failed.notification().unwrap();
    assert_eq!(shown.message, "Failed to connect: no carrier");
    assert_eq!(shown.level, NotificationLevel::Error);
    let fresh = network(SecurityType::WPA2, false);
    let creation = fresh.connect(Some("k")).unwrap().refused("bad key".to_string()).unwrap();
    assert!(matches!(creation, ConnectError::ProfileCreationFailed(_)));
    let dialog = network(SecurityType::Enterprise, false).connect(None).unwrap();
    assert!(dialog.refused("x".to_string()).is_none());
    assert_eq!(creation.notification().unwrap().message, "Failed to connect: bad key");
    assert!(ConnectError::PasswordRequired.notification().is_none());
}

#[test]
fn network_from_access_point_takes_over_its_fields() {
    let ap = AccessPointInfo {
        path: "/ap/1".to_string(),
        ssid: "Cafe".to_string(),
        strength: 33,
        frequency: 5180,
        hw_address: "00:11".to_string(),
        security: SecurityType::WEP,
        mode: WifiMode::Infrastructure,
    };
    let net = Network::from_access_point("/dev/1".to_string(), ap, None, true);
    assert_eq!(net.device_path, "/dev/1");
    assert_eq!(net.ap_path, "/ap/1");
    assert_eq!(net.name, "Cafe");
    assert_eq!(net.network_type, SecurityType::WEP);
    assert!(net.is_connected);
    assert!(net.known_network.is_none());
    assert_eq!(net.signal_strength, 33);
}

fn saved(timestamp: u64) -> ConnectionInfo {
    ConnectionInfo {
        path: "/c/9".to_string(),
        id: "id".to_string(),
        uuid: "uuid".to_string(),
        ssid: "Office".to_string(),
        autoconnect: false,
        timestamp,
        hidden: true,
        security: SecurityType::Enterprise,
    }
}

#[test]
fn known_network_from_connection_info_takes_over_its_fields() {
    let known = KnownNetwork::from_connection_info(saved(1_431_648_000));
    assert_eq!(known.connection_path, "/c/9");
    assert_eq!(known.name, "Office");
    assert_eq!(known.network_type, SecurityType::Enterprise);
    assert!(!known.is_autoconnect);
    assert!(known.is_hidden);
    assert_eq!(known.last_connected, Some(1_431_648_000));
}

#[test]
fn known_network_without_timestamp_was_never_connected() {
    assert_eq!(KnownNetwork::from_connection_info(saved(0)).last_connected, None);
}

#[test]
fn known_network_with_a_timestamp_beyond_the_calendar_has_no_last_connection() {
    let known = KnownNetwork::from_connection_info(saved(i64::MAX as u64));
    assert_eq!(known.last_connected, None);
    let wrapped = KnownNetwork::from_connection_info(saved(u64::MAX));
    assert_eq!(wrapped.last_connected, Some(-1));
}

#[test]
fn forgetting_a_network_is_announced() {
    let known = KnownNetwork::from_connection_info(saved(0));
    let done = known.forget(Ok(()));
    assert_eq!(done.message, "The Network Office is removed");
    assert_eq!(done.level, NotificationLevel::Info);
    let failed = known.forget(Err("denied".to_string()));
    assert_eq!(failed.message, "denied");
    assert_eq!(failed.level, NotificationLevel::Error);
}

#[test]
fn toggling_autoconnect_flips_the_flag_only_on_success() {
    let mut known = KnownNetwork::from_connection_info(saved(0));
    let refused = known.toggle_autoconnect(Err("busy".to_string()));
    assert!(!known.is_autoconnect);
    assert_eq!(refused.message, "busy");
    assert_eq!(refused.level, NotificationLevel::Error);
    let on = known.toggle_autoconnect(Ok(()));
    assert!(known.is_autoconnect);
    assert_eq!(on.message, "Enable Autoconnect for: Office");
    let off = known.toggle_autoconnect(Ok(()));
    assert!(!known.is_autoconnect);
    assert_eq!(off.message, "Disable Autoconnect for: Office");
    assert_eq!(off.level, NotificationLevel::Info);
}

#[test]
fn notifications_age_and_expire() {
    let mut shown = vec![
        Notification { message: "a".to_string(), level: NotificationLevel::Info, ttl: 2 },
        Notification { message: "b".to_string(), level: NotificationLevel::Error, ttl: 0 },
        Notification { message: "c".to_string(), level: NotificationLevel::Warning, ttl: 1 },
    ];
    Notification::age(&mut shown);
    let left: Vec<(&str, u16)> = shown.iter().map(|n| (n.message.as_str(), n.ttl)).collect();
    assert_eq!(left, vec![("a", 1), ("c", 0)]);
    Notification::age(&mut shown);
    let left: Vec<(&str, u16)> = shown.iter().map(|n| (n.message.as_str(), n.ttl)).collect();
    assert_eq!(left, vec![("a", 0)]);
    Notification::age(&mut shown);
    assert!(shown.is_empty());
}

#[test]
fn a_new_notification_lives_eight_ticks() {
    let n = Notification::new("hello".to_string(), NotificationLevel::Warning);
    assert_eq!(n.ttl, 8);
    assert_eq!(n.message, "hello");
    assert_eq!(n.level, NotificationLevel::Warning);
}

#[test]
fn a_connection_attempt_goes_through_its_states() {
    let net = network(SecurityType::WPA2, false);
    let state = AttemptState::Idle.advance(AttemptEvent::Begin);
    assert_eq!(state, AttemptState::CredentialCheck);
    assert_eq!(net.decided(None), AttemptEvent::Decided(ConnectRoute::PasswordRequired));
    let state = state.advance(net.decided(None));
    assert_eq!(state, AttemptState::PromptingForSecret);
    assert_eq!(state.advance(AttemptEvent::Accepted), AttemptState::PromptingForSecret);
    assert_eq!(state.advance(AttemptEvent::Cancelled), AttemptState::Idle);
    let state = state.advance(AttemptEvent::SecretSupplied);
    assert_eq!(state, AttemptState::CredentialCheck);
    let state = state.advance(net.decided(Some("pw")));
    assert_eq!(state, AttemptState::Connecting);
    assert_eq!(state.advance(AttemptEvent::Refused), AttemptState::Failed);
    let state = state.advance(AttemptEvent::Accepted);
    assert_eq!(state, AttemptState::Connected);
    assert_eq!(state.advance(AttemptEvent::Begin), AttemptState::Connected);
    let known = network(SecurityType::WPA2, true);
    assert_eq!(known.decided(None), AttemptEvent::Decided(ConnectRoute::Activate));
    let enterprise = network(SecurityType::Enterprise, false);
    assert_eq!(
        AttemptState::CredentialCheck.advance(enterprise.decided(None)),
        AttemptState::Idle
    );
}

#[test]
fn a_tick_during_a_refresh_is_skipped() {
    let mut gate = RefreshGate::new();
    assert!(gate.begin());
    assert!(!gate.begin());
    assert!(!gate.begin());
    gate.finish();
    assert!(gate.begin());
}
