use wlctl::app::FocusedBlock;
use wlctl::mode::station::display::{
    help_layout, hidden_dialog_height, marks_connected, share_block_width, signal_level,
    signal_percent, speed_test_height, speed_test_phase, speed_test_tone, FrameTone, HelpLayout,
    SignalLevel, SpeedTestPhase,
};
use wlctl::mode::station::speed_test::SpeedTest;
use wlctl::mode::station::{Station, StationSnapshot};
use wlctl::nm::types::{
    AccessPointInfo, ConnectionInfo, DeviceState, SecurityType, WifiMode,
};

#[test]
fn signals_are_shown_in_percent() {
    assert_eq!(signal_percent(0), 0);
    assert_eq!(signal_percent(99), 0);
    assert_eq!(signal_percent(100), 1);
    assert_eq!(signal_percent(7549), 75);
    assert_eq!(signal_percent(10000), 100);
    assert_eq!(signal_percent(25500), 100);
    assert_eq!(signal_percent(i16::MAX), 100);
    assert_eq!(signal_percent(-1), 0);
    assert_eq!(signal_percent(i16::MIN), 0);
}

#[test]
fn signal_levels_change_at_their_thresholds() {
    assert_eq!(signal_level(100), SignalLevel::Full);
    assert_eq!(signal_level(75), SignalLevel::Full);
    assert_eq!(signal_level(74), SignalLevel::Good);
    assert_eq!(signal_level(50), SignalLevel::Good);
    assert_eq!(signal_level(49), SignalLevel::Fair);
    assert_eq!(signal_level(25), SignalLevel::Fair);
    assert_eq!(signal_level(24), SignalLevel::Weak);
    assert_eq!(signal_level(0), SignalLevel::Weak);
}

#[test]
fn popups_have_their_heights() {
    assert_eq!(hidden_dialog_height(true), 16);
    assert_eq!(hidden_dialog_height(false), 12);
    let mut test = SpeedTest::new();
    assert_eq!(speed_test_height(&test), 7);
    assert_eq!(speed_test_phase(&test), SpeedTestPhase::Running);
    assert_eq!(speed_test_tone(&test), FrameTone::Busy);
    test.error = Some("late".to_string());
    assert_eq!(speed_test_phase(&test), SpeedTestPhase::Running);
    assert_eq!(speed_test_tone(&test), FrameTone::Alarm);
    test.is_running = false;
    assert_eq!(speed_test_height(&test), 11);
    assert_eq!(speed_test_phase(&test), SpeedTestPhase::Failed);
    test.error = None;
    assert_eq!(speed_test_phase(&test), SpeedTestPhase::Done);
    assert_eq!(speed_test_tone(&test), FrameTone::Calm);
}

#[test]
fn the_share_block_fits_code_and_passphrase() {
    assert_eq!(share_block_width(33, 8), 39);
    assert_eq!(share_block_width(33, 21), 39);
    assert_eq!(share_block_width(33, 22), 40);
    assert_eq!(share_block_width(0, 0), 18);
    assert_eq!(share_block_width(usize::MAX, 3), usize::MAX);
    assert_eq!(share_block_width(3, usize::MAX), usize::MAX);
}

#[test]
fn the_help_wraps_on_narrow_screens() {
    assert_eq!(help_layout(FocusedBlock::KnownNetworks, 130), HelpLayout::TwoLines);
    assert_eq!(help_layout(FocusedBlock::KnownNetworks, 131), HelpLayout::OneLine);
    assert_eq!(help_layout(FocusedBlock::NewNetworks, 79), HelpLayout::TwoLines);
    assert_eq!(help_layout(FocusedBlock::NewNetworks, 80), HelpLayout::OneLine);
    assert_eq!(help_layout(FocusedBlock::Device, 10), HelpLayout::OneLine);
}

#[test]
fn the_connected_mark_gives_way_to_ethernet() {
    let ap = |ssid: &str| AccessPointInfo {
        path: String::new(),
        ssid: ssid.to_string(),
        strength: 1,
        frequency: 2412,
        hw_address: String::new(),
        security: SecurityType::WPA2,
        mode: WifiMode::Infrastructure,
    };
    let saved = |ssid: &str| ConnectionInfo {
        path: String::new(),
        id: String::new(),
        uuid: String::new(),
        ssid: ssid.to_string(),
        autoconnect: true,
        timestamp: 0,
        hidden: false,
        security: SecurityType::WPA,
    };
    let mut station = Station::new(
        "/dev".to_string(),
        StationSnapshot {
            device_state: DeviceState::Activated,
            is_ethernet_connected: false,
            connected_ssid: Some("A".to_string()),
            visible_networks: vec![ap("A"), ap("B")],
            saved_connections: vec![saved("A"), saved("B")],
        },
    );
    let a = station.known_networks[0].0.clone();
    let b = station.known_networks[1].0.clone();
    assert!(marks_connected(&station, &a));
    assert!(!marks_connected(&station, &b));
    station.is_ethernet_connected = true;
    assert!(!marks_connected(&station, &a));
    station.is_ethernet_connected = false;
    station.connected_network = None;
    assert!(!marks_connected(&station, &a));
}
