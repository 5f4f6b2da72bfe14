use wlctl::nm::profiles::{
    active_access_point, read_profile, wifi_connections, wifi_devices, ProfileError,
    ProfileSettings, TypeField,
};
use wlctl::nm::settings::{
    enterprise_settings, hidden_connection_settings, hotspot_settings, new_connection_settings,
    security_settings, Section, SettingValue,
};
use wlctl::nm::types::{AccessPointInfo, SecurityType, WifiMode};

fn flat(sections: &Vec<Section>) -> Vec<(String, Vec<(String, String)>)> {
    sections
        .iter()
        .map(|section| {
            (
                section.name.clone(),
                section
                    .entries
                    .iter()
                    .map(|(key, value)| {
                        let shown = match value {
                            SettingValue::Text(t) => format!("s:{}", t),
                            SettingValue::Bytes(b) => format!("b:{}", String::from_utf8_lossy(b)),
                            SettingValue::Flag(f) => format!("f:{}", f),
                            SettingValue::TextList(l) => format!("l:{}", l.join(",")),
                        };
                        (key.clone(), shown)
                    })
                    .collect(),
            )
        })
        .collect()
}

fn section(name: &str, entries: &[(&str, &str)]) -> (String, Vec<(String, String)>) {
    (
        name.to_string(),
        entries.iter().map(|(k, v)| (k.to_string(), v.to_string())).collect(),
    )
}

fn ap(ssid: &str, security: SecurityType) -> AccessPointInfo {
    AccessPointInfo {
        path: "/ap/1".to_string(),
        ssid: ssid.to_string(),
        strength: 50,
        frequency: 2412,
        hw_address: String::new(),
        security,
        mode: WifiMode::Infrastructure,
    }
}

#[test]
fn settings_for_a_wpa_network_carry_the_passphrase() {
    let got = flat(&new_connection_settings(&ap("Home", SecurityType::WPA2), Some("pw")));
    assert_eq!(
        got,
        vec![
            section("connection", &[("type", "s:802-11-wireless"), ("id", "s:Home")]),
            section("802-11-wireless", &[("ssid", "b:Home")]),
            section("802-11-wireless-security", &[("key-mgmt", "s:wpa-psk"), ("psk", "s:pw")]),
            section("ipv4", &[("method", "s:auto")]),
            section("ipv6", &[("method", "s:auto")]),
        ]
    );
}

#[test]
fn settings_for_an_open_network_have_no_security_section() {
    let got = flat(&new_connection_settings(&ap("Cafe", SecurityType::Open), None));
    assert_eq!(
        got,
        vec![
            section("connection", &[("type", "s:802-11-wireless"), ("id", "s:Cafe")]),
            section("802-11-wireless", &[("ssid", "b:Cafe")]),
            section("ipv4", &[("method", "s:auto")]),
            section("ipv6", &[("method", "s:auto")]),
        ]
    );
}

#[test]
fn security_settings_follow_the_security_class() {
    let show = |s: SecurityType, p: Option<&str>| {
        flat(&vec![Section { name: String::new(), entries: security_settings(s, p) }])[0].1.clone()
    };
    assert_eq!(show(SecurityType::Open, Some("x")), vec![]);
    assert_eq!(
        show(SecurityType::WEP, Some("k")),
        section("", &[("key-mgmt", "s:none"), ("wep-key0", "s:k")]).1
    );
    assert_eq!(show(SecurityType::WEP, None), section("", &[("key-mgmt", "s:none")]).1);
    assert_eq!(
        show(SecurityType::WPA, Some("k")),
        section("", &[("key-mgmt", "s:wpa-psk"), ("psk", "s:k")]).1
    );
    assert_eq!(show(SecurityType::WPA3, None), section("", &[("key-mgmt", "s:wpa-psk")]).1);
    assert_eq!(
        show(SecurityType::Enterprise, Some("k")),
        section("", &[("key-mgmt", "s:wpa-eap")]).1
    );
}

#[test]
fn settings_for_a_hidden_network_say_so() {
    let got = flat(&hidden_connection_settings("Stealth", SecurityType::WPA3, Some("pw")));
    assert_eq!(
        got[1],
        section("802-11-wireless", &[("ssid", "b:Stealth"), ("hidden", "f:true")])
    );
    assert_eq!(
        got[2],
        section("802-11-wireless-security", &[("key-mgmt", "s:wpa-psk"), ("psk", "s:pw")])
    );
    assert_eq!(got.len(), 5);
}

#[test]
fn settings_for_a_hotspot() {
    let got = flat(&hotspot_settings("Spot", "12345678"));
    assert_eq!(
        got,
        vec![
            section(
                "connection",
                &[("type", "s:802-11-wireless"), ("id", "s:Hotspot Spot"), ("autoconnect", "f:false")]
            ),
            section("802-11-wireless", &[("ssid", "b:Spot"), ("mode", "s:ap"), ("band", "s:bg")]),
            section(
                "802-11-wireless-security",
                &[("key-mgmt", "s:wpa-psk"), ("psk", "s:12345678")]
            ),
            section("ipv4", &[("method", "s:shared")]),
            section("ipv6", &[("method", "s:ignore")]),
        ]
    );
}

#[test]
fn settings_for_an_enterprise_network_with_every_field() {
    let got = flat(&enterprise_settings(
        "Corp",
        "peap",
        "alice",
        Some("pw"),
        Some("mschapv2"),
        Some("/etc/ca.pem"),
        Some("/etc/cert.pem"),
        Some("/etc/key.pem"),
        Some("keypw"),
    ));
    assert_eq!(
        got,
        vec![
            section("connection", &[("type", "s:802-11-wireless"), ("id", "s:Corp")]),
            section("802-11-wireless", &[("ssid", "b:Corp")]),
            section("802-11-wireless-security", &[("key-mgmt", "s:wpa-eap")]),
            section(
                "802-1x",
                &[
                    ("eap", "l:peap"),
                    ("identity", "s:alice"),
                    ("password", "s:pw"),
                    ("phase2-auth", "s:mschapv2"),
                    ("ca-cert", "b:file:///etc/ca.pem"),
                    ("client-cert", "b:file:///etc/cert.pem"),
                    ("private-key", "b:file:///etc/key.pem"),
                    ("private-key-password", "s:keypw"),
                ]
            ),
            section("ipv4", &[("method", "s:auto")]),
            section("ipv6", &[("method", "s:auto")]),
        ]
    );
}

#[test]
fn settings_for_an_enterprise_network_leave_out_empty_fields() {
    let got = flat(&enterprise_settings(
        "Corp",
        "tls",
        "bob",
        Some(""),
        None,
        Some(""),
        None,
        Some(""),
        Some(""),
    ));
    assert_eq!(
        got[3],
        section("802-1x", &[("eap", "l:tls"), ("identity", "s:bob"), ("password", "s:")])
    );
}

fn wifi_profile(path: &str, ssid: &str, timestamp: Option<u64>) -> ProfileSettings {
    ProfileSettings {
        path: path.to_string(),
        has_connection: true,
        conn_type: TypeField::Text("802-11-wireless".to_string()),
        id: Some(format!("id-{}", ssid)),
        uuid: Some("u".to_string()),
        autoconnect: None,
        timestamp,
        has_wireless: true,
        ssid: Some(ssid.as_bytes().to_vec()),
        hidden: None,
        has_security: false,
        has_8021x: false,
    }
}

#[test]
fn a_wireless_profile_is_read_with_its_defaults() {
    let info = read_profile(&wifi_profile("/c/1", "Home", None)).unwrap().unwrap();
    assert_eq!(info.path, "/c/1");
    assert_eq!(info.id, "id-Home");
    assert_eq!(info.uuid, "u");
    assert_eq!(info.ssid, "Home");
    assert!(info.autoconnect);
    assert_eq!(info.timestamp, 0);
    assert!(!info.hidden);
    assert_eq!(info.security, SecurityType::Open);
}

#[test]
fn a_profile_without_ssid_or_wireless_section_goes_by_its_name() {
    let mut profile = wifi_profile("/c/1", "Home", Some(5));
    profile.ssid = None;
    profile.hidden = Some(true);
    profile.autoconnect = Some(false);
    profile.has_security = true;
    let info = read_profile(&profile).unwrap().unwrap();
    assert_eq!(info.ssid, "id-Home");
    assert!(info.hidden);
    assert!(!info.autoconnect);
    assert_eq!(info.timestamp, 5);
    assert_eq!(info.security, SecurityType::WPA);
    profile.ssid = Some(b"Other".to_vec());
    profile.has_wireless = false;
    profile.has_8021x = true;
    profile.id = None;
    profile.uuid = None;
    let info = read_profile(&profile).unwrap().unwrap();
    assert_eq!(info.ssid, "");
    assert_eq!(info.id, "");
    assert_eq!(info.uuid, "");
    assert!(!info.hidden);
    assert_eq!(info.security, SecurityType::Enterprise);
}

#[test]
fn an_ssid_that_is_no_utf8_is_read_with_replacement_characters() {
    let mut profile = wifi_profile("/c/1", "x", None);
    profile.ssid = Some(vec![b'a', 0xff, b'b']);
    let info = read_profile(&profile).unwrap().unwrap();
    assert_eq!(info.ssid, "a\u{fffd}b");
}

#[test]
fn profiles_of_other_types_are_passed_over() {
    let mut ethernet = wifi_profile("/c/2", "x", None);
    ethernet.conn_type = TypeField::Text("802-3-ethernet".to_string());
    assert!(read_profile(&ethernet).unwrap().is_none());
    let mut untyped = wifi_profile("/c/3", "x", None);
    untyped.conn_type = TypeField::Missing;
    assert!(read_profile(&untyped).unwrap().is_none());
    let mut bare = wifi_profile("/c/4", "x", None);
    bare.has_connection = false;
    bare.conn_type = TypeField::Unreadable;
    assert!(read_profile(&bare).unwrap().is_none());
}

#[test]
fn a_type_that_is_no_text_fails_the_reading() {
    let mut broken = wifi_profile("/c/5", "x", None);
    broken.conn_type = TypeField::Unreadable;
    assert_eq!(read_profile(&broken).unwrap_err(), ProfileError::UnreadableType);
    let all = vec![wifi_profile("/c/1", "A", None), broken];
    assert_eq!(wifi_connections(&all).unwrap_err(), ProfileError::UnreadableType);
}

#[test]
fn wifi_connections_come_most_recent_first() {
    let mut ethernet = wifi_profile("/c/e", "E", Some(99));
    ethernet.conn_type = TypeField::Text("802-3-ethernet".to_string());
    let all = vec![
        wifi_profile("/c/1", "A", Some(10)),
        ethernet,
        wifi_profile("/c/2", "B", Some(30)),
        wifi_profile("/c/3", "C", Some(10)),
        wifi_profile("/c/4", "D", None),
    ];
    let list = wifi_connections(&all).unwrap();
    let order: Vec<(&str, u64)> = list.iter().map(|c| (c.ssid.as_str(), c.timestamp)).collect();
    assert_eq!(order, vec![("B", 30), ("A", 10), ("C", 10), ("D", 0)]);
}

#[test]
fn the_root_path_means_no_active_access_point() {
    assert_eq!(active_access_point("/".to_string()), None);
    assert_eq!(
        active_access_point("/org/freedesktop/NetworkManager/AccessPoint/3".to_string()),
        Some("/org/freedesktop/NetworkManager/AccessPoint/3".to_string())
    );
}

#[test]
fn wifi_devices_are_those_of_type_two() {
    let devices = vec![
        ("/d/0".to_string(), 1),
        ("/d/1".to_string(), 2),
        ("/d/2".to_string(), 14),
        ("/d/3".to_string(), 2),
    ];
    assert_eq!(wifi_devices(devices), vec!["/d/1".to_string(), "/d/3".to_string()]);
    assert!(wifi_devices(vec![]).is_empty());
}

#[test]
fn an_access_point_is_built_from_its_properties() {
    let ap = AccessPointInfo::from_properties(
        "/ap/9".to_string(),
        &b"Caf\xc3\xa9".to_vec(),
        77,
        5180,
        "AA:BB".to_string(),
        0x1,
        0,
        0x400,
        2,
    );
    assert_eq!(ap.path, "/ap/9");
    assert_eq!(ap.ssid, "Caf\u{e9}");
    assert_eq!(ap.strength, 77);
    assert_eq!(ap.frequency, 5180);
    assert_eq!(ap.hw_address, "AA:BB");
    assert_eq!(ap.security, SecurityType::WPA3);
    assert_eq!(ap.mode, WifiMode::Infrastructure);
    assert_eq!(ap.channel(), 36);
    assert_eq!(ap.band(), "5 GHz");
}
