//! The settings of a connection profile, as the connection service takes
//! them: sections of keys and values.

use crate::nm::types::{AccessPointInfo, SecurityType};
use vstd::prelude::*;
use vstd::utf8::encode_utf8;

verus! {

/// The value of one setting.
#[derive(Debug)]
pub enum SettingValue {
    Text(String),
    Bytes(Vec<u8>),
    Flag(bool),
    TextList(Vec<String>),
}

/// One section of a profile: its name and its settings, in the order in
/// which they were put in.
#[derive(Debug)]
pub struct Section {
    pub name: String,
    pub entries: Vec<(String, SettingValue)>,
}

/// The value of one setting, as a mathematical value.
pub enum Setting {
    Text(Seq<char>),
    Bytes(Seq<u8>),
    Flag(bool),
    TextList(Seq<Seq<char>>),
}

impl View for SettingValue {
    type V = Setting;

    open spec fn view(&self) -> Setting {
        match self {
            SettingValue::Text(text) => Setting::Text(text@),
            SettingValue::Bytes(bytes) => Setting::Bytes(bytes@),
            SettingValue::Flag(flag) => Setting::Flag(*flag),
            SettingValue::TextList(texts) => Setting::TextList(
                texts@.map_values(|text: String| text@),
            ),
        }
    }
}

/// The settings of a section, as mathematical values.
pub open spec fn entries_view(entries: Seq<(String, SettingValue)>) -> Seq<(Seq<char>, Setting)> {
    entries.map_values(|entry: (String, SettingValue)| (entry.0@, entry.1@))
}

impl View for Section {
    type V = (Seq<char>, Seq<(Seq<char>, Setting)>);

    open spec fn view(&self) -> (Seq<char>, Seq<(Seq<char>, Setting)>) {
        (self.name@, entries_view(self.entries@))
    }
}

/// A profile, as mathematical values.
pub open spec fn profile_view(sections: Seq<Section>) -> Seq<(Seq<char>, Seq<(Seq<char>, Setting)>)> {
    sections.map_values(|section: Section| section@)
}

/// A section with one text setting.
pub open spec fn text_section(name: Seq<char>, key: Seq<char>, value: Seq<char>) -> (
    Seq<char>,
    Seq<(Seq<char>, Setting)>,
) {
    (name, seq![(key, Setting::Text(value))])
}

/// The section that names a wireless profile.
pub open spec fn connection_section(id: Seq<char>) -> (Seq<char>, Seq<(Seq<char>, Setting)>) {
    (
        "connection"@,
        seq![("type"@, Setting::Text("802-11-wireless"@)), ("id"@, Setting::Text(id))],
    )
}

/// The security settings for a network of a security class: the key
/// management of the class, and the secret under the key of the class where
/// a secret is given. An enterprise network's fields are set elsewhere.
pub open spec fn security_entries(security: SecurityType, password: Option<Seq<char>>) -> Seq<
    (Seq<char>, Setting),
> {
    match security {
        SecurityType::Open => seq![],
        SecurityType::WEP => match password {
            Some(secret) => seq![
                ("key-mgmt"@, Setting::Text("none"@)),
                ("wep-key0"@, Setting::Text(secret)),
            ],
            None => seq![("key-mgmt"@, Setting::Text("none"@))],
        },
        SecurityType::WPA | SecurityType::WPA2 | SecurityType::WPA3 => match password {
            Some(secret) => seq![
                ("key-mgmt"@, Setting::Text("wpa-psk"@)),
                ("psk"@, Setting::Text(secret)),
            ],
            None => seq![("key-mgmt"@, Setting::Text("wpa-psk"@))],
        },
        SecurityType::Enterprise => seq![("key-mgmt"@, Setting::Text("wpa-eap"@))],
    }
}

/// The profile for a visible network: its name, its SSID, the security
/// settings unless it is open, and addresses by automatic configuration.
pub open spec fn network_profile(
    ssid: Seq<char>,
    hidden: bool,
    security: SecurityType,
    password: Option<Seq<char>>,
) -> Seq<(Seq<char>, Seq<(Seq<char>, Setting)>)> {
    let wireless = if hidden {
        seq![("ssid"@, Setting::Bytes(encode_utf8(ssid))), ("hidden"@, Setting::Flag(true))]
    } else {
        seq![("ssid"@, Setting::Bytes(encode_utf8(ssid)))]
    };
    let head = seq![connection_section(ssid), ("802-11-wireless"@, wireless)];
    let secured = if security != SecurityType::Open {
        head.push(("802-11-wireless-security"@, security_entries(security, password)))
    } else {
        head
    };
    secured.push(text_section("ipv4"@, "method"@, "auto"@)).push(
        text_section("ipv6"@, "method"@, "auto"@),
    )
}

/// The profile of a hotspot: an access point in the 2.4 GHz band with a
/// pre-shared key, which shares the host's connection and is not started
/// by itself.
pub open spec fn hotspot_profile(ssid: Seq<char>, password: Seq<char>) -> Seq<
    (Seq<char>, Seq<(Seq<char>, Setting)>),
> {
    seq![
        (
            "connection"@,
            seq![
                ("type"@, Setting::Text("802-11-wireless"@)),
                ("id"@, Setting::Text("Hotspot "@ + ssid)),
                ("autoconnect"@, Setting::Flag(false)),
            ],
        ),
        (
            "802-11-wireless"@,
            seq![
                ("ssid"@, Setting::Bytes(encode_utf8(ssid))),
                ("mode"@, Setting::Text("ap"@)),
                ("band"@, Setting::Text("bg"@)),
            ],
        ),
        (
            "802-11-wireless-security"@,
            seq![("key-mgmt"@, Setting::Text("wpa-psk"@)), ("psk"@, Setting::Text(password))],
        ),
        text_section("ipv4"@, "method"@, "shared"@),
        text_section("ipv6"@, "method"@, "ignore"@),
    ]
}

/// A section with one text setting.
fn one_text_section(name: &str, key: &str, value: &str) -> (r: Section)
    ensures
        r@ == text_section(name@, key@, value@),
{
    let mut entries: Vec<(String, SettingValue)> = Vec::new();
    entries.push((key.to_owned(), SettingValue::Text(value.to_owned())));
    let section = Section { name: name.to_owned(), entries };
    proof {
        assert(entries_view(section.entries@) =~= seq![(key@, Setting::Text(value@))]);
    }
    section
}

/// Adds a text setting to a list of settings.
fn push_text(entries: &mut Vec<(String, SettingValue)>, key: &str, value: &str)
    ensures
        entries_view(final(entries)@) == entries_view(old(entries)@).push(
            (key@, Setting::Text(value@)),
        ),
{
    entries.push((key.to_owned(), SettingValue::Text(value.to_owned())));
    proof {
        assert(entries_view(entries@) =~= entries_view(old(entries)@).push(
            (key@, Setting::Text(value@)),
        ));
    }
}

/// Adds a setting that holds the bytes of a text.
fn push_bytes_of(entries: &mut Vec<(String, SettingValue)>, key: &str, text: &str)
    ensures
        entries_view(final(entries)@) == entries_view(old(entries)@).push(
            (key@, Setting::Bytes(encode_utf8(text@))),
        ),
{
    entries.push((key.to_owned(), SettingValue::Bytes(text.as_bytes_vec())));
    proof {
        assert(entries_view(entries@) =~= entries_view(old(entries)@).push(
            (key@, Setting::Bytes(encode_utf8(text@))),
        ));
    }
}

/// Adds a flag to a list of settings.
fn push_flag(entries: &mut Vec<(String, SettingValue)>, key: &str, flag: bool)
    ensures
        entries_view(final(entries)@) == entries_view(old(entries)@).push(
            (key@, Setting::Flag(flag)),
        ),
{
    entries.push((key.to_owned(), SettingValue::Flag(flag)));
    proof {
        assert(entries_view(entries@) =~= entries_view(old(entries)@).push(
            (key@, Setting::Flag(flag)),
        ));
    }
}

/// Adds a section to a profile.
fn push_section(sections: &mut Vec<Section>, name: &str, entries: Vec<(String, SettingValue)>)
    ensures
        profile_view(final(sections)@) == profile_view(old(sections)@).push(
            (name@, entries_view(entries@)),
        ),
{
    sections.push(Section { name: name.to_owned(), entries });
    proof {
        assert(profile_view(sections@) =~= profile_view(old(sections)@).push(
            (name@, entries_view(entries@)),
        ));
    }
}

/// Adds a section that is at hand to a profile.
fn push_whole(sections: &mut Vec<Section>, section: Section)
    ensures
        profile_view(final(sections)@) == profile_view(old(sections)@).push(section@),
{
    sections.push(section);
    proof {
        assert(profile_view(sections@) =~= profile_view(old(sections)@).push(section@));
    }
}

/// The security settings for a network of a security class.
pub fn security_settings(security: SecurityType, password: Option<&str>) -> (r: Vec<
    (String, SettingValue),
>)
    ensures
        entries_view(r@) == security_entries(
            security,
            match password {
                Some(secret) => Some(secret@),
                None => None,
            },
        ),
{
    let mut entries: Vec<(String, SettingValue)> = Vec::new();
    proof {
        assert(entries_view(entries@) =~= seq![]);
    }
    match security {
        SecurityType::Open => {},
        SecurityType::WEP => {
            push_text(&mut entries, "key-mgmt", "none");
            match password {
                Some(secret) => {
                    push_text(&mut entries, "wep-key0", secret);
                },
                None => {},
            }
        },
        SecurityType::WPA | SecurityType::WPA2 | SecurityType::WPA3 => {
            push_text(&mut entries, "key-mgmt", "wpa-psk");
            match password {
                Some(secret) => {
                    push_text(&mut entries, "psk", secret);
                },
                None => {},
            }
        },
        SecurityType::Enterprise => {
            push_text(&mut entries, "key-mgmt", "wpa-eap");
        },
    }
    entries
}

/// The profile for a network by its SSID and security class.
fn profile_of(ssid: &str, hidden: bool, security: SecurityType, password: Option<&str>) -> (r: Vec<
    Section,
>)
    ensures
        profile_view(r@) == network_profile(
            ssid@,
            hidden,
            security,
            match password {
                Some(secret) => Some(secret@),
                None => None,
            },
        ),
{
    let mut sections: Vec<Section> = Vec::new();
    proof {
        assert(profile_view(sections@) =~= seq![]);
    }
    let mut connection: Vec<(String, SettingValue)> = Vec::new();
    proof {
        assert(entries_view(connection@) =~= seq![]);
    }
    push_text(&mut connection, "type", "802-11-wireless");
    push_text(&mut connection, "id", ssid);
    proof {
        assert(entries_view(connection@) =~= connection_section(ssid@).1);
    }
    push_section(&mut sections, "connection", connection);
    let mut wireless: Vec<(String, SettingValue)> = Vec::new();
    proof {
        assert(entries_view(wireless@) =~= seq![]);
    }
    push_bytes_of(&mut wireless, "ssid", ssid);
    if hidden {
        push_flag(&mut wireless, "hidden", true);
    }
    proof {
        assert(entries_view(wireless@) =~= (if hidden {
            seq![("ssid"@, Setting::Bytes(encode_utf8(ssid@))), ("hidden"@, Setting::Flag(true))]
        } else {
            seq![("ssid"@, Setting::Bytes(encode_utf8(ssid@)))]
        }));
    }
    push_section(&mut sections, "802-11-wireless", wireless);
    proof {
        assert(profile_view(sections@) =~= seq![
            connection_section(ssid@),
            ("802-11-wireless"@, entries_view(wireless@)),
        ]);
    }
    if security != SecurityType::Open {
        push_section(
            &mut sections,
            "802-11-wireless-security",
            security_settings(security, password),
        );
    }
    push_whole(&mut sections, one_text_section("ipv4", "method", "auto"));
    push_whole(&mut sections, one_text_section("ipv6", "method", "auto"));
    sections
}

/// The profile with which to connect to a visible network for the first
/// time.
pub fn new_connection_settings(ap_info: &AccessPointInfo, password: Option<&str>) -> (r: Vec<
    Section,
>)
    ensures
        profile_view(r@) == network_profile(
            ap_info.ssid@,
            false,
            ap_info.security,
            match password {
                Some(secret) => Some(secret@),
                None => None,
            },
        ),
{
    profile_of(ap_info.ssid.as_str(), false, ap_info.security, password)
}

/// The profile with which to connect to a network that does not announce
/// its SSID.
pub fn hidden_connection_settings(ssid: &str, security: SecurityType, password: Option<&str>) -> (r:
    Vec<Section>)
    ensures
        profile_view(r@) == network_profile(
            ssid@,
            true,
            security,
            match password {
                Some(secret) => Some(secret@),
                None => None,
            },
        ),
{
    profile_of(ssid, true, security, password)
}

/// The profile of a hotspot.
pub fn hotspot_settings(ssid: &str, password: &str) -> (r: Vec<Section>)
    ensures
        profile_view(r@) == hotspot_profile(ssid@, password@),
{
    let mut sections: Vec<Section> = Vec::new();
    proof {
        assert(profile_view(sections@) =~= seq![]);
    }
    let mut connection: Vec<(String, SettingValue)> = Vec::new();
    let mut wireless: Vec<(String, SettingValue)> = Vec::new();
    let mut security: Vec<(String, SettingValue)> = Vec::new();
    proof {
        assert(entries_view(connection@) =~= seq![]);
        assert(entries_view(wireless@) =~= seq![]);
        assert(entries_view(security@) =~= seq![]);
    }
    push_text(&mut connection, "type", "802-11-wireless");
    push_text(&mut connection, "id", "Hotspot ".to_owned().concat(ssid).as_str());
    push_flag(&mut connection, "autoconnect", false);
    push_bytes_of(&mut wireless, "ssid", ssid);
    push_text(&mut wireless, "mode", "ap");
    push_text(&mut wireless, "band", "bg");
    push_text(&mut security, "key-mgmt", "wpa-psk");
    push_text(&mut security, "psk", password);
    proof {
        assert(entries_view(connection@) =~= hotspot_profile(ssid@, password@)[0].1);
        assert(entries_view(wireless@) =~= hotspot_profile(ssid@, password@)[1].1);
        assert(entries_view(security@) =~= hotspot_profile(ssid@, password@)[2].1);
    }
    push_section(&mut sections, "connection", connection);
    push_section(&mut sections, "802-11-wireless", wireless);
    push_section(&mut sections, "802-11-wireless-security", security);
    push_whole(&mut sections, one_text_section("ipv4", "method", "shared"));
    push_whole(&mut sections, one_text_section("ipv6", "method", "ignore"));
    proof {
        assert(profile_view(sections@) =~= hotspot_profile(ssid@, password@));
    }
    sections
}

/// Settings with one more text setting, where a value is given.
pub open spec fn with_text(
    entries: Seq<(Seq<char>, Setting)>,
    key: Seq<char>,
    value: Option<Seq<char>>,
) -> Seq<(Seq<char>, Setting)> {
    match value {
        Some(text) => entries.push((key, Setting::Text(text))),
        None => entries,
    }
}

/// Settings with one more text setting, where a value is given and not
/// empty.
pub open spec fn with_filled_text(
    entries: Seq<(Seq<char>, Setting)>,
    key: Seq<char>,
    value: Option<Seq<char>>,
) -> Seq<(Seq<char>, Setting)> {
    match value {
        Some(text) => if text.len() > 0 {
            entries.push((key, Setting::Text(text)))
        } else {
            entries
        },
        None => entries,
    }
}

/// Settings with one more setting that names a file, where a path is given
/// and not empty: the setting holds the bytes of the path as a `file` URL.
pub open spec fn with_file(
    entries: Seq<(Seq<char>, Setting)>,
    key: Seq<char>,
    path: Option<Seq<char>>,
) -> Seq<(Seq<char>, Setting)> {
    match path {
        Some(text) => if text.len() > 0 {
            entries.push((key, Setting::Bytes(encode_utf8("file://"@ + text))))
        } else {
            entries
        },
        None => entries,
    }
}

/// The characters of an optional text.
pub open spec fn chars_of(text: Option<&str>) -> Option<Seq<char>> {
    match text {
        Some(t) => Some(t@),
        None => None,
    }
}

/// What an enterprise network is entered with.
pub struct EnterpriseLogin {
    pub eap_method: Seq<char>,
    pub identity: Seq<char>,
    pub password: Option<Seq<char>>,
    pub phase2_auth: Option<Seq<char>>,
    pub ca_cert: Option<Seq<char>>,
    pub client_cert: Option<Seq<char>>,
    pub private_key: Option<Seq<char>>,
    pub private_key_password: Option<Seq<char>>,
}

/// The 802.1X settings of an enterprise network: method and identity, then
/// each of the further fields that is given, and for files and the private
/// key's password, not empty.
pub open spec fn eap_entries(login: EnterpriseLogin) -> Seq<(Seq<char>, Setting)> {
    let base = seq![
        ("eap"@, Setting::TextList(seq![login.eap_method])),
        ("identity"@, Setting::Text(login.identity)),
    ];
    let with_password = with_text(base, "password"@, login.password);
    let with_phase2 = with_text(with_password, "phase2-auth"@, login.phase2_auth);
    let with_ca = with_file(with_phase2, "ca-cert"@, login.ca_cert);
    let with_cert = with_file(with_ca, "client-cert"@, login.client_cert);
    let with_key = with_file(with_cert, "private-key"@, login.private_key);
    with_filled_text(with_key, "private-key-password"@, login.private_key_password)
}

/// The profile of an enterprise network.
pub open spec fn enterprise_profile(ssid: Seq<char>, login: EnterpriseLogin) -> Seq<
    (Seq<char>, Seq<(Seq<char>, Setting)>),
> {
    seq![
        connection_section(ssid),
        ("802-11-wireless"@, seq![("ssid"@, Setting::Bytes(encode_utf8(ssid)))]),
        text_section("802-11-wireless-security"@, "key-mgmt"@, "wpa-eap"@),
        ("802-1x"@, eap_entries(login)),
        text_section("ipv4"@, "method"@, "auto"@),
        text_section("ipv6"@, "method"@, "auto"@),
    ]
}

/// Adds a text setting where a value is given.
fn push_optional_text(entries: &mut Vec<(String, SettingValue)>, key: &str, value: Option<&str>)
    ensures
        entries_view(final(entries)@) == with_text(entries_view(old(entries)@), key@, chars_of(value)),
{
    match value {
        Some(text) => {
            push_text(entries, key, text);
        },
        None => {},
    }
}

/// Adds a text setting where a value is given and not empty.
fn push_filled_text(entries: &mut Vec<(String, SettingValue)>, key: &str, value: Option<&str>)
    ensures
        entries_view(final(entries)@) == with_filled_text(
            entries_view(old(entries)@),
            key@,
            chars_of(value),
        ),
{
    match value {
        Some(text) => {
            if !text.is_empty() {
                push_text(entries, key, text);
            }
        },
        None => {},
    }
}

/// Adds a setting that names a file where a path is given and not empty.
fn push_file(entries: &mut Vec<(String, SettingValue)>, key: &str, path: Option<&str>)
    ensures
        entries_view(final(entries)@) == with_file(entries_view(old(entries)@), key@, chars_of(path)),
{
    match path {
        Some(text) => {
            if !text.is_empty() {
                push_bytes_of(entries, key, "file://".to_owned().concat(text).as_str());
            }
        },
        None => {},
    }
}

/// The profile with which to enter an enterprise network.
pub fn enterprise_settings(
    ssid: &str,
    eap_method: &str,
    identity: &str,
    password: Option<&str>,
    phase2_auth: Option<&str>,
    ca_cert: Option<&str>,
    client_cert: Option<&str>,
    private_key: Option<&str>,
    private_key_password: Option<&str>,
) -> (r: Vec<Section>)
    ensures
        profile_view(r@) == enterprise_profile(
            ssid@,
            EnterpriseLogin {
                eap_method: eap_method@,
                identity: identity@,
                password: chars_of(password),
                phase2_auth: chars_of(phase2_auth),
                ca_cert: chars_of(ca_cert),
                client_cert: chars_of(client_cert),
                private_key: chars_of(private_key),
                private_key_password: chars_of(private_key_password),
            },
        ),
{
    let ghost login = EnterpriseLogin {
        eap_method: eap_method@,
        identity: identity@,
        password: chars_of(password),
        phase2_auth: chars_of(phase2_auth),
        ca_cert: chars_of(ca_cert),
        client_cert: chars_of(client_cert),
        private_key: chars_of(private_key),
        private_key_password: chars_of(private_key_password),
    };
    let mut sections: Vec<Section> = Vec::new();
    let mut connection: Vec<(String, SettingValue)> = Vec::new();
    let mut wireless: Vec<(String, SettingValue)> = Vec::new();
    let mut eap: Vec<(String, SettingValue)> = Vec::new();
    let mut methods: Vec<String> = Vec::new();
    proof {
        assert(profile_view(sections@) =~= seq![]);
        assert(entries_view(connection@) =~= seq![]);
        assert(entries_view(wireless@) =~= seq![]);
    }
    push_text(&mut connection, "type", "802-11-wireless");
    push_text(&mut connection, "id", ssid);
    push_bytes_of(&mut wireless, "ssid", ssid);
    methods.push(eap_method.to_owned());
    eap.push(("eap".to_owned(), SettingValue::TextList(methods)));
    eap.push(("identity".to_owned(), SettingValue::Text(identity.to_owned())));
    proof {
        assert(methods@.map_values(|text: String| text@) =~= seq![eap_method@]);
        assert(entries_view(eap@) =~= seq![
            ("eap"@, Setting::TextList(seq![eap_method@])),
            ("identity"@, Setting::Text(identity@)),
        ]);
    }
    push_optional_text(&mut eap, "password", password);
    push_optional_text(&mut eap, "phase2-auth", phase2_auth);
    push_file(&mut eap, "ca-cert", ca_cert);
    push_file(&mut eap, "client-cert", client_cert);
    push_file(&mut eap, "private-key", private_key);
    push_filled_text(&mut eap, "private-key-password", private_key_password);
    proof {
        assert(entries_view(connection@) =~= connection_section(ssid@).1);
        assert(entries_view(wireless@) =~= seq![("ssid"@, Setting::Bytes(encode_utf8(ssid@)))]);
        assert(entries_view(eap@) == eap_entries(login));
    }
    push_section(&mut sections, "connection", connection);
    push_section(&mut sections, "802-11-wireless", wireless);
    push_whole(&mut sections, one_text_section("802-11-wireless-security", "key-mgmt", "wpa-eap"));
    push_section(&mut sections, "802-1x", eap);
    push_whole(&mut sections, one_text_section("ipv4", "method", "auto"));
    push_whole(&mut sections, one_text_section("ipv6", "method", "auto"));
    proof {
        assert(profile_view(sections@) =~= enterprise_profile(ssid@, login));
    }
    sections
}

} // verus!
