//! Reading the saved profiles of the connection service: which of them are
//! wireless profiles, and what each one says.

use crate::nm::ranking::{by_rank, descending, sort_by_rank, Ranked};
use crate::nm::types::{AccessPointInfo, ConnectionInfo, SecurityType, WifiMode};
use crate::text::{from_utf8_lossy, lossy_text};
use vstd::prelude::*;

verus! {

/// The type of a profile, as far as it could be read.
#[derive(Debug)]
pub enum TypeField {
    /// The profile names no type.
    Missing,
    /// The type is there, but is no text.
    Unreadable,
    Text(String),
}

/// The settings of one saved profile that matter here. A setting is `None`
/// where the profile does not have it or has it in another form than
/// expected.
#[derive(Debug)]
pub struct ProfileSettings {
    pub path: String,
    /// Whether the profile has a `connection` section.
    pub has_connection: bool,
    pub conn_type: TypeField,
    pub id: Option<String>,
    pub uuid: Option<String>,
    pub autoconnect: Option<bool>,
    pub timestamp: Option<u64>,
    /// Whether the profile has an `802-11-wireless` section.
    pub has_wireless: bool,
    pub ssid: Option<Vec<u8>>,
    pub hidden: Option<bool>,
    /// Whether the profile has an `802-11-wireless-security` section.
    pub has_security: bool,
    /// Whether the profile has an `802-1x` section.
    pub has_8021x: bool,
}

/// Why the saved profiles could not be read.
#[derive(Debug, Clone, Copy, PartialEq, Eq, Structural)]
pub enum ProfileError {
    /// A profile's type is no text.
    UnreadableType,
}

/// A saved wireless profile, as a mathematical value.
pub struct ProfileView {
    pub path: Seq<char>,
    pub id: Seq<char>,
    pub uuid: Seq<char>,
    pub ssid: Seq<char>,
    pub autoconnect: bool,
    pub timestamp: u64,
    pub hidden: bool,
    pub security: SecurityType,
}

/// What reading one profile comes to.
pub enum Reading {
    /// The profile's type cannot be read.
    Failed,
    /// The profile is none of a wireless network.
    Skipped,
    Wifi(ProfileView),
}

impl View for ConnectionInfo {
    type V = ProfileView;

    open spec fn view(&self) -> ProfileView {
        ProfileView {
            path: self.path@,
            id: self.id@,
            uuid: self.uuid@,
            ssid: self.ssid@,
            autoconnect: self.autoconnect,
            timestamp: self.timestamp,
            hidden: self.hidden,
            security: self.security,
        }
    }
}

impl Ranked for ConnectionInfo {
    /// Saved profiles are ordered by the time of their last use.
    open spec fn rank(&self) -> int {
        self.timestamp as int
    }

    fn ranks_below(&self, other: &Self) -> (r: bool) {
        self.timestamp < other.timestamp
    }
}

/// The characters of an optional text, or none.
pub open spec fn text_or_empty(text: Option<String>) -> Seq<char> {
    match text {
        Some(t) => t@,
        None => Seq::<char>::empty(),
    }
}

/// The security class of a saved profile: enterprise where it has 802.1X
/// settings beside its security settings, WPA where it has security settings
/// only, open without them.
pub open spec fn saved_security(has_security: bool, has_8021x: bool) -> SecurityType {
    if has_security {
        if has_8021x {
            SecurityType::Enterprise
        } else {
            SecurityType::WPA
        }
    } else {
        SecurityType::Open
    }
}

/// What a wireless profile says. Name and identifier are empty where they
/// are not given; autoconnect counts as on and the time of last use as zero.
/// The SSID is what the profile's wireless section gives, read as text, and
/// the profile's name where it gives none. Only a wireless section can make
/// the profile one of a hidden network.
pub open spec fn wifi_view(profile: ProfileSettings) -> ProfileView {
    let id = text_or_empty(profile.id);
    ProfileView {
        path: profile.path@,
        id,
        uuid: text_or_empty(profile.uuid),
        ssid: match profile.ssid {
            Some(bytes) => if profile.has_wireless {
                lossy_text(bytes@)
            } else {
                id
            },
            None => id,
        },
        autoconnect: match profile.autoconnect {
            Some(flag) => flag,
            None => true,
        },
        timestamp: match profile.timestamp {
            Some(t) => t,
            None => 0,
        },
        hidden: profile.has_wireless && profile.hidden == Some(true),
        security: saved_security(profile.has_security, profile.has_8021x),
    }
}

/// What reading a profile comes to: a profile without a `connection` section
/// or without a type is passed over; a type that is no text fails the
/// reading; a profile of any type but `802-11-wireless` is passed over.
pub open spec fn reading(profile: ProfileSettings) -> Reading {
    if !profile.has_connection {
        Reading::Skipped
    } else {
        match profile.conn_type {
            TypeField::Missing => Reading::Skipped,
            TypeField::Unreadable => Reading::Failed,
            TypeField::Text(kind) => if kind@ == "802-11-wireless"@ {
                Reading::Wifi(wifi_view(profile))
            } else {
                Reading::Skipped
            },
        }
    }
}

/// The wireless profile that a reading gave, if it gave one.
pub open spec fn wifi_of() -> spec_fn(ProfileSettings) -> Option<ProfileView> {
    |profile: ProfileSettings|
        match reading(profile) {
            Reading::Wifi(view) => Some(view),
            _ => None,
        }
}

/// The wireless profiles among the saved ones, in their order.
pub open spec fn wifi_views(profiles: Seq<ProfileSettings>) -> Seq<ProfileView> {
    profiles.filter_map(wifi_of())
}

/// A list of profiles, as mathematical values.
pub open spec fn infos_view(infos: Seq<ConnectionInfo>) -> Seq<ProfileView> {
    infos.map_values(|info: ConnectionInfo| info@)
}

/// Whether the reading of some profile fails.
pub open spec fn any_unreadable(profiles: Seq<ProfileSettings>) -> bool {
    exists|i: int| 0 <= i < profiles.len() && reading(#[trigger] profiles[i]) is Failed
}

fn text_or_default(text: &Option<String>) -> (r: String)
    ensures
        r@ == text_or_empty(*text),
{
    match text {
        Some(t) => t.clone(),
        None => String::new(),
    }
}

/// Reads one saved profile.
pub fn read_profile(profile: &ProfileSettings) -> (r: Result<Option<ConnectionInfo>, ProfileError>)
    ensures
        match reading(*profile) {
            Reading::Failed => r == Err::<Option<ConnectionInfo>, ProfileError>(
                ProfileError::UnreadableType,
            ),
            Reading::Skipped => r matches Ok(None),
            Reading::Wifi(view) => r matches Ok(Some(info)) && info@ == view,
        },
{
    if !profile.has_connection {
        return Ok(None);
    }
    match &profile.conn_type {
        TypeField::Missing => Ok(None),
        TypeField::Unreadable => Err(ProfileError::UnreadableType),
        TypeField::Text(kind) => {
            if *kind == "802-11-wireless".to_owned() {
                let id = text_or_default(&profile.id);
                let ssid = match &profile.ssid {
                    Some(bytes) => if profile.has_wireless {
                        from_utf8_lossy(bytes.as_slice())
                    } else {
                        id.clone()
                    },
                    None => id.clone(),
                };
                let hidden = profile.has_wireless && match profile.hidden {
                    Some(flag) => flag,
                    None => false,
                };
                let security = if profile.has_security {
                    if profile.has_8021x {
                        SecurityType::Enterprise
                    } else {
                        SecurityType::WPA
                    }
                } else {
                    SecurityType::Open
                };
                Ok(
                    Some(
                        ConnectionInfo {
                            path: profile.path.clone(),
                            id,
                            uuid: text_or_default(&profile.uuid),
                            ssid,
                            autoconnect: match profile.autoconnect {
                                Some(flag) => flag,
                                None => true,
                            },
                            timestamp: match profile.timestamp {
                                Some(t) => t,
                                None => 0,
                            },
                            hidden,
                            security,
                        },
                    ),
                )
            } else {
                Ok(None)
            }
        },
    }
}

/// The saved wireless profiles, the one used last first; profiles of equal
/// time keep the order in which the service lists them. The reading fails
/// where the type of some profile is no text.
pub fn wifi_connections(profiles: &Vec<ProfileSettings>) -> (r: Result<
    Vec<ConnectionInfo>,
    ProfileError,
>)
    ensures
        r is Err <==> any_unreadable(profiles@),
        r matches Err(e) ==> e == ProfileError::UnreadableType,
        r matches Ok(list) ==> descending(list@) && exists|read: Seq<ConnectionInfo>|
            infos_view(read) == wifi_views(profiles@) && list@ == #[trigger] by_rank(read),
{
    let mut read: Vec<ConnectionInfo> = Vec::new();
    let mut i: usize = 0;
    proof {
        assert(infos_view(read@) =~= wifi_views(profiles@.take(0)));
    }
    while i < profiles.len()
        invariant
            i <= profiles.len(),
            infos_view(read@) == wifi_views(profiles@.take(i as int)),
            forall|j: int| 0 <= j < i ==> !(reading(#[trigger] profiles@[j]) is Failed),
        decreases profiles.len() - i,
    {
        proof {
            profiles@.lemma_filter_map_take_succ(wifi_of(), i as int);
        }
        match read_profile(&profiles[i]) {
            Err(e) => {
                return Err(e);
            },
            Ok(Some(info)) => {
                read.push(info);
                proof {
                    assert(infos_view(read@) =~= wifi_views(profiles@.take(i as int + 1)));
                }
            },
            Ok(None) => {
                proof {
                    assert(infos_view(read@) =~= wifi_views(profiles@.take(i as int + 1)));
                }
            },
        }
        i += 1;
    }
    proof {
        assert(profiles@.take(i as int) == profiles@);
    }
    let ghost before = read@;
    let list = sort_by_rank(read);
    proof {
        assert(list@ == by_rank(before));
    }
    Ok(list)
}

/// The path of the active access point as the service reports it: the root
/// path stands for none.
pub fn active_access_point(path: String) -> (r: Option<String>)
    ensures
        r == (if path@ == "/"@ {
            None
        } else {
            Some(path)
        }),
{
    if path == "/".to_owned() {
        None
    } else {
        Some(path)
    }
}

/// The device type by which the service marks wireless devices.
pub const WIFI_DEVICE_TYPE: u32 = 2;

/// The test for wireless devices.
pub open spec fn is_wifi() -> spec_fn((String, u32)) -> bool {
    |device: (String, u32)| device.1 == WIFI_DEVICE_TYPE
}

/// The paths of the wireless devices among the devices given as path and
/// device type, in their order.
pub fn wifi_devices(devices: Vec<(String, u32)>) -> (r: Vec<String>)
    ensures
        r@ == devices@.filter(is_wifi()).map_values(|device: (String, u32)| device.0),
{
    let mut paths: Vec<String> = Vec::new();
    for device in it: devices
        invariant
            paths@ == devices@.take(it.index() as int).filter(is_wifi()).map_values(
                |device: (String, u32)| device.0,
            ),
    {
        proof {
            let before = devices@.take(it.index() as int);
            assert(devices@.take(it.index() + 1) == before.push(device));
            before.lemma_filter_push(device, is_wifi());
        }
        if device.1 == WIFI_DEVICE_TYPE {
            paths.push(device.0);
        }
    }
    proof {
        assert(devices@.take(devices@.len() as int) == devices@);
    }
    paths
}

impl AccessPointInfo {
    /// The access point that the service's properties describe: the SSID is
    /// the bytes read as text, the security class follows from the three
    /// flag words, the mode from its code.
    pub fn from_properties(
        path: String,
        ssid: &Vec<u8>,
        strength: u8,
        frequency: u32,
        hw_address: String,
        flags: u32,
        wpa_flags: u32,
        rsn_flags: u32,
        mode: u32,
    ) -> (r: AccessPointInfo)
        ensures
            r.path == path,
            r.ssid@ == lossy_text(ssid@),
            r.strength == strength,
            r.frequency == frequency,
            r.hw_address == hw_address,
            r.security == SecurityType::of_flags(flags, wpa_flags, rsn_flags),
            r.mode == WifiMode::of_code(mode),
    {
        AccessPointInfo {
            path,
            ssid: from_utf8_lossy(ssid.as_slice()),
            strength,
            frequency,
            hw_address,
            security: SecurityType::from_flags(flags, wpa_flags, rsn_flags),
            mode: WifiMode::from(mode),
        }
    }
}

} // verus!
