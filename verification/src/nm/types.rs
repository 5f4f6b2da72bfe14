//! Enumerations and records of the connection service, with their numeric
//! encodings and display names.

use vstd::prelude::*;
use vstd::std_specs::convert::FromSpecImpl;

verus! {

/// Operating mode of the wireless device.
#[derive(Debug, Clone, Copy, PartialEq, Eq, Structural)]
pub enum Mode {
    Station,
    Ap,
}

/// A mode name that is neither `station` nor `ap` in any letter case.
#[derive(Debug)]
pub struct ModeError {
    /// The rejected text, as it was given.
    pub value: String,
}

impl Clone for ModeError {
    fn clone(&self) -> (r: ModeError)
        ensures
            r == *self,
    {
        ModeError { value: self.value.clone() }
    }
}

/// Lower-case form of a text, as `str::to_lowercase` computes it.
pub uninterp spec fn lowercase(s: Seq<char>) -> Seq<char>;

/// `str::to_lowercase`: the result is the lower-case form of the argument,
/// a function of the argument's characters alone.
#[verifier::external_body]
fn to_lowercase(s: &str) -> (r: String)
    ensures
        r@ == lowercase(s@),
{
    s.to_lowercase()
}

impl Default for Mode {
    fn default() -> (r: Mode)
        ensures
            r == Mode::Station,
    {
        Mode::Station
    }
}

impl Mode {
    /// Display name of the mode.
    pub open spec fn name(self) -> Seq<char> {
        match self {
            Mode::Station => "station"@,
            Mode::Ap => "ap"@,
        }
    }

    /// The mode that a lower-case name stands for, if any.
    pub open spec fn of_lowercase(lowered: Seq<char>) -> Option<Mode> {
        if lowered == "station"@ {
            Some(Mode::Station)
        } else if lowered == "ap"@ {
            Some(Mode::Ap)
        } else {
            None
        }
    }

    pub fn to_string(&self) -> (r: String)
        ensures
            r@ == self.name(),
    {
        match self {
            Mode::Station => "station".to_owned(),
            Mode::Ap => "ap".to_owned(),
        }
    }

    /// Decides on a name already brought to lower case; `value` is the text
    /// as given, kept for the error.
    pub fn from_lowercase(lowered: &String, value: &str) -> (r: Result<Mode, ModeError>)
        ensures
            match Mode::of_lowercase(lowered@) {
                Some(m) => r == Ok::<Mode, ModeError>(m),
                None => r is Err && r->Err_0.value@ == value@,
            },
    {
        if *lowered == "station".to_owned() {
            Ok(Mode::Station)
        } else if *lowered == "ap".to_owned() {
            Ok(Mode::Ap)
        } else {
            Err(ModeError { value: value.to_owned() })
        }
    }

    /// Reads a mode name, ignoring letter case.
    pub fn try_from(value: &str) -> (r: Result<Mode, ModeError>)
        ensures
            match Mode::of_lowercase(lowercase(value@)) {
                Some(m) => r == Ok::<Mode, ModeError>(m),
                None => r is Err && r->Err_0.value@ == value@,
            },
    {
        let lowered = to_lowercase(value);
        Mode::from_lowercase(&lowered, value)
    }
}

impl ModeError {
    pub open spec fn message(self) -> Seq<char> {
        "Invalid mode: "@ + self.value@
    }

    pub fn to_string(&self) -> (r: String)
        ensures
            r@ == self.message(),
    {
        "Invalid mode: ".to_owned().concat(self.value.as_str())
    }
}

/// State of a device as the connection service numbers it.
#[derive(Debug, Clone, Copy, PartialEq, Eq, Structural)]
pub enum DeviceState {
    Unknown,
    Unmanaged,
    Unavailable,
    Disconnected,
    Prepare,
    Config,
    NeedAuth,
    IpConfig,
    IpCheck,
    Secondaries,
    Activated,
    Deactivating,
    Failed,
}

impl DeviceState {
    /// The state that a service code stands for; unlisted codes are `Unknown`.
    pub open spec fn of_code(value: u32) -> DeviceState {
        if value == 10 {
            DeviceState::Unmanaged
        } else if value == 20 {
            DeviceState::Unavailable
        } else if value == 30 {
            DeviceState::Disconnected
        } else if value == 40 {
            DeviceState::Prepare
        } else if value == 50 {
            DeviceState::Config
        } else if value == 60 {
            DeviceState::NeedAuth
        } else if value == 70 {
            DeviceState::IpConfig
        } else if value == 80 {
            DeviceState::IpCheck
        } else if value == 90 {
            DeviceState::Secondaries
        } else if value == 100 {
            DeviceState::Activated
        } else if value == 110 {
            DeviceState::Deactivating
        } else if value == 120 {
            DeviceState::Failed
        } else {
            DeviceState::Unknown
        }
    }

    /// Display name of the state.
    pub open spec fn name(self) -> Seq<char> {
        match self {
            DeviceState::Unknown => "unknown"@,
            DeviceState::Unmanaged => "unmanaged"@,
            DeviceState::Unavailable => "unavailable"@,
            DeviceState::Disconnected => "disconnected"@,
            DeviceState::Prepare => "connecting"@,
            DeviceState::Config => "configuring"@,
            DeviceState::NeedAuth => "authenticating"@,
            DeviceState::IpConfig => "getting IP"@,
            DeviceState::IpCheck => "checking IP"@,
            DeviceState::Secondaries => "waiting"@,
            DeviceState::Activated => "connected"@,
            DeviceState::Deactivating => "disconnecting"@,
            DeviceState::Failed => "failed"@,
        }
    }

    pub fn to_string(&self) -> (r: String)
        ensures
            r@ == self.name(),
    {
        match self {
            DeviceState::Unknown => "unknown".to_owned(),
            DeviceState::Unmanaged => "unmanaged".to_owned(),
            DeviceState::Unavailable => "unavailable".to_owned(),
            DeviceState::Disconnected => "disconnected".to_owned(),
            DeviceState::Prepare => "connecting".to_owned(),
            DeviceState::Config => "configuring".to_owned(),
            DeviceState::NeedAuth => "authenticating".to_owned(),
            DeviceState::IpConfig => "getting IP".to_owned(),
            DeviceState::IpCheck => "checking IP".to_owned(),
            DeviceState::Secondaries => "waiting".to_owned(),
            DeviceState::Activated => "connected".to_owned(),
            DeviceState::Deactivating => "disconnecting".to_owned(),
            DeviceState::Failed => "failed".to_owned(),
        }
    }
}

impl From<u32> for DeviceState {
    fn from(value: u32) -> (r: DeviceState) {
        match value {
            10 => DeviceState::Unmanaged,
            20 => DeviceState::Unavailable,
            30 => DeviceState::Disconnected,
            40 => DeviceState::Prepare,
            50 => DeviceState::Config,
            60 => DeviceState::NeedAuth,
            70 => DeviceState::IpConfig,
            80 => DeviceState::IpCheck,
            90 => DeviceState::Secondaries,
            100 => DeviceState::Activated,
            110 => DeviceState::Deactivating,
            120 => DeviceState::Failed,
            _ => DeviceState::Unknown,
        }
    }
}

impl FromSpecImpl<u32> for DeviceState {
    open spec fn obeys_from_spec() -> bool {
        true
    }

    open spec fn from_spec(value: u32) -> DeviceState {
        DeviceState::of_code(value)
    }
}

/// Operating mode that an access point advertises.
#[derive(Debug, Clone, Copy, PartialEq, Eq, Structural)]
pub enum WifiMode {
    Unknown,
    Adhoc,
    Infrastructure,
    Ap,
    Mesh,
}

impl WifiMode {
    /// The mode that a service code stands for; unlisted codes are `Unknown`.
    pub open spec fn of_code(value: u32) -> WifiMode {
        if value == 1 {
            WifiMode::Adhoc
        } else if value == 2 {
            WifiMode::Infrastructure
        } else if value == 3 {
            WifiMode::Ap
        } else if value == 4 {
            WifiMode::Mesh
        } else {
            WifiMode::Unknown
        }
    }
}

impl From<u32> for WifiMode {
    fn from(value: u32) -> (r: WifiMode) {
        match value {
            1 => WifiMode::Adhoc,
            2 => WifiMode::Infrastructure,
            3 => WifiMode::Ap,
            4 => WifiMode::Mesh,
            _ => WifiMode::Unknown,
        }
    }
}

impl FromSpecImpl<u32> for WifiMode {
    open spec fn obeys_from_spec() -> bool {
        true
    }

    open spec fn from_spec(value: u32) -> WifiMode {
        WifiMode::of_code(value)
    }
}

/// Security class of a wireless network.
#[derive(Debug, Clone, Copy, PartialEq, Eq, Structural)]
pub enum SecurityType {
    Open,
    WEP,
    WPA,
    WPA2,
    WPA3,
    Enterprise,
}

impl Default for SecurityType {
    fn default() -> (r: SecurityType)
        ensures
            r == SecurityType::Open,
    {
        SecurityType::Open
    }
}

impl SecurityType {
    /// Classification of an access point by its three flag words: 802.1X key
    /// management in either WPA or RSN flags is enterprise; otherwise any RSN
    /// flag is WPA2, or WPA3 where SAE is among them; otherwise any WPA flag is
    /// WPA; otherwise the privacy bit alone is WEP; otherwise the network is
    /// open.
    pub open spec fn of_flags(flags: u32, wpa_flags: u32, rsn_flags: u32) -> SecurityType {
        if wpa_flags & 0x200 != 0 || rsn_flags & 0x200 != 0 {
            SecurityType::Enterprise
        } else if rsn_flags != 0 {
            if rsn_flags & 0x400 != 0 {
                SecurityType::WPA3
            } else {
                SecurityType::WPA2
            }
        } else if wpa_flags != 0 {
            SecurityType::WPA
        } else if flags & 0x1 != 0 {
            SecurityType::WEP
        } else {
            SecurityType::Open
        }
    }

    /// Display name of the security class.
    pub open spec fn name(self) -> Seq<char> {
        match self {
            SecurityType::Open => "open"@,
            SecurityType::WEP => "wep"@,
            SecurityType::WPA => "wpa"@,
            SecurityType::WPA2 => "wpa2"@,
            SecurityType::WPA3 => "wpa3"@,
            SecurityType::Enterprise => "8021x"@,
        }
    }

    pub open spec fn spec_requires_password(&self) -> bool {
        *self != SecurityType::Open
    }

    pub open spec fn spec_is_enterprise(&self) -> bool {
        *self == SecurityType::Enterprise
    }

    pub fn from_flags(flags: u32, wpa_flags: u32, rsn_flags: u32) -> (r: SecurityType)
        ensures
            r == SecurityType::of_flags(flags, wpa_flags, rsn_flags),
    {
        let has_privacy = flags & 0x1 != 0;
        if wpa_flags & 0x200 != 0 || rsn_flags & 0x200 != 0 {
            return SecurityType::Enterprise;
        }
        if rsn_flags != 0 {
            if rsn_flags & 0x400 != 0 {
                return SecurityType::WPA3;
            }
            return SecurityType::WPA2;
        }
        if wpa_flags != 0 {
            return SecurityType::WPA;
        }
        if has_privacy {
            return SecurityType::WEP;
        }
        SecurityType::Open
    }

    #[verifier::when_used_as_spec(spec_requires_password)]
    pub fn requires_password(&self) -> (r: bool)
        ensures
            r == self.spec_requires_password(),
    {
        !matches!(self, SecurityType::Open)
    }

    #[verifier::when_used_as_spec(spec_is_enterprise)]
    pub fn is_enterprise(&self) -> (r: bool)
        ensures
            r == self.spec_is_enterprise(),
    {
        matches!(self, SecurityType::Enterprise)
    }

    pub fn to_string(&self) -> (r: String)
        ensures
            r@ == self.name(),
    {
        match self {
            SecurityType::Open => "open".to_owned(),
            SecurityType::WEP => "wep".to_owned(),
            SecurityType::WPA => "wpa".to_owned(),
            SecurityType::WPA2 => "wpa2".to_owned(),
            SecurityType::WPA3 => "wpa3".to_owned(),
            SecurityType::Enterprise => "8021x".to_owned(),
        }
    }
}

/// One access point of a scan.
#[derive(Debug)]
pub struct AccessPointInfo {
    pub path: String,
    pub ssid: String,
    pub strength: u8,
    pub frequency: u32,
    pub hw_address: String,
    pub security: SecurityType,
    pub mode: WifiMode,
}

impl Clone for AccessPointInfo {
    fn clone(&self) -> (r: AccessPointInfo)
        ensures
            r == *self,
    {
        AccessPointInfo {
            path: self.path.clone(),
            ssid: self.ssid.clone(),
            strength: self.strength,
            frequency: self.frequency,
            hw_address: self.hw_address.clone(),
            security: self.security,
            mode: self.mode,
        }
    }
}

impl AccessPointInfo {
    /// Frequencies below 3000 MHz lie in the 2.4 GHz band.
    pub open spec fn in_low_band(self) -> bool {
        self.frequency < 3000
    }

    /// Whether the frequency lies on or above the base of its band, so that it
    /// has a channel number.
    pub open spec fn has_channel(self) -> bool {
        if self.in_low_band() {
            self.frequency >= 2407
        } else {
            self.frequency >= 5000
        }
    }

    /// Channel number: the distance from the band's base in steps of 5 MHz.
    pub open spec fn spec_channel(self) -> int {
        if self.in_low_band() {
            (self.frequency - 2407) / 5
        } else {
            (self.frequency - 5000) / 5
        }
    }

    /// Name of the frequency band.
    pub fn band(&self) -> (r: &str)
        ensures
            r@ == (if self.in_low_band() {
                "2.4 GHz"@
            } else {
                "5 GHz"@
            }),
    {
        if self.frequency < 3000 {
            "2.4 GHz"
        } else {
            "5 GHz"
        }
    }

    /// Channel number of the frequency.
    pub fn channel(&self) -> (r: u32)
        requires
            self.has_channel(),
        ensures
            r == self.spec_channel(),
    {
        if self.frequency < 3000 {
            (self.frequency - 2407) / 5
        } else {
            (self.frequency - 5000) / 5
        }
    }
}

/// One saved connection profile.
#[derive(Debug)]
pub struct ConnectionInfo {
    pub path: String,
    pub id: String,
    pub uuid: String,
    pub ssid: String,
    pub autoconnect: bool,
    pub timestamp: u64,
    pub hidden: bool,
    pub security: SecurityType,
}

impl Clone for ConnectionInfo {
    fn clone(&self) -> (r: ConnectionInfo)
        ensures
            r == *self,
    {
        ConnectionInfo {
            path: self.path.clone(),
            id: self.id.clone(),
            uuid: self.uuid.clone(),
            ssid: self.ssid.clone(),
            autoconnect: self.autoconnect,
            timestamp: self.timestamp,
            hidden: self.hidden,
            security: self.security,
        }
    }
}

/// State of an active connection as the connection service numbers it.
#[derive(Debug, Clone, Copy, PartialEq, Eq, Structural)]
pub enum ActiveConnectionState {
    Unknown,
    Activating,
    Activated,
    Deactivating,
    Deactivated,
}

impl ActiveConnectionState {
    /// The state that a service code stands for; unlisted codes are `Unknown`.
    pub open spec fn of_code(value: u32) -> ActiveConnectionState {
        if value == 1 {
            ActiveConnectionState::Activating
        } else if value == 2 {
            ActiveConnectionState::Activated
        } else if value == 3 {
            ActiveConnectionState::Deactivating
        } else if value == 4 {
            ActiveConnectionState::Deactivated
        } else {
            ActiveConnectionState::Unknown
        }
    }
}

impl From<u32> for ActiveConnectionState {
    fn from(value: u32) -> (r: ActiveConnectionState) {
        match value {
            1 => ActiveConnectionState::Activating,
            2 => ActiveConnectionState::Activated,
            3 => ActiveConnectionState::Deactivating,
            4 => ActiveConnectionState::Deactivated,
            _ => ActiveConnectionState::Unknown,
        }
    }
}

impl FromSpecImpl<u32> for ActiveConnectionState {
    open spec fn obeys_from_spec() -> bool {
        true
    }

    open spec fn from_spec(value: u32) -> ActiveConnectionState {
        ActiveConnectionState::of_code(value)
    }
}

/// One connection that the service reports as active.
#[derive(Debug)]
pub struct ActiveConnectionInfo {
    pub path: String,
    pub id: String,
    pub uuid: String,
    pub state: ActiveConnectionState,
    pub connection_path: String,
    pub devices: Vec<String>,
}

impl Clone for ActiveConnectionInfo {
    fn clone(&self) -> (r: ActiveConnectionInfo)
        ensures
            r.path == self.path,
            r.id == self.id,
            r.uuid == self.uuid,
            r.state == self.state,
            r.connection_path == self.connection_path,
            r.devices@ == self.devices@,
    {
        let devices = self.devices.clone();
        assert(devices@ =~= self.devices@);
        ActiveConnectionInfo {
            path: self.path.clone(),
            id: self.id.clone(),
            uuid: self.uuid.clone(),
            state: self.state,
            connection_path: self.connection_path.clone(),
            devices,
        }
    }
}

/// State of the station as the console shows it.
#[derive(Debug, Clone, Copy, PartialEq, Eq, Structural)]
pub enum StationState {
    Disconnected,
    Connecting,
    Connected,
    Disconnecting,
    Roaming,
}

impl Default for StationState {
    fn default() -> (r: StationState)
        ensures
            r == StationState::Disconnected,
    {
        StationState::Disconnected
    }
}

impl StationState {
    /// The station state that a device state amounts to: activated is
    /// connected, every stage from preparation to secondaries is connecting,
    /// deactivating is disconnecting, anything else is disconnected.
    pub open spec fn of_device_state(state: DeviceState) -> StationState {
        match state {
            DeviceState::Activated => StationState::Connected,
            DeviceState::Prepare
            | DeviceState::Config
            | DeviceState::NeedAuth
            | DeviceState::IpConfig
            | DeviceState::IpCheck
            | DeviceState::Secondaries => StationState::Connecting,
            DeviceState::Deactivating => StationState::Disconnecting,
            _ => StationState::Disconnected,
        }
    }

    /// Display name of the state.
    pub open spec fn name(self) -> Seq<char> {
        match self {
            StationState::Disconnected => "disconnected"@,
            StationState::Connecting => "connecting"@,
            StationState::Connected => "connected"@,
            StationState::Disconnecting => "disconnecting"@,
            StationState::Roaming => "roaming"@,
        }
    }

    pub fn to_string(&self) -> (r: String)
        ensures
            r@ == self.name(),
    {
        match self {
            StationState::Disconnected => "disconnected".to_owned(),
            StationState::Connecting => "connecting".to_owned(),
            StationState::Connected => "connected".to_owned(),
            StationState::Disconnecting => "disconnecting".to_owned(),
            StationState::Roaming => "roaming".to_owned(),
        }
    }
}

impl From<DeviceState> for StationState {
    fn from(state: DeviceState) -> (r: StationState) {
        match state {
            DeviceState::Activated => StationState::Connected,
            DeviceState::Prepare
            | DeviceState::Config
            | DeviceState::NeedAuth
            | DeviceState::IpConfig
            | DeviceState::IpCheck
            | DeviceState::Secondaries => StationState::Connecting,
            DeviceState::Deactivating => StationState::Disconnecting,
            _ => StationState::Disconnected,
        }
    }
}

impl FromSpecImpl<DeviceState> for StationState {
    open spec fn obeys_from_spec() -> bool {
        true
    }

    open spec fn from_spec(state: DeviceState) -> StationState {
        StationState::of_device_state(state)
    }
}

/// What is known of the active link.
#[derive(Debug)]
pub struct DiagnosticInfo {
    pub frequency: Option<u32>,
    pub signal_strength: Option<i32>,
    pub tx_bitrate: Option<u32>,
    pub rx_bitrate: Option<u32>,
    pub security: Option<String>,
}

impl Default for DiagnosticInfo {
    fn default() -> (r: DiagnosticInfo)
        ensures
            r.frequency is None,
            r.signal_strength is None,
            r.tx_bitrate is None,
            r.rx_bitrate is None,
            r.security is None,
    {
        DiagnosticInfo {
            frequency: None,
            signal_strength: None,
            tx_bitrate: None,
            rx_bitrate: None,
            security: None,
        }
    }
}

} // verus!
