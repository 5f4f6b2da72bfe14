//! Plain-value picture of what the connection service reports.

pub mod profiles;
pub mod ranking;
pub mod settings;
pub mod types;
pub mod wifi;

pub use types::{
    AccessPointInfo, ActiveConnectionInfo, ActiveConnectionState, ConnectionInfo, DeviceState,
    DiagnosticInfo, Mode, ModeError, SecurityType, StationState, WifiMode,
};
