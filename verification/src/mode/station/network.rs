//! A visible network as the console shows it, and what connecting to it takes.

use crate::mode::station::known_network::KnownNetwork;
use crate::nm::types::{AccessPointInfo, SecurityType};
use crate::notification::{Notification, NotificationLevel};
use vstd::prelude::*;

verus! {

/// An access point of the current scan, with the saved profile for its SSID
/// where there is one.
#[derive(Debug)]
pub struct Network {
    pub device_path: String,
    pub ap_path: String,
    pub name: String,
    pub network_type: SecurityType,
    pub is_connected: bool,
    pub known_network: Option<KnownNetwork>,
    pub signal_strength: u8,
}

impl Clone for Network {
    fn clone(&self) -> (r: Network)
        ensures
            r == *self,
    {
        let known_network = match &self.known_network {
            Some(known) => Some(known.clone()),
            None => None,
        };
        Network {
            device_path: self.device_path.clone(),
            ap_path: self.ap_path.clone(),
            name: self.name.clone(),
            network_type: self.network_type,
            is_connected: self.is_connected,
            known_network,
            signal_strength: self.signal_strength,
        }
    }
}

/// Which of the four ways a connect attempt takes.
#[derive(Debug, Clone, Copy, PartialEq, Eq, Structural)]
pub enum ConnectRoute {
    /// The network has a saved profile: activate it.
    Activate,
    /// An enterprise network without a profile: its fields have to be asked
    /// for first.
    ConfigureEnterprise,
    /// A secured network without a profile and without a secret at hand.
    PasswordRequired,
    /// Create a profile from the access point and activate it.
    CreateAndActivate,
}

/// The one call that a connect attempt asks of the connection service, or the
/// hand-over to the enterprise dialog.
#[derive(Debug)]
pub enum ConnectStep {
    Activate { connection_path: String, device_path: String },
    CreateAndActivate { device_path: String, ap_path: String, secret: Option<String> },
    ConfigureEnterprise { network_name: String },
}

/// Why a connect attempt did not connect.
#[derive(Debug)]
pub enum ConnectError {
    /// No call was made: the operator has to be asked for the secret.
    PasswordRequired,
    /// The service refused to activate the saved profile.
    ActivationFailed(String),
    /// The service refused to create or activate the new profile.
    ProfileCreationFailed(String),
}

/// The characters of an optional text.
pub open spec fn text_of(s: Option<&str>) -> Option<Seq<char>> {
    match s {
        Some(t) => Some(t@),
        None => None,
    }
}

/// The characters of an optional owned text.
pub open spec fn string_of(s: Option<String>) -> Option<Seq<char>> {
    match s {
        Some(t) => Some(t@),
        None => None,
    }
}

impl ConnectStep {
    /// Whether this step is what `network` asks for on `route`, given `secret`.
    pub open spec fn carries(self, network: Network, route: ConnectRoute, secret: Option<Seq<char>>) -> bool {
        match self {
            ConnectStep::Activate { connection_path, device_path } => {
                &&& route == ConnectRoute::Activate
                &&& network.known_network matches Some(known)
                &&& connection_path == known.connection_path
                &&& device_path == network.device_path
            },
            ConnectStep::CreateAndActivate { device_path, ap_path, secret: given } => {
                &&& route == ConnectRoute::CreateAndActivate
                &&& device_path == network.device_path
                &&& ap_path == network.ap_path
                &&& string_of(given) == secret
            },
            ConnectStep::ConfigureEnterprise { network_name } => {
                &&& route == ConnectRoute::ConfigureEnterprise
                &&& network_name == network.name
            },
        }
    }
}

impl ConnectError {
    /// What the operator reads of a failed attempt; the request for a
    /// password is no failure and has no text.
    pub open spec fn message(self) -> Option<Seq<char>> {
        match self {
            ConnectError::PasswordRequired => None,
            ConnectError::ActivationFailed(reason) => Some("Failed to connect: "@ + reason@),
            ConnectError::ProfileCreationFailed(reason) => Some("Failed to connect: "@ + reason@),
        }
    }

    /// The notification for a failed attempt, at the level of an error; none
    /// for the request for a password, which leads to the prompt instead.
    pub fn notification(&self) -> (r: Option<Notification>)
        ensures
            match self.message() {
                Some(text) => r matches Some(n) && n.message@ == text && n.level
                    == NotificationLevel::Error && n.ttl == crate::notification::NOTIFICATION_TTL,
                None => r is None,
            },
    {
        match self {
            ConnectError::PasswordRequired => None,
            ConnectError::ActivationFailed(reason) => Some(
                Notification::new(
                    "Failed to connect: ".to_owned().concat(reason.as_str()),
                    NotificationLevel::Error,
                ),
            ),
            ConnectError::ProfileCreationFailed(reason) => Some(
                Notification::new(
                    "Failed to connect: ".to_owned().concat(reason.as_str()),
                    NotificationLevel::Error,
                ),
            ),
        }
    }
}

impl Network {
    /// The row for an access point: `known_network` is the saved profile for
    /// its SSID, if any.
    pub open spec fn of_access_point(
        device_path: String,
        ap_info: AccessPointInfo,
        known_network: Option<KnownNetwork>,
        is_connected: bool,
    ) -> Network {
        Network {
            device_path,
            ap_path: ap_info.path,
            name: ap_info.ssid,
            network_type: ap_info.security,
            is_connected,
            known_network,
            signal_strength: ap_info.strength,
        }
    }

    /// A network is known where it has a saved profile.
    pub open spec fn is_known(&self) -> bool {
        self.known_network is Some
    }

    pub open spec fn spec_requires_password(&self) -> bool {
        !self.is_known() && self.network_type != SecurityType::Open
    }

    pub open spec fn spec_is_enterprise(&self) -> bool {
        self.network_type == SecurityType::Enterprise
    }

    /// The way a connect attempt takes: a saved profile is activated; without
    /// one, an enterprise network goes to its dialog, a secured network needs
    /// a secret, and whatever is left gets a new profile.
    pub open spec fn route(&self, has_secret: bool) -> ConnectRoute {
        if self.is_known() {
            ConnectRoute::Activate
        } else if self.network_type == SecurityType::Enterprise {
            ConnectRoute::ConfigureEnterprise
        } else if self.network_type != SecurityType::Open && !has_secret {
            ConnectRoute::PasswordRequired
        } else {
            ConnectRoute::CreateAndActivate
        }
    }

    pub fn from_access_point(
        device_path: String,
        ap_info: AccessPointInfo,
        known_network: Option<KnownNetwork>,
        is_connected: bool,
    ) -> (r: Network)
        ensures
            r == Network::of_access_point(device_path, ap_info, known_network, is_connected),
    {
        Network {
            device_path,
            ap_path: ap_info.path,
            name: ap_info.ssid,
            network_type: ap_info.security,
            is_connected,
            known_network,
            signal_strength: ap_info.strength,
        }
    }

    /// Whether connecting needs a secret that the service does not have yet.
    #[verifier::when_used_as_spec(spec_requires_password)]
    pub fn requires_password(&self) -> (r: bool)
        ensures
            r == self.spec_requires_password(),
    {
        self.known_network.is_none() && self.network_type.requires_password()
    }

    #[verifier::when_used_as_spec(spec_is_enterprise)]
    pub fn is_enterprise(&self) -> (r: bool)
        ensures
            r == self.spec_is_enterprise(),
    {
        self.network_type.is_enterprise()
    }

    /// Decides what a connect attempt does. No call to the service is made
    /// here: the result is the one call to make, the hand-over to the
    /// enterprise dialog, or the signal that a password has to be asked for.
    pub fn connect(&self, password: Option<&str>) -> (r: Result<ConnectStep, ConnectError>)
        ensures
            r is Err <==> self.route(password is Some) == ConnectRoute::PasswordRequired,
            r matches Err(e) ==> e == ConnectError::PasswordRequired,
            r matches Ok(step) ==> step.carries(*self, self.route(password is Some), text_of(password)),
    {
        match &self.known_network {
            Some(known) => Ok(
                ConnectStep::Activate {
                    connection_path: known.connection_path.clone(),
                    device_path: self.device_path.clone(),
                },
            ),
            None => {
                if self.network_type.is_enterprise() {
                    Ok(ConnectStep::ConfigureEnterprise { network_name: self.name.clone() })
                } else if self.network_type.requires_password() && password.is_none() {
                    Err(ConnectError::PasswordRequired)
                } else {
                    let secret = match password {
                        Some(text) => Some(text.to_owned()),
                        None => None,
                    };
                    Ok(
                        ConnectStep::CreateAndActivate {
                            device_path: self.device_path.clone(),
                            ap_path: self.ap_path.clone(),
                            secret,
                        },
                    )
                }
            },
        }
    }

    /// What the operator reads once the service has accepted the call.
    pub fn connecting_notification(&self) -> (r: Notification)
        ensures
            r.message@ == "Connecting to "@ + self.name@,
            r.level == NotificationLevel::Info,
            r.ttl == crate::notification::NOTIFICATION_TTL,
    {
        Notification::new(
            "Connecting to ".to_owned().concat(self.name.as_str()),
            NotificationLevel::Info,
        )
    }
}

impl ConnectStep {
    /// The error where the service refused the call of this step with
    /// `reason`; the hand-over to the enterprise dialog is no call and
    /// cannot be refused.
    pub fn refused(&self, reason: String) -> (r: Option<ConnectError>)
        ensures
            r == (match *self {
                ConnectStep::Activate { .. } => Some(ConnectError::ActivationFailed(reason)),
                ConnectStep::CreateAndActivate { .. } => Some(
                    ConnectError::ProfileCreationFailed(reason),
                ),
                ConnectStep::ConfigureEnterprise { .. } => None,
            }),
    {
        match self {
            ConnectStep::Activate { .. } => Some(ConnectError::ActivationFailed(reason)),
            ConnectStep::CreateAndActivate { .. } => Some(
                ConnectError::ProfileCreationFailed(reason),
            ),
            ConnectStep::ConfigureEnterprise { .. } => None,
        }
    }
}

/// Where a connection attempt stands.
#[derive(Debug, Clone, Copy, PartialEq, Eq, Structural)]
pub enum AttemptState {
    Idle,
    /// It is being decided what the attempt takes.
    CredentialCheck,
    /// The operator is being asked for the secret.
    PromptingForSecret,
    /// The call to the connection service is under way.
    Connecting,
    Connected,
    Failed,
}

/// What moves a connection attempt on.
#[derive(Debug, Clone, Copy, PartialEq, Eq, Structural)]
pub enum AttemptEvent {
    /// The operator asked to connect.
    Begin,
    /// It was decided which way the attempt takes.
    Decided(ConnectRoute),
    /// The operator gave the secret.
    SecretSupplied,
    /// The operator cancelled the prompt.
    Cancelled,
    /// The service accepted the call.
    Accepted,
    /// The service refused the call.
    Refused,
}

impl AttemptState {
    /// Whether the attempt has come to its end.
    pub open spec fn settled(self) -> bool {
        self == AttemptState::Connected || self == AttemptState::Failed
    }

    /// The state that an event leads to. An attempt begins with the check of
    /// the credentials. The check leads to the call where a profile is to be
    /// activated or created, to the prompt where a password is required, and
    /// back to rest where the enterprise dialog takes over. A secret from the
    /// prompt leads back to the check, a cancellation to rest. The call ends
    /// the attempt, one way or the other. An event that does not fit the
    /// state changes nothing.
    pub open spec fn after(self, event: AttemptEvent) -> AttemptState {
        match (self, event) {
            (AttemptState::Idle, AttemptEvent::Begin) => AttemptState::CredentialCheck,
            (AttemptState::CredentialCheck, AttemptEvent::Decided(route)) => match route {
                ConnectRoute::Activate | ConnectRoute::CreateAndActivate => AttemptState::Connecting,
                ConnectRoute::PasswordRequired => AttemptState::PromptingForSecret,
                ConnectRoute::ConfigureEnterprise => AttemptState::Idle,
            },
            (AttemptState::PromptingForSecret, AttemptEvent::SecretSupplied) => AttemptState::CredentialCheck,
            (AttemptState::PromptingForSecret, AttemptEvent::Cancelled) => AttemptState::Idle,
            (AttemptState::Connecting, AttemptEvent::Accepted) => AttemptState::Connected,
            (AttemptState::Connecting, AttemptEvent::Refused) => AttemptState::Failed,
            _ => self,
        }
    }

    /// Moves the attempt on by one event.
    pub fn advance(self, event: AttemptEvent) -> (r: AttemptState)
        ensures
            r == self.after(event),
    {
        match (self, event) {
            (AttemptState::Idle, AttemptEvent::Begin) => AttemptState::CredentialCheck,
            (AttemptState::CredentialCheck, AttemptEvent::Decided(route)) => match route {
                ConnectRoute::Activate | ConnectRoute::CreateAndActivate => AttemptState::Connecting,
                ConnectRoute::PasswordRequired => AttemptState::PromptingForSecret,
                ConnectRoute::ConfigureEnterprise => AttemptState::Idle,
            },
            (AttemptState::PromptingForSecret, AttemptEvent::SecretSupplied) => AttemptState::CredentialCheck,
            (AttemptState::PromptingForSecret, AttemptEvent::Cancelled) => AttemptState::Idle,
            (AttemptState::Connecting, AttemptEvent::Accepted) => AttemptState::Connected,
            (AttemptState::Connecting, AttemptEvent::Refused) => AttemptState::Failed,
            (state, _) => state,
        }
    }
}

impl Network {
    /// The way that a connect attempt to this network takes, as an event for
    /// the attempt.
    pub fn decided(&self, password: Option<&str>) -> (r: AttemptEvent)
        ensures
            r == AttemptEvent::Decided(self.route(password is Some)),
    {
        if self.known_network.is_some() {
            AttemptEvent::Decided(ConnectRoute::Activate)
        } else if self.network_type.is_enterprise() {
            AttemptEvent::Decided(ConnectRoute::ConfigureEnterprise)
        } else if self.network_type.requires_password() && password.is_none() {
            AttemptEvent::Decided(ConnectRoute::PasswordRequired)
        } else {
            AttemptEvent::Decided(ConnectRoute::CreateAndActivate)
        }
    }
}

/// An attempt that has come to its end stays there, whatever happens.
pub proof fn lemma_settled_attempt_stays(state: AttemptState, event: AttemptEvent)
    requires
        state.settled(),
    ensures
        state.after(event) == state,
{
}

/// The call to the service is only ever reached from the check of the
/// credentials, and only where the check found a profile to activate or to
/// create: never where a password is required, and never from the prompt.
pub proof fn lemma_call_follows_check(state: AttemptState, event: AttemptEvent)
    requires
        state != AttemptState::Connecting,
        state.after(event) == AttemptState::Connecting,
    ensures
        state == AttemptState::CredentialCheck,
        event == AttemptEvent::Decided(ConnectRoute::Activate) || event == AttemptEvent::Decided(
            ConnectRoute::CreateAndActivate,
        ),
{
}

/// An attempt on a network that needs a password and has none goes to the
/// prompt without a call to the service, and from there, with the secret
/// given, through the check to the call.
pub proof fn lemma_prompt_precedes_call(network: Network)
    requires
        network.route(false) == ConnectRoute::PasswordRequired,
    ensures
        AttemptState::Idle.after(AttemptEvent::Begin).after(
            AttemptEvent::Decided(network.route(false)),
        ) == AttemptState::PromptingForSecret,
        network.route(true) == ConnectRoute::CreateAndActivate,
        AttemptState::PromptingForSecret.after(AttemptEvent::SecretSupplied).after(
            AttemptEvent::Decided(network.route(true)),
        ) == AttemptState::Connecting,
{
}

} // verus!
