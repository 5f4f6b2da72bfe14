//! What the core asks the surrounding program to announce.

use crate::mode::station::speed_test::SpeedTest;
use crate::nm::types::Mode;
use crate::notification::Notification;
use vstd::prelude::*;

verus! {

/// An announcement of the core: a message for the operator, or a request to
/// bring a dialog up.
pub enum Event {
    Notification(Notification),
    /// Start over in the given mode.
    Reset(Mode),
    /// Ask for the passphrase of the named network.
    Auth(String),
    /// Ask for the passphrase of the private key for the named network.
    AuthReqKeyPassphrase(String),
    /// Ask for user name and password for the named network.
    AuthReqUsernameAndPassword(String),
    /// Ask for the password for the named network; the user name may be
    /// known already.
    AuthRequestPassword((String, Option<String>)),
    /// Bring up the dialog that configures the named enterprise network.
    ConfigureNewEapNetwork(String),
    SpeedTestResult(SpeedTest),
}

} // verus!
