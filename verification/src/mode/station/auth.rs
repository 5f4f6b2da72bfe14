//! The dialogs that ask the operator for credentials.

pub mod entreprise;
pub mod hidden;
pub mod input;
pub mod psk;

use crate::mode::station::auth::entreprise::requests::{
    RequestKeyPassphrase, RequestPassword, RequestUsernameAndPassword,
};
use crate::mode::station::auth::entreprise::WPAEntreprise;
use crate::mode::station::auth::hidden::HiddenSsidDialog;
use crate::mode::station::auth::input::input_text;
use crate::mode::station::auth::psk::Psk;
use vstd::prelude::*;

verus! {

/// All dialogs that ask for credentials; those of an enterprise network are
/// there only while they are up.
#[derive(Debug)]
pub struct Auth {
    pub psk: Psk,
    pub hidden: HiddenSsidDialog,
    pub eap: Option<WPAEntreprise>,
    pub request_key_passphrase: Option<RequestKeyPassphrase>,
    pub request_password: Option<RequestPassword>,
    pub request_username_and_password: Option<RequestUsernameAndPassword>,
}

impl Default for Auth {
    fn default() -> (r: Auth)
        ensures
            input_text(r.psk.passphrase).len() == 0,
            r.psk.show_password,
            r.hidden.is_blank(),
            r.eap is None,
            r.request_key_passphrase is None,
            r.request_password is None,
            r.request_username_and_password is None,
    {
        Auth {
            psk: Psk::default(),
            hidden: HiddenSsidDialog::default(),
            eap: None,
            request_key_passphrase: None,
            request_password: None,
            request_username_and_password: None,
        }
    }
}

impl Auth {
    /// Brings the dialog for an enterprise network up.
    pub fn init_eap(&mut self, network_name: String)
        ensures
            final(self).eap matches Some(dialog) && dialog.network_name == network_name,
            final(self).psk == old(self).psk,
            final(self).hidden == old(self).hidden,
            final(self).request_key_passphrase == old(self).request_key_passphrase,
            final(self).request_password == old(self).request_password,
            final(self).request_username_and_password == old(self).request_username_and_password,
    {
        self.eap = Some(WPAEntreprise::new(network_name));
    }

    /// Empties the passphrase dialog and the dialog for a hidden network and
    /// takes the enterprise dialog down. Requests of an enterprise network
    /// that are up stay.
    pub fn reset(&mut self)
        ensures
            input_text(final(self).psk.passphrase).len() == 0,
            final(self).psk.show_password,
            final(self).hidden.is_blank(),
            final(self).eap is None,
            final(self).request_key_passphrase == old(self).request_key_passphrase,
            final(self).request_password == old(self).request_password,
            final(self).request_username_and_password == old(self).request_username_and_password,
    {
        self.psk = Psk::default();
        self.hidden.reset();
        self.eap = None;
    }

    /// Brings the request for a private key's passphrase up.
    pub fn init_request_key_passphrase(&mut self, network_name: String)
        ensures
            final(self).request_key_passphrase matches Some(dialog) && dialog.network_name
                == network_name && input_text(dialog.passphrase).len() == 0 && dialog.show_password,
            final(self).psk == old(self).psk,
            final(self).hidden == old(self).hidden,
            final(self).eap == old(self).eap,
            final(self).request_password == old(self).request_password,
            final(self).request_username_and_password == old(self).request_username_and_password,
    {
        self.request_key_passphrase = Some(RequestKeyPassphrase::new(network_name));
    }

    /// Brings the request for a password up.
    pub fn init_request_password(&mut self, network_name: String, user_name: Option<String>)
        ensures
            final(self).request_password matches Some(dialog) && dialog.network_name == network_name
                && dialog.user_name == user_name && input_text(dialog.password).len() == 0
                && dialog.show_password,
            final(self).psk == old(self).psk,
            final(self).hidden == old(self).hidden,
            final(self).eap == old(self).eap,
            final(self).request_key_passphrase == old(self).request_key_passphrase,
            final(self).request_username_and_password == old(self).request_username_and_password,
    {
        self.request_password = Some(RequestPassword::new(network_name, user_name));
    }

    /// Brings the request for user name and password up.
    pub fn init_request_username_and_password(&mut self, network_name: String)
        ensures
            final(self).request_username_and_password matches Some(dialog) && dialog.network_name
                == network_name && input_text(dialog.username).len() == 0 && input_text(
                dialog.password,
            ).len() == 0,
            final(self).psk == old(self).psk,
            final(self).hidden == old(self).hidden,
            final(self).eap == old(self).eap,
            final(self).request_key_passphrase == old(self).request_key_passphrase,
            final(self).request_password == old(self).request_password,
    {
        self.request_username_and_password = Some(RequestUsernameAndPassword::new(network_name));
    }
}

} // verus!
