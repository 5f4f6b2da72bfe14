//! The dialogs by which an enterprise network asks for a secret while
//! connecting.

use crate::agent::{AgentState, AuthAgent};
use crate::mode::station::auth::input::{empty_input, input_text, input_value, reset_input};
use tui_input::Input;
use vstd::prelude::*;

verus! {

/// Asks for the passphrase of a private key.
#[derive(Debug)]
pub struct RequestKeyPassphrase {
    pub network_name: String,
    pub passphrase: Input,
    pub show_password: bool,
}

/// Asks for a password; the user name may be known.
#[derive(Debug)]
pub struct RequestPassword {
    pub network_name: String,
    pub user_name: Option<String>,
    pub password: Input,
    pub show_password: bool,
}

/// Which of the two fields the cursor is in.
#[derive(Debug, Clone, Copy, PartialEq, Eq, Structural)]
pub enum CredentialField {
    Username,
    Password,
}

/// Asks for user name and password.
#[derive(Debug)]
pub struct RequestUsernameAndPassword {
    pub network_name: String,
    pub username: Input,
    pub password: Input,
    pub focused_field: CredentialField,
    pub show_password: bool,
}

impl RequestKeyPassphrase {
    pub fn new(network_name: String) -> (r: RequestKeyPassphrase)
        ensures
            r.network_name == network_name,
            input_text(r.passphrase).len() == 0,
            r.show_password,
    {
        RequestKeyPassphrase { network_name, passphrase: empty_input(), show_password: true }
    }

    /// Hands the passphrase as typed to the coordinator, lowers the flag of
    /// the request and empties the field.
    pub fn submit(&mut self, agent: &mut AuthAgent)
        ensures
            final(agent)@.passphrases.len() == old(agent)@.passphrases.len() + 1,
            final(agent)@.passphrases.drop_last() == old(agent)@.passphrases,
            final(agent)@.passphrases.last()@ == input_text(old(self).passphrase),
            !final(agent)@.private_key_passphrase_required,
            final(agent)@.psk_required == old(agent)@.psk_required,
            final(agent)@.password_required == old(agent)@.password_required,
            final(agent)@.username_and_password_required == old(
                agent,
            )@.username_and_password_required,
            final(agent)@.credentials == old(agent)@.credentials,
            final(agent)@.cancellations == old(agent)@.cancellations,
            input_text(final(self).passphrase).len() == 0,
            final(self).network_name == old(self).network_name,
            final(self).show_password == old(self).show_password,
    {
        agent.submit_passphrase(input_value(&self.passphrase));
        agent.private_key_passphrase_required = false;
        reset_input(&mut self.passphrase);
        proof {
            assert(agent@.passphrases.drop_last() == old(agent)@.passphrases);
        }
    }

    /// Cancels the request.
    pub fn cancel(&mut self, agent: &mut AuthAgent)
        ensures
            final(agent)@ == (AgentState {
                private_key_passphrase_required: false,
                ..old(agent)@.cancelled()
            }),
            input_text(final(self).passphrase).len() == 0,
            final(self).network_name == old(self).network_name,
            final(self).show_password == old(self).show_password,
    {
        agent.cancel();
        agent.private_key_passphrase_required = false;
        reset_input(&mut self.passphrase);
    }
}

impl RequestPassword {
    pub fn new(network_name: String, user_name: Option<String>) -> (r: RequestPassword)
        ensures
            r.network_name == network_name,
            r.user_name == user_name,
            input_text(r.password).len() == 0,
            r.show_password,
    {
        RequestPassword { network_name, user_name, password: empty_input(), show_password: true }
    }

    /// Hands the password as typed to the coordinator, lowers the flag of the
    /// request and empties the field.
    pub fn submit(&mut self, agent: &mut AuthAgent)
        ensures
            final(agent)@.passphrases.len() == old(agent)@.passphrases.len() + 1,
            final(agent)@.passphrases.drop_last() == old(agent)@.passphrases,
            final(agent)@.passphrases.last()@ == input_text(old(self).password),
            !final(agent)@.password_required,
            final(agent)@.psk_required == old(agent)@.psk_required,
            final(agent)@.private_key_passphrase_required == old(
                agent,
            )@.private_key_passphrase_required,
            final(agent)@.username_and_password_required == old(
                agent,
            )@.username_and_password_required,
            final(agent)@.credentials == old(agent)@.credentials,
            final(agent)@.cancellations == old(agent)@.cancellations,
            input_text(final(self).password).len() == 0,
            final(self).network_name == old(self).network_name,
            final(self).user_name == old(self).user_name,
            final(self).show_password == old(self).show_password,
    {
        agent.submit_passphrase(input_value(&self.password));
        agent.password_required = false;
        reset_input(&mut self.password);
        proof {
            assert(agent@.passphrases.drop_last() == old(agent)@.passphrases);
        }
    }

    /// Cancels the request.
    pub fn cancel(&mut self, agent: &mut AuthAgent)
        ensures
            final(agent)@ == (AgentState { password_required: false, ..old(agent)@.cancelled() }),
            input_text(final(self).password).len() == 0,
            final(self).network_name == old(self).network_name,
            final(self).user_name == old(self).user_name,
            final(self).show_password == old(self).show_password,
    {
        agent.cancel();
        agent.password_required = false;
        reset_input(&mut self.password);
    }
}

impl RequestUsernameAndPassword {
    pub fn new(network_name: String) -> (r: RequestUsernameAndPassword)
        ensures
            r.network_name == network_name,
            input_text(r.username).len() == 0,
            input_text(r.password).len() == 0,
            r.focused_field == CredentialField::Username,
            r.show_password,
    {
        RequestUsernameAndPassword {
            network_name,
            username: empty_input(),
            password: empty_input(),
            focused_field: CredentialField::Username,
            show_password: true,
        }
    }

    /// Moves the cursor to the other field.
    pub fn switch_field(&mut self)
        ensures
            final(self).focused_field == (if old(self).focused_field == CredentialField::Username {
                CredentialField::Password
            } else {
                CredentialField::Username
            }),
            final(self).network_name == old(self).network_name,
            final(self).username == old(self).username,
            final(self).password == old(self).password,
            final(self).show_password == old(self).show_password,
    {
        self.focused_field = match self.focused_field {
            CredentialField::Username => CredentialField::Password,
            CredentialField::Password => CredentialField::Username,
        };
    }

    /// Hands user name and password as typed to the coordinator, lowers the
    /// flag of the request and empties both fields.
    pub fn submit(&mut self, agent: &mut AuthAgent)
        ensures
            final(agent)@.credentials.len() == old(agent)@.credentials.len() + 1,
            final(agent)@.credentials.drop_last() == old(agent)@.credentials,
            final(agent)@.credentials.last().0@ == input_text(old(self).username),
            final(agent)@.credentials.last().1@ == input_text(old(self).password),
            !final(agent)@.username_and_password_required,
            final(agent)@.psk_required == old(agent)@.psk_required,
            final(agent)@.private_key_passphrase_required == old(
                agent,
            )@.private_key_passphrase_required,
            final(agent)@.password_required == old(agent)@.password_required,
            final(agent)@.passphrases == old(agent)@.passphrases,
            final(agent)@.cancellations == old(agent)@.cancellations,
            input_text(final(self).username).len() == 0,
            input_text(final(self).password).len() == 0,
            final(self).network_name == old(self).network_name,
            final(self).focused_field == old(self).focused_field,
            final(self).show_password == old(self).show_password,
    {
        agent.submit_username_password(input_value(&self.username), input_value(&self.password));
        agent.username_and_password_required = false;
        reset_input(&mut self.username);
        reset_input(&mut self.password);
        proof {
            assert(agent@.credentials.drop_last() == old(agent)@.credentials);
        }
    }

    /// Cancels the request.
    pub fn cancel(&mut self, agent: &mut AuthAgent)
        ensures
            final(agent)@ == (AgentState {
                username_and_password_required: false,
                ..old(agent)@.cancelled()
            }),
            input_text(final(self).username).len() == 0,
            input_text(final(self).password).len() == 0,
            final(self).network_name == old(self).network_name,
            final(self).focused_field == old(self).focused_field,
            final(self).show_password == old(self).show_password,
    {
        agent.cancel();
        agent.username_and_password_required = false;
        reset_input(&mut self.username);
        reset_input(&mut self.password);
    }
}

} // verus!
