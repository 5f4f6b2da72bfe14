//! The dialog that asks for the passphrase of a network.

use crate::agent::AuthAgent;
use crate::mode::station::auth::input::{empty_input, input_text, input_value, reset_input};
use tui_input::Input;
use vstd::prelude::*;

verus! {

/// The passphrase dialog.
#[derive(Debug)]
pub struct Psk {
    pub passphrase: Input,
    pub show_password: bool,
}

impl Default for Psk {
    fn default() -> (r: Psk)
        ensures
            input_text(r.passphrase).len() == 0,
            r.show_password,
    {
        Psk { passphrase: empty_input(), show_password: true }
    }
}

impl Psk {
    /// Hands the passphrase as typed to the coordinator, lowers the flag of
    /// the request and empties the dialog.
    pub fn submit(&mut self, agent: &mut AuthAgent) -> (r: String)
        ensures
            r@ == input_text(old(self).passphrase),
            final(agent)@.passphrases.len() == old(agent)@.passphrases.len() + 1,
            final(agent)@.passphrases.drop_last() == old(agent)@.passphrases,
            final(agent)@.passphrases.last()@ == r@,
            !final(agent)@.psk_required,
            final(agent)@.private_key_passphrase_required == old(
                agent,
            )@.private_key_passphrase_required,
            final(agent)@.password_required == old(agent)@.password_required,
            final(agent)@.username_and_password_required == old(
                agent,
            )@.username_and_password_required,
            final(agent)@.credentials == old(agent)@.credentials,
            final(agent)@.cancellations == old(agent)@.cancellations,
            input_text(final(self).passphrase).len() == 0,
            final(self).show_password == old(self).show_password,
    {
        let passphrase = input_value(&self.passphrase);
        agent.submit_passphrase(passphrase.clone());
        agent.psk_required = false;
        reset_input(&mut self.passphrase);
        proof {
            assert(agent@.passphrases.drop_last() == old(agent)@.passphrases);
        }
        passphrase
    }

    /// Cancels the request: the coordinator gets the cancellation, the flag
    /// goes down and the dialog is emptied.
    pub fn cancel(&mut self, agent: &mut AuthAgent)
        ensures
            final(agent)@ == (crate::agent::AgentState {
                psk_required: false,
                ..old(agent)@.cancelled()
            }),
            input_text(final(self).passphrase).len() == 0,
            final(self).show_password == old(self).show_password,
    {
        agent.cancel();
        agent.psk_required = false;
        reset_input(&mut self.passphrase);
    }
}

} // verus!
