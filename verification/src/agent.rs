//! Coordination of credential requests: which kind of secret is being asked
//! for, what the operator has typed or cancelled, and how a wait for it
//! resolves.

use crate::event::Event;
use vstd::prelude::*;

verus! {

/// The kinds of secret that the operator can be asked for.
#[derive(Debug, Clone, Copy, PartialEq, Eq, Structural)]
pub enum CredentialKind {
    Psk,
    PrivateKeyPassphrase,
    Password,
    UsernameAndPassword,
}

/// One request for a secret.
#[derive(Debug)]
pub struct CredentialRequest {
    pub kind: CredentialKind,
    pub network_name: String,
    /// The user name to show in the dialog, where it is known already; only a
    /// request for a password carries one.
    pub prefill_username: Option<String>,
}

/// Which of the two sources of a wait is looked at first where both have
/// something to deliver.
#[derive(Debug, Clone, Copy, PartialEq, Eq, Structural)]
pub enum WakeSource {
    Value,
    Cancel,
}

/// What a wait has come to.
#[derive(Debug)]
pub enum Wait<T> {
    /// Neither a value nor a cancellation has arrived.
    Pending,
    /// The wait is over: with the value, or with nothing after a
    /// cancellation.
    Ready(Option<T>),
}

/// The state of the credential requests: one flag for each kind of secret
/// that is being asked for, what was submitted and not yet taken by a wait,
/// and the cancellations that no wait has taken yet.
#[derive(Debug)]
pub struct AuthAgent {
    pub psk_required: bool,
    pub private_key_passphrase_required: bool,
    pub password_required: bool,
    pub username_and_password_required: bool,
    /// Passphrases submitted and not yet taken, oldest first.
    pub passphrases: Vec<String>,
    /// Pairs of user name and password submitted and not yet taken, oldest
    /// first.
    pub credentials: Vec<(String, String)>,
    /// Number of cancellations not yet taken.
    pub cancellations: usize,
}

/// The coordinator as a value: its flags and what waits to be taken.
pub struct AgentState {
    pub psk_required: bool,
    pub private_key_passphrase_required: bool,
    pub password_required: bool,
    pub username_and_password_required: bool,
    pub passphrases: Seq<String>,
    pub credentials: Seq<(String, String)>,
    pub cancellations: usize,
}

impl View for AuthAgent {
    type V = AgentState;

    open spec fn view(&self) -> AgentState {
        AgentState {
            psk_required: self.psk_required,
            private_key_passphrase_required: self.private_key_passphrase_required,
            password_required: self.password_required,
            username_and_password_required: self.username_and_password_required,
            passphrases: self.passphrases@,
            credentials: self.credentials@,
            cancellations: self.cancellations,
        }
    }
}

impl CredentialRequest {
    /// The event that brings the dialog for the request up.
    pub open spec fn announces(self, event: Event) -> bool {
        match self.kind {
            CredentialKind::Psk => event matches Event::Auth(name) && name == self.network_name,
            CredentialKind::PrivateKeyPassphrase => event matches Event::AuthReqKeyPassphrase(name)
                && name == self.network_name,
            CredentialKind::UsernameAndPassword => event matches Event::AuthReqUsernameAndPassword(
                name,
            ) && name == self.network_name,
            CredentialKind::Password => event matches Event::AuthRequestPassword(asked) && asked
                == (self.network_name, self.prefill_username),
        }
    }

    /// Hands the request over as the event that brings its dialog up.
    pub fn into_event(self) -> (r: Event)
        ensures
            self.announces(r),
    {
        match self.kind {
            CredentialKind::Psk => Event::Auth(self.network_name),
            CredentialKind::PrivateKeyPassphrase => Event::AuthReqKeyPassphrase(self.network_name),
            CredentialKind::UsernameAndPassword => Event::AuthReqUsernameAndPassword(
                self.network_name,
            ),
            CredentialKind::Password => Event::AuthRequestPassword(
                (self.network_name, self.prefill_username),
            ),
        }
    }
}

impl AgentState {
    /// Whether no kind of secret is being asked for.
    pub open spec fn idle(self) -> bool {
        &&& !self.psk_required
        &&& !self.private_key_passphrase_required
        &&& !self.password_required
        &&& !self.username_and_password_required
    }

    /// Whether the flag of a kind is up.
    pub open spec fn asks_for(self, kind: CredentialKind) -> bool {
        match kind {
            CredentialKind::Psk => self.psk_required,
            CredentialKind::PrivateKeyPassphrase => self.private_key_passphrase_required,
            CredentialKind::Password => self.password_required,
            CredentialKind::UsernameAndPassword => self.username_and_password_required,
        }
    }

    /// The state with the flag of one kind raised.
    pub open spec fn requested(self, kind: CredentialKind) -> AgentState {
        match kind {
            CredentialKind::Psk => AgentState { psk_required: true, ..self },
            CredentialKind::PrivateKeyPassphrase => AgentState {
                private_key_passphrase_required: true,
                ..self
            },
            CredentialKind::Password => AgentState { password_required: true, ..self },
            CredentialKind::UsernameAndPassword => AgentState {
                username_and_password_required: true,
                ..self
            },
        }
    }

    /// The state with one more passphrase to take.
    pub open spec fn with_passphrase(self, passphrase: String) -> AgentState {
        AgentState { passphrases: self.passphrases.push(passphrase), ..self }
    }

    /// The state with one more pair of user name and password to take.
    pub open spec fn with_credentials(self, username: String, password: String) -> AgentState {
        AgentState { credentials: self.credentials.push((username, password)), ..self }
    }

    /// The state with one more cancellation to take.
    pub open spec fn cancelled(self) -> AgentState {
        AgentState {
            cancellations: if self.cancellations < usize::MAX {
                (self.cancellations + 1) as usize
            } else {
                self.cancellations
            },
            ..self
        }
    }

    /// The state with all four flags lowered; what waits to be taken stays.
    pub open spec fn cleared(self) -> AgentState {
        AgentState {
            psk_required: false,
            private_key_passphrase_required: false,
            password_required: false,
            username_and_password_required: false,
            ..self
        }
    }

    /// Whether a wait takes a value: there is one, and either no
    /// cancellation is there or the value is looked at first.
    pub open spec fn takes_value(values: nat, cancellations: usize, first: WakeSource) -> bool {
        values > 0 && (cancellations == 0 || first == WakeSource::Value)
    }

    /// Whether a wait for a passphrase has to go on waiting.
    pub open spec fn passphrase_wait_pending(self) -> bool {
        self.passphrases.len() == 0 && self.cancellations == 0
    }

    /// Whether a wait for user name and password has to go on waiting.
    pub open spec fn credentials_wait_pending(self) -> bool {
        self.credentials.len() == 0 && self.cancellations == 0
    }

    /// One look of a wait for a passphrase: the state after it, and what the
    /// wait has come to.
    pub open spec fn passphrase_wait(self, first: WakeSource) -> (AgentState, Wait<String>) {
        if AgentState::takes_value(self.passphrases.len(), self.cancellations, first) {
            (
                AgentState { passphrases: self.passphrases.drop_first(), ..self },
                Wait::Ready(Some(self.passphrases[0])),
            )
        } else if self.cancellations > 0 {
            (
                AgentState { cancellations: (self.cancellations - 1) as usize, ..self },
                Wait::Ready(None),
            )
        } else {
            (self, Wait::Pending)
        }
    }

    /// One look of a wait for user name and password: the state after it,
    /// and what the wait has come to.
    pub open spec fn credentials_wait(self, first: WakeSource) -> (
        AgentState,
        Wait<(String, String)>,
    ) {
        if AgentState::takes_value(self.credentials.len(), self.cancellations, first) {
            (
                AgentState { credentials: self.credentials.drop_first(), ..self },
                Wait::Ready(Some(self.credentials[0])),
            )
        } else if self.cancellations > 0 {
            (
                AgentState { cancellations: (self.cancellations - 1) as usize, ..self },
                Wait::Ready(None),
            )
        } else {
            (self, Wait::Pending)
        }
    }
}

/// A wait for a passphrase has to go on exactly while neither a passphrase
/// nor a cancellation is there, and then changes nothing.
pub proof fn lemma_wait_pending(state: AgentState, first: WakeSource)
    ensures
        state.passphrase_wait(first).1 is Pending <==> state.passphrase_wait_pending(),
        state.passphrase_wait_pending() ==> state.passphrase_wait(first).0 == state,
        state.credentials_wait(first).1 is Pending <==> state.credentials_wait_pending(),
        state.credentials_wait_pending() ==> state.credentials_wait(first).0 == state,
{
}

/// A cancellation that arrives while a wait for a passphrase is pending ends
/// that wait with nothing, whichever source the wait looks at first, and is
/// used up by it: a second look finds the wait pending again, and so does a
/// wait that begins after the flags were reset.
pub proof fn lemma_cancel_ends_one_wait(
    state: AgentState,
    first: WakeSource,
    second: WakeSource,
    later: WakeSource,
)
    requires
        state.passphrase_wait_pending(),
    ensures
        state.cancelled().passphrase_wait(first).1 == Wait::<String>::Ready(None),
        state.cancelled().passphrase_wait(first).0.passphrase_wait(second).1 is Pending,
        state.cancelled().passphrase_wait(first).0.cleared().idle(),
        state.cancelled().passphrase_wait(first).0.cleared().passphrase_wait(later).1 is Pending,
{
}

/// The same for a wait for user name and password.
pub proof fn lemma_cancel_ends_one_credentials_wait(
    state: AgentState,
    first: WakeSource,
    second: WakeSource,
    later: WakeSource,
)
    requires
        state.credentials_wait_pending(),
    ensures
        state.cancelled().credentials_wait(first).1 == Wait::<(String, String)>::Ready(None),
        state.cancelled().credentials_wait(first).0.credentials_wait(second).1 is Pending,
        state.cancelled().credentials_wait(first).0.cleared().credentials_wait(later).1 is Pending,
{
}

/// A passphrase that arrives while a wait for one is pending ends that wait
/// with the passphrase, and is used up by it.
pub proof fn lemma_passphrase_ends_one_wait(
    state: AgentState,
    passphrase: String,
    first: WakeSource,
    second: WakeSource,
)
    requires
        state.passphrase_wait_pending(),
    ensures
        state.with_passphrase(passphrase).passphrase_wait(first).1 == Wait::Ready(Some(passphrase)),
        state.with_passphrase(passphrase).passphrase_wait(first).0.passphrase_wait(
            second,
        ).1 is Pending,
{
    let after = state.with_passphrase(passphrase).passphrase_wait(first).0;
    assert(after.passphrases =~= Seq::<String>::empty());
}

impl AuthAgent {
    /// A coordinator with nothing asked for and nothing delivered.
    pub fn new() -> (r: AuthAgent)
        ensures
            r@.idle(),
            r@.passphrases.len() == 0,
            r@.credentials.len() == 0,
            r@.cancellations == 0,
    {
        AuthAgent {
            psk_required: false,
            private_key_passphrase_required: false,
            password_required: false,
            username_and_password_required: false,
            passphrases: Vec::new(),
            credentials: Vec::new(),
            cancellations: 0,
        }
    }

    /// Takes a request in: raises the flag of its kind and hands back the
    /// event that brings the dialog up. Nothing is waited for here.
    pub fn request(&mut self, request: CredentialRequest) -> (r: Event)
        ensures
            final(self)@ == old(self)@.requested(request.kind),
            request.announces(r),
    {
        match request.kind {
            CredentialKind::Psk => {
                self.psk_required = true;
            },
            CredentialKind::PrivateKeyPassphrase => {
                self.private_key_passphrase_required = true;
            },
            CredentialKind::Password => {
                self.password_required = true;
            },
            CredentialKind::UsernameAndPassword => {
                self.username_and_password_required = true;
            },
        }
        request.into_event()
    }

    /// Asks for the passphrase of a network.
    pub fn request_passphrase(&mut self, network_name: String) -> (r: Event)
        ensures
            final(self)@ == old(self)@.requested(CredentialKind::Psk),
            *final(self) == (AuthAgent { psk_required: true, ..*old(self) }),
            r == Event::Auth(network_name),
    {
        self.psk_required = true;
        Event::Auth(network_name)
    }

    /// Asks for the passphrase of the private key for a network.
    pub fn request_private_key_passphrase(&mut self, network_name: String) -> (r: Event)
        ensures
            final(self)@ == old(self)@.requested(CredentialKind::PrivateKeyPassphrase),
            r matches Event::AuthReqKeyPassphrase(name) && name == network_name,
    {
        self.request(
            CredentialRequest {
                kind: CredentialKind::PrivateKeyPassphrase,
                network_name,
                prefill_username: None,
            },
        )
    }

    /// Asks for user name and password for a network.
    pub fn request_username_and_password(&mut self, network_name: String) -> (r: Event)
        ensures
            final(self)@ == old(self)@.requested(CredentialKind::UsernameAndPassword),
            r matches Event::AuthReqUsernameAndPassword(name) && name == network_name,
    {
        self.request(
            CredentialRequest {
                kind: CredentialKind::UsernameAndPassword,
                network_name,
                prefill_username: None,
            },
        )
    }

    /// Asks for the password for a network; the user name may be known
    /// already.
    pub fn request_password(&mut self, network_name: String, user_name: Option<String>) -> (r:
        Event)
        ensures
            final(self)@ == old(self)@.requested(CredentialKind::Password),
            r matches Event::AuthRequestPassword(asked) && asked == (network_name, user_name),
    {
        self.request(
            CredentialRequest {
                kind: CredentialKind::Password,
                network_name,
                prefill_username: user_name,
            },
        )
    }

    /// Delivers a passphrase that the operator typed.
    pub fn submit_passphrase(&mut self, passphrase: String)
        ensures
            final(self)@ == old(self)@.with_passphrase(passphrase),
    {
        self.passphrases.push(passphrase);
    }

    /// Delivers user name and password that the operator typed.
    pub fn submit_username_password(&mut self, username: String, password: String)
        ensures
            final(self)@ == old(self)@.with_credentials(username, password),
    {
        self.credentials.push((username, password));
    }

    /// Cancels the request under way: one more cancellation is there for a
    /// wait to take. A connection attempt that is past its wait is not
    /// touched.
    pub fn cancel(&mut self)
        ensures
            final(self)@ == old(self)@.cancelled(),
    {
        if self.cancellations < usize::MAX {
            self.cancellations = self.cancellations + 1;
        }
    }

    /// Lowers all four flags. What was delivered and not yet taken stays.
    pub fn reset(&mut self)
        ensures
            final(self)@ == old(self)@.cleared(),
    {
        self.psk_required = false;
        self.private_key_passphrase_required = false;
        self.password_required = false;
        self.username_and_password_required = false;
    }

    /// One look of a wait for a passphrase at its two sources. With neither
    /// a passphrase nor a cancellation there, the wait goes on and nothing
    /// changes. Otherwise it is over: with the oldest passphrase, which is
    /// taken, or with nothing after a cancellation, which is taken. Where
    /// both are there, `first` says which one wins; the other stays for the
    /// next wait.
    pub fn wait_for_passphrase(&mut self, first: WakeSource) -> (r: Wait<String>)
        ensures
            (final(self)@, r) == old(self)@.passphrase_wait(first),
            r is Pending <==> old(self)@.passphrase_wait_pending(),
    {
        if self.passphrases.len() > 0 && (self.cancellations == 0 || first == WakeSource::Value) {
            let passphrase = self.passphrases.remove(0);
            assert(self.passphrases@ == old(self).passphrases@.drop_first());
            Wait::Ready(Some(passphrase))
        } else if self.cancellations > 0 {
            self.cancellations = self.cancellations - 1;
            Wait::Ready(None)
        } else {
            Wait::Pending
        }
    }

    /// One look of a wait for user name and password at its two sources; as
    /// for a passphrase.
    pub fn wait_for_username_password(&mut self, first: WakeSource) -> (r: Wait<(String, String)>)
        ensures
            (final(self)@, r) == old(self)@.credentials_wait(first),
            r is Pending <==> old(self)@.credentials_wait_pending(),
    {
        if self.credentials.len() > 0 && (self.cancellations == 0 || first == WakeSource::Value) {
            let pair = self.credentials.remove(0);
            assert(self.credentials@ == old(self).credentials@.drop_first());
            Wait::Ready(Some(pair))
        } else if self.cancellations > 0 {
            self.cancellations = self.cancellations - 1;
            Wait::Ready(None)
        } else {
            Wait::Pending
        }
    }
}

} // verus!
