//! The dialog that asks for a hidden network: its name, its security class
//! and, unless it is open, its password.

use crate::mode::station::auth::input::{empty_input, input_text, input_value, reset_input};
use crate::nm::types::SecurityType;
use crate::notification::{Notification, NotificationLevel, NOTIFICATION_TTL};
use tui_input::Input;
use vstd::prelude::*;

verus! {

/// The fields of the dialog.
#[derive(Debug, Clone, Copy, PartialEq, Eq, Structural)]
pub enum HiddenField {
    Ssid,
    Security,
    Password,
}

/// The dialog for a hidden network.
#[derive(Debug)]
pub struct HiddenSsidDialog {
    pub ssid: Input,
    pub password: Input,
    pub security: SecurityType,
    pub focused_field: HiddenField,
    pub show_password: bool,
}

/// What the operator has entered once the dialog is confirmed.
#[derive(Debug)]
pub struct HiddenRequest {
    pub ssid: String,
    pub security: SecurityType,
    /// The password, for a security class that takes one.
    pub password: Option<String>,
}

impl HiddenRequest {
    /// What the operator reads of the service's answer to the request.
    pub open spec fn answer_message(&self, answer: Result<(), String>) -> (
        Seq<char>,
        NotificationLevel,
    ) {
        match answer {
            Ok(()) => ("Connecting to hidden network: "@ + self.ssid@, NotificationLevel::Info),
            Err(complaint) => (
                "Failed to connect to "@ + self.ssid@ + ": "@ + complaint@,
                NotificationLevel::Error,
            ),
        }
    }

    /// The notification for the service's answer to the request.
    pub fn answered(&self, answer: Result<(), String>) -> (r: Notification)
        ensures
            r.message@ == self.answer_message(answer).0,
            r.level == self.answer_message(answer).1,
            r.ttl == NOTIFICATION_TTL,
    {
        match answer {
            Ok(()) => Notification::new(
                "Connecting to hidden network: ".to_owned().concat(self.ssid.as_str()),
                NotificationLevel::Info,
            ),
            Err(complaint) => Notification::new(
                "Failed to connect to ".to_owned().concat(self.ssid.as_str()).concat(": ").concat(
                    complaint.as_str(),
                ),
                NotificationLevel::Error,
            ),
        }
    }
}

impl Default for HiddenSsidDialog {
    fn default() -> (r: HiddenSsidDialog)
        ensures
            r.is_blank(),
    {
        HiddenSsidDialog {
            ssid: empty_input(),
            password: empty_input(),
            security: SecurityType::WPA2,
            focused_field: HiddenField::Ssid,
            show_password: true,
        }
    }
}

impl HiddenSsidDialog {
    /// The dialog as it comes up: no text entered, WPA2 chosen, the cursor in
    /// the name, the password readable.
    pub open spec fn is_blank(self) -> bool {
        &&& input_text(self.ssid).len() == 0
        &&& input_text(self.password).len() == 0
        &&& self.security == SecurityType::WPA2
        &&& self.focused_field == HiddenField::Ssid
        &&& self.show_password
    }

    /// The security class after the one given, in the round of open, WPA2 and
    /// WPA3; any other class leads to WPA2.
    pub open spec fn security_after(security: SecurityType) -> SecurityType {
        match security {
            SecurityType::Open => SecurityType::WPA2,
            SecurityType::WPA2 => SecurityType::WPA3,
            SecurityType::WPA3 => SecurityType::Open,
            _ => SecurityType::WPA2,
        }
    }

    /// The security class before the one given, in the same round.
    pub open spec fn security_before(security: SecurityType) -> SecurityType {
        match security {
            SecurityType::Open => SecurityType::WPA3,
            SecurityType::WPA2 => SecurityType::Open,
            SecurityType::WPA3 => SecurityType::WPA2,
            _ => SecurityType::WPA2,
        }
    }

    /// The field after the one given: name, security, password; an open
    /// network has no password field.
    pub open spec fn field_after(field: HiddenField, security: SecurityType) -> HiddenField {
        match field {
            HiddenField::Ssid => HiddenField::Security,
            HiddenField::Security => if security == SecurityType::Open {
                HiddenField::Ssid
            } else {
                HiddenField::Password
            },
            HiddenField::Password => HiddenField::Ssid,
        }
    }

    /// The field before the one given.
    pub open spec fn field_before(field: HiddenField, security: SecurityType) -> HiddenField {
        match field {
            HiddenField::Ssid => if security == SecurityType::Open {
                HiddenField::Security
            } else {
                HiddenField::Password
            },
            HiddenField::Security => HiddenField::Ssid,
            HiddenField::Password => HiddenField::Security,
        }
    }

    pub open spec fn spec_requires_password(&self) -> bool {
        self.security != SecurityType::Open
    }

    /// What confirming the dialog asks for: nothing while the name is empty;
    /// else the name, the class and, for a class that takes one, the
    /// password.
    pub open spec fn asks_for(self, request: Option<HiddenRequest>) -> bool {
        if input_text(self.ssid).len() == 0 {
            request is None
        } else {
            &&& request matches Some(asked)
            &&& asked.ssid@ == input_text(self.ssid)
            &&& asked.security == self.security
            &&& if self.security != SecurityType::Open {
                asked.password matches Some(secret) && secret@ == input_text(self.password)
            } else {
                asked.password is None
            }
        }
    }

    /// Brings the dialog back to how it comes up.
    pub fn reset(&mut self)
        ensures
            final(self).is_blank(),
    {
        reset_input(&mut self.ssid);
        reset_input(&mut self.password);
        self.security = SecurityType::WPA2;
        self.focused_field = HiddenField::Ssid;
        self.show_password = true;
    }

    pub fn cycle_security_next(&mut self)
        ensures
            final(self).security == HiddenSsidDialog::security_after(old(self).security),
            final(self).ssid == old(self).ssid,
            final(self).password == old(self).password,
            final(self).focused_field == old(self).focused_field,
            final(self).show_password == old(self).show_password,
    {
        self.security = match self.security {
            SecurityType::Open => SecurityType::WPA2,
            SecurityType::WPA2 => SecurityType::WPA3,
            SecurityType::WPA3 => SecurityType::Open,
            _ => SecurityType::WPA2,
        };
    }

    pub fn cycle_security_prev(&mut self)
        ensures
            final(self).security == HiddenSsidDialog::security_before(old(self).security),
            final(self).ssid == old(self).ssid,
            final(self).password == old(self).password,
            final(self).focused_field == old(self).focused_field,
            final(self).show_password == old(self).show_password,
    {
        self.security = match self.security {
            SecurityType::Open => SecurityType::WPA3,
            SecurityType::WPA2 => SecurityType::Open,
            SecurityType::WPA3 => SecurityType::WPA2,
            _ => SecurityType::WPA2,
        };
    }

    pub fn next_field(&mut self)
        ensures
            final(self).focused_field == HiddenSsidDialog::field_after(
                old(self).focused_field,
                old(self).security,
            ),
            final(self).ssid == old(self).ssid,
            final(self).password == old(self).password,
            final(self).security == old(self).security,
            final(self).show_password == old(self).show_password,
    {
        self.focused_field = match self.focused_field {
            HiddenField::Ssid => HiddenField::Security,
            HiddenField::Security => {
                if self.security == SecurityType::Open {
                    HiddenField::Ssid
                } else {
                    HiddenField::Password
                }
            },
            HiddenField::Password => HiddenField::Ssid,
        };
    }

    pub fn prev_field(&mut self)
        ensures
            final(self).focused_field == HiddenSsidDialog::field_before(
                old(self).focused_field,
                old(self).security,
            ),
            final(self).ssid == old(self).ssid,
            final(self).password == old(self).password,
            final(self).security == old(self).security,
            final(self).show_password == old(self).show_password,
    {
        self.focused_field = match self.focused_field {
            HiddenField::Ssid => {
                if self.security == SecurityType::Open {
                    HiddenField::Security
                } else {
                    HiddenField::Password
                }
            },
            HiddenField::Security => HiddenField::Ssid,
            HiddenField::Password => HiddenField::Security,
        };
    }

    /// Whether the chosen security class takes a password.
    #[verifier::when_used_as_spec(spec_requires_password)]
    pub fn requires_password(&self) -> (r: bool)
        ensures
            r == self.spec_requires_password(),
    {
        self.security != SecurityType::Open
    }

    /// Confirms the dialog. With a name entered, the dialog hands over what
    /// was entered and goes back to how it comes up; without one, nothing
    /// happens.
    pub fn confirm(&mut self) -> (r: Option<HiddenRequest>)
        ensures
            old(self).asks_for(r),
            r is Some ==> final(self).is_blank(),
            r is None ==> *final(self) == *old(self),
    {
        let ssid = input_value(&self.ssid);
        if ssid.as_str().is_empty() {
            None
        } else {
            let password = if self.requires_password() {
                Some(input_value(&self.password))
            } else {
                None
            };
            let security = self.security;
            self.reset();
            Some(HiddenRequest { ssid, security, password })
        }
    }
}

/// Going on to the next field and back again ends where it began, unless the
/// cursor stood on the password of a network that was then made open.
pub proof fn lemma_fields_go_round(field: HiddenField, security: SecurityType)
    requires
        !(field == HiddenField::Password && security == SecurityType::Open),
    ensures
        HiddenSsidDialog::field_before(HiddenSsidDialog::field_after(field, security), security)
            == field,
        HiddenSsidDialog::field_after(HiddenSsidDialog::field_before(field, security), security)
            == field,
{
}

/// Among the three classes that the dialog offers, choosing the next class
/// and then the previous one changes nothing, and three steps forward come
/// back to the start.
pub proof fn lemma_security_goes_round(security: SecurityType)
    requires
        security == SecurityType::Open || security == SecurityType::WPA2 || security
            == SecurityType::WPA3,
    ensures
        HiddenSsidDialog::security_before(HiddenSsidDialog::security_after(security)) == security,
        HiddenSsidDialog::security_after(HiddenSsidDialog::security_before(security)) == security,
        HiddenSsidDialog::security_after(
            HiddenSsidDialog::security_after(HiddenSsidDialog::security_after(security)),
        ) == security,
{
}

} // verus!
