//! Sharing a saved network as a QR code.

use qrcode::types::QrError;
use qrcode::QrCode;
use vstd::prelude::*;

verus! {

/// `qrcode::QrCode`: an encoded QR code symbol, carried through as it is.
#[verifier::external_type_specification]
#[verifier::external_body]
pub struct ExQrCode(QrCode);

/// Why a text could not be put into a QR code.
#[derive(Debug, Clone, Copy, PartialEq, Eq, Structural)]
pub enum EncodeError {
    DataTooLong,
    InvalidVersion,
    UnsupportedCharacterSet,
    InvalidEciDesignator,
    InvalidCharacter,
}

/// Why a network cannot be shared.
#[derive(Debug)]
pub enum ShareError {
    /// The connection service holds no passphrase for the network.
    NoPassword { network_name: String },
    /// The text to share does not fit a QR code.
    Encode(EncodeError),
}

/// Why a text does not fit a QR code of medium error correction, if it does
/// not.
pub uninterp spec fn encode_failure(message: Seq<char>) -> Option<EncodeError>;

/// `qrcode::QrCode::new` on the bytes of a text: whether it gives a code or
/// an error, and which error, depends on the text alone. Of the code itself
/// nothing is stated.
#[verifier::external_body]
fn encode(message: &str) -> (r: Result<QrCode, EncodeError>)
    ensures
        match encode_failure(message@) {
            Some(e) => r == Err::<QrCode, EncodeError>(e),
            None => r is Ok,
        },
{
    match QrCode::new(message) {
        Ok(code) => Ok(code),
        Err(QrError::DataTooLong) => Err(EncodeError::DataTooLong),
        Err(QrError::InvalidVersion) => Err(EncodeError::InvalidVersion),
        Err(QrError::UnsupportedCharacterSet) => Err(EncodeError::UnsupportedCharacterSet),
        Err(QrError::InvalidEciDesignator) => Err(EncodeError::InvalidEciDesignator),
        Err(QrError::InvalidCharacter) => Err(EncodeError::InvalidCharacter),
    }
}

/// A saved network with its passphrase, ready to be shown as a QR code.
pub struct Share {
    pub qr_code: QrCode,
    pub network_name: String,
    pub passphrase: String,
}

impl ShareError {
    /// What the operator reads of the error.
    pub open spec fn message(self) -> Seq<char> {
        match self {
            ShareError::NoPassword { network_name } => "No password found for network "@
                + network_name@,
            ShareError::Encode(EncodeError::DataTooLong) => "data too long"@,
            ShareError::Encode(EncodeError::InvalidVersion) => "invalid version"@,
            ShareError::Encode(EncodeError::UnsupportedCharacterSet) => "unsupported character set"@,
            ShareError::Encode(EncodeError::InvalidEciDesignator) => "invalid ECI designator"@,
            ShareError::Encode(EncodeError::InvalidCharacter) => "invalid character"@,
        }
    }

    pub fn to_string(&self) -> (r: String)
        ensures
            r@ == self.message(),
    {
        match self {
            ShareError::NoPassword { network_name } => "No password found for network ".to_owned().concat(
                network_name.as_str(),
            ),
            ShareError::Encode(EncodeError::DataTooLong) => "data too long".to_owned(),
            ShareError::Encode(EncodeError::InvalidVersion) => "invalid version".to_owned(),
            ShareError::Encode(EncodeError::UnsupportedCharacterSet) => "unsupported character set".to_owned(),
            ShareError::Encode(EncodeError::InvalidEciDesignator) => "invalid ECI designator".to_owned(),
            ShareError::Encode(EncodeError::InvalidCharacter) => "invalid character".to_owned(),
        }
    }
}

impl Share {
    /// The text that the QR code carries: the network's name and passphrase
    /// in the form that phones read as a WPA network.
    pub open spec fn wifi_text(network_name: Seq<char>, passphrase: Seq<char>) -> Seq<char> {
        "WIFI:T:WPA;S:"@ + network_name + ";P:"@ + passphrase + ";;"@
    }

    /// Builds the text that the QR code carries.
    pub fn message(network_name: &str, passphrase: &str) -> (r: String)
        ensures
            r@ == Share::wifi_text(network_name@, passphrase@),
    {
        "WIFI:T:WPA;S:".to_owned().concat(network_name).concat(";P:").concat(passphrase).concat(";;")
    }

    /// Puts the pieces together once the encoder has answered.
    pub fn with_code(
        network_name: String,
        passphrase: String,
        encoded: Result<QrCode, EncodeError>,
    ) -> (r: Result<Share, ShareError>)
        ensures
            match encoded {
                Ok(code) => r matches Ok(share) && share.qr_code == code && share.network_name
                    == network_name && share.passphrase == passphrase,
                Err(e) => r matches Err(ShareError::Encode(cause)) && cause == e,
            },
    {
        match encoded {
            Ok(qr_code) => Ok(Share { qr_code, network_name, passphrase }),
            Err(e) => Err(ShareError::Encode(e)),
        }
    }

    /// The share of a network, given the passphrase that the connection
    /// service holds for it, if any.
    pub fn new(network_name: String, passphrase: Option<String>) -> (r: Result<Share, ShareError>)
        ensures
            match passphrase {
                None => r matches Err(ShareError::NoPassword { network_name: named }) && named
                    == network_name,
                Some(secret) => match encode_failure(Share::wifi_text(network_name@, secret@)) {
                    Some(e) => r matches Err(ShareError::Encode(cause)) && cause == e,
                    None => r matches Ok(share) && share.network_name == network_name
                        && share.passphrase == secret,
                },
            },
    {
        match passphrase {
            None => Err(ShareError::NoPassword { network_name }),
            Some(secret) => {
                let message = Share::message(network_name.as_str(), secret.as_str());
                let encoded = encode(message.as_str());
                Share::with_code(network_name, secret, encoded)
            },
        }
    }
}

} // verus!
