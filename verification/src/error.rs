//! The error taxonomy of the driver.

use vstd::prelude::*;
use vstd::string::StringExecFns;

verus! {

/// Reported when the first report of a response does not start a frame.
pub const WIRE_RESPONSE: &'static str = "Unexpected wire response from Trezor Device";

/// Reported when a response payload cannot be read as the message its type announces.
pub const UNREADABLE_RESPONSE: &'static str = "Could not read response from Trezor Device";

/// Reported when the device answers a request with a failure message.
pub const LAST_MESSAGE_FAILED: &'static str = "Last message sent failed";

/// Reported when the device answers with a message the handshake has no use for.
pub const UNEXPECTED_RESPONSE: &'static str = "Unexpected response from Trezor device.";

/// Hardware wallet error.
#[derive(Debug)]
pub enum Error {
    /// Malformed or unexpected wire response.
    Protocol(&'static str),
    /// Failure of the USB transport, with the transport's own words.
    Usb(String),
    /// Device with request key is not available.
    KeyNotFound,
    /// Signing has been cancelled by user.
    UserCancel,
    /// The command is not one the driver knows.
    BadMessageType,
    /// A response could not be rendered as JSON; the serializer's own words.
    SerdeError(String),
    /// The device at this path is present but needs a PIN.
    ClosedDevice(String),
}

impl Error {
    /// True of a protocol error that carries exactly the text `reason`.
    pub open spec fn is_protocol(self, reason: &str) -> bool {
        self matches Error::Protocol(text) && text@ == reason@
    }
}

impl Error {
    /// The error in words.
    pub open spec fn spec_to_text(self) -> Seq<char> {
        match self {
            Error::Protocol(reason) => "Trezor protocol error: "@ + reason@,
            Error::Usb(cause) => "USB communication error: "@ + cause@,
            Error::KeyNotFound => "Key not found"@,
            Error::UserCancel => "Operation has been cancelled"@,
            Error::BadMessageType => "Bad Message Type in RPC call"@,
            Error::SerdeError(cause) => "Serde serialization error: "@ + cause@,
            Error::ClosedDevice(path) => "Device is closed, needs PIN to perform operations: "@
                + path@,
        }
    }

    /// The error in words, for the user to read.
    pub fn to_text(&self) -> (text: String)
        ensures
            text@ == self.spec_to_text(),
    {
        match self {
            Error::Protocol(reason) => "Trezor protocol error: ".to_owned().concat(reason),
            Error::Usb(cause) => "USB communication error: ".to_owned().concat(cause.as_str()),
            Error::KeyNotFound => "Key not found".to_owned(),
            Error::UserCancel => "Operation has been cancelled".to_owned(),
            Error::BadMessageType => "Bad Message Type in RPC call".to_owned(),
            Error::SerdeError(cause) => "Serde serialization error: ".to_owned().concat(
                cause.as_str(),
            ),
            Error::ClosedDevice(path) => "Device is closed, needs PIN to perform operations: ".to_owned().concat(
                path.as_str(),
            ),
        }
    }
}

impl Clone for Error {
    /// A copy of the error, with the same text.
    fn clone(&self) -> (copy: Error)
        ensures
            copy == *self,
    {
        match self {
            Error::Protocol(text) => Error::Protocol(text),
            Error::Usb(text) => Error::Usb(text.clone()),
            Error::KeyNotFound => Error::KeyNotFound,
            Error::UserCancel => Error::UserCancel,
            Error::BadMessageType => Error::BadMessageType,
            Error::SerdeError(text) => Error::SerdeError(text.clone()),
            Error::ClosedDevice(path) => Error::ClosedDevice(path.clone()),
        }
    }
}

} // verus!
