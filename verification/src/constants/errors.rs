use vstd::prelude::*;

use crate::text::concat_str;

verus! {

/// Why a decimal number could not be read.
#[derive(Debug, Clone, Copy, PartialEq, Eq, Structural)]
pub enum IntErrorKind {
    /// A character that is not an ASCII decimal digit.
    InvalidDigit,
    /// The number does not fit in the target type.
    PosOverflow,
}

/// Error type used by this crate.
///
/// Most fallible operations return this error type.
#[derive(Debug)]
pub enum LgTvError {
    /// Returned when no LG IP Control key code is provided.
    MissingKeyCode,
    /// Returned when opening, closing, or re-opening a TCP connection fails.
    TcpConnectionError(String),
    /// Returned when sending a Wake-on-LAN packet fails.
    WakeOnLan(String),
    /// Returned when the TV appears to be powered off.
    PowerOff,
    /// Returned when command encryption fails.
    EncryptionError(String),
    /// Returned when sending a command to the TV fails.
    SendCommand(String),
    /// Returned when decrypting a TV response fails.
    DecryptionError(String),
    /// Returned when compiling or using a regular expression fails.
    RegExpression(String),
    /// Returned when the current volume response cannot be parsed.
    ParseVolumeError,
    /// Returned when parsing a number fails.
    ParseInt(IntErrorKind),
    /// Returned when the mute response contains an unknown state.
    UnknownMuteState,
    /// Returned when the mute response does not match the expected format.
    UnableToParseMuteState,
}

impl IntErrorKind {
    /// The description of the failure.
    pub open spec fn spec_message(self) -> Seq<char> {
        match self {
            IntErrorKind::InvalidDigit => "invalid digit found in string"@,
            IntErrorKind::PosOverflow => "number too large to fit in target type"@,
        }
    }

    /// The description of the failure.
    pub fn message(&self) -> (s: &'static str)
        ensures
            s@ == self.spec_message(),
    {
        match self {
            IntErrorKind::InvalidDigit => "invalid digit found in string",
            IntErrorKind::PosOverflow => "number too large to fit in target type",
        }
    }
}

impl LgTvError {
    /// The description of the error.
    pub open spec fn spec_message(self) -> Seq<char> {
        match self {
            LgTvError::MissingKeyCode => "key code is required"@,
            LgTvError::TcpConnectionError(m) => "tcp connection error: "@ + m@,
            LgTvError::WakeOnLan(m) => "wake on lan error: "@ + m@,
            LgTvError::PowerOff => "TV power is off"@,
            LgTvError::EncryptionError(m) => "Encryption error: "@ + m@,
            LgTvError::SendCommand(m) => "Send command to TV failed: "@ + m@,
            LgTvError::DecryptionError(m) => "Decryption error: "@ + m@,
            LgTvError::RegExpression(m) => "RegEx error: "@ + m@,
            LgTvError::ParseVolumeError => "Could not parse current volume"@,
            LgTvError::ParseInt(k) => "could not parse integer: "@ + k.spec_message(),
            LgTvError::UnknownMuteState => "No matches found for mute state"@,
            LgTvError::UnableToParseMuteState => "Could not parse mute state"@,
        }
    }

    /// The description of the error.
    pub fn message(&self) -> (s: String)
        ensures
            s@ == self.spec_message(),
    {
        match self {
            LgTvError::MissingKeyCode => String::from_str("key code is required"),
            LgTvError::TcpConnectionError(m) => concat_str("tcp connection error: ", m.as_str()),
            LgTvError::WakeOnLan(m) => concat_str("wake on lan error: ", m.as_str()),
            LgTvError::PowerOff => String::from_str("TV power is off"),
            LgTvError::EncryptionError(m) => concat_str("Encryption error: ", m.as_str()),
            LgTvError::SendCommand(m) => concat_str("Send command to TV failed: ", m.as_str()),
            LgTvError::DecryptionError(m) => concat_str("Decryption error: ", m.as_str()),
            LgTvError::RegExpression(m) => concat_str("RegEx error: ", m.as_str()),
            LgTvError::ParseVolumeError => String::from_str("Could not parse current volume"),
            LgTvError::ParseInt(k) => concat_str("could not parse integer: ", k.message()),
            LgTvError::UnknownMuteState => String::from_str("No matches found for mute state"),
            LgTvError::UnableToParseMuteState => String::from_str("Could not parse mute state"),
        }
    }
}

} // verus!
