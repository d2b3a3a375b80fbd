//! The library's error type.

use vstd::prelude::*;
use vstd::string::*;

verus! {

/// What can go wrong while reading names and arguments of the protocol.
#[derive(Debug, PartialEq, Eq)]
pub enum ProtocolError {
    /// A word that names no standard Assuan command.
    InvalidStdCmd(String),
    /// A word that names no pinentry command.
    InvalidPinentryCmd(String),
    /// A word that names no pinentry option.
    InvalidPinentryOption(String),
    /// An argument whose percent-decoding is not UTF-8; holds the decoder's report.
    Decode(String),
}

/// The text that describes an error.
pub open spec fn error_message(e: ProtocolError) -> Seq<char> {
    match e {
        ProtocolError::InvalidStdCmd(s) => s@ + " is invalid AssuanStdCmd"@,
        ProtocolError::InvalidPinentryCmd(s) => s@ + " not valid PinentryCmd"@,
        ProtocolError::InvalidPinentryOption(s) => s@ + " not valid PinentryOption"@,
        ProtocolError::Decode(s) => "Fail urlencoding::decode. "@ + s@,
    }
}

impl ProtocolError {
    /// The text that describes this error.
    pub fn message(&self) -> (r: String)
        ensures
            r@ == error_message(*self),
    {
        match self {
            ProtocolError::InvalidStdCmd(s) => s.clone().concat(" is invalid AssuanStdCmd"),
            ProtocolError::InvalidPinentryCmd(s) => s.clone().concat(" not valid PinentryCmd"),
            ProtocolError::InvalidPinentryOption(s) => s.clone().concat(" not valid PinentryOption"),
            ProtocolError::Decode(s) => "Fail urlencoding::decode. ".to_owned().concat(s.as_str()),
        }
    }
}

} // verus!
