//! Errors that say in full what went wrong.

use vstd::prelude::*;

use crate::error::Error;
use crate::packets::hex_lower;
use crate::text::decimal;
use crate::text::push_decimal;

verus! {

/// An error that can say in full what went wrong.
pub trait PrintFullError {
    /// The full message of the error.
    spec fn full_text(&self) -> Seq<char>;

    /// Writes the full message of the error.
    fn full(&self) -> (text: String)
        ensures
            text@ == self.full_text(),
    ;
}

impl PrintFullError for Error {
    open spec fn full_text(&self) -> Seq<char> {
        match *self {
            Error::TooShort { expected } => if expected == 1 {
                "At least 1 byte is expected"@
            } else {
                "At least "@ + decimal(expected as nat) + " bytes are expected"@
            },
            Error::UnknownType { value } => "Invalid packet-type: "@ + decimal(value as nat),
            Error::UnknownVersion => "Unexpected protocol"@,
            Error::UnknownGateway { gateway_id } => "Unknown Gateway ID: "@ + hex_lower(
                gateway_id@,
            ),
            Error::UnknownServer { server } => "Unknown server: "@ + decimal(server as nat),
            Error::PrefixFormat => "EuiPrefix must be in the form 0000000000000000/0"@,
            Error::PrefixSize => "EuiPrefix max prefix size is 64"@,
        }
    }

    fn full(&self) -> (text: String) {
        match *self {
            Error::TooShort { expected } => {
                if expected == 1 {
                    String::from_str("At least 1 byte is expected")
                } else {
                    let mut text = String::from_str("At least ");
                    push_decimal(&mut text, expected as u64);
                    text.append(" bytes are expected");
                    text
                }
            },
            Error::UnknownType { value } => {
                let mut text = String::from_str("Invalid packet-type: ");
                push_decimal(&mut text, value as u64);
                text
            },
            Error::UnknownVersion => String::from_str("Unexpected protocol"),
            Error::UnknownGateway { gateway_id } => {
                let mut text = String::from_str("Unknown Gateway ID: ");
                let id = gateway_id.to_string();
                text.append(id.as_str());
                text
            },
            Error::UnknownServer { server } => {
                let mut text = String::from_str("Unknown server: ");
                push_decimal(&mut text, server as u64);
                text
            },
            Error::PrefixFormat => String::from_str(
                "EuiPrefix must be in the form 0000000000000000/0",
            ),
            Error::PrefixSize => String::from_str("EuiPrefix max prefix size is 64"),
        }
    }
}

} // verus!
