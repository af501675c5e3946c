//! The error taxonomy of the marshalling layer.
//!
//! Every decode failure is reported as a typed value; nothing in this crate
//! panics or aborts on malformed input.

use vstd::prelude::*;
use vstd::string::StringExecFns;

verus! {

/// What can go wrong while marshalling one event.
#[derive(Clone, Copy, Debug, PartialEq, Eq, Structural)]
pub enum Error {
    /// The numeric event tag did not match any of the known kinds; carries
    /// the offending tag so callers can log and skip the event.
    Invalid(i32),
    /// An embedded wide-character sequence (the symbol or a payload string
    /// field) was not valid text.
    Utf32Error,
    /// Catch-all for conditions not otherwise classified; a bug signal if
    /// ever observed in practice.
    Unknown,
}

impl Error {
    /// The diagnostic message of this error.
    pub open spec fn message_spec(self) -> Seq<char> {
        match self {
            Error::Invalid(tag) => "Invalid event_type: `"@ + crate::text::dec_seq(tag as int)
                + "`"@,
            Error::Utf32Error => "Converting from UTF-32"@,
            Error::Unknown => "Unknown error"@,
        }
    }

    /// Render this error for diagnostic output; never fails.
    pub fn message(&self) -> (r: String)
        ensures
            r@ == self.message_spec(),
    {
        match self {
            Error::Invalid(tag) => {
                let mut s = String::from_str("Invalid event_type: `");
                let num = crate::text::format_int(*tag);
                s.append(num.as_str());
                s.append("`");
                s
            },
            Error::Utf32Error => String::from_str("Converting from UTF-32"),
            Error::Unknown => String::from_str("Unknown error"),
        }
    }
}

} // verus!
