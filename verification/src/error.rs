//! The errors of the widget, and their wording.

use vstd::prelude::*;

verus! {

#[derive(Debug, Clone, PartialEq, Eq)]
pub enum Error {
    /// an input or output operation failed; its message
    Io(String),
    /// a setting was given a value it cannot have
    InvalidConfig { field: &'static str, message: String },
}

impl Error {
    /// The wording of this error.
    pub open spec fn wording(self) -> Seq<char> {
        match self {
            Error::Io(cause) => "IO error: "@ + cause@,
            Error::InvalidConfig { field, message } => "Invalid config for '"@ + field@ + "': "@
                + message@,
        }
    }

    /// What this error reads as.
    pub fn message(&self) -> (text: String)
        ensures
            text@ == self.wording(),
    {
        match self {
            Error::Io(cause) => String::from_str("IO error: ").concat(cause.as_str()),
            Error::InvalidConfig { field, message } => String::from_str(
                "Invalid config for '",
            ).concat(field).concat("': ").concat(message.as_str()),
        }
    }
}

} // verus!
