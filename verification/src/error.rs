//! Why a configuration is refused.

use vstd::prelude::*;
use vstd::string::StringExecFns;

verus! {

/// A configuration that cannot start the engine.
#[derive(Debug, Clone, Copy, PartialEq, Eq, Structural)]
pub enum RimeError {
    /// The shared or the user data directory was never given.
    MissingDataDir,
    /// A text holds a NUL byte and cannot be handed to the engine.
    UnrepresentableText,
}

impl RimeError {
    /// The message shown for this error.
    pub fn message(&self) -> (text: String)
        ensures
            text@ == self.message_text(),
    {
        match self {
            RimeError::MissingDataDir => String::from_str("Missing Data Directory"),
            RimeError::UnrepresentableText => String::from_str("Text Holds A NUL Byte"),
        }
    }

    /// The text of [`RimeError::message`].
    pub open spec fn message_text(&self) -> Seq<char> {
        match self {
            RimeError::MissingDataDir => "Missing Data Directory"@,
            RimeError::UnrepresentableText => "Text Holds A NUL Byte"@,
        }
    }
}

} // verus!
