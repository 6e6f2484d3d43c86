//! Error values reported when querying the state of the keyboard.

use vstd::prelude::*;

verus! {

/// An error that can occur when querying the state of the keyboard.
#[derive(Clone, Copy, Debug, Eq, Hash, PartialEq, Structural)]
pub enum WootingError {
    /// The keyboard is not connected.
    Disconnected,
    /// The analog value of too many keys was requested.
    InvalidBufferSize,
}

impl WootingError {
    /// The text that [`WootingError::message`] returns for each variant.
    pub open spec fn spec_message(&self) -> Seq<char> {
        match self {
            WootingError::Disconnected => "Wooting keyboard is not connected"@,
            WootingError::InvalidBufferSize => "Requested analog value of too many keys"@,
        }
    }

    /// A human-readable description of the error.
    pub fn message(&self) -> (text: String)
        ensures
            text@ == self.spec_message(),
    {
        match self {
            WootingError::Disconnected => "Wooting keyboard is not connected".to_owned(),
            WootingError::InvalidBufferSize => {
                "Requested analog value of too many keys".to_owned()
            },
        }
    }
}

} // verus!
