//! The error type shared by every layer of the driver.

use vstd::prelude::*;
use vstd::string::StringExecFns;

verus! {

/// A headset error.
#[derive(Debug)]
pub enum Error {
    /// There was an error whilst communicating with the headset.
    CommunicationError { message: String },
}

impl Error {
    /// The human-readable message the error carries.
    pub open spec fn message_text(self) -> Seq<char> {
        self->message@
    }

    /// What `to_string` renders: a fixed prefix, then the message.
    pub open spec fn rendered(self) -> Seq<char> {
        "communication error: "@ + self.message_text()
    }

    /// Creates a new communication error.
    pub fn communication_error(message: &str) -> (e: Error)
        ensures
            e.message_text() == message@,
    {
        Error::CommunicationError { message: String::from_str(message) }
    }

    /// The message of the error.
    pub fn message(&self) -> (m: &str)
        ensures
            m@ == self.message_text(),
    {
        match self {
            Error::CommunicationError { message } => message.as_str(),
        }
    }

    /// Renders the error for display.
    pub fn to_string(&self) -> (s: String)
        ensures
            s@ == self.rendered(),
    {
        let mut s = String::from_str("communication error: ");
        s.append(self.message());
        s
    }
}

} // verus!
