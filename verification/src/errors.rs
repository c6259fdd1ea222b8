//! The error taxonomy of the helper: discovery failures are surfaced to the
//! caller, request-level failures are carried as text and never abort the
//! engine, and a malformed frame is a decode error that drops one frame.
use vstd::prelude::*;

verus! {

#[derive(Debug)]
pub enum HelperError {
    /// The client process, or its port and token, could not be found.
    ClientNotFound,
    /// The client process was found but no usable credentials could be
    /// extracted: its command line was unreadable, or the token or port
    /// in it was missing or invalid.
    ClientCMDLineFailed,
    /// A request could not be sent or completed; the text tells why.
    RequestFailed(String),
    /// A command endpoint answered with a non-success status and this body.
    ResponseError(String),
    /// An inbound frame was not valid structured data.
    DecodeError,
}

impl HelperError {
    /// The text a log line carries for this error.
    pub fn message(&self) -> (r: String)
        ensures
            r@ == self.message_spec(),
    {
        proof {
            reveal_strlit("Failed to find LCU process");
            reveal_strlit("Failed to load LCU start commands");
            reveal_strlit("Request failed: ");
            reveal_strlit("Response error: ");
            reveal_strlit("Failed to decode event frame");
        }
        match self {
            HelperError::ClientNotFound => String::from_str("Failed to find LCU process"),
            HelperError::ClientCMDLineFailed => String::from_str(
                "Failed to load LCU start commands",
            ),
            HelperError::RequestFailed(t) => {
                let mut s = String::from_str("Request failed: ");
                s.append(t.as_str());
                proof {
                    assert(s@ =~= self.message_spec());
                }
                s
            },
            HelperError::ResponseError(t) => {
                let mut s = String::from_str("Response error: ");
                s.append(t.as_str());
                proof {
                    assert(s@ =~= self.message_spec());
                }
                s
            },
            HelperError::DecodeError => String::from_str("Failed to decode event frame"),
        }
    }

    pub open spec fn message_spec(&self) -> Seq<char> {
        match self {
            HelperError::ClientNotFound => "Failed to find LCU process"@,
            HelperError::ClientCMDLineFailed => "Failed to load LCU start commands"@,
            HelperError::RequestFailed(t) => "Request failed: "@ + t@,
            HelperError::ResponseError(t) => "Response error: "@ + t@,
            HelperError::DecodeError => "Failed to decode event frame"@,
        }
    }
}

} // verus!
