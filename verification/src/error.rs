//! The error taxonomy of the shell operations, rendered to text only at the
//! boundary.

use vstd::prelude::*;
use crate::decimal::{spec_udigits, push_u64_decimal};

verus! {

/// What can go wrong in a shell operation. Callers see these as plain
/// message strings; the tagged form keeps the categories testable.
#[derive(Debug)]
pub enum OpError {
    /// The request could not be sent (connection, DNS, TLS, malformed URL).
    Transport(String),
    /// The server answered with a status outside the success range.
    Status(u16),
    /// The response body could not be read to the end.
    BodyRead(String),
    /// A file could not be created, written or read.
    Filesystem(String),
    /// The platform's file browser could not be launched.
    Launch(String),
    /// File content that is not valid UTF-8 text.
    NotText,
}

/// The exact message text of each error.
pub open spec fn spec_error_message(e: OpError) -> Seq<char> {
    match e {
        OpError::Transport(m) => "transport error: "@ + m@,
        OpError::Status(c) => "server returned error status "@ + spec_udigits(c as nat),
        OpError::BodyRead(m) => "failed to read response body: "@ + m@,
        OpError::Filesystem(m) => "filesystem error: "@ + m@,
        OpError::Launch(m) => "could not open file browser: "@ + m@,
        OpError::NotText => "file content is not valid UTF-8 text"@,
    }
}

/// A status error's message always embeds the numeric status code: it is
/// the fixed prefix followed exactly by the code's decimal digits.
pub proof fn lemma_status_message_embeds_code(code: u16)
    ensures
        spec_error_message(OpError::Status(code)) == "server returned error status "@
            + spec_udigits(code as nat),
{
}

impl OpError {
    /// The human-readable message handed to the host shell. For a status
    /// error it embeds the numeric status code in decimal.
    pub fn message(&self) -> (r: String)
        ensures
            r@ == spec_error_message(*self),
    {
        match self {
            OpError::Transport(m) => {
                let mut s = "transport error: ".to_owned();
                s.append(m.as_str());
                s
            },
            OpError::Status(c) => {
                let mut s = "server returned error status ".to_owned();
                push_u64_decimal(&mut s, *c as u64);
                s
            },
            OpError::BodyRead(m) => {
                let mut s = "failed to read response body: ".to_owned();
                s.append(m.as_str());
                s
            },
            OpError::Filesystem(m) => {
                let mut s = "filesystem error: ".to_owned();
                s.append(m.as_str());
                s
            },
            OpError::Launch(m) => {
                let mut s = "could not open file browser: ".to_owned();
                s.append(m.as_str());
                s
            },
            OpError::NotText => "file content is not valid UTF-8 text".to_owned(),
        }
    }
}

} // verus!
