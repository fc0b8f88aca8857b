//! What can go wrong when a message is posted.

use anchor_lang::prelude::ProgramError;
use vstd::prelude::*;

verus! {

/// The board's own reasons to reject a message.
#[derive(Debug, Clone, Copy, PartialEq, Eq)]
pub enum MessageError {
    /// The content is longer than the record has room for.
    ContentTooLong,
}

impl MessageError {
    /// The text that every [`MessageError::ContentTooLong`] carries.
    pub open spec fn spec_message(self) -> Seq<char> {
        "Content exceeds maximum length"@
    }

    /// The fixed, human-readable message of this error.
    pub fn message(&self) -> (text: String)
        ensures
            text@ == self.spec_message(),
    {
        "Content exceeds maximum length".to_owned()
    }
}

/// Why a post did not go through: the board rejected it, or the runtime failed.
#[derive(Debug, PartialEq, Eq)]
pub enum PostError {
    /// The board rejected the message.
    Message(MessageError),
    /// The runtime could not tell the time; its error is passed on as it came.
    Clock(ProgramError),
}

} // verus!
