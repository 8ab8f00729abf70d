use vstd::prelude::*;

verus! {

/// Why an instruction was refused. A refused instruction changes nothing.
#[derive(Clone, Copy, Debug, PartialEq, Eq)]
pub enum ErrorCode {
    /// The vote type was neither 0 (DOWN) nor 1 (UP).
    InvalidVoteType,
    /// The coin's stats account exists already.
    AlreadyInitialized,
    /// The runtime did not hand out its clock.
    ClockUnavailable,
}

impl ErrorCode {
    /// The text of `self.message()`.
    pub open spec fn message_text(self) -> Seq<char> {
        match self {
            ErrorCode::InvalidVoteType => "Invalid vote type. Must be 0 (DOWN) or 1 (UP)"@,
            ErrorCode::AlreadyInitialized => "Stats account is already initialized"@,
            ErrorCode::ClockUnavailable => "The clock sysvar is not available"@,
        }
    }

    /// A sentence for the caller.
    pub fn message(&self) -> (text: &'static str)
        ensures
            text@ == self.message_text(),
    {
        match self {
            ErrorCode::InvalidVoteType => "Invalid vote type. Must be 0 (DOWN) or 1 (UP)",
            ErrorCode::AlreadyInitialized => "Stats account is already initialized",
            ErrorCode::ClockUnavailable => "The clock sysvar is not available",
        }
    }
}

} // verus!
