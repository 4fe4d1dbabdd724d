use vstd::prelude::*;

verus! {

/// Why an operation on a calendar event or its token gate was refused.
#[derive(Clone, Copy, Debug, PartialEq, Eq, Structural)]
pub enum CalendarFiError {
    InvalidScheduledTime,
    EventNotFound,
    UnauthorizedAccess,
    InsufficientTokenBalance,
    TokenVerificationFailed,
    EventAlreadyExecuted,
    InvalidRecipient,
    InsufficientSolBalance,
    InvalidTokenMint,
    StringTooLong,
}

impl CalendarFiError {
    /// The text shown to a caller for each refusal.
    pub open spec fn spec_message(self) -> Seq<char> {
        match self {
            CalendarFiError::InvalidScheduledTime => "Invalid scheduled time"@,
            CalendarFiError::EventNotFound => "Event not found"@,
            CalendarFiError::UnauthorizedAccess => "Unauthorized access"@,
            CalendarFiError::InsufficientTokenBalance => "Insufficient token balance"@,
            CalendarFiError::TokenVerificationFailed => "Token verification failed"@,
            CalendarFiError::EventAlreadyExecuted => "Event already executed"@,
            CalendarFiError::InvalidRecipient => "Invalid recipient"@,
            CalendarFiError::InsufficientSolBalance => "Insufficient SOL balance"@,
            CalendarFiError::InvalidTokenMint => "Invalid token mint"@,
            CalendarFiError::StringTooLong => "String too long"@,
        }
    }

    pub fn message(&self) -> (text: &'static str)
        ensures
            text@ == self.spec_message(),
    {
        match self {
            CalendarFiError::InvalidScheduledTime => "Invalid scheduled time",
            CalendarFiError::EventNotFound => "Event not found",
            CalendarFiError::UnauthorizedAccess => "Unauthorized access",
            CalendarFiError::InsufficientTokenBalance => "Insufficient token balance",
            CalendarFiError::TokenVerificationFailed => "Token verification failed",
            CalendarFiError::EventAlreadyExecuted => "Event already executed",
            CalendarFiError::InvalidRecipient => "Invalid recipient",
            CalendarFiError::InsufficientSolBalance => "Insufficient SOL balance",
            CalendarFiError::InvalidTokenMint => "Invalid token mint",
            CalendarFiError::StringTooLong => "String too long",
        }
    }
}

} // verus!
