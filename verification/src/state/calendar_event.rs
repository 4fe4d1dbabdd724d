use vstd::prelude::*;
use vstd::utf8::encode_utf8;
use crate::address::Pubkey;

verus! {

/// How many bytes a text takes when stored.
pub open spec fn code_units(text: Seq<char>) -> nat {
    encode_utf8(text).len()
}

/// One scheduled transfer: who registered it, what it pays, when it may fire
/// and whether it already has.
#[derive(Clone, Debug)]
pub struct CalendarEvent {
    pub owner: Pubkey,
    pub title: String,
    pub description: String,
    pub scheduled_time: i64,
    pub amount: u64,
    pub recipient: Pubkey,
    pub token_mint: Option<Pubkey>,
    pub is_executed: bool,
    pub created_at: i64,
    pub bump: u8,
}

/// A calendar event as a mathematical value.
pub struct CalendarEventView {
    pub owner: Pubkey,
    pub title: Seq<char>,
    pub description: Seq<char>,
    pub scheduled_time: i64,
    pub amount: u64,
    pub recipient: Pubkey,
    pub token_mint: Option<Pubkey>,
    pub is_executed: bool,
    pub created_at: i64,
    pub bump: u8,
}

impl CalendarEventView {
    /// The same event with its execution flag set to `flag`.
    pub open spec fn with_executed(self, flag: bool) -> CalendarEventView {
        CalendarEventView { is_executed: flag, ..self }
    }

    /// Everything that is fixed when the event is created.
    pub open spec fn same_terms(self, other: CalendarEventView) -> bool {
        self.with_executed(false) == other.with_executed(false)
    }

    /// Both texts fit the room a stored event has for them.
    pub open spec fn wf(self) -> bool {
        &&& code_units(self.title) <= CalendarEvent::MAX_TITLE_LENGTH
        &&& code_units(self.description) <= CalendarEvent::MAX_DESCRIPTION_LENGTH
    }
}

impl View for CalendarEvent {
    type V = CalendarEventView;

    open spec fn view(&self) -> CalendarEventView {
        CalendarEventView {
            owner: self.owner,
            title: self.title@,
            description: self.description@,
            scheduled_time: self.scheduled_time,
            amount: self.amount,
            recipient: self.recipient,
            token_mint: self.token_mint,
            is_executed: self.is_executed,
            created_at: self.created_at,
            bump: self.bump,
        }
    }
}

impl CalendarEvent {
    pub const MAX_TITLE_LENGTH: usize = 100;

    pub const MAX_DESCRIPTION_LENGTH: usize = 500;

    /// Bytes of storage for one event: an 8-byte tag, the fixed-size fields,
    /// and each text at its longest behind a 4-byte length.
    pub const SPACE: usize = 8 + 32 + 4 + 100 + 4 + 500 + 8 + 8 + 32 + 1 + 32 + 1 + 8 + 1;

    pub open spec fn wf(&self) -> bool {
        self@.wf()
    }

    /// Whether `title` fits a stored event.
    pub fn title_fits(title: &String) -> (fits: bool)
        ensures
            fits == (code_units(title@) <= CalendarEvent::MAX_TITLE_LENGTH),
    {
        title.as_str().as_bytes().len() <= CalendarEvent::MAX_TITLE_LENGTH
    }

    /// Whether `description` fits a stored event.
    pub fn description_fits(description: &String) -> (fits: bool)
        ensures
            fits == (code_units(description@) <= CalendarEvent::MAX_DESCRIPTION_LENGTH),
    {
        description.as_str().as_bytes().len() <= CalendarEvent::MAX_DESCRIPTION_LENGTH
    }
}

} // verus!
