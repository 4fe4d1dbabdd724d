use vstd::prelude::*;
use crate::address::{calendar_event_address, calendar_event_seeds, program_address, EventKind, Pubkey};
use crate::errors::CalendarFiError;
use crate::state::calendar_event::{code_units, CalendarEvent, CalendarEventView};

verus! {

/// Who registers a scheduled payment, and the address at which the new
/// event will be kept, with its bump seed.
#[derive(Clone, Copy, Debug)]
pub struct CreateScheduledPayment {
    pub payer: Pubkey,
    pub calendar_event_key: Pubkey,
    pub bump: u8,
}

impl CreateScheduledPayment {
    /// The address of the payer's simple event under `program_id` is the
    /// one held here.
    pub open spec fn located(self, program_id: Pubkey) -> bool {
        program_address(calendar_event_seeds(self.payer@, EventKind::Simple), program_id@) == Some(
            (self.calendar_event_key@, self.bump),
        )
    }

    /// Finds where the simple event of `payer` is to be kept. `None` where
    /// the derivation yields no address.
    pub fn locate(payer: Pubkey, program_id: &Pubkey) -> (found: Option<CreateScheduledPayment>)
        ensures
            match found {
                Some(ctx) => ctx.payer == payer && ctx.located(*program_id),
                None => program_address(calendar_event_seeds(payer@, EventKind::Simple), program_id@)
                    is None,
            },
    {
        match calendar_event_address(&payer, EventKind::Simple, program_id) {
            Some((calendar_event_key, bump)) => Some(
                CreateScheduledPayment { payer, calendar_event_key, bump },
            ),
            None => None,
        }
    }
}

/// The event that a registration at time `now` yields, or why it is refused:
/// first a text that is too long, then a time that is not in the future.
pub open spec fn spec_handler(
    ctx: CreateScheduledPayment,
    now: i64,
    title: Seq<char>,
    description: Seq<char>,
    scheduled_time: i64,
    amount: u64,
) -> Result<CalendarEventView, CalendarFiError> {
    if code_units(title) > CalendarEvent::MAX_TITLE_LENGTH {
        Err(CalendarFiError::StringTooLong)
    } else if code_units(description) > CalendarEvent::MAX_DESCRIPTION_LENGTH {
        Err(CalendarFiError::StringTooLong)
    } else if scheduled_time <= now {
        Err(CalendarFiError::InvalidScheduledTime)
    } else {
        Ok(
            CalendarEventView {
                owner: ctx.payer,
                title,
                description,
                scheduled_time,
                amount,
                recipient: ctx.payer,
                token_mint: None,
                is_executed: false,
                created_at: now,
                bump: ctx.bump,
            },
        )
    }
}

pub open spec fn created_view(created: Result<CalendarEvent, CalendarFiError>) -> Result<
    CalendarEventView,
    CalendarFiError,
> {
    match created {
        Ok(event) => Ok(event@),
        Err(error) => Err(error),
    }
}

/// Registers a payment of `amount` to be released at `scheduled_time`.
/// Nothing is transferred here: the new event only records the intent,
/// with the payer as its owner and, until changed, its recipient.
pub fn handler(
    ctx: &CreateScheduledPayment,
    now: i64,
    title: String,
    description: String,
    scheduled_time: i64,
    amount: u64,
) -> (created: Result<CalendarEvent, CalendarFiError>)
    ensures
        created_view(created) == spec_handler(*ctx, now, title@, description@, scheduled_time, amount),
        created is Ok ==> created->Ok_0.wf(),
{
    if !CalendarEvent::title_fits(&title) {
        return Err(CalendarFiError::StringTooLong);
    }
    if !CalendarEvent::description_fits(&description) {
        return Err(CalendarFiError::StringTooLong);
    }
    if !(scheduled_time > now) {
        return Err(CalendarFiError::InvalidScheduledTime);
    }
    Ok(
        CalendarEvent {
            owner: ctx.payer,
            title,
            description,
            scheduled_time,
            amount,
            recipient: ctx.payer,
            token_mint: None,
            is_executed: false,
            created_at: now,
            bump: ctx.bump,
        },
    )
}

} // verus!
