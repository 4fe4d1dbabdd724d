use vstd::prelude::*;
use crate::address::Pubkey;
use crate::errors::CalendarFiError;
use crate::state::calendar_event::{CalendarEvent, CalendarEventView};

verus! {

/// Who funds the payment and how much they hold, the event to execute, and
/// who is to receive the funds.
#[derive(Clone, Debug)]
pub struct ExecuteScheduledPayment {
    pub payer: Pubkey,
    pub payer_lamports: u64,
    pub calendar_event: CalendarEvent,
    pub recipient: Pubkey,
}

/// An order to move `lamports` from one party to another.
#[derive(Clone, Copy, Debug)]
pub struct Transfer {
    pub from: Pubkey,
    pub to: Pubkey,
    pub lamports: u64,
}

/// Why an execution did not go through: a guard refused it, or the ordered
/// transfer failed.
#[derive(Clone, Copy, Debug, PartialEq, Eq, Structural)]
pub enum ExecuteError {
    Refused(CalendarFiError),
    TransferFailed,
}

/// What is settled before the operation's body runs: the funding party owns
/// the event, and the event has not been executed.
pub open spec fn spec_constraints(event: CalendarEventView, payer: Pubkey) -> Result<(), CalendarFiError> {
    if event.owner != payer {
        Err(CalendarFiError::UnauthorizedAccess)
    } else if event.is_executed {
        Err(CalendarFiError::EventAlreadyExecuted)
    } else {
        Ok(())
    }
}

/// The operation's body: the event is still open, its time has come, and
/// the funding party can pay. Only then is a transfer ordered. The flag is
/// tested here once more, and first, for callers that come here without
/// the constraints.
pub open spec fn spec_handler(
    event: CalendarEventView,
    payer: Pubkey,
    payer_lamports: u64,
    recipient: Pubkey,
    now: i64,
) -> Result<Transfer, CalendarFiError> {
    if event.is_executed {
        Err(CalendarFiError::EventAlreadyExecuted)
    } else if now < event.scheduled_time {
        Err(CalendarFiError::InvalidScheduledTime)
    } else if payer_lamports < event.amount {
        Err(CalendarFiError::InsufficientSolBalance)
    } else {
        Ok(Transfer { from: payer, to: recipient, lamports: event.amount })
    }
}

/// The guards in the order in which they refuse: authorization, the
/// already-executed guard, the time guard, funding.
pub open spec fn spec_execute(
    event: CalendarEventView,
    payer: Pubkey,
    payer_lamports: u64,
    recipient: Pubkey,
    now: i64,
) -> Result<Transfer, CalendarFiError> {
    match spec_constraints(event, payer) {
        Err(error) => Err(error),
        Ok(_) => spec_handler(event, payer, payer_lamports, recipient, now),
    }
}

/// The event once the ordered transfer has come back: executed if it
/// succeeded, as it was if it failed.
pub open spec fn spec_settle(event: CalendarEventView, transfer_succeeded: bool) -> CalendarEventView {
    event.with_executed(event.is_executed || transfer_succeeded)
}

impl ExecuteScheduledPayment {
    pub fn constraints(&self) -> (checked: Result<(), CalendarFiError>)
        ensures
            checked == spec_constraints(self.calendar_event@, self.payer),
    {
        if !(self.calendar_event.owner == self.payer) {
            return Err(CalendarFiError::UnauthorizedAccess);
        }
        if self.calendar_event.is_executed {
            return Err(CalendarFiError::EventAlreadyExecuted);
        }
        Ok(())
    }
}

/// Decides whether the payment may fire at time `now`, and if so, which
/// transfer is to be made. The event itself is left as it is: it is
/// finalized by `settle`, once the transfer has been made.
pub fn handler(ctx: &ExecuteScheduledPayment, now: i64) -> (order: Result<Transfer, CalendarFiError>)
    ensures
        order == spec_handler(ctx.calendar_event@, ctx.payer, ctx.payer_lamports, ctx.recipient, now),
{
    let calendar_event = &ctx.calendar_event;
    if calendar_event.is_executed {
        return Err(CalendarFiError::EventAlreadyExecuted);
    }
    if !(now >= calendar_event.scheduled_time) {
        return Err(CalendarFiError::InvalidScheduledTime);
    }
    if !(ctx.payer_lamports >= calendar_event.amount) {
        return Err(CalendarFiError::InsufficientSolBalance);
    }
    Ok(Transfer { from: ctx.payer, to: ctx.recipient, lamports: calendar_event.amount })
}

/// Finalizes the event after the ordered transfer: a transfer that succeeded
/// marks the event executed for good, one that failed leaves it untouched.
pub fn settle(ctx: &mut ExecuteScheduledPayment, transfer_succeeded: bool)
    ensures
        final(ctx).calendar_event@ == spec_settle(old(ctx).calendar_event@, transfer_succeeded),
        final(ctx).payer == old(ctx).payer,
        final(ctx).payer_lamports == old(ctx).payer_lamports,
        final(ctx).recipient == old(ctx).recipient,
{
    if transfer_succeeded {
        ctx.calendar_event.is_executed = true;
    }
}

} // verus!
