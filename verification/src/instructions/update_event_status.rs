use vstd::prelude::*;
use crate::address::Pubkey;
use crate::errors::CalendarFiError;
use crate::state::calendar_event::{CalendarEvent, CalendarEventView};

verus! {

/// Who asks for the override, and the event it is asked for.
#[derive(Clone, Debug)]
pub struct UpdateEventStatus {
    pub owner: Pubkey,
    pub calendar_event: CalendarEvent,
}

/// Only the event's owner may override its status.
pub open spec fn spec_constraints(event: CalendarEventView, owner: Pubkey) -> Result<(), CalendarFiError> {
    if event.owner == owner {
        Ok(())
    } else {
        Err(CalendarFiError::UnauthorizedAccess)
    }
}

/// The event after the override. An executed event stays executed whatever
/// is asked: every override of it is refused. An open event may be left
/// open or be marked executed.
pub open spec fn spec_handler(event: CalendarEventView, is_executed: bool) -> Result<
    CalendarEventView,
    CalendarFiError,
> {
    if event.is_executed {
        Err(CalendarFiError::EventAlreadyExecuted)
    } else {
        Ok(event.with_executed(is_executed))
    }
}

impl UpdateEventStatus {
    pub fn constraints(&self) -> (checked: Result<(), CalendarFiError>)
        ensures
            checked == spec_constraints(self.calendar_event@, self.owner),
    {
        if self.calendar_event.owner == self.owner {
            Ok(())
        } else {
            Err(CalendarFiError::UnauthorizedAccess)
        }
    }
}

/// Sets the execution flag of an open event by hand. No funds move, and an
/// executed event is never reopened.
pub fn handler(ctx: &mut UpdateEventStatus, is_executed: bool) -> (updated: Result<(), CalendarFiError>)
    ensures
        final(ctx).owner == old(ctx).owner,
        match spec_handler(old(ctx).calendar_event@, is_executed) {
            Ok(event) => updated is Ok && final(ctx).calendar_event@ == event,
            Err(error) => {
                &&& updated == Err::<(), CalendarFiError>(error)
                &&& final(ctx).calendar_event@ == old(ctx).calendar_event@
            },
        },
{
    if ctx.calendar_event.is_executed {
        return Err(CalendarFiError::EventAlreadyExecuted);
    }
    ctx.calendar_event.is_executed = is_executed;
    Ok(())
}

} // verus!
