use vstd::prelude::*;
use crate::address::Pubkey;
use crate::state::calendar_event::{CalendarEvent, CalendarEventView};

verus! {

/// Why an automation thread is not set up or taken down.
#[derive(Clone, Copy, Debug, PartialEq, Eq, Structural)]
pub enum ThreadError {
    Unauthorized,
    InvalidArgument,
}

/// Who pays for the thread, and the event that the thread is to execute.
#[derive(Clone, Debug)]
pub struct CreateClockworkThread {
    pub payer: Pubkey,
    pub calendar_event: CalendarEvent,
}

/// Who takes the thread down, and the event that it was to execute.
#[derive(Clone, Debug)]
pub struct CancelClockworkThread {
    pub payer: Pubkey,
    pub calendar_event: CalendarEvent,
}

pub open spec fn spec_create_clockwork_thread(event: CalendarEventView) -> Result<(), ThreadError> {
    if event.is_executed {
        Err(ThreadError::InvalidArgument)
    } else {
        Ok(())
    }
}

pub open spec fn spec_cancel_clockwork_thread(event: CalendarEventView, payer: Pubkey) -> Result<
    (),
    ThreadError,
> {
    if event.owner != payer {
        Err(ThreadError::Unauthorized)
    } else if event.is_executed {
        Err(ThreadError::InvalidArgument)
    } else {
        Ok(())
    }
}

/// A thread that executes an event at its time can be set up for any event
/// that has not been executed.
pub fn create_clockwork_thread(ctx: &CreateClockworkThread) -> (checked: Result<(), ThreadError>)
    ensures
        checked == spec_create_clockwork_thread(ctx.calendar_event@),
{
    if ctx.calendar_event.is_executed {
        return Err(ThreadError::InvalidArgument);
    }
    Ok(())
}

/// Only the owner takes the thread of an event down, and only while the
/// event has not been executed.
pub fn cancel_clockwork_thread(ctx: &CancelClockworkThread) -> (checked: Result<(), ThreadError>)
    ensures
        checked == spec_cancel_clockwork_thread(ctx.calendar_event@, ctx.payer),
{
    if !(ctx.calendar_event.owner == ctx.payer) {
        return Err(ThreadError::Unauthorized);
    }
    if ctx.calendar_event.is_executed {
        return Err(ThreadError::InvalidArgument);
    }
    Ok(())
}

} // verus!
