use vstd::prelude::*;
use crate::errors::CalendarFiError;
use crate::instructions::create_scheduled_payment::CreateScheduledPayment;
use crate::instructions::create_token_gated_event::CreateTokenGatedEvent;
use crate::instructions::execute_scheduled_payment::{
    spec_execute, spec_settle, ExecuteError, ExecuteScheduledPayment, Transfer,
};
use crate::instructions::update_event_status::UpdateEventStatus;
use crate::instructions::verify_token_ownership::VerifyTokenOwnership;
use crate::address::Pubkey;
use crate::state::calendar_event::CalendarEvent;
use crate::state::token_gate_config::TokenGateConfig;

pub mod address;
pub mod errors;
pub mod instructions;
pub mod lifecycle;
pub mod scheduled_payment;
pub mod state;

verus! {

/// Create a new scheduled payment event.
pub fn create_scheduled_payment(
    ctx: &CreateScheduledPayment,
    now: i64,
    title: String,
    description: String,
    scheduled_time: i64,
    amount: u64,
) -> (created: Result<CalendarEvent, CalendarFiError>)
    ensures
        instructions::create_scheduled_payment::created_view(created)
            == instructions::create_scheduled_payment::spec_handler(
            *ctx,
            now,
            title@,
            description@,
            scheduled_time,
            amount,
        ),
        created is Ok ==> created->Ok_0.wf(),
{
    instructions::create_scheduled_payment::handler(ctx, now, title, description, scheduled_time, amount)
}

/// Create a token-gated calendar event.
pub fn create_token_gated_event(
    ctx: &CreateTokenGatedEvent,
    now: i64,
    title: String,
    description: String,
    required_token_mint: Pubkey,
    minimum_balance: u64,
) -> (created: Result<(CalendarEvent, TokenGateConfig), CalendarFiError>)
    ensures
        instructions::create_token_gated_event::created_view(created)
            == instructions::create_token_gated_event::spec_handler(
            *ctx,
            now,
            title@,
            description@,
            required_token_mint,
            minimum_balance,
        ),
        created is Ok ==> created->Ok_0.0.wf(),
{
    instructions::create_token_gated_event::handler(
        ctx,
        now,
        title,
        description,
        required_token_mint,
        minimum_balance,
    )
}

/// What a holder is told: a holding that is not theirs, or of another asset,
/// fails before its balance is looked at.
pub open spec fn spec_verify_token_ownership(ctx: VerifyTokenOwnership) -> Result<bool, CalendarFiError> {
    match ctx.spec_constraints() {
        Err(error) => Err(error),
        Ok(_) => instructions::verify_token_ownership::spec_handler(ctx),
    }
}

/// Verify if user owns required token.
pub fn verify_token_ownership(ctx: &VerifyTokenOwnership) -> (verdict: Result<bool, CalendarFiError>)
    ensures
        verdict == spec_verify_token_ownership(*ctx),
{
    match ctx.constraints() {
        Err(error) => Err(error),
        Ok(_) => instructions::verify_token_ownership::handler(ctx),
    }
}

/// Execute a scheduled payment: check every guard, have `transfer` move the
/// funds, and finalize the event if and only if the funds moved.
pub fn execute_scheduled_payment<F: FnOnce(Transfer) -> bool>(
    ctx: &mut ExecuteScheduledPayment,
    now: i64,
    transfer: F,
) -> (done: Result<(), ExecuteError>)
    requires
        forall|order: Transfer|
            spec_execute(
                old(ctx).calendar_event@,
                old(ctx).payer,
                old(ctx).payer_lamports,
                old(ctx).recipient,
                now,
            ) == Ok::<Transfer, CalendarFiError>(order) ==> call_requires(transfer, (order,)),
    ensures
        final(ctx).payer == old(ctx).payer,
        final(ctx).payer_lamports == old(ctx).payer_lamports,
        final(ctx).recipient == old(ctx).recipient,
        match spec_execute(
            old(ctx).calendar_event@,
            old(ctx).payer,
            old(ctx).payer_lamports,
            old(ctx).recipient,
            now,
        ) {
            Err(error) => {
                &&& done == Err::<(), ExecuteError>(ExecuteError::Refused(error))
                &&& final(ctx).calendar_event@ == old(ctx).calendar_event@
            },
            Ok(order) => exists|succeeded: bool|
                {
                    &&& call_ensures(transfer, (order,), succeeded)
                    &&& final(ctx).calendar_event@ == spec_settle(old(ctx).calendar_event@, succeeded)
                    &&& done == if succeeded {
                        Ok::<(), ExecuteError>(())
                    } else {
                        Err::<(), ExecuteError>(ExecuteError::TransferFailed)
                    }
                },
        },
{
    match ctx.constraints() {
        Err(error) => {
            return Err(ExecuteError::Refused(error));
        },
        Ok(_) => {},
    }
    match instructions::execute_scheduled_payment::handler(ctx, now) {
        Err(error) => Err(ExecuteError::Refused(error)),
        Ok(order) => {
            let succeeded = transfer(order);
            instructions::execute_scheduled_payment::settle(ctx, succeeded);
            if succeeded {
                Ok(())
            } else {
                Err(ExecuteError::TransferFailed)
            }
        },
    }
}

/// What an override yields: only the owner may ask for it.
pub open spec fn spec_update_event_status(ctx: UpdateEventStatus, is_executed: bool) -> Result<
    crate::state::calendar_event::CalendarEventView,
    CalendarFiError,
> {
    match instructions::update_event_status::spec_constraints(ctx.calendar_event@, ctx.owner) {
        Err(error) => Err(error),
        Ok(_) => instructions::update_event_status::spec_handler(ctx.calendar_event@, is_executed),
    }
}

/// Update event status.
pub fn update_event_status(ctx: &mut UpdateEventStatus, is_executed: bool) -> (updated: Result<
    (),
    CalendarFiError,
>)
    ensures
        final(ctx).owner == old(ctx).owner,
        match spec_update_event_status(*old(ctx), is_executed) {
            Ok(event) => updated is Ok && final(ctx).calendar_event@ == event,
            Err(error) => {
                &&& updated == Err::<(), CalendarFiError>(error)
                &&& final(ctx).calendar_event@ == old(ctx).calendar_event@
            },
        },
{
    match ctx.constraints() {
        Err(error) => Err(error),
        Ok(_) => instructions::update_event_status::handler(ctx, is_executed),
    }
}

} // verus!
