use vstd::prelude::*;
use crate::address::Pubkey;
use crate::errors::CalendarFiError;
use crate::instructions::create_scheduled_payment;
use crate::instructions::create_scheduled_payment::CreateScheduledPayment;
use crate::instructions::execute_scheduled_payment::{spec_execute, spec_settle, Transfer};
use crate::instructions::update_event_status;
use crate::instructions::verify_token_ownership::VerifyTokenOwnership;
use crate::spec_verify_token_ownership;
use crate::state::calendar_event::{code_units, CalendarEvent, CalendarEventView};

verus! {

/// An execution is refused by the first guard that fails, in this order:
/// the caller is not the owner, the event was executed, its time has not
/// come, the funding party cannot pay. Where none fails, the event's amount
/// is ordered from the funding party to the recipient.
pub proof fn lemma_execute_guard_order(
    event: CalendarEventView,
    payer: Pubkey,
    payer_lamports: u64,
    recipient: Pubkey,
    now: i64,
)
    ensures
        spec_execute(event, payer, payer_lamports, recipient, now) == (if event.owner != payer {
            Err::<Transfer, CalendarFiError>(CalendarFiError::UnauthorizedAccess)
        } else if event.is_executed {
            Err(CalendarFiError::EventAlreadyExecuted)
        } else if now < event.scheduled_time {
            Err(CalendarFiError::InvalidScheduledTime)
        } else if payer_lamports < event.amount {
            Err(CalendarFiError::InsufficientSolBalance)
        } else {
            Ok(Transfer { from: payer, to: recipient, lamports: event.amount })
        }),
{
}

/// An event executes at most once: after an execution whose transfer
/// succeeded, every further execution is refused, and the owner's with
/// `EventAlreadyExecuted`, whatever the time and the funds.
pub proof fn lemma_execute_at_most_once(
    event: CalendarEventView,
    payer: Pubkey,
    payer_lamports: u64,
    recipient: Pubkey,
    now: i64,
    next_caller: Pubkey,
    next_lamports: u64,
    next_recipient: Pubkey,
    next_now: i64,
)
    requires
        spec_execute(event, payer, payer_lamports, recipient, now) is Ok,
    ensures
        spec_execute(spec_settle(event, true), next_caller, next_lamports, next_recipient, next_now) is Err,
        next_caller == payer ==> spec_execute(
            spec_settle(event, true),
            next_caller,
            next_lamports,
            next_recipient,
            next_now,
        ) == Err::<Transfer, CalendarFiError>(CalendarFiError::EventAlreadyExecuted),
{
}

/// One call on an event by whoever chooses to make it: an execution, with
/// the funds at hand, the recipient, the time, and whether the transfer,
/// if one is ordered, goes through; a status override; or the attaching of
/// an eligibility rule.
pub enum Call {
    Execute { payer: Pubkey, payer_lamports: u64, recipient: Pubkey, now: i64, transfer_succeeds: bool },
    Override { caller: Pubkey, is_executed: bool },
    ConfigureGate { required_token_mint: Pubkey },
}

impl Call {
    /// The call moves funds: it is an execution that passes every guard and
    /// whose transfer goes through.
    pub open spec fn pays(self, event: CalendarEventView) -> bool {
        match self {
            Call::Execute { payer, payer_lamports, recipient, now, transfer_succeeds } => {
                spec_execute(event, payer, payer_lamports, recipient, now) is Ok && transfer_succeeds
            },
            _ => false,
        }
    }

    /// The event as the call leaves it.
    pub open spec fn leaves(self, event: CalendarEventView) -> CalendarEventView {
        match self {
            Call::Execute { payer, payer_lamports, recipient, now, transfer_succeeds } => {
                if spec_execute(event, payer, payer_lamports, recipient, now) is Ok {
                    spec_settle(event, transfer_succeeds)
                } else {
                    event
                }
            },
            Call::Override { caller, is_executed } => {
                if update_event_status::spec_constraints(event, caller) is Ok {
                    match update_event_status::spec_handler(event, is_executed) {
                        Ok(after) => after,
                        Err(_) => event,
                    }
                } else {
                    event
                }
            },
            Call::ConfigureGate { required_token_mint } => CalendarEventView {
                token_mint: Some(required_token_mint),
                ..event
            },
        }
    }
}

/// What no call changes: who owns the event, what it pays to whom and when,
/// when it was created and where it is kept, and its texts.
pub open spec fn same_schedule(event: CalendarEventView, after: CalendarEventView) -> bool {
    &&& after.owner == event.owner
    &&& after.title == event.title
    &&& after.description == event.description
    &&& after.scheduled_time == event.scheduled_time
    &&& after.amount == event.amount
    &&& after.recipient == event.recipient
    &&& after.created_at == event.created_at
    &&& after.bump == event.bump
}

/// How many of `calls`, made one after the other on `event`, move funds.
pub open spec fn payments_made(event: CalendarEventView, calls: Seq<Call>) -> nat
    decreases calls.len(),
{
    if calls.len() == 0 {
        0
    } else {
        let paid: nat = if calls[0].pays(event) {
            1
        } else {
            0
        };
        paid + payments_made(calls[0].leaves(event), calls.drop_first())
    }
}

/// The event after all of `calls`, made one after the other.
pub open spec fn event_after(event: CalendarEventView, calls: Seq<Call>) -> CalendarEventView
    decreases calls.len(),
{
    if calls.len() == 0 {
        event
    } else {
        event_after(calls[0].leaves(event), calls.drop_first())
    }
}

/// No single call reopens an executed event, and none changes the event's
/// schedule.
pub proof fn lemma_call_keeps_executed(event: CalendarEventView, call: Call)
    ensures
        event.is_executed ==> call.leaves(event).is_executed,
        call.pays(event) ==> !event.is_executed && call.leaves(event).is_executed,
        same_schedule(event, call.leaves(event)),
{
}

/// Whoever calls, whatever they call, however often and in whatever order:
/// the execution flag never goes back from true to false, an event pays at
/// most once, an executed event never pays, an event that has paid is
/// executed, and the schedule of the event stays as it was created.
pub proof fn lemma_executed_is_final(event: CalendarEventView, calls: Seq<Call>)
    ensures
        event.is_executed ==> event_after(event, calls).is_executed,
        payments_made(event, calls) <= 1,
        event.is_executed ==> payments_made(event, calls) == 0,
        payments_made(event, calls) == 1 ==> event_after(event, calls).is_executed,
        same_schedule(event, event_after(event, calls)),
    decreases calls.len(),
{
    if calls.len() > 0 {
        lemma_call_keeps_executed(event, calls[0]);
        lemma_executed_is_final(calls[0].leaves(event), calls.drop_first());
    }
}

/// The flag is monotone along every run: if the event is executed after
/// some of the calls, it is executed after all of them.
pub proof fn lemma_flag_is_monotone(event: CalendarEventView, first: Seq<Call>, then: Seq<Call>)
    ensures
        event_after(event, first + then) == event_after(event_after(event, first), then),
        event_after(event, first).is_executed ==> event_after(event, first + then).is_executed,
    decreases first.len(),
{
    if first.len() == 0 {
        assert(first + then =~= then);
    } else {
        assert((first + then).drop_first() =~= first.drop_first() + then);
        lemma_flag_is_monotone(first[0].leaves(event), first.drop_first(), then);
    }
    lemma_executed_is_final(event_after(event, first), then);
}

/// A transfer that failed leaves the event as it was, so the execution may
/// be tried again.
pub proof fn lemma_failed_transfer_changes_nothing(event: CalendarEventView)
    ensures
        spec_settle(event, false) == event,
{
}

/// Settling never reopens an executed event, and changes nothing of an
/// event but its execution flag.
pub proof fn lemma_settle_is_monotone(event: CalendarEventView, transfer_succeeded: bool)
    ensures
        event.is_executed ==> spec_settle(event, transfer_succeeded).is_executed,
        transfer_succeeded ==> spec_settle(event, transfer_succeeded).is_executed,
        spec_settle(event, transfer_succeeded).same_terms(event),
{
}

/// A status override is refused exactly on an executed event, which so
/// stays executed. On an open event it sets the flag as asked and changes
/// nothing else.
pub proof fn lemma_override_never_reopens(event: CalendarEventView, is_executed: bool)
    ensures
        update_event_status::spec_handler(event, is_executed) is Err <==> event.is_executed,
        event.is_executed ==> update_event_status::spec_handler(event, is_executed) == Err::<
            CalendarEventView,
            CalendarFiError,
        >(CalendarFiError::EventAlreadyExecuted),
        update_event_status::spec_handler(event, is_executed) matches Ok(after) ==> after.same_terms(event)
            && after.is_executed == is_executed && !event.is_executed,
{
}

/// A scheduled time that is not in the future is always refused, and with
/// `InvalidScheduledTime` wherever both texts fit.
pub proof fn lemma_past_schedule_is_refused(
    ctx: CreateScheduledPayment,
    now: i64,
    title: Seq<char>,
    description: Seq<char>,
    scheduled_time: i64,
    amount: u64,
)
    requires
        scheduled_time <= now,
    ensures
        create_scheduled_payment::spec_handler(ctx, now, title, description, scheduled_time, amount) is Err,
        code_units(title) <= CalendarEvent::MAX_TITLE_LENGTH && code_units(description)
            <= CalendarEvent::MAX_DESCRIPTION_LENGTH ==> create_scheduled_payment::spec_handler(
            ctx,
            now,
            title,
            description,
            scheduled_time,
            amount,
        ) == Err::<CalendarEventView, CalendarFiError>(CalendarFiError::InvalidScheduledTime),
{
}

/// An event scheduled one tick after its creation is accepted, and once the
/// clock has advanced its owner executes it, given the funds: the
/// event's amount is ordered from the owner to the recipient.
pub proof fn lemma_next_tick_event_executes(
    ctx: CreateScheduledPayment,
    now: i64,
    title: Seq<char>,
    description: Seq<char>,
    amount: u64,
    later: i64,
    payer_lamports: u64,
    recipient: Pubkey,
)
    requires
        code_units(title) <= CalendarEvent::MAX_TITLE_LENGTH,
        code_units(description) <= CalendarEvent::MAX_DESCRIPTION_LENGTH,
        now < later,
        payer_lamports >= amount,
    ensures
        create_scheduled_payment::spec_handler(ctx, now, title, description, (now + 1) as i64, amount)
            matches Ok(event) && event.wf() && spec_execute(
            event,
            ctx.payer,
            payer_lamports,
            recipient,
            later,
        ) == Ok::<Transfer, CalendarFiError>(Transfer { from: ctx.payer, to: recipient, lamports: amount }),
{
}

/// Before its scheduled time no event executes, and the owner of an open
/// event is told `InvalidScheduledTime`.
pub proof fn lemma_early_execution_is_refused(
    event: CalendarEventView,
    payer: Pubkey,
    payer_lamports: u64,
    recipient: Pubkey,
    now: i64,
)
    requires
        now < event.scheduled_time,
    ensures
        spec_execute(event, payer, payer_lamports, recipient, now) is Err,
        event.owner == payer && !event.is_executed ==> spec_execute(
            event,
            payer,
            payer_lamports,
            recipient,
            now,
        ) == Err::<Transfer, CalendarFiError>(CalendarFiError::InvalidScheduledTime),
{
}

/// Whoever is not the owner is refused with `UnauthorizedAccess`, whatever
/// the state of the event, the time and the funds.
pub proof fn lemma_stranger_is_refused(
    event: CalendarEventView,
    payer: Pubkey,
    payer_lamports: u64,
    recipient: Pubkey,
    now: i64,
)
    requires
        event.owner != payer,
    ensures
        spec_execute(event, payer, payer_lamports, recipient, now) == Err::<Transfer, CalendarFiError>(
            CalendarFiError::UnauthorizedAccess,
        ),
{
}

/// The eligibility threshold is inclusive: a holder's own holding of the
/// required asset passes exactly where its balance is at least the minimum.
pub proof fn lemma_eligibility_threshold(ctx: VerifyTokenOwnership)
    requires
        ctx.token_account.owner == ctx.user,
        ctx.token_account.mint == ctx.token_gate_config.required_token_mint,
    ensures
        ctx.token_account.amount >= ctx.token_gate_config.minimum_balance ==> spec_verify_token_ownership(
            ctx,
        ) == Ok::<bool, CalendarFiError>(true),
        ctx.token_account.amount < ctx.token_gate_config.minimum_balance ==> spec_verify_token_ownership(
            ctx,
        ) == Err::<bool, CalendarFiError>(CalendarFiError::InsufficientTokenBalance),
{
}

} // verus!
