use vstd::prelude::*;
use crate::address::{
    calendar_event_address, calendar_event_seeds, program_address, token_gate_address,
    token_gate_seeds, EventKind, Pubkey,
};
use crate::errors::CalendarFiError;
use crate::state::calendar_event::{code_units, CalendarEvent, CalendarEventView};
use crate::state::token_gate_config::TokenGateConfig;

verus! {

/// Who registers a gated event, and the addresses at which the event and
/// its rule will be kept, each with its bump seed.
#[derive(Clone, Copy, Debug)]
pub struct CreateTokenGatedEvent {
    pub payer: Pubkey,
    pub calendar_event_key: Pubkey,
    pub calendar_event_bump: u8,
    pub token_gate_config_key: Pubkey,
    pub token_gate_config_bump: u8,
}

impl CreateTokenGatedEvent {
    /// The addresses held here are those of the payer's gated event under
    /// `program_id` and of the rule that belongs to the event.
    pub open spec fn located(self, program_id: Pubkey) -> bool {
        &&& program_address(calendar_event_seeds(self.payer@, EventKind::Gated), program_id@)
            == Some((self.calendar_event_key@, self.calendar_event_bump))
        &&& program_address(token_gate_seeds(self.calendar_event_key@), program_id@) == Some(
            (self.token_gate_config_key@, self.token_gate_config_bump),
        )
    }

    /// Finds where the gated event of `payer` and its rule are to be kept.
    /// `None` where the derivation yields no address for one of them.
    pub fn locate(payer: Pubkey, program_id: &Pubkey) -> (found: Option<CreateTokenGatedEvent>)
        ensures
            found matches Some(ctx) ==> ctx.payer == payer && ctx.located(*program_id),
            found is None <==> match program_address(
                calendar_event_seeds(payer@, EventKind::Gated),
                program_id@,
            ) {
                Some((key, _)) => program_address(token_gate_seeds(key), program_id@) is None,
                None => true,
            },
    {
        match calendar_event_address(&payer, EventKind::Gated, program_id) {
            Some((calendar_event_key, calendar_event_bump)) => {
                match token_gate_address(&calendar_event_key, program_id) {
                    Some((token_gate_config_key, token_gate_config_bump)) => Some(
                        CreateTokenGatedEvent {
                            payer,
                            calendar_event_key,
                            calendar_event_bump,
                            token_gate_config_key,
                            token_gate_config_bump,
                        },
                    ),
                    None => None,
                }
            },
            None => None,
        }
    }
}

/// The ungated event that a gated registration starts from: it schedules
/// nothing and pays nothing.
pub open spec fn blank_event(
    ctx: CreateTokenGatedEvent,
    now: i64,
    title: Seq<char>,
    description: Seq<char>,
) -> CalendarEventView {
    CalendarEventView {
        owner: ctx.payer,
        title,
        description,
        scheduled_time: 0,
        amount: 0,
        recipient: ctx.payer,
        token_mint: None,
        is_executed: false,
        created_at: now,
        bump: ctx.calendar_event_bump,
    }
}

/// The rule that `configure_gate` records for the event kept at `event_key`.
pub open spec fn spec_gate(
    event_key: Pubkey,
    required_token_mint: Pubkey,
    minimum_balance: u64,
    now: i64,
    bump: u8,
) -> TokenGateConfig {
    TokenGateConfig { event: event_key, required_token_mint, minimum_balance, created_at: now, bump }
}

/// The gated event and its rule, or why the registration is refused.
pub open spec fn spec_handler(
    ctx: CreateTokenGatedEvent,
    now: i64,
    title: Seq<char>,
    description: Seq<char>,
    required_token_mint: Pubkey,
    minimum_balance: u64,
) -> Result<(CalendarEventView, TokenGateConfig), CalendarFiError> {
    if code_units(title) > CalendarEvent::MAX_TITLE_LENGTH {
        Err(CalendarFiError::StringTooLong)
    } else if code_units(description) > CalendarEvent::MAX_DESCRIPTION_LENGTH {
        Err(CalendarFiError::StringTooLong)
    } else {
        Ok(
            (
                CalendarEventView {
                    token_mint: Some(required_token_mint),
                    ..blank_event(ctx, now, title, description)
                },
                spec_gate(
                    ctx.calendar_event_key,
                    required_token_mint,
                    minimum_balance,
                    now,
                    ctx.token_gate_config_bump,
                ),
            ),
        )
    }
}

pub open spec fn created_view(created: Result<(CalendarEvent, TokenGateConfig), CalendarFiError>) -> Result<
    (CalendarEventView, TokenGateConfig),
    CalendarFiError,
> {
    match created {
        Ok((event, gate)) => Ok((event@, gate)),
        Err(error) => Err(error),
    }
}

/// Attaches an eligibility rule to `event`, which is kept at `event_key`:
/// marks the event as gated by `required_token_mint` and returns the rule.
/// Neither the time nor any balance is looked at.
pub fn configure_gate(
    event: &mut CalendarEvent,
    event_key: Pubkey,
    required_token_mint: Pubkey,
    minimum_balance: u64,
    now: i64,
    bump: u8,
) -> (gate: TokenGateConfig)
    ensures
        final(event)@ == (CalendarEventView { token_mint: Some(required_token_mint), ..old(event)@ }),
        gate == spec_gate(event_key, required_token_mint, minimum_balance, now, bump),
{
    event.token_mint = Some(required_token_mint);
    TokenGateConfig { event: event_key, required_token_mint, minimum_balance, created_at: now, bump }
}

/// Registers an event that only holders of `minimum_balance` of
/// `required_token_mint` are eligible for, together with its rule.
pub fn handler(
    ctx: &CreateTokenGatedEvent,
    now: i64,
    title: String,
    description: String,
    required_token_mint: Pubkey,
    minimum_balance: u64,
) -> (created: Result<(CalendarEvent, TokenGateConfig), CalendarFiError>)
    ensures
        created_view(created) == spec_handler(
            *ctx,
            now,
            title@,
            description@,
            required_token_mint,
            minimum_balance,
        ),
        created is Ok ==> created->Ok_0.0.wf(),
{
    if !CalendarEvent::title_fits(&title) {
        return Err(CalendarFiError::StringTooLong);
    }
    if !CalendarEvent::description_fits(&description) {
        return Err(CalendarFiError::StringTooLong);
    }
    let mut event = CalendarEvent {
        owner: ctx.payer,
        title,
        description,
        scheduled_time: 0,
        amount: 0,
        recipient: ctx.payer,
        token_mint: None,
        is_executed: false,
        created_at: now,
        bump: ctx.calendar_event_bump,
    };
    let gate = configure_gate(
        &mut event,
        ctx.calendar_event_key,
        required_token_mint,
        minimum_balance,
        now,
        ctx.token_gate_config_bump,
    );
    Ok((event, gate))
}

} // verus!
