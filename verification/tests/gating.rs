use calendarfi::address::Pubkey;
use calendarfi::errors::CalendarFiError;
use calendarfi::instructions::create_token_gated_event;
use calendarfi::instructions::verify_token_ownership::{self, TokenAccount};
use calendarfi::instructions::{CreateTokenGatedEvent, VerifyTokenOwnership};
use calendarfi::state::TokenGateConfig;

fn key(tag: u8) -> Pubkey {
    Pubkey::new_from_array([tag; 32])
}

fn gated_creation() -> CreateTokenGatedEvent {
    CreateTokenGatedEvent {
        payer: key(1),
        calendar_event_key: key(50),
        calendar_event_bump: 253,
        token_gate_config_key: key(51),
        token_gate_config_bump: 252,
    }
}

fn rule(minimum_balance: u64) -> TokenGateConfig {
    TokenGateConfig {
        event: key(50),
        required_token_mint: key(7),
        minimum_balance,
        created_at: 0,
        bump: 252,
    }
}

fn showing(owner: Pubkey, mint: Pubkey, amount: u64, minimum_balance: u64) -> VerifyTokenOwnership {
    VerifyTokenOwnership {
        user: key(3),
        token_account: TokenAccount { owner, mint, amount },
        token_gate_config: rule(minimum_balance),
    }
}

#[test]
fn gated_event_and_rule_are_created_together() {
    let (event, gate) = calendarfi::create_token_gated_event(
        &gated_creation(),
        777,
        String::from("members only"),
        String::from("holders meet here"),
        key(7),
        25,
    )
    .unwrap();
    assert!(event.owner == key(1));
    assert!(event.recipient == key(1));
    assert_eq!(event.title, "members only");
    assert_eq!(event.description, "holders meet here");
    assert_eq!(event.scheduled_time, 0);
    assert_eq!(event.amount, 0);
    assert!(event.token_mint == Some(key(7)));
    assert!(!event.is_executed);
    assert_eq!(event.created_at, 777);
    assert_eq!(event.bump, 253);
    assert!(gate.event == key(50));
    assert!(gate.required_token_mint == key(7));
    assert_eq!(gate.minimum_balance, 25);
    assert_eq!(gate.created_at, 777);
    assert_eq!(gate.bump, 252);
}

#[test]
fn gated_event_texts_are_bounded() {
    let ctx = gated_creation();
    let r = create_token_gated_event::handler(&ctx, 0, "a".repeat(101), String::new(), key(7), 1);
    assert_eq!(r.err(), Some(CalendarFiError::StringTooLong));
    let r = create_token_gated_event::handler(&ctx, 0, String::new(), "a".repeat(501), key(7), 1);
    assert_eq!(r.err(), Some(CalendarFiError::StringTooLong));
    let r = create_token_gated_event::handler(&ctx, 0, "a".repeat(100), "a".repeat(500), key(7), 1);
    assert!(r.is_ok());
}

#[test]
fn configuring_a_gate_marks_the_event() {
    let creation = calendarfi::instructions::CreateScheduledPayment {
        payer: key(1),
        calendar_event_key: key(60),
        bump: 255,
    };
    let mut event = calendarfi::create_scheduled_payment(
        &creation,
        5,
        String::from("t"),
        String::from("d"),
        6,
        40,
    )
    .unwrap();
    let gate = create_token_gated_event::configure_gate(&mut event, key(60), key(8), 12, 5, 250);
    assert!(event.token_mint == Some(key(8)));
    assert_eq!(event.amount, 40);
    assert_eq!(event.scheduled_time, 6);
    assert!(!event.is_executed);
    assert!(gate.event == key(60));
    assert!(gate.required_token_mint == key(8));
    assert_eq!(gate.minimum_balance, 12);
    assert_eq!(gate.created_at, 5);
    assert_eq!(gate.bump, 250);
}

#[test]
fn eligibility_threshold_is_inclusive() {
    let at = showing(key(3), key(7), 100, 100);
    assert_eq!(calendarfi::verify_token_ownership(&at), Ok(true));
    let below = showing(key(3), key(7), 99, 100);
    assert_eq!(
        calendarfi::verify_token_ownership(&below),
        Err(CalendarFiError::InsufficientTokenBalance)
    );
    let above = showing(key(3), key(7), u64::MAX, 100);
    assert_eq!(calendarfi::verify_token_ownership(&above), Ok(true));
    let none_needed = showing(key(3), key(7), 0, 0);
    assert_eq!(calendarfi::verify_token_ownership(&none_needed), Ok(true));
}

#[test]
fn holding_of_another_owner_or_asset_fails_fast() {
    let not_mine = showing(key(4), key(7), 1_000, 100);
    assert_eq!(not_mine.constraints(), Err(CalendarFiError::TokenVerificationFailed));
    assert_eq!(
        calendarfi::verify_token_ownership(&not_mine),
        Err(CalendarFiError::TokenVerificationFailed)
    );
    let other_asset = showing(key(3), key(8), 1_000, 100);
    assert_eq!(
        calendarfi::verify_token_ownership(&other_asset),
        Err(CalendarFiError::TokenVerificationFailed)
    );
    let both_wrong_and_poor = showing(key(4), key(8), 0, 100);
    assert_eq!(
        calendarfi::verify_token_ownership(&both_wrong_and_poor),
        Err(CalendarFiError::TokenVerificationFailed)
    );
}

#[test]
fn balance_comparison_alone() {
    let ctx = showing(key(4), key(8), 5, 5);
    assert_eq!(verify_token_ownership::handler(&ctx), Ok(true));
    let ctx = showing(key(3), key(7), 4, 5);
    assert_eq!(
        verify_token_ownership::handler(&ctx),
        Err(CalendarFiError::InsufficientTokenBalance)
    );
}
