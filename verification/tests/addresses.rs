use calendarfi::address::{
    calendar_event_address, payment_address, token_gate_address, EventKind, Pubkey,
};
use calendarfi::instructions::{CreateScheduledPayment, CreateTokenGatedEvent};
use calendarfi::scheduled_payment::InitializePayment;

fn key(tag: u8) -> Pubkey {
    Pubkey::new_from_array([tag; 32])
}

fn outside(key: &Pubkey) -> anchor_lang::prelude::Pubkey {
    anchor_lang::prelude::Pubkey::new_from_array(key.to_bytes())
}

#[test]
fn keys_compare_by_their_bytes() {
    assert!(key(1) == key(1));
    assert!(key(1) != key(2));
    let mut bytes = [1u8; 32];
    bytes[31] = 2;
    assert!(Pubkey::new_from_array(bytes) != key(1));
    assert_eq!(key(4).to_bytes(), [4u8; 32]);
}

#[test]
fn kinds_have_their_discriminators() {
    assert_eq!(EventKind::Simple.discriminator(), 0);
    assert_eq!(EventKind::Gated.discriminator(), 1);
}

#[test]
fn calendar_event_address_is_the_derived_one() {
    let owner = key(1);
    let program = key(42);
    let (expected, bump) = anchor_lang::prelude::Pubkey::find_program_address(
        &[b"calendar_event", &owner.to_bytes(), &[0]],
        &outside(&program),
    );
    let (found, found_bump) = calendar_event_address(&owner, EventKind::Simple, &program).unwrap();
    assert_eq!(found.to_bytes(), expected.to_bytes());
    assert_eq!(found_bump, bump);
    assert!(found != owner);
    assert!(found != program);
}

#[test]
fn gated_event_address_is_the_derived_one() {
    let owner = key(1);
    let program = key(42);
    let (expected, bump) = anchor_lang::prelude::Pubkey::find_program_address(
        &[b"calendar_event", &owner.to_bytes(), &[1]],
        &outside(&program),
    );
    let (found, found_bump) = calendar_event_address(&owner, EventKind::Gated, &program).unwrap();
    assert_eq!(found.to_bytes(), expected.to_bytes());
    assert_eq!(found_bump, bump);
}

#[test]
fn one_owner_holds_one_event_of_each_kind() {
    let owner = key(1);
    let program = key(42);
    let (simple, _) = calendar_event_address(&owner, EventKind::Simple, &program).unwrap();
    let (gated, _) = calendar_event_address(&owner, EventKind::Gated, &program).unwrap();
    assert!(simple != gated);
    let (simple_again, _) = calendar_event_address(&owner, EventKind::Simple, &program).unwrap();
    assert!(simple == simple_again);
    let (other_owner, _) = calendar_event_address(&key(2), EventKind::Simple, &program).unwrap();
    assert!(simple != other_owner);
}

#[test]
fn token_gate_address_is_the_derived_one() {
    let event = key(9);
    let program = key(42);
    let (expected, bump) = anchor_lang::prelude::Pubkey::find_program_address(
        &[b"token_gate", &event.to_bytes()],
        &outside(&program),
    );
    let (found, found_bump) = token_gate_address(&event, &program).unwrap();
    assert_eq!(found.to_bytes(), expected.to_bytes());
    assert_eq!(found_bump, bump);
}

#[test]
fn payment_address_is_the_derived_one() {
    let payer = key(3);
    let program = Pubkey::new_from_array([0u8; 32]);
    let (expected, bump) = anchor_lang::prelude::Pubkey::find_program_address(
        &[b"payment", &payer.to_bytes()],
        &outside(&program),
    );
    let (found, found_bump) = payment_address(&payer, &program).unwrap();
    assert_eq!(found.to_bytes(), expected.to_bytes());
    assert_eq!(found_bump, bump);
}

#[test]
fn contexts_are_located_at_the_derived_addresses() {
    let payer = key(1);
    let program = key(42);
    let simple = CreateScheduledPayment::locate(payer, &program).unwrap();
    let (address, bump) = calendar_event_address(&payer, EventKind::Simple, &program).unwrap();
    assert!(simple.payer == payer);
    assert!(simple.calendar_event_key == address);
    assert_eq!(simple.bump, bump);

    let gated = CreateTokenGatedEvent::locate(payer, &program).unwrap();
    let (event, event_bump) = calendar_event_address(&payer, EventKind::Gated, &program).unwrap();
    let (gate, gate_bump) = token_gate_address(&event, &program).unwrap();
    assert!(gated.payer == payer);
    assert!(gated.calendar_event_key == event);
    assert_eq!(gated.calendar_event_bump, event_bump);
    assert!(gated.token_gate_config_key == gate);
    assert_eq!(gated.token_gate_config_bump, gate_bump);

    let payment = InitializePayment::locate(payer, &program).unwrap();
    let (address, bump) = payment_address(&payer, &program).unwrap();
    assert!(payment.payment_key == address);
    assert_eq!(payment.bump, bump);
}

#[test]
fn located_event_carries_the_derived_bump() {
    let payer = key(1);
    let program = key(42);
    let ctx = CreateScheduledPayment::locate(payer, &program).unwrap();
    let event = calendarfi::create_scheduled_payment(
        &ctx,
        10,
        String::from("t"),
        String::from("d"),
        11,
        1,
    )
    .unwrap();
    assert_eq!(event.bump, ctx.bump);
    assert!(event.owner == payer);
}
