pub mod clockwork_integration;
pub mod create_scheduled_payment;
pub mod create_token_gated_event;
pub mod execute_scheduled_payment;
pub mod update_event_status;
pub mod verify_token_ownership;

pub use create_scheduled_payment::CreateScheduledPayment;
pub use create_token_gated_event::CreateTokenGatedEvent;
pub use execute_scheduled_payment::ExecuteScheduledPayment;
pub use update_event_status::UpdateEventStatus;
pub use verify_token_ownership::VerifyTokenOwnership;
