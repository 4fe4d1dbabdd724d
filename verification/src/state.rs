pub mod calendar_event;
pub mod token_gate_config;

pub use calendar_event::CalendarEvent;
pub use token_gate_config::TokenGateConfig;
