//! Readers of statements.

pub mod activity;
pub mod trade_confirmation;

pub use activity::parse_activity_flex;
pub use trade_confirmation::parse_trade_confirmation;
