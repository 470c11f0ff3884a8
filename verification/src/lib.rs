//! Tax classification of the trading and cash activity of a brokerage
//! account.
//!
//! From the trades, open positions and cash transactions of an account the
//! engine in [`tax`] derives, for one tax year:
//!
//! - the capital gains and losses, short-term and long-term ([`tax::gains`],
//!   with the holding period of each trade from [`tax::holding`]);
//! - the wash sales ([`tax::wash_sale`]);
//! - the open positions whose cost basis a wash sale still restricts
//!   ([`tax::restriction`], over the per-symbol index of
//!   [`tax::activity_index`]);
//! - the totals of dividends, withholding tax and interest
//!   ([`tax::cash_flow`]).
//!
//! [`tax::report`] runs all of it in one call.
//!
//! The records that the engine reads are in [`types`]. A date is a day
//! number ([`date`]) and an amount of money a decimal mantissa with a scale
//! ([`money`]), so that every rule is stated and proved over integers.
//!
//! Five things are computed outside the verified code and taken on trust,
//! each behind one private function whose comment says what is assumed:
//! the day number of a calendar date and of a date in text ([`date`]), the
//! sum and the difference of two decimals ([`money`]), and the uppercase
//! form of a text ([`notes`]).

pub mod date;
pub mod error;
pub mod money;
pub mod notes;
pub mod parsers;
pub mod tax;
pub mod text;
pub mod types;
pub mod version;

pub use error::ParseError;
pub use parsers::{parse_activity_flex, parse_trade_confirmation};
pub use version::{detect_statement_type, detect_version, FlexSchemaVersion, StatementType};
