//! Records of a brokerage statement.

pub mod activity;
pub mod common;
pub mod trade_confirmation;

pub use activity::{
    ActivityFlexStatement, CashTransaction, CashTransactionsWrapper, Position, PositionsWrapper,
    Trade, TradesWrapper,
};
pub use common::{AssetCategory, BuySell, OpenClose, OrderType, PutCall};
pub use trade_confirmation::TradeConfirmationStatement;
