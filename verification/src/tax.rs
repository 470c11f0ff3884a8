//! The tax classification engine.

pub mod activity_index;
pub mod cash_flow;
pub mod gains;
pub mod holding;
pub mod period;
pub mod report;
pub mod restriction;
pub mod wash_sale;
