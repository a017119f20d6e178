//! The swap desk: direct swaps through the market maker, with the slippage
//! tolerance its administrator has set.

pub mod admin;
pub mod contract;
pub mod events;
pub mod slippage;
pub mod types;
