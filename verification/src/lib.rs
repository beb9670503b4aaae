pub mod anchor;
mod bignumber;
pub mod contract;
pub mod decimal;
pub mod error;
pub mod host;
pub mod msg;
pub mod querier;
pub mod state;

pub use crate::error::ContractError;
