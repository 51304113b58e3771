pub mod contract;
pub mod error;
pub mod helpers;
pub mod msg;
pub mod state;
pub mod wire;

pub use crate::error::ContractError;
